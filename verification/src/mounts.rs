//! Filesystem mounts of a container: bind mounts, named volumes and tmpfs mounts.
use vstd::prelude::*;
use vstd::string::*;

use crate::text::{parse_i64_range, parse_i64_seq, trim_range, trim_seq};

verus! {

/// Options for configuring tmpfs mounts.
#[derive(Debug, Clone, PartialEq, Eq, Structural)]
pub struct MountTmpfsOptions {
    /// Size of the tmpfs mount in bytes.
    pub size_bytes: Option<i64>,
    /// Permission mode for the tmpfs mount as an integer.
    pub mode: Option<i64>,
}

impl Default for MountTmpfsOptions {
    fn default() -> (r: Self)
        ensures
            r.size_bytes is None,
            r.mode is None,
    {
        MountTmpfsOptions { size_bytes: None, mode: None }
    }
}

/// The kind of a mount.
#[derive(Debug, Copy, Clone, PartialEq, Eq, Structural)]
pub enum MountType {
    Bind,
    Volume,
    Tmpfs,
}

/// Whether a mount may be written to.
#[derive(Debug, Copy, Clone, PartialEq, Eq, Structural)]
pub enum AccessMode {
    ReadOnly,
    ReadWrite,
}

impl MountType {
    /// The name Docker gives this mount type (`bind`, `volume`, `tmpfs`).
    pub fn as_str(&self) -> (r: &'static str)
        ensures
            r@ == (match *self {
                MountType::Bind => "bind"@,
                MountType::Volume => "volume"@,
                MountType::Tmpfs => "tmpfs"@,
            }),
    {
        match self {
            MountType::Bind => "bind",
            MountType::Volume => "volume",
            MountType::Tmpfs => "tmpfs",
        }
    }
}

impl AccessMode {
    /// The flag Docker gives this access mode (`ro`, `rw`).
    pub fn as_str(&self) -> (r: &'static str)
        ensures
            r@ == (match *self {
                AccessMode::ReadOnly => "ro"@,
                AccessMode::ReadWrite => "rw"@,
            }),
    {
        match self {
            AccessMode::ReadOnly => "ro",
            AccessMode::ReadWrite => "rw",
        }
    }
}

/// Represents a filesystem mount.
#[derive(Debug, Clone)]
pub struct Mount {
    access_mode: AccessMode,
    mount_type: MountType,
    source: Option<String>,
    target: Option<String>,
    tmpfs_options: Option<MountTmpfsOptions>,
}

/// The content of a [`Mount`].
pub struct MountView {
    pub access_mode: AccessMode,
    pub mount_type: MountType,
    pub source: Option<Seq<char>>,
    pub target: Option<Seq<char>>,
    pub tmpfs_options: Option<MountTmpfsOptions>,
}

/// The view of an optional string.
pub open spec fn opt_view(s: Option<String>) -> Option<Seq<char>> {
    match s {
        Some(v) => Some(v@),
        None => None,
    }
}

impl View for Mount {
    type V = MountView;

    closed spec fn view(&self) -> MountView {
        MountView {
            access_mode: self.access_mode,
            mount_type: self.mount_type,
            source: opt_view(self.source),
            target: opt_view(self.target),
            tmpfs_options: self.tmpfs_options,
        }
    }
}

/// Why a human-readable size could not be read.
#[derive(Debug, Copy, Clone, PartialEq, Eq, Structural)]
pub enum SizeParseError {
    /// Nothing but whitespace was given.
    Empty,
    /// The number part is not an integer that fits in `i64`.
    InvalidNumber,
    /// The number is negative.
    Negative,
    /// The size in bytes does not fit in `i64`.
    Overflow,
}

/// Whether `c` is one of the unit suffixes `k`, `K`, `m`, `M`, `g`, `G`.
pub open spec fn is_size_unit(c: char) -> bool {
    c == 'k' || c == 'K' || c == 'm' || c == 'M' || c == 'g' || c == 'G'
}

/// The multiplier of a unit suffix: kilo, mega and giga are powers of 1000.
pub open spec fn size_unit_factor(c: char) -> int {
    if c == 'k' || c == 'K' {
        1_000
    } else if c == 'm' || c == 'M' {
        1_000_000
    } else if c == 'g' || c == 'G' {
        1_000_000_000
    } else {
        1
    }
}

/// The number of bytes a human-readable size denotes: surrounding whitespace is ignored,
/// an optional unit suffix scales the integer before it, which must be non-negative,
/// and the result must fit in `i64`.
pub open spec fn parse_size_spec(s: Seq<char>) -> Result<int, SizeParseError> {
    let t = trim_seq(s);
    if t.len() == 0 {
        Err(SizeParseError::Empty)
    } else {
        let has_unit = is_size_unit(t.last());
        let number = if has_unit {
            t.drop_last()
        } else {
            t
        };
        let factor = if has_unit {
            size_unit_factor(t.last())
        } else {
            1
        };
        match parse_i64_seq(trim_seq(number)) {
            None => Err(SizeParseError::InvalidNumber),
            Some(n) => if n < 0 {
                Err(SizeParseError::Negative)
            } else if n * factor > i64::MAX {
                Err(SizeParseError::Overflow)
            } else {
                Ok(n * factor)
            },
        }
    }
}

/// Parses a human-readable size string into bytes.
///
/// Supports: k/K (kilobytes), m/M (megabytes), g/G (gigabytes), and plain bytes.
pub fn parse_size(size: &str) -> (r: Result<i64, SizeParseError>)
    ensures
        r matches Ok(v) ==> parse_size_spec(size@) == Ok::<int, SizeParseError>(v as int),
        r matches Err(e) ==> parse_size_spec(size@) == Err::<int, SizeParseError>(e),
{
    let n = size.unicode_len();
    proof {
        assert(size@.subrange(0, n as int) =~= size@);
    }
    let (a, b) = trim_range(size, 0, n);
    let ghost t = size@.subrange(a as int, b as int);
    if a == b {
        return Err(SizeParseError::Empty);
    }
    let last = size.get_char(b - 1);
    proof {
        assert(t.last() == last);
    }
    let (hi, factor): (usize, i64) = if last == 'k' || last == 'K' {
        (b - 1, 1_000)
    } else if last == 'm' || last == 'M' {
        (b - 1, 1_000_000)
    } else if last == 'g' || last == 'G' {
        (b - 1, 1_000_000_000)
    } else {
        (b, 1)
    };
    proof {
        if hi < b {
            assert(t.drop_last() =~= size@.subrange(a as int, hi as int));
        }
    }
    let (c, d) = trim_range(size, a, hi);
    let number = parse_i64_range(size, c, d);
    match number {
        None => Err(SizeParseError::InvalidNumber),
        Some(v) => {
            if v < 0 {
                Err(SizeParseError::Negative)
            } else {
                match v.checked_mul(factor) {
                    Some(bytes) => Ok(bytes),
                    None => Err(SizeParseError::Overflow),
                }
            }
        },
    }
}

/// `m` with access mode `access_mode`: what [`Mount::with_access_mode`] does.
pub open spec fn with_access_mode_view(m: MountView, access_mode: AccessMode) -> MountView {
    MountView { access_mode, ..m }
}

/// `m` with a tmpfs size of `size` bytes, keeping any mode: what [`Mount::with_size_bytes`]
/// does.
pub open spec fn with_size_bytes_view(m: MountView, size: i64) -> MountView {
    MountView {
        tmpfs_options: Some(
            MountTmpfsOptions {
                size_bytes: Some(size),
                mode: match m.tmpfs_options {
                    Some(o) => o.mode,
                    None => None,
                },
            },
        ),
        ..m
    }
}

/// `m` with a tmpfs mode of `mode`, keeping any size: what [`Mount::with_mode`] does.
pub open spec fn with_mode_view(m: MountView, mode: i64) -> MountView {
    MountView {
        tmpfs_options: Some(
            MountTmpfsOptions {
                size_bytes: match m.tmpfs_options {
                    Some(o) => o.size_bytes,
                    None => None,
                },
                mode: Some(mode),
            },
        ),
        ..m
    }
}

/// The number of bytes a size that [`parse_size`] accepts denotes.
pub open spec fn size_bytes_of(s: Seq<char>) -> i64 {
    (parse_size_spec(s)->Ok_0) as i64
}

/// One call of a mount builder: [`Mount::with_access_mode`], [`Mount::with_size_bytes`]
/// (which [`Mount::with_size`] is, with the size it reads) or [`Mount::with_mode`].
pub enum MountBuilderStep {
    AccessMode(AccessMode),
    SizeBytes(i64),
    Mode(i64),
}

/// `m` after one builder call.
pub open spec fn apply_mount_step(m: MountView, step: MountBuilderStep) -> MountView {
    match step {
        MountBuilderStep::AccessMode(a) => with_access_mode_view(m, a),
        MountBuilderStep::SizeBytes(n) => with_size_bytes_view(m, n),
        MountBuilderStep::Mode(n) => with_mode_view(m, n),
    }
}

/// `m` after the builder calls `steps`, in order.
pub open spec fn apply_mount_steps(m: MountView, steps: Seq<MountBuilderStep>) -> MountView
    decreases steps.len(),
{
    if steps.len() == 0 {
        m
    } else {
        apply_mount_step(apply_mount_steps(m, steps.drop_last()), steps.last())
    }
}

/// No builder call changes what a mount is: its type, its source and its target stay those
/// its constructor gave it, whatever builder calls follow.
pub proof fn law_mount_kind_and_paths_survive_builders(m: MountView, steps: Seq<MountBuilderStep>)
    ensures
        apply_mount_steps(m, steps).mount_type == m.mount_type,
        apply_mount_steps(m, steps).source == m.source,
        apply_mount_steps(m, steps).target == m.target,
    decreases steps.len(),
{
    if steps.len() > 0 {
        law_mount_kind_and_paths_survive_builders(m, steps.drop_last());
    }
}

/// The access mode is changed by [`Mount::with_access_mode`] alone: without such a call it
/// stays the constructor's, read-write.
pub proof fn law_mount_access_mode_survives_builders(m: MountView, steps: Seq<MountBuilderStep>)
    requires
        forall|i: int| 0 <= i < steps.len() ==> !(#[trigger] steps[i] is AccessMode),
    ensures
        apply_mount_steps(m, steps).access_mode == m.access_mode,
    decreases steps.len(),
{
    if steps.len() > 0 {
        assert forall|i: int| 0 <= i < steps.drop_last().len() implies !(
        #[trigger] steps.drop_last()[i] is AccessMode) by {
            assert(steps.drop_last()[i] == steps[i]);
        }
        law_mount_access_mode_survives_builders(m, steps.drop_last());
        assert(!(steps[steps.len() - 1] is AccessMode));
    }
}

/// A mount made without tmpfs options has them exactly when a size or mode builder was
/// called.
pub proof fn law_mount_tmpfs_options_from_builders(m: MountView, steps: Seq<MountBuilderStep>)
    requires
        m.tmpfs_options is None,
    ensures
        apply_mount_steps(m, steps).tmpfs_options is Some <==> exists|i: int|
            0 <= i < steps.len() && !(#[trigger] steps[i] is AccessMode),
    decreases steps.len(),
{
    if steps.len() > 0 {
        let init = steps.drop_last();
        law_mount_tmpfs_options_from_builders(m, init);
        let last = steps.len() - 1;
        if exists|i: int| 0 <= i < init.len() && !(#[trigger] init[i] is AccessMode) {
            let i = choose|i: int| 0 <= i < init.len() && !(#[trigger] init[i] is AccessMode);
            assert(init[i] == steps[i]);
        }
        if exists|i: int| 0 <= i < steps.len() && !(#[trigger] steps[i] is AccessMode) {
            let i = choose|i: int| 0 <= i < steps.len() && !(#[trigger] steps[i] is AccessMode);
            if i < last {
                assert(init[i] == steps[i]);
            }
        }
    }
}

/// The views of a sequence of mounts.
pub open spec fn mounts_view(v: Seq<Mount>) -> Seq<MountView> {
    v.map_values(|m: Mount| m@)
}

fn copy_text(s: &Option<String>) -> (r: Option<String>)
    ensures
        opt_view(r) == opt_view(*s),
{
    match s {
        Some(v) => Some(v.clone()),
        None => None,
    }
}

impl Mount {
    /// The same mount.
    pub fn copied(&self) -> (r: Self)
        ensures
            r@ == self@,
    {
        Mount {
            access_mode: self.access_mode,
            mount_type: self.mount_type,
            source: copy_text(&self.source),
            target: copy_text(&self.target),
            tmpfs_options: match &self.tmpfs_options {
                Some(o) => Some(MountTmpfsOptions { size_bytes: o.size_bytes, mode: o.mode }),
                None => None,
            },
        }
    }

    /// Creates a `bind-mount`: mounts a file or directory of the host system into a container.
    pub fn bind_mount(host_path: &str, container_path: &str) -> (m: Self)
        ensures
            m@.access_mode == AccessMode::ReadWrite,
            m@.mount_type == MountType::Bind,
            m@.source == Some(host_path@),
            m@.target == Some(container_path@),
            m@.tmpfs_options is None,
    {
        Mount {
            access_mode: AccessMode::ReadWrite,
            mount_type: MountType::Bind,
            source: Some(host_path.to_owned()),
            target: Some(container_path.to_owned()),
            tmpfs_options: None,
        }
    }

    /// Creates a named `volume`, shared between containers or persisted on the host.
    pub fn volume_mount(name: &str, container_path: &str) -> (m: Self)
        ensures
            m@.access_mode == AccessMode::ReadWrite,
            m@.mount_type == MountType::Volume,
            m@.source == Some(name@),
            m@.target == Some(container_path@),
            m@.tmpfs_options is None,
    {
        Mount {
            access_mode: AccessMode::ReadWrite,
            mount_type: MountType::Volume,
            source: Some(name.to_owned()),
            target: Some(container_path.to_owned()),
            tmpfs_options: None,
        }
    }

    /// Creates a `tmpfs` mount: a temporary filesystem in the container's memory.
    pub fn tmpfs_mount(container_path: &str) -> (m: Self)
        ensures
            m@.access_mode == AccessMode::ReadWrite,
            m@.mount_type == MountType::Tmpfs,
            m@.source is None,
            m@.target == Some(container_path@),
            m@.tmpfs_options is None,
    {
        Mount {
            access_mode: AccessMode::ReadWrite,
            mount_type: MountType::Tmpfs,
            source: None,
            target: Some(container_path.to_owned()),
            tmpfs_options: None,
        }
    }

    /// Sets the access mode for the mount.
    pub fn with_access_mode(self, access_mode: AccessMode) -> (m: Self)
        ensures
            m@ == with_access_mode_view(self@, access_mode),
    {
        Mount { access_mode, ..self }
    }

    /// Docker mount access mode.
    pub fn access_mode(&self) -> (r: AccessMode)
        ensures
            r == self@.access_mode,
    {
        self.access_mode
    }

    /// Docker mount type.
    pub fn mount_type(&self) -> (r: MountType)
        ensures
            r == self@.mount_type,
    {
        self.mount_type
    }

    /// Path of a file, a directory or volume to mount on the host system.
    pub fn source(&self) -> (r: Option<&str>)
        ensures
            r is Some == self@.source is Some,
            r matches Some(v) ==> v@ == self@.source->0,
    {
        match &self.source {
            Some(s) => Some(s.as_str()),
            None => None,
        }
    }

    /// Path of a file or directory to mount in the container.
    pub fn target(&self) -> (r: Option<&str>)
        ensures
            r is Some == self@.target is Some,
            r matches Some(v) ==> v@ == self@.target->0,
    {
        match &self.target {
            Some(s) => Some(s.as_str()),
            None => None,
        }
    }

    /// Configures the size of a tmpfs mount in bytes, keeping any mode already set.
    pub fn with_size_bytes(self, size: i64) -> (m: Self)
        ensures
            m@ == with_size_bytes_view(self@, size),
            m@.access_mode == self@.access_mode,
            m@.mount_type == self@.mount_type,
            m@.source == self@.source,
            m@.target == self@.target,
            m@.tmpfs_options == Some(
                MountTmpfsOptions {
                    size_bytes: Some(size),
                    mode: match self@.tmpfs_options {
                        Some(o) => o.mode,
                        None => None,
                    },
                },
            ),
    {
        let opts = match self.tmpfs_options {
            Some(o) => MountTmpfsOptions { size_bytes: Some(size), mode: o.mode },
            None => MountTmpfsOptions { size_bytes: Some(size), mode: None },
        };
        Mount { tmpfs_options: Some(opts), ..self }
    }

    /// Configures the size of a tmpfs mount from a human-readable size such as `"20g"`.
    ///
    /// The size must be one that [`parse_size`] accepts.
    pub fn with_size(self, size: &str) -> (m: Self)
        requires
            parse_size_spec(size@) is Ok,
        ensures
            m@ == with_size_bytes_view(self@, size_bytes_of(size@)),
            m@.access_mode == self@.access_mode,
            m@.mount_type == self@.mount_type,
            m@.source == self@.source,
            m@.target == self@.target,
            m@.tmpfs_options matches Some(o) && o.size_bytes matches Some(b) && Ok::<
                int,
                SizeParseError,
            >(b as int) == parse_size_spec(size@) && o.mode == match self@.tmpfs_options {
                Some(p) => p.mode,
                None => None,
            },
    {
        let bytes = match parse_size(size) {
            Ok(b) => b,
            Err(_) => {
                proof {
                    assert(false);
                }
                0
            },
        };
        self.with_size_bytes(bytes)
    }

    /// Configures the permission mode for a tmpfs mount, keeping any size already set.
    pub fn with_mode(self, mode: i64) -> (m: Self)
        ensures
            m@ == with_mode_view(self@, mode),
            m@.access_mode == self@.access_mode,
            m@.mount_type == self@.mount_type,
            m@.source == self@.source,
            m@.target == self@.target,
            m@.tmpfs_options == Some(
                MountTmpfsOptions {
                    size_bytes: match self@.tmpfs_options {
                        Some(o) => o.size_bytes,
                        None => None,
                    },
                    mode: Some(mode),
                },
            ),
    {
        let opts = match self.tmpfs_options {
            Some(o) => MountTmpfsOptions { size_bytes: o.size_bytes, mode: Some(mode) },
            None => MountTmpfsOptions { size_bytes: None, mode: Some(mode) },
        };
        Mount { tmpfs_options: Some(opts), ..self }
    }

    /// Returns the tmpfs options if configured.
    pub fn tmpfs_options(&self) -> (r: Option<&MountTmpfsOptions>)
        ensures
            r is Some == self@.tmpfs_options is Some,
            r matches Some(o) ==> *o == self@.tmpfs_options->0,
    {
        match &self.tmpfs_options {
            Some(o) => Some(o),
            None => None,
        }
    }
}

} // verus!
