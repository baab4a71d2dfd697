//! Files and data to be copied into a container, and where they go.
use vstd::prelude::*;

use crate::text::{starts_with, trim_start_char_seq};

verus! {

#[verifier::external_type_specification]
#[verifier::external_body]
pub struct ExIoError(std::io::Error);

/// Where a copy goes inside the container, and with which permissions.
#[derive(Debug, Clone)]
pub struct CopyTargetOptions {
    target: String,
    mode: Option<u32>,
}

impl View for CopyTargetOptions {
    type V = (Seq<char>, Option<u32>);

    closed spec fn view(&self) -> (Seq<char>, Option<u32>) {
        (self.target@, self.mode)
    }
}

impl CopyTargetOptions {
    /// Copies to `target`, with the mode left to its default.
    pub fn new(target: &str) -> (r: Self)
        ensures
            r@ == (target@, None::<u32>),
    {
        CopyTargetOptions { target: target.to_owned(), mode: None }
    }

    /// Sets the permission mode of the copied file.
    pub fn with_mode(self, mode: u32) -> (r: Self)
        ensures
            r@ == (self@.0, Some(mode)),
    {
        CopyTargetOptions { mode: Some(mode), ..self }
    }

    /// The path inside the container.
    pub fn target(&self) -> (r: &str)
        ensures
            r@ == self@.0,
    {
        self.target.as_str()
    }

    /// The permission mode, if one was set.
    pub fn mode(&self) -> (r: Option<u32>)
        ensures
            r == self@.1,
    {
        self.mode
    }

    /// The mode of a copied file whose own permission mode is `source_mode`: the one set, or
    /// the file's own.
    pub fn file_mode(&self, source_mode: u32) -> (r: u32)
        ensures
            r == match self@.1 {
                Some(m) => m,
                None => source_mode,
            },
    {
        match self.mode {
            Some(m) => m,
            None => source_mode,
        }
    }

    /// The mode of a copied data entry: the one set, or `0o644`.
    pub fn data_mode(&self) -> (r: u32)
        ensures
            r == match self@.1 {
                Some(m) => m,
                None => 0o644u32,
            },
    {
        match self.mode {
            Some(m) => m,
            None => 0o644,
        }
    }

    /// The same options.
    pub fn copied(&self) -> (r: Self)
        ensures
            r@ == self@,
    {
        CopyTargetOptions { target: self.target.clone(), mode: self.mode }
    }
}

impl From<String> for CopyTargetOptions {
    /// Copies to `target`, with the mode left to its default.
    fn from(target: String) -> (r: Self)
        ensures
            r@ == (target@, None::<u32>),
    {
        CopyTargetOptions { target, mode: None }
    }
}

impl vstd::std_specs::convert::FromSpecImpl<String> for CopyTargetOptions {
    open spec fn obeys_from_spec() -> bool {
        true
    }

    closed spec fn from_spec(v: String) -> CopyTargetOptions {
        CopyTargetOptions { target: v, mode: None }
    }
}

impl From<&str> for CopyTargetOptions {
    /// Copies to `target`, with the mode left to its default.
    fn from(target: &str) -> (r: Self)
        ensures
            r@ == (target@, None::<u32>),
    {
        CopyTargetOptions::new(target)
    }
}

/// Options made from text hold a new `String`, equal to no value that a spec function could
/// name, so what `from` returns is stated by its own `ensures`, over the view.
impl vstd::std_specs::convert::FromSpecImpl<&str> for CopyTargetOptions {
    open spec fn obeys_from_spec() -> bool {
        false
    }

    closed spec fn from_spec(v: &str) -> CopyTargetOptions {
        choose|t: CopyTargetOptions| t@ == (v@, None::<u32>)
    }
}

/// What is copied: a file or directory of the host, or data.
#[derive(Debug, Clone)]
pub enum CopyDataSource {
    /// A file or directory of the host, by path.
    File(String),
    /// The bytes of a file.
    Data(Vec<u8>),
}

/// The content of a [`CopyDataSource`].
pub enum CopySourceView {
    File(Seq<char>),
    Data(Seq<u8>),
}

impl View for CopyDataSource {
    type V = CopySourceView;

    open spec fn view(&self) -> CopySourceView {
        match self {
            CopyDataSource::File(p) => CopySourceView::File(p@),
            CopyDataSource::Data(d) => CopySourceView::Data(d@),
        }
    }
}

impl CopyDataSource {
    /// The same source.
    pub fn copied(&self) -> (r: Self)
        ensures
            r@ == self@,
    {
        match self {
            CopyDataSource::File(p) => CopyDataSource::File(p.clone()),
            CopyDataSource::Data(d) => {
                let mut v: Vec<u8> = Vec::new();
                let mut i: usize = 0;
                while i < d.len()
                    invariant
                        0 <= i <= d@.len(),
                        v@ == d@.take(i as int),
                    decreases d.len() - i,
                {
                    v.push(d[i]);
                    i = i + 1;
                    assert(v@ =~= d@.take(i as int));
                }
                assert(d@.take(d@.len() as int) =~= d@);
                CopyDataSource::Data(v)
            },
        }
    }
}

/// A single copy into a container.
#[derive(Debug, Clone)]
pub struct CopyToContainer {
    target: CopyTargetOptions,
    source: CopyDataSource,
}

impl View for CopyToContainer {
    type V = (CopySourceView, (Seq<char>, Option<u32>));

    closed spec fn view(&self) -> (CopySourceView, (Seq<char>, Option<u32>)) {
        (self.source@, self.target@)
    }
}

impl CopyToContainer {
    /// Copies `source` to `target`.
    pub fn new(source: CopyDataSource, target: CopyTargetOptions) -> (r: Self)
        ensures
            r@ == (source@, target@),
    {
        CopyToContainer { source, target }
    }

    /// What is copied.
    pub fn source(&self) -> (r: &CopyDataSource)
        ensures
            r@ == self@.0,
    {
        &self.source
    }

    /// Where it goes.
    pub fn target(&self) -> (r: &CopyTargetOptions)
        ensures
            r@ == self@.1,
    {
        &self.target
    }

    /// The same copy.
    pub fn copied(&self) -> (r: Self)
        ensures
            r@ == self@,
    {
        CopyToContainer { target: self.target.copied(), source: self.source.copied() }
    }
}

/// The views of a list of copies.
pub open spec fn copies_view(v: Seq<CopyToContainer>) -> Seq<
    (CopySourceView, (Seq<char>, Option<u32>)),
> {
    v.map_values(|c: CopyToContainer| c@)
}

/// A copy of every element of `v`.
pub fn copy_all(v: &Vec<CopyToContainer>) -> (r: Vec<CopyToContainer>)
    ensures
        copies_view(r@) == copies_view(v@),
{
    let mut r: Vec<CopyToContainer> = Vec::new();
    let mut i: usize = 0;
    while i < v.len()
        invariant
            0 <= i <= v@.len(),
            copies_view(r@) == copies_view(v@.take(i as int)),
        decreases v.len() - i,
    {
        let ghost before = r@;
        r.push(v[i].copied());
        i = i + 1;
        proof {
            assert(copies_view(r@) =~= copies_view(before).push(v@[i - 1]@));
            assert(copies_view(v@.take(i as int)) =~= copies_view(v@.take(i - 1)).push(
                v@[i - 1]@,
            ));
        }
    }
    assert(v@.take(v@.len() as int) =~= v@);
    r
}

/// A list of copies into a container.
#[derive(Debug, Clone)]
pub struct CopyToContainerCollection(Vec<CopyToContainer>);

impl View for CopyToContainerCollection {
    type V = Seq<(CopySourceView, (Seq<char>, Option<u32>))>;

    closed spec fn view(&self) -> Seq<(CopySourceView, (Seq<char>, Option<u32>))> {
        copies_view(self.0@)
    }
}

impl CopyToContainerCollection {
    /// The copies of `collection`, in order.
    pub fn new(collection: Vec<CopyToContainer>) -> (r: Self)
        ensures
            r@ == copies_view(collection@),
    {
        CopyToContainerCollection(collection)
    }

    /// Adds a copy at the end.
    pub fn add(&mut self, entry: CopyToContainer)
        ensures
            final(self)@ == old(self)@.push(entry@),
    {
        let ghost before = self.0@;
        self.0.push(entry);
        assert(copies_view(self.0@) =~= copies_view(before).push(entry@));
    }

    /// The copies, in order.
    pub fn entries(&self) -> (r: &Vec<CopyToContainer>)
        ensures
            copies_view(r@) == self@,
    {
        &self.0
    }
}

/// Errors preparing data to be copied into a container.
#[derive(Debug)]
pub enum CopyToContainerError {
    IoError(std::io::Error),
    PathNameError(String),
}

/// The path relative to the root: leading `/` are removed.
pub fn make_path_relative(path: &str) -> (r: String)
    ensures
        r@ == trim_start_char_seq(path@, '/'),
{
    if !starts_with(path, "/") {
        proof {
            reveal_strlit("/");
            if path@.len() > 0 && path@[0] == '/' {
                assert("/"@ =~= path@.subrange(0, 1));
            }
        }
        return path.to_owned();
    }
    let n = path.unicode_len();
    let mut i: usize = 0;
    while i < n && path.get_char(i) == '/'
        invariant
            n == path@.len(),
            i <= n,
            forall|j: int| 0 <= j < i ==> #[trigger] path@[j] == '/',
        decreases n - i,
    {
        i = i + 1;
    }
    proof {
        crate::text::lemma_trim_start_char_at(path@, '/', i as int);
    }
    path.substring_char(i, n).to_owned()
}

/// The type of an entry of a tar archive, as far as copying a file out of a container
/// reads it.
#[derive(Debug, Clone, Copy, PartialEq, Eq, Structural)]
pub enum TarEntryKind {
    /// A regular file.
    Regular,
    /// A contiguous file.
    Continuous,
    /// A directory.
    Directory,
    /// Metadata of the archive or of the next entry: long names and links, extended and
    /// sparse headers.
    Metadata,
    /// Any other type, by its type flag.
    Other(u8),
}

/// Why a file could not be copied out of a container.
#[derive(Debug)]
pub enum CopyFromContainerError {
    /// Reading the archive failed.
    Io(std::io::Error),
    /// The archive holds no regular file.
    EmptyArchive,
    /// The requested path is a directory.
    IsDirectory,
    /// The archive holds an entry of a type that cannot be copied, by its type flag.
    UnsupportedEntry(u8),
    /// The archive holds more than one file.
    MultipleFilesInArchive,
}

/// The first entry at or after `from` that is not metadata.
pub open spec fn first_relevant(kinds: Seq<TarEntryKind>, from: nat) -> Option<nat>
    decreases kinds.len() - from,
{
    if from >= kinds.len() {
        None
    } else if kinds[from as int] == TarEntryKind::Metadata {
        first_relevant(kinds, from + 1)
    } else {
        Some(from)
    }
}

/// What `first_relevant` finds lies at or after where the search starts, inside the archive,
/// and is no metadata.
pub proof fn lemma_first_relevant_found(kinds: Seq<TarEntryKind>, from: nat)
    ensures
        first_relevant(kinds, from) matches Some(i) ==> from <= i < kinds.len()
            && kinds[i as int] != TarEntryKind::Metadata,
    decreases kinds.len() - from,
{
    if from < kinds.len() && kinds[from as int] == TarEntryKind::Metadata {
        lemma_first_relevant_found(kinds, from + 1);
    }
}

/// Whether an entry is a file that can be copied.
pub open spec fn is_file_entry(k: TarEntryKind) -> bool {
    k == TarEntryKind::Regular || k == TarEntryKind::Continuous
}

/// The error an entry that is neither metadata nor a file stands for.
pub open spec fn entry_refusal(k: TarEntryKind) -> CopyFromContainerError {
    match k {
        TarEntryKind::Directory => CopyFromContainerError::IsDirectory,
        TarEntryKind::Other(flag) => CopyFromContainerError::UnsupportedEntry(flag),
        _ => CopyFromContainerError::EmptyArchive,
    }
}

/// What reading the archive of a copied path comes to: metadata is skipped; the first other
/// entry must be a file, and no other file may follow it; a directory or an entry of another
/// type met on the way is refused.
pub open spec fn single_file_outcome(kinds: Seq<TarEntryKind>) -> Result<nat, CopyFromContainerError> {
    match first_relevant(kinds, 0) {
        None => Err(CopyFromContainerError::EmptyArchive),
        Some(i) => if !is_file_entry(kinds[i as int]) {
            Err(entry_refusal(kinds[i as int]))
        } else {
            match first_relevant(kinds, i + 1) {
                None => Ok(i),
                Some(j) => if is_file_entry(kinds[j as int]) {
                    Err(CopyFromContainerError::MultipleFilesInArchive)
                } else {
                    Err(entry_refusal(kinds[j as int]))
                },
            }
        },
    }
}

fn next_relevant(kinds: &Vec<TarEntryKind>, from: usize) -> (r: Option<usize>)
    requires
        from <= kinds@.len(),
    ensures
        r is None <==> first_relevant(kinds@, from as nat) is None,
        r matches Some(i) ==> first_relevant(kinds@, from as nat) == Some(i as nat) && from <= i
            < kinds.len() && kinds@[i as int] != TarEntryKind::Metadata,
{
    proof {
        lemma_first_relevant_found(kinds@, from as nat);
    }
    let mut i = from;
    while i < kinds.len()
        invariant
            from <= i <= kinds@.len(),
            first_relevant(kinds@, i as nat) == first_relevant(kinds@, from as nat),
        decreases kinds.len() - i,
    {
        if kinds[i] != TarEntryKind::Metadata {
            return Some(i);
        }
        i = i + 1;
    }
    None
}

fn refusal(k: TarEntryKind) -> (r: CopyFromContainerError)
    requires
        !is_file_entry(k),
        k != TarEntryKind::Metadata,
    ensures
        r == entry_refusal(k),
{
    match k {
        TarEntryKind::Directory => CopyFromContainerError::IsDirectory,
        TarEntryKind::Other(flag) => CopyFromContainerError::UnsupportedEntry(flag),
        _ => CopyFromContainerError::EmptyArchive,
    }
}

/// The index of the one file that the archive of a copied path holds, from the types of its
/// entries in order.
pub fn single_file_entry(kinds: &Vec<TarEntryKind>) -> (r: Result<usize, CopyFromContainerError>)
    ensures
        match r {
            Ok(i) => single_file_outcome(kinds@) == Ok::<nat, CopyFromContainerError>(i as nat),
            Err(e) => single_file_outcome(kinds@) == Err::<nat, CopyFromContainerError>(e),
        },
{
    let first = match next_relevant(kinds, 0) {
        None => return Err(CopyFromContainerError::EmptyArchive),
        Some(i) => i,
    };
    let k = kinds[first];
    if k != TarEntryKind::Regular && k != TarEntryKind::Continuous {
        return Err(refusal(k));
    }
    match next_relevant(kinds, first + 1) {
        None => Ok(first),
        Some(j) => {
            let k2 = kinds[j];
            if k2 == TarEntryKind::Regular || k2 == TarEntryKind::Continuous {
                Err(CopyFromContainerError::MultipleFilesInArchive)
            } else {
                Err(refusal(k2))
            }
        },
    }
}

} // verus!
