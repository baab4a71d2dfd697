//! Building images: the build context, the build options, and a generic buildable image.
use vstd::prelude::*;

use crate::collections::{entries_map, keys_sorted, keys_unique, StringKeyMap};
use crate::container_request::{GenericImage, Image};
use crate::host_exposure::ulid_now_base32;
use crate::copy::{
    copies_view, copy_all, CopyDataSource, CopySourceView, CopyTargetOptions, CopyToContainer,
    CopyToContainerCollection,
};
use crate::text::concat_str;

verus! {

/// Options for configuring image build behavior.
#[derive(Debug)]
pub struct BuildImageOptions {
    skip_if_exists: bool,
    no_cache: bool,
    build_args: StringKeyMap<String>,
}

/// The content of [`BuildImageOptions`].
pub struct BuildImageOptionsView {
    pub skip_if_exists: bool,
    pub no_cache: bool,
    pub build_args: Map<Seq<char>, String>,
}

impl View for BuildImageOptions {
    type V = BuildImageOptionsView;

    closed spec fn view(&self) -> BuildImageOptionsView {
        BuildImageOptionsView {
            skip_if_exists: self.skip_if_exists,
            no_cache: self.no_cache,
            build_args: self.build_args@,
        }
    }
}

impl Default for BuildImageOptions {
    fn default() -> (r: Self)
        ensures
            !r@.skip_if_exists,
            !r@.no_cache,
            r@.build_args == Map::<Seq<char>, String>::empty(),
    {
        BuildImageOptions { skip_if_exists: false, no_cache: false, build_args: StringKeyMap::new() }
    }
}

impl BuildImageOptions {
    /// Options with every flag off and no build arguments.
    pub fn new() -> (r: Self)
        ensures
            !r@.skip_if_exists,
            !r@.no_cache,
            r@.build_args == Map::<Seq<char>, String>::empty(),
    {
        Self::default()
    }

    /// Sets whether to skip building if the image already exists.
    pub fn with_skip_if_exists(self, skip_if_exists: bool) -> (r: Self)
        ensures
            r@ == (BuildImageOptionsView { skip_if_exists, ..self@ }),
    {
        BuildImageOptions { skip_if_exists, ..self }
    }

    /// Sets whether to disable the build cache.
    pub fn with_no_cache(self, no_cache: bool) -> (r: Self)
        ensures
            r@ == (BuildImageOptionsView { no_cache, ..self@ }),
    {
        BuildImageOptions { no_cache, ..self }
    }

    /// Adds a single build argument, replacing an earlier value of the same name.
    pub fn with_build_arg(self, key: &str, value: &str) -> (r: Self)
        ensures
            r@.skip_if_exists == self@.skip_if_exists,
            r@.no_cache == self@.no_cache,
            r@.build_args.dom() == self@.build_args.dom().insert(key@),
            r@.build_args[key@]@ == value@,
            forall|k: Seq<char>| k != key@ && #[trigger] self@.build_args.contains_key(k) ==> r@.build_args[k]
                == self@.build_args[k],
    {
        let mut r = self;
        r.build_args.insert(key.to_owned(), value.to_owned());
        r
    }

    /// Replaces all build arguments.
    pub fn with_build_args(self, build_args: StringKeyMap<String>) -> (r: Self)
        ensures
            r@ == (BuildImageOptionsView { build_args: build_args@, ..self@ }),
    {
        BuildImageOptions { build_args, ..self }
    }

    /// Whether building is skipped when the image exists.
    pub fn skip_if_exists(&self) -> (r: bool)
        ensures
            r == self@.skip_if_exists,
    {
        self.skip_if_exists
    }

    /// Whether the build cache is disabled.
    pub fn no_cache(&self) -> (r: bool)
        ensures
            r == self@.no_cache,
    {
        self.no_cache
    }

    /// The build arguments.
    pub fn build_args(&self) -> (r: &StringKeyMap<String>)
        ensures
            r@ == self@.build_args,
    {
        &self.build_args
    }
}

/// What inspecting an image before a build reported.
#[derive(Debug, Clone, Copy, PartialEq, Eq, Structural)]
pub enum ImagePresence {
    /// The image exists.
    Exists,
    /// The image does not exist.
    Missing,
    /// The inspection failed.
    Unknown,
}

/// Whether an image is built: always, unless builds are skipped for existing images and the
/// image exists.
pub fn should_build(skip_if_exists: bool, presence: ImagePresence) -> (r: bool)
    ensures
        r == !(skip_if_exists && presence == ImagePresence::Exists),
{
    if !skip_if_exists {
        return true;
    }
    match presence {
        ImagePresence::Exists => false,
        ImagePresence::Missing => true,
        ImagePresence::Unknown => true,
    }
}

/// The parameters of a build request to the Docker daemon.
#[derive(Debug)]
pub struct BuildParameters {
    /// The Dockerfile of the build context.
    pub dockerfile: String,
    /// The tag the image is given.
    pub tag: String,
    /// Remove intermediate containers.
    pub rm: bool,
    /// Do not use the build cache.
    pub nocache: bool,
    /// Build with BuildKit.
    pub buildkit: bool,
    /// The BuildKit session of the build.
    pub session: String,
    /// The build arguments, where there are any.
    pub build_args: Option<Vec<(String, String)>>,
}

/// The build request for `descriptor` with `options`: the context's `Dockerfile`, tagged with
/// the descriptor, removing intermediate containers, with BuildKit in a fresh session named
/// by a ULID, and with the build arguments where there are any.
pub fn build_parameters(descriptor: &str, options: &BuildImageOptions) -> (r: BuildParameters)
    ensures
        r.dockerfile@ == "Dockerfile"@,
        r.tag@ == descriptor@,
        r.rm,
        r.nocache == options@.no_cache,
        r.buildkit,
        r.session@.len() == 26,
        options@.build_args.dom().is_empty() ==> r.build_args is None,
        !options@.build_args.dom().is_empty() ==> (r.build_args matches Some(a) && keys_sorted(a@)
            && keys_unique(a@) && entries_map(a@) == options@.build_args),
{
    let session = ulid_now_base32();
    let entries = options.build_args.entries();
    let build_args = if entries.len() > 0 {
        let mut a: Vec<(String, String)> = Vec::new();
        let mut i: usize = 0;
        while i < entries.len()
            invariant
                i <= entries@.len(),
                a@ == entries@.take(i as int),
            decreases entries.len() - i,
        {
            a.push((entries[i].0.clone(), entries[i].1.clone()));
            i = i + 1;
            assert(a@ =~= entries@.take(i as int));
        }
        assert(entries@.take(entries@.len() as int) =~= entries@);
        proof {
            crate::collections::lemma_entries_map_at(entries@, 0);
            assert(options@.build_args.dom().contains(entries@[0].0@));
        }
        Some(a)
    } else {
        proof {
            assert forall|k: Seq<char>| !options@.build_args.dom().contains(k) by {
                if options@.build_args.dom().contains(k) {
                    assert(crate::collections::has_key(entries@, k));
                }
            }
            assert(options@.build_args.dom() =~= Set::<Seq<char>>::empty());
        }
        None
    };
    BuildParameters {
        dockerfile: "Dockerfile".to_owned(),
        tag: descriptor.to_owned(),
        rm: true,
        nocache: options.no_cache,
        buildkit: true,
        session,
        build_args,
    }
}

/// Builder for managing Docker build contexts: the Dockerfile and every file it refers to.
#[derive(Debug, Clone)]
pub struct BuildContextBuilder {
    build_context_parts: Vec<CopyToContainer>,
}

impl View for BuildContextBuilder {
    type V = Seq<(CopySourceView, (Seq<char>, Option<u32>))>;

    closed spec fn view(&self) -> Seq<(CopySourceView, (Seq<char>, Option<u32>))> {
        copies_view(self.build_context_parts@)
    }
}

impl Default for BuildContextBuilder {
    fn default() -> (r: Self)
        ensures
            r@.len() == 0,
    {
        BuildContextBuilder { build_context_parts: Vec::new() }
    }
}

impl BuildContextBuilder {
    /// Adds a Dockerfile from the filesystem, as `Dockerfile` of the context.
    pub fn with_dockerfile(self, source: &str) -> (r: Self)
        ensures
            r@ == self@.push((CopySourceView::File(source@), ("Dockerfile"@, None::<u32>))),
            r@ == apply_build_step(self@, BuildContextStep::Dockerfile(source@)),
    {
        self.with_file(source, "Dockerfile")
    }

    /// Adds a Dockerfile from a string, as `Dockerfile` of the context.
    pub fn with_dockerfile_string(self, content: &str) -> (r: Self)
        ensures
            r@ == self@.push(
                (CopySourceView::Data(crate::text::utf8_bytes(content@)), ("Dockerfile"@, None::<u32>)),
            ),
            r@ == apply_build_step(self@, BuildContextStep::DockerfileString(content@)),
    {
        self.with_data(crate::text::str_bytes(content), "Dockerfile")
    }

    /// Adds a file or directory from the filesystem, placed at `target` in the context.
    pub fn with_file(self, source: &str, target: &str) -> (r: Self)
        ensures
            r@ == self@.push((CopySourceView::File(source@), (target@, None::<u32>))),
            r@ == apply_build_step(self@, BuildContextStep::File(source@, target@)),
    {
        let mut parts = self.build_context_parts;
        let ghost before = parts@;
        parts.push(
            CopyToContainer::new(CopyDataSource::File(source.to_owned()), CopyTargetOptions::new(target)),
        );
        assert(copies_view(parts@) =~= copies_view(before).push(
            (CopySourceView::File(source@), (target@, None::<u32>)),
        ));
        BuildContextBuilder { build_context_parts: parts }
    }

    /// Adds data as a file placed at `target` in the context.
    pub fn with_data(self, data: Vec<u8>, target: &str) -> (r: Self)
        ensures
            r@ == self@.push((CopySourceView::Data(data@), (target@, None::<u32>))),
            r@ == apply_build_step(self@, BuildContextStep::Data(data@, target@)),
    {
        let mut parts = self.build_context_parts;
        let ghost before = parts@;
        let ghost d = data@;
        parts.push(CopyToContainer::new(CopyDataSource::Data(data), CopyTargetOptions::new(target)));
        assert(copies_view(parts@) =~= copies_view(before).push(
            (CopySourceView::Data(d), (target@, None::<u32>)),
        ));
        BuildContextBuilder { build_context_parts: parts }
    }

    /// Consumes the builder and returns the collected build context.
    pub fn collect(self) -> (r: CopyToContainerCollection)
        ensures
            r@ == self@,
    {
        CopyToContainerCollection::new(self.build_context_parts)
    }

    /// Returns the build context without consuming the builder.
    pub fn as_copy_to_container_collection(&self) -> (r: CopyToContainerCollection)
        ensures
            r@ == self@,
    {
        CopyToContainerCollection::new(copy_all(&self.build_context_parts))
    }
}

/// One call of a build context builder, by what it adds.
pub enum BuildContextStep {
    /// [`BuildContextBuilder::with_dockerfile`] with this source.
    Dockerfile(Seq<char>),
    /// [`BuildContextBuilder::with_dockerfile_string`] with this content.
    DockerfileString(Seq<char>),
    /// [`BuildContextBuilder::with_file`] with this source and target.
    File(Seq<char>, Seq<char>),
    /// [`BuildContextBuilder::with_data`] with these bytes and this target.
    Data(Seq<u8>, Seq<char>),
}

/// The part of the build context that one builder call adds.
pub open spec fn build_step_part(step: BuildContextStep) -> (CopySourceView, (Seq<char>, Option<u32>)) {
    match step {
        BuildContextStep::Dockerfile(source) => (CopySourceView::File(source), ("Dockerfile"@, None)),
        BuildContextStep::DockerfileString(content) => (
            CopySourceView::Data(crate::text::utf8_bytes(content)),
            ("Dockerfile"@, None),
        ),
        BuildContextStep::File(source, target) => (CopySourceView::File(source), (target, None)),
        BuildContextStep::Data(data, target) => (CopySourceView::Data(data), (target, None)),
    }
}

/// The build context `context` after one builder call: the call's part comes last.
pub open spec fn apply_build_step(
    context: Seq<(CopySourceView, (Seq<char>, Option<u32>))>,
    step: BuildContextStep,
) -> Seq<(CopySourceView, (Seq<char>, Option<u32>))> {
    context.push(build_step_part(step))
}

/// The build context `context` after the builder calls `steps`, in order.
pub open spec fn apply_build_steps(
    context: Seq<(CopySourceView, (Seq<char>, Option<u32>))>,
    steps: Seq<BuildContextStep>,
) -> Seq<(CopySourceView, (Seq<char>, Option<u32>))>
    decreases steps.len(),
{
    if steps.len() == 0 {
        context
    } else {
        apply_build_step(apply_build_steps(context, steps.drop_last()), steps.last())
    }
}

/// A build context built from the default builder holds exactly the parts its builder calls
/// added, one per call, in the order of the calls: none dropped, none duplicated.
pub proof fn law_build_context_holds_parts_in_call_order(steps: Seq<BuildContextStep>)
    ensures
        apply_build_steps(Seq::empty(), steps) == steps.map_values(
            |s: BuildContextStep| build_step_part(s),
        ),
    decreases steps.len(),
{
    if steps.len() > 0 {
        law_build_context_holds_parts_in_call_order(steps.drop_last());
        assert(steps.map_values(|s: BuildContextStep| build_step_part(s)) =~= steps.drop_last().map_values(
            |s: BuildContextStep| build_step_part(s),
        ).push(build_step_part(steps.last())));
    }
}

/// A generic image built from a Dockerfile and a build context.
#[derive(Debug)]
pub struct GenericBuildableImage {
    name: String,
    tag: String,
    build_context_builder: BuildContextBuilder,
}

impl View for GenericBuildableImage {
    type V = (Seq<char>, Seq<char>, Seq<(CopySourceView, (Seq<char>, Option<u32>))>);

    closed spec fn view(&self) -> (Seq<char>, Seq<char>, Seq<(CopySourceView, (Seq<char>, Option<u32>))>) {
        (self.name@, self.tag@, self.build_context_builder@)
    }
}

impl GenericBuildableImage {
    /// A buildable image named `name:tag`, with an empty build context.
    pub fn new(name: &str, tag: &str) -> (r: Self)
        ensures
            r@.0 == name@,
            r@.1 == tag@,
            r@.2.len() == 0,
    {
        GenericBuildableImage {
            name: name.to_owned(),
            tag: tag.to_owned(),
            build_context_builder: BuildContextBuilder::default(),
        }
    }

    /// Adds a Dockerfile from the filesystem to the build context.
    pub fn with_dockerfile(self, source: &str) -> (r: Self)
        ensures
            r@ == (self@.0, self@.1, self@.2.push(
                (CopySourceView::File(source@), ("Dockerfile"@, None::<u32>)),
            )),
    {
        GenericBuildableImage {
            build_context_builder: self.build_context_builder.with_dockerfile(source),
            ..self
        }
    }

    /// Adds a Dockerfile from a string to the build context.
    pub fn with_dockerfile_string(self, content: &str) -> (r: Self)
        ensures
            r@ == (self@.0, self@.1, self@.2.push(
                (CopySourceView::Data(crate::text::utf8_bytes(content@)), ("Dockerfile"@, None::<u32>)),
            )),
    {
        GenericBuildableImage {
            build_context_builder: self.build_context_builder.with_dockerfile_string(content),
            ..self
        }
    }

    /// Adds a file or directory from the filesystem to the build context.
    pub fn with_file(self, source: &str, target: &str) -> (r: Self)
        ensures
            r@ == (self@.0, self@.1, self@.2.push(
                (CopySourceView::File(source@), (target@, None::<u32>)),
            )),
    {
        GenericBuildableImage {
            build_context_builder: self.build_context_builder.with_file(source, target),
            ..self
        }
    }

    /// Adds data directly to the build context as a file.
    pub fn with_data(self, data: Vec<u8>, target: &str) -> (r: Self)
        ensures
            r@ == (self@.0, self@.1, self@.2.push(
                (CopySourceView::Data(data@), (target@, None::<u32>)),
            )),
    {
        GenericBuildableImage {
            build_context_builder: self.build_context_builder.with_data(data, target),
            ..self
        }
    }
}

/// An image that is built before it runs.
pub trait BuildableImage {
    /// The image that runs once this one is built.
    type Built: Image;

    /// The files and data the image is built from: at least the Dockerfile, and everything it
    /// refers to.
    fn build_context(&self) -> CopyToContainerCollection;

    /// The descriptor `name:tag` that the built image gets.
    fn descriptor(&self) -> String;

    /// The image to run once this one is built.
    fn into_image(self) -> Self::Built;
}

impl BuildableImage for GenericBuildableImage {
    type Built = GenericImage;

    /// The build context.
    fn build_context(&self) -> (r: CopyToContainerCollection)
        ensures
            r@ == self@.2,
    {
        self.build_context_builder.as_copy_to_container_collection()
    }

    /// The image descriptor `name:tag`.
    fn descriptor(&self) -> (r: String)
        ensures
            r@ == self@.0 + ":"@ + self@.1,
    {
        let mut r = concat_str(self.name.as_str(), ":");
        r.append(self.tag.as_str());
        r
    }

    /// The image `name:tag`, ready as soon as it is started.
    fn into_image(self) -> (r: GenericImage)
        ensures
            r.name_view() == self@.0,
            r.tag_view() == self@.1,
            r.ready_conditions_view().len() == 0,
            r.entrypoint_view() is None,
            r.expose_ports_view().len() == 0,
    {
        GenericImage::new(self.name.as_str(), self.tag.as_str())
    }
}

} // verus!
