//! Windows resource declarations as text: version information, application
//! manifests and icons are written in the resource compiler's definition
//! language, and the steps that find and run that compiler are decided here.
//! Nothing in this crate touches the file system, the registry or a process:
//! the caller does that work and hands over what came of it.

pub mod compiler;
pub mod error;
pub mod res;
pub mod text;
pub mod util;
pub mod writer;

pub use error::ResError;
pub use res::{icon, manifest, version_info};

use compiler::{
    compiled, Action, ActionView, Arg, ArgView, Exit, ExitView, Findings, FindingsView, Step,
    StepView,
};
use error::ResErrorView;
use icon::{Icon, IconView};
use manifest::{manifest_written, Manifest, ManifestView};
use text::push_text;
use util::{
    out_file, BuildEnv, BuildEnvView, FileNeed, FileNeedView, Found, FoundView, Location,
    LocationView,
};
use version_info::{version_info_from_env, VersionInfo, VersionInfoView};
use vstd::prelude::*;
use vstd::std_specs::convert::{FromSpec, FromSpecImpl};
use writer::{ResWriter, WriterState};

verus! {

/// A resource of one of the kinds that can be written.
#[derive(Debug)]
pub enum Resource {
    Icon(Icon),
    Manifest(Manifest),
    VersionInfo(VersionInfo),
}

/// A [`Resource`] as the view of what it holds.
pub ghost enum ResourceView {
    Icon(IconView),
    Manifest(ManifestView),
    VersionInfo(VersionInfoView),
}

impl View for Resource {
    type V = ResourceView;

    open spec fn view(&self) -> ResourceView {
        match self {
            Resource::Icon(icon) => ResourceView::Icon(icon@),
            Resource::Manifest(manifest) => ResourceView::Manifest(manifest@),
            Resource::VersionInfo(info) => ResourceView::VersionInfo(info@),
        }
    }
}

impl DeepView for Resource {
    type V = ResourceView;

    open spec fn deep_view(&self) -> ResourceView {
        self@
    }
}

impl ResourceView {
    /// What the resource needs of the file system before it can be written,
    /// if anything: a resource that refers to a file needs the canonical path
    /// of that file.
    pub open spec fn need(self, env: BuildEnvView) -> Result<Option<FileNeedView>, ResErrorView> {
        match self {
            ResourceView::Icon(icon) => Ok(Some(icon.need())),
            ResourceView::Manifest(manifest) => match manifest.need(env) {
                Ok(need) => Ok(Some(need)),
                Err(e) => Err(e),
            },
            ResourceView::VersionInfo(_) => Ok(None),
        }
    }

    /// The writer's state after the resource is written from what was found
    /// of its file, or the error that stands for a file that cannot be
    /// referred to. Version information refers to no file and is always
    /// written.
    pub open spec fn written(self, found: FoundView, w: WriterState) -> Result<
        WriterState,
        ResErrorView,
    > {
        match self {
            ResourceView::Icon(icon) => icon.written(found, w),
            ResourceView::Manifest(_) => manifest_written(found, w),
            ResourceView::VersionInfo(info) => Ok(info.written(w)),
        }
    }
}

impl Resource {
    /// What the resource needs of the file system before it can be written,
    /// if anything.
    pub fn need(&self, env: &BuildEnv) -> (r: Result<Option<FileNeed>, ResError>)
        ensures
            match r {
                Ok(need) => self@.need(env@) == Ok::<Option<FileNeedView>, ResErrorView>(
                    need.deep_view(),
                ),
                Err(e) => self@.need(env@) == Err::<Option<FileNeedView>, ResErrorView>(e@),
            },
    {
        match self {
            Resource::Icon(icon) => Ok(Some(icon.need())),
            Resource::Manifest(manifest) => match manifest.need(env) {
                Ok(need) => Ok(Some(need)),
                Err(e) => Err(e),
            },
            Resource::VersionInfo(_) => Ok(None),
        }
    }

    /// Writes the resource from what was found of its file. Version
    /// information refers to no file: `found` is not read for it. Where the
    /// file cannot be referred to, nothing is written.
    pub fn write(&self, writer: &mut ResWriter, found: &Found) -> (r: Result<(), ResError>)
        ensures
            match r {
                Ok(()) => self@.written(found@, old(writer)@) == Ok::<WriterState, ResErrorView>(
                    final(writer)@,
                ),
                Err(e) => self@.written(found@, old(writer)@) == Err::<
                    WriterState,
                    ResErrorView,
                >(e@) && final(writer)@ == old(writer)@,
            },
    {
        match self {
            Resource::Icon(icon) => icon.write(writer, found),
            Resource::Manifest(manifest) => manifest.write(writer, found),
            Resource::VersionInfo(info) => info.write(writer),
        }
    }
}

impl FromSpecImpl<Icon> for Resource {
    open spec fn obeys_from_spec() -> bool {
        true
    }

    open spec fn from_spec(resource: Icon) -> Resource {
        Resource::Icon(resource)
    }
}

impl From<Icon> for Resource {
    fn from(resource: Icon) -> (r: Resource) {
        Resource::Icon(resource)
    }
}

impl FromSpecImpl<Manifest> for Resource {
    open spec fn obeys_from_spec() -> bool {
        true
    }

    open spec fn from_spec(resource: Manifest) -> Resource {
        Resource::Manifest(resource)
    }
}

impl From<Manifest> for Resource {
    fn from(resource: Manifest) -> (r: Resource) {
        Resource::Manifest(resource)
    }
}

impl FromSpecImpl<VersionInfo> for Resource {
    open spec fn obeys_from_spec() -> bool {
        true
    }

    open spec fn from_spec(resource: VersionInfo) -> Resource {
        Resource::VersionInfo(resource)
    }
}

impl From<VersionInfo> for Resource {
    fn from(resource: VersionInfo) -> (r: Resource) {
        Resource::VersionInfo(resource)
    }
}

/// How far the writing of a builder's resources has come.
#[derive(Debug)]
pub enum Saved {
    /// Every resource is written: these are the bytes of the resource
    /// definition.
    Done(Vec<u8>),
    /// The first resource for which nothing was found yet needs this.
    Needs(FileNeed),
}

/// A [`Saved`] as sequences.
pub ghost enum SavedView {
    Done(Seq<u8>),
    Needs(FileNeedView),
}

impl View for Saved {
    type V = SavedView;

    open spec fn view(&self) -> SavedView {
        match self {
            Saved::Done(bytes) => SavedView::Done(bytes@),
            Saved::Needs(need) => SavedView::Needs(need@),
        }
    }
}

/// What comes of writing `resources` in their order into a writer in state
/// `w`, an empty line before each. A resource that refers to a file is
/// written from the next entry of `found`; where `found` has no entry left
/// for it, the writing stops there and reports what that resource needs. The
/// first error ends the writing. Entries of `found` beyond the last file are
/// not read.
pub open spec fn saved(
    resources: Seq<ResourceView>,
    env: BuildEnvView,
    found: Seq<FoundView>,
    w: WriterState,
) -> Result<SavedView, ResErrorView>
    decreases resources.len(),
{
    if resources.len() == 0 {
        Ok(SavedView::Done(w.bytes))
    } else {
        let first = resources.first();
        let rest = resources.drop_first();
        let lined = w.new_line();
        match first {
            ResourceView::VersionInfo(info) => saved(rest, env, found, info.written(lined)),
            ResourceView::Icon(icon) => if found.len() == 0 {
                Ok(SavedView::Needs(icon.need()))
            } else {
                match icon.written(found.first(), lined) {
                    Err(e) => Err(e),
                    Ok(next) => saved(rest, env, found.drop_first(), next),
                }
            },
            ResourceView::Manifest(manifest) => match manifest.need(env) {
                Err(e) => Err(e),
                Ok(need) => if found.len() == 0 {
                    Ok(SavedView::Needs(need))
                } else {
                    match manifest_written(found.first(), lined) {
                        Err(e) => Err(e),
                        Ok(next) => saved(rest, env, found.drop_first(), next),
                    }
                },
            },
        }
    }
}

/// Without resources, what is written is the line that declares the code
/// page and nothing else.
pub proof fn lemma_saved_nothing(env: BuildEnvView, found: Seq<FoundView>)
    ensures
        saved(Seq::<ResourceView>::empty(), env, found, WriterState::fresh()) == Ok::<
            SavedView,
            ResErrorView,
        >(SavedView::Done(vstd::utf8::encode_utf8("#pragma code_page(65001)\n"@))),
{
}

/// Every resource is written at the level at which the writing began, which
/// is the level that it leaves behind: whatever is written, the level stays
/// zero.
pub proof fn lemma_resource_keeps_level(resource: ResourceView, found: FoundView, w: WriterState)
    requires
        w.level + 3 <= writer::MAX_LEVEL,
    ensures
        resource.written(found, w) matches Ok(next) ==> next.level == w.level,
{
    match resource {
        ResourceView::VersionInfo(info) => {
            version_info::lemma_version_info_restores_level(info, w);
        },
        _ => {},
    }
}

/// The directive that tells the build to link the compiled resources at
/// `path` into the binaries.
pub open spec fn link_directive_text(path: Seq<char>) -> Seq<char> {
    "cargo:rustc-link-arg-bins="@ + path
}

/// The directive that tells the build to link the compiled resources at
/// `path` into the binaries.
pub fn link_directive(path: &str) -> (r: String)
    ensures
        r@ == link_directive_text(path@),
{
    let mut out = String::new();
    push_text(&mut out, "cargo:rustc-link-arg-bins=");
    push_text(&mut out, path);
    out
}

/// What the caller has done so far to have a builder's resources compiled.
#[derive(Debug)]
pub struct Progress {
    /// What was found of the files that the resources refer to, in their
    /// order.
    pub found: Vec<Found>,
    /// How the storing of the resource definition went: done, or the
    /// system's message where it failed. `None` while it was not stored.
    pub stored: Option<Result<(), String>>,
    /// What is known for the search for the compiler.
    pub known: Findings,
    /// How the compiler's run ended. `None` while it has not run.
    pub exit: Option<Exit>,
}

/// [`Progress`] as sequences.
pub ghost struct ProgressView {
    pub found: Seq<FoundView>,
    pub stored: Option<Result<(), Seq<char>>>,
    pub known: FindingsView,
    pub exit: Option<ExitView>,
}

impl View for Progress {
    type V = ProgressView;

    open spec fn view(&self) -> ProgressView {
        ProgressView {
            found: self.found.deep_view(),
            stored: match self.stored {
                None => None,
                Some(Ok(())) => Some(Ok(())),
                Some(Err(message)) => Some(Err(message@)),
            },
            known: self.known@,
            exit: self.exit.deep_view(),
        }
    }
}

impl Progress {
    /// Nothing is done yet.
    pub fn new() -> (r: Progress)
        ensures
            r@ == (ProgressView {
                found: Seq::<FoundView>::empty(),
                stored: None,
                known: FindingsView { root: None, versions: None, probes: Seq::<bool>::empty() },
                exit: None,
            }),
    {
        let progress = Progress {
            found: Vec::new(),
            stored: None,
            known: Findings::new(),
            exit: None,
        };
        proof {
            assert(progress.found.deep_view() =~= Seq::<FoundView>::empty());
        }
        progress
    }
}

/// What the caller is to do next to have a builder's resources compiled.
#[derive(Debug)]
pub enum Task {
    /// See to what a resource needs, and add what was found.
    Need(FileNeed),
    /// Store these bytes, the resource definition, in this file.
    Store(Location, Vec<u8>),
    /// Find this out for the search for the compiler.
    Ask(Step),
    /// Run this program with these arguments and wait for its end.
    Run(Location, Vec<Arg>),
    /// The resources are compiled into this file: tell the build to link
    /// it. Nothing is left to do after that.
    Link(Location),
}

/// A [`Task`] as sequences.
pub ghost enum TaskView {
    Need(FileNeedView),
    Store(LocationView, Seq<u8>),
    Ask(StepView),
    Run(LocationView, Seq<ArgView>),
    Link(LocationView),
}

impl View for Task {
    type V = TaskView;

    open spec fn view(&self) -> TaskView {
        match self {
            Task::Need(need) => TaskView::Need(need@),
            Task::Store(place, bytes) => TaskView::Store(place@, bytes@),
            Task::Ask(step) => TaskView::Ask(step@),
            Task::Run(program, args) => TaskView::Run(program@, args.deep_view()),
            Task::Link(place) => TaskView::Link(place@),
        }
    }
}

/// The name, in the build's output directory, of the file that holds the
/// resource definition.
pub open spec fn definition_file() -> Seq<char> {
    "resource.rc"@
}

/// The name, in the build's output directory, of the file that holds the
/// compiled resources.
pub open spec fn compiled_file() -> Seq<char> {
    "resource.res"@
}

/// How the compiling of `resources` goes on from what is done: the output
/// directory must be known; the resources are written, which may need
/// files; the resource definition is stored in the output directory; the
/// compiler is looked for and run on it; and in the end the build is told to
/// link what the compiler wrote. The first failure ends it all.
pub open spec fn built(resources: Seq<ResourceView>, env: BuildEnvView, done: ProgressView)
    -> Result<TaskView, ResErrorView> {
    match env.out_dir {
        None => Err(ResErrorView::EnvVarNotFound("OUT_DIR"@)),
        Some(dir) => {
            let definition = LocationView { base: dir, names: seq![definition_file()] };
            let output = LocationView { base: dir, names: seq![compiled_file()] };
            match saved(resources, env, done.found, WriterState::fresh()) {
                Err(e) => Err(e),
                Ok(SavedView::Needs(need)) => Ok(TaskView::Need(need)),
                Ok(SavedView::Done(bytes)) => match done.stored {
                    None => Ok(TaskView::Store(definition, bytes)),
                    Some(Err(message)) => Err(ResErrorView::Io(message)),
                    Some(Ok(())) => match compiled(
                        env.host,
                        done.known,
                        definition,
                        output,
                        done.exit,
                    ) {
                        Err(e) => Err(ResErrorView::Compiler(e)),
                        Ok(ActionView::Ask(step)) => Ok(TaskView::Ask(step)),
                        Ok(ActionView::Run(program, args)) => Ok(TaskView::Run(program, args)),
                        Ok(ActionView::Done) => Ok(TaskView::Link(output)),
                    },
                },
            }
        },
    }
}

/// Windows Resource file builder: the resources of one resource
/// definition, in the order in which they are written.
#[derive(Debug)]
pub struct ResBuilder {
    resources: Vec<Resource>,
}

impl View for ResBuilder {
    type V = Seq<ResourceView>;

    closed spec fn view(&self) -> Seq<ResourceView> {
        self.resources.deep_view()
    }
}

impl ResBuilder {
    /// A builder without resources.
    pub fn new() -> (r: ResBuilder)
        ensures
            r@ == Seq::<ResourceView>::empty(),
    {
        let builder = ResBuilder { resources: Vec::new() };
        proof {
            assert(builder.resources.deep_view() =~= Seq::<ResourceView>::empty());
        }
        builder
    }

    /// A builder that holds the version information which the build's
    /// environment variables give.
    pub fn from_env(env: &BuildEnv) -> (r: Result<ResBuilder, ResError>)
        ensures
            match r {
                Ok(builder) => version_info_from_env(env@) is Ok && builder@ == seq![
                    ResourceView::VersionInfo(version_info_from_env(env@)->Ok_0),
                ],
                Err(e) => version_info_from_env(env@) == Err::<VersionInfoView, ResErrorView>(e@),
            },
    {
        match VersionInfo::from_env(env) {
            Ok(info) => Ok(ResBuilder::new().push(info)),
            Err(e) => Err(e),
        }
    }

    /// Adds a new resource behind those that the builder holds: an icon, a
    /// manifest, version information, or a [`Resource`] that holds one of
    /// them.
    pub fn push<T>(self, resource: T) -> (r: ResBuilder) where Resource: From<T>
        ensures
            exists|item: Resource|
                call_ensures(<Resource as From<T>>::from, (resource,), item) && r@ == self@.push(
                    #[trigger] item@,
                ),
            <Resource as FromSpec<T>>::obeys_from_spec() ==> r@ == self@.push(
                <Resource as FromSpec<T>>::from_spec(resource)@,
            ),
            r@.len() == self@.len() + 1,
            r@.drop_last() == self@,
    {
        let mut builder = self;
        let item = Resource::from(resource);
        builder.resources.push(item);
        proof {
            assert(builder.resources.deep_view() =~= self.resources.deep_view().push(item@));
            assert(builder@.drop_last() =~= self@);
        }
        builder
    }

    /// The number of resources.
    pub fn len(&self) -> (r: usize)
        ensures
            r == self@.len(),
    {
        self.resources.len()
    }

    /// Writes the resource definition: the line that declares the code page,
    /// then every resource in order, an empty line before each.
    ///
    /// A resource that refers to a file is written from what the caller
    /// found of that file: `found` holds one entry for each such resource, in
    /// their order. While `found` is too short, the result names what the
    /// next such resource needs; the caller sees to it, adds what it found,
    /// and calls again.
    pub fn save(&self, env: &BuildEnv, found: &Vec<Found>) -> (r: Result<Saved, ResError>)
        ensures
            match r {
                Ok(s) => saved(self@, env@, found.deep_view(), WriterState::fresh()) == Ok::<
                    SavedView,
                    ResErrorView,
                >(s@),
                Err(e) => saved(self@, env@, found.deep_view(), WriterState::fresh()) == Err::<
                    SavedView,
                    ResErrorView,
                >(e@),
            },
    {
        let mut writer = ResWriter::new();
        let mut used: usize = 0;
        let mut i: usize = 0;
        proof {
            assert(self@.skip(0) == self@);
            assert(found.deep_view().skip(0) == found.deep_view());
        }
        while i < self.resources.len()
            invariant
                i <= self.resources.len(),
                used <= found.len(),
                saved(self@, env@, found.deep_view(), WriterState::fresh()) == saved(
                    self@.skip(i as int),
                    env@,
                    found.deep_view().skip(used as int),
                    writer@,
                ),
            decreases self.resources.len() - i,
        {
            let resource = &self.resources[i];
            proof {
                assert(self@.skip(i as int).first() == resource@);
                assert(self@.skip(i as int).drop_first() == self@.skip(i + 1));
            }
            let need = match resource {
                Resource::VersionInfo(info) => {
                    // Put one empty line between definitions
                    writer.new_line();
                    let _ = info.write(&mut writer);
                    i = i + 1;
                    continue ;
                },
                Resource::Icon(icon) => icon.need(),
                Resource::Manifest(manifest) => match manifest.need(env) {
                    Ok(need) => need,
                    Err(e) => {
                        return Err(e);
                    },
                },
            };
            if used >= found.len() {
                proof {
                    assert(found.deep_view().skip(used as int).len() == 0);
                }
                return Ok(Saved::Needs(need));
            }
            proof {
                let left = found.deep_view().skip(used as int);
                assert(left.first() == found[used as int]@);
                assert(left.drop_first() == found.deep_view().skip(used + 1));
            }
            writer.new_line();
            match resource.write(&mut writer, &found[used]) {
                Ok(()) => {},
                Err(e) => {
                    return Err(e);
                },
            }
            used = used + 1;
            i = i + 1;
        }
        proof {
            assert(self@.skip(i as int).len() == 0);
        }
        Ok(Saved::Done(writer.into_bytes()))
    }
}

impl ResBuilder {
    /// Compiles the resources and has them linked to the binary being built,
    /// as far as what is done allows: the result is what the caller is to do
    /// next, or the reason why the resources cannot be compiled.
    ///
    /// The caller does what it is told, notes in `done` what came of it, and
    /// calls again, until it is told to have the compiled resources linked.
    pub fn compile(&self, env: &BuildEnv, done: &Progress) -> (r: Result<Task, ResError>)
        ensures
            match r {
                Ok(task) => built(self@, env@, done@) == Ok::<TaskView, ResErrorView>(task@),
                Err(e) => built(self@, env@, done@) == Err::<TaskView, ResErrorView>(e@),
            },
    {
        // Write the resource's .rc file to disk
        let definition = match out_file(env, "resource.rc") {
            Ok(place) => place,
            Err(e) => {
                return Err(ResError::EnvVarNotFound(e));
            },
        };
        let bytes = match self.save(env, &done.found) {
            Ok(Saved::Done(bytes)) => bytes,
            Ok(Saved::Needs(need)) => {
                return Ok(Task::Need(need));
            },
            Err(e) => {
                return Err(e);
            },
        };
        match &done.stored {
            None => {
                return Ok(Task::Store(definition, bytes));
            },
            Some(Err(message)) => {
                return Err(ResError::Io(message.clone()));
            },
            Some(Ok(())) => {},
        }
        // Compile the .rc file into a .res file
        let output = match out_file(env, "resource.res") {
            Ok(place) => place,
            Err(e) => {
                return Err(ResError::EnvVarNotFound(e));
            },
        };
        match compiler::compile(env, &done.known, &definition, &output, &done.exit) {
            Err(e) => Err(ResError::Compiler(e)),
            Ok(Action::Ask(step)) => Ok(Task::Ask(step)),
            Ok(Action::Run(program, args)) => Ok(Task::Run(program, args)),
            // Link the .res file to the binary
            Ok(Action::Done) => Ok(Task::Link(output)),
        }
    }
}

impl Default for ResBuilder {
    fn default() -> (r: ResBuilder)
        ensures
            r@ == Seq::<ResourceView>::empty(),
    {
        ResBuilder::new()
    }
}

} // verus!
