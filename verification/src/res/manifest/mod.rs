//! Application manifest resource. (`RT_MANIFEST`)

pub mod features;

pub use features::{
    controls_v6_xml, dpi_head, dpi_mid, dpi_tail, find, free_of, occurs_at, replaced, DpiMode,
    Feature,
};

use crate::error::{ResError, ResErrorView};
use crate::text::{push_char, push_text};
use crate::util::{
    escape_path, escaped_path, out_file, BuildEnv, BuildEnvView, FileNeed, FileNeedView, Found,
    FoundView, LocationView,
};
use crate::writer::{ResWriter, WriterState};
use vstd::prelude::*;
use vstd::std_specs::convert::FromSpecImpl;

verus! {

/// Application manifest resource. (`RT_MANIFEST`)
///
/// A manifest is either composed here, from features or from its XML text,
/// or it is a file of its own.
#[derive(Debug)]
pub enum Manifest {
    /// The XML text of the manifest. It is stored in the build's output
    /// directory before the resource refers to it.
    Internal(String),
    /// The path of the manifest's file.
    External(String),
}

/// A [`Manifest`] as sequences of characters.
pub ghost enum ManifestView {
    Internal(Seq<char>),
    External(Seq<char>),
}

impl View for Manifest {
    type V = ManifestView;

    open spec fn view(&self) -> ManifestView {
        match self {
            Manifest::Internal(xml) => ManifestView::Internal(xml@),
            Manifest::External(path) => ManifestView::External(path@),
        }
    }
}

/// The XML of each feature, one after the other, each followed by a line
/// break.
pub open spec fn fragments(features: Seq<Feature>) -> Seq<char>
    decreases features.len(),
{
    if features.len() == 0 {
        Seq::<char>::empty()
    } else {
        fragments(features.drop_last()) + features.last().xml_text() + seq!['\n']
    }
}

/// The XML of a manifest with these features: the declaration, the opening
/// tag of the assembly, the features, the closing tag.
pub open spec fn manifest_xml(features: Seq<Feature>) -> Seq<char> {
    "<?xml version=\"1.0\" encoding=\"UTF-8\" standalone=\"yes\"?>\n"@
        + "<assembly xmlns=\"urn:schemas-microsoft-com:asm.v1\" manifestVersion=\"1.0\">\n"@
        + fragments(features) + "</assembly>"@
}

/// The line of a resource definition that refers to a manifest's file.
pub open spec fn manifest_line(path: Seq<char>) -> Seq<char> {
    "1 24 \""@ + path + seq!['"']
}

/// The name under which the text of an internal manifest is stored in the
/// build's output directory.
pub open spec fn manifest_file() -> Seq<char> {
    "manifest.xml"@
}

impl ManifestView {
    /// What the manifest needs before it can be written: an internal one
    /// its text stored in the output directory, which must be known; an
    /// external one its path resolved.
    pub open spec fn need(self, env: BuildEnvView) -> Result<FileNeedView, ResErrorView> {
        match self {
            ManifestView::Internal(xml) => match env.out_dir {
                Some(dir) => Ok(
                    FileNeedView::Store(
                        LocationView { base: dir, names: seq![manifest_file()] },
                        xml,
                    ),
                ),
                None => Err(ResErrorView::EnvVarNotFound("OUT_DIR"@)),
            },
            ManifestView::External(path) => Ok(FileNeedView::Resolve(path)),
        }
    }
}

/// The writer's state after the line that refers to a manifest's file, or
/// the error that stands for a file that cannot be referred to.
pub open spec fn manifest_written(found: FoundView, w: WriterState) -> Result<
    WriterState,
    ResErrorView,
> {
    match escaped_path(found) {
        Ok(path) => Ok(w.line(manifest_line(path))),
        Err(e) => Err(e),
    }
}

/// Writes the line that refers to the manifest's file, from what was found
/// of that file. Where the file cannot be referred to, nothing is written.
pub fn write_manifest(writer: &mut ResWriter, found: &Found) -> (r: Result<(), ResError>)
    ensures
        match r {
            Ok(()) => manifest_written(found@, old(writer)@) == Ok::<WriterState, ResErrorView>(
                final(writer)@,
            ),
            Err(e) => manifest_written(found@, old(writer)@) == Err::<WriterState, ResErrorView>(
                e@,
            ) && final(writer)@ == old(writer)@,
        },
{
    match escape_path(found) {
        Ok(path) => {
            let mut line = String::new();
            push_text(&mut line, "1 24 \"");
            push_text(&mut line, path.as_str());
            push_char(&mut line, '"');
            proof {
                assert(line@ =~= manifest_line(path@));
            }
            writer.line(line.as_str());
            Ok(())
        },
        Err(e) => Err(e),
    }
}

impl Manifest {
    /// The manifest composed of `features`, in their order.
    pub fn from_features(features: &[Feature]) -> (r: Manifest)
        ensures
            r@ == ManifestView::Internal(manifest_xml(features@)),
    {
        let mut buffer = String::new();
        push_text(&mut buffer, "<?xml version=\"1.0\" encoding=\"UTF-8\" standalone=\"yes\"?>\n");
        push_text(
            &mut buffer,
            "<assembly xmlns=\"urn:schemas-microsoft-com:asm.v1\" manifestVersion=\"1.0\">\n",
        );
        let ghost head = buffer@;
        let mut i: usize = 0;
        while i < features.len()
            invariant
                i <= features.len(),
                buffer@ == head + fragments(features@.take(i as int)),
            decreases features.len() - i,
        {
            let xml = features[i].xml();
            proof {
                assert(features@.take(i + 1).drop_last() == features@.take(i as int));
                assert(features@.take(i + 1).last() == features@[i as int]);
            }
            push_text(&mut buffer, xml.as_str());
            push_char(&mut buffer, '\n');
            proof {
                assert(buffer@ =~= head + fragments(features@.take(i + 1)));
            }
            i = i + 1;
        }
        proof {
            assert(features@.take(features@.len() as int) == features@);
        }
        push_text(&mut buffer, "</assembly>");
        Manifest::Internal(buffer)
    }

    /// What the manifest needs of the file system before it can be written.
    pub fn need(&self, env: &BuildEnv) -> (r: Result<FileNeed, ResError>)
        ensures
            match r {
                Ok(need) => self@.need(env@) == Ok::<FileNeedView, ResErrorView>(need@),
                Err(e) => self@.need(env@) == Err::<FileNeedView, ResErrorView>(e@),
            },
    {
        match self {
            Manifest::Internal(xml) => match out_file(env, "manifest.xml") {
                Ok(place) => Ok(FileNeed::Store(place, xml.clone())),
                Err(e) => Err(ResError::EnvVarNotFound(e)),
            },
            Manifest::External(path) => Ok(FileNeed::Resolve(path.clone())),
        }
    }

    /// Writes the resource: one line that refers to the manifest's file by
    /// the canonical path that was found for it. Where the file cannot be
    /// referred to, nothing is written.
    pub fn write(&self, writer: &mut ResWriter, found: &Found) -> (r: Result<(), ResError>)
        ensures
            match r {
                Ok(()) => manifest_written(found@, old(writer)@) == Ok::<
                    WriterState,
                    ResErrorView,
                >(final(writer)@),
                Err(e) => manifest_written(found@, old(writer)@) == Err::<
                    WriterState,
                    ResErrorView,
                >(e@) && final(writer)@ == old(writer)@,
            },
    {
        write_manifest(writer, found)
    }
}

impl FromSpecImpl<String> for Manifest {
    open spec fn obeys_from_spec() -> bool {
        true
    }

    open spec fn from_spec(value: String) -> Manifest {
        Manifest::Internal(value)
    }
}

impl From<String> for Manifest {
    fn from(value: String) -> (r: Manifest)
        ensures
            r@ == ManifestView::Internal(value@),
    {
        Manifest::Internal(value)
    }
}

/// What the conversions from features return takes a string of its own, which
/// no specification function can make: each conversion states its result in
/// its own postcondition.
impl<'a> FromSpecImpl<&'a [Feature]> for Manifest {
    open spec fn obeys_from_spec() -> bool {
        false
    }

    open spec fn from_spec(value: &'a [Feature]) -> Manifest {
        arbitrary()
    }
}

impl<'a> From<&'a [Feature]> for Manifest {
    fn from(value: &'a [Feature]) -> (r: Manifest)
        ensures
            r@ == ManifestView::Internal(manifest_xml(value@)),
    {
        Manifest::from_features(value)
    }
}

impl FromSpecImpl<Feature> for Manifest {
    open spec fn obeys_from_spec() -> bool {
        false
    }

    open spec fn from_spec(value: Feature) -> Manifest {
        arbitrary()
    }
}

impl From<Feature> for Manifest {
    fn from(value: Feature) -> (r: Manifest)
        ensures
            r@ == ManifestView::Internal(manifest_xml(seq![value])),
    {
        let features = [value];
        proof {
            assert(features@ =~= seq![value]);
        }
        Manifest::from_features(features.as_slice())
    }
}

impl<const N: usize> FromSpecImpl<[Feature; N]> for Manifest {
    open spec fn obeys_from_spec() -> bool {
        false
    }

    open spec fn from_spec(value: [Feature; N]) -> Manifest {
        arbitrary()
    }
}

impl<const N: usize> From<[Feature; N]> for Manifest {
    fn from(value: [Feature; N]) -> (r: Manifest)
        ensures
            r@ == ManifestView::Internal(manifest_xml(value@)),
    {
        Manifest::from_features(value.as_slice())
    }
}

impl<'a, const N: usize> FromSpecImpl<&'a [Feature; N]> for Manifest {
    open spec fn obeys_from_spec() -> bool {
        false
    }

    open spec fn from_spec(value: &'a [Feature; N]) -> Manifest {
        arbitrary()
    }
}

impl<'a, const N: usize> From<&'a [Feature; N]> for Manifest {
    fn from(value: &'a [Feature; N]) -> (r: Manifest)
        ensures
            r@ == ManifestView::Internal(manifest_xml(value@)),
    {
        Manifest::from_features(value.as_slice())
    }
}

} // verus!
