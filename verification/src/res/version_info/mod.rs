//! Version-information resource. (`VERSIONINFO`)

pub mod block;
pub mod fixed;

pub use block::{
    block_from_env, entries_written, entry_written, language_block_name,
    lemma_block_restores_level, lemma_entries_keep_level, table_of, translation, BlockInfo,
    BlockInfoView, StringInfo, StringTable, CHARSET,
};
pub use fixed::{
    fixed_from_env, flags_from_env, format_ver, hex_line, version_from_env, version_line,
    version_part, FileFlags, FileType, FixedInfo, Version, FILE_FLAGS_MASK, OS_WIN_NT_32,
};

use crate::error::{ResError, ResErrorView};
use crate::util::{BuildEnv, BuildEnvView};
use crate::writer::{ResWriter, WriterState, MAX_LEVEL};
use vstd::prelude::*;

verus! {

/// Version-information resource. (`VERSIONINFO`)
///
/// The resource holds what a file says of itself: its version number, the
/// operating system it is meant for, its original name and the like.
#[derive(Debug)]
pub struct VersionInfo {
    /// Fixed fields of the `VERSIONINFO` resource.
    pub fixed: FixedInfo,
    /// String and variable information block of the `VERSIONINFO` resource.
    pub block: BlockInfo,
}

/// A [`VersionInfo`] with the view of its block.
pub ghost struct VersionInfoView {
    pub fixed: FixedInfo,
    pub block: BlockInfoView,
}

impl View for VersionInfo {
    type V = VersionInfoView;

    open spec fn view(&self) -> VersionInfoView {
        VersionInfoView { fixed: self.fixed, block: self.block@ }
    }
}

impl VersionInfoView {
    /// The writer's state after the resource: its header line, the fixed
    /// fields, and the block.
    pub open spec fn written(self, w: WriterState) -> WriterState {
        self.block.written(self.fixed.written(w.line("1 VERSIONINFO"@)))
    }
}

/// The resource closes every brace that it opens: where its three levels of
/// nesting fit within the deepest level, the level after the resource is the
/// level before it.
pub proof fn lemma_version_info_restores_level(info: VersionInfoView, w: WriterState)
    requires
        w.level + 3 <= MAX_LEVEL,
    ensures
        info.written(w).level == w.level,
{
    let fixed = info.fixed.written(w.line("1 VERSIONINFO"@));
    assert(fixed.level == w.level);
    lemma_block_restores_level(info.block, fixed);
}

/// The resource that the build's variables give. The fixed fields are read
/// first.
pub open spec fn version_info_from_env(env: BuildEnvView) -> Result<
    VersionInfoView,
    ResErrorView,
> {
    match fixed_from_env(env) {
        Err(e) => Err(e),
        Ok(fixed) => match block_from_env(env) {
            Err(e) => Err(e),
            Ok(block) => Ok(VersionInfoView { fixed, block }),
        },
    }
}

impl VersionInfo {
    /// Creates a new `VERSIONINFO`: version zero, no flags, no strings,
    /// language neutral.
    pub fn new() -> (r: VersionInfo)
        ensures
            r@ == (VersionInfoView {
                fixed: FixedInfo {
                    version: Version { major: 0, minor: 0, patch: 0, revision: 0 },
                    product_version: Version { major: 0, minor: 0, patch: 0, revision: 0 },
                    flags_mask: FILE_FLAGS_MASK,
                    flags: FileFlags::NoFlags,
                    os: 0,
                    file_type: FileType::Unknown,
                    sub_type: 0,
                },
                block: BlockInfoView { language: 0, strings: Map::empty() },
            }),
    {
        VersionInfo { fixed: FixedInfo::default(), block: BlockInfo::default() }
    }

    /// Creates a new `VERSIONINFO` with the values that the build's
    /// environment variables give.
    pub fn from_env(env: &BuildEnv) -> (r: Result<VersionInfo, ResError>)
        ensures
            match r {
                Ok(v) => version_info_from_env(env@) == Ok::<VersionInfoView, ResErrorView>(v@),
                Err(e) => version_info_from_env(env@) == Err::<VersionInfoView, ResErrorView>(
                    e@,
                ),
            },
    {
        let fixed = match FixedInfo::from_env(env) {
            Ok(f) => f,
            Err(e) => {
                return Err(e);
            },
        };
        let block = match BlockInfo::from_env(env) {
            Ok(b) => b,
            Err(e) => {
                return Err(e);
            },
        };
        Ok(VersionInfo { fixed, block })
    }

    /// Sets the Windows language code of the resource: `0x0000` for language
    /// neutral, `0x0009` for English, `0x0409` for English of the United
    /// States.
    pub fn with_language(self, language: u16) -> (r: VersionInfo)
        ensures
            r@ == (VersionInfoView {
                fixed: self@.fixed,
                block: BlockInfoView { language, strings: self@.block.strings },
            }),
    {
        let mut info = self;
        info.block.language = language;
        info
    }

    /// Writes the resource. This never fails.
    pub fn write(&self, writer: &mut ResWriter) -> (r: Result<(), ResError>)
        ensures
            r is Ok,
            final(writer)@ == self@.written(old(writer)@),
    {
        writer.line("1 VERSIONINFO");
        self.fixed.write(writer);
        self.block.write(writer);
        Ok(())
    }
}

impl Default for VersionInfo {
    fn default() -> (r: VersionInfo)
        ensures
            r@ == (VersionInfoView {
                fixed: FixedInfo {
                    version: Version { major: 0, minor: 0, patch: 0, revision: 0 },
                    product_version: Version { major: 0, minor: 0, patch: 0, revision: 0 },
                    flags_mask: FILE_FLAGS_MASK,
                    flags: FileFlags::NoFlags,
                    os: 0,
                    file_type: FileType::Unknown,
                    sub_type: 0,
                },
                block: BlockInfoView { language: 0, strings: Map::empty() },
            }),
    {
        VersionInfo::new()
    }
}

} // verus!
