//! The strings and the translation table of a version-information
//! resource.

use crate::error::{ResError, ResErrorView};
use crate::text::{hex4, push_hex4, push_text};
use crate::util::{BuildEnv, BuildEnvView, EnvError};
use crate::writer::{ResWriter, WriterState, MAX_LEVEL};
use vstd::prelude::*;

verus! {

/// The character set of every string block: 1200, Unicode.
pub const CHARSET: u16 = 1200;

/// The names under which a version-information resource holds its strings.
#[derive(Debug, Clone, Copy, Hash, PartialEq, Eq, Structural)]
pub enum StringInfo {
    /// Additional information that should be displayed for diagnostic
    /// purposes.
    Comments,
    /// Company that produced the file.
    CompanyName,
    /// File description to be presented to users.
    FileDescription,
    /// Version number of the file.
    FileVersion,
    /// Internal name of the file, if one exists.
    InternalName,
    /// Copyright notices that apply to the file.
    LegalCopyright,
    /// Trademarks and registered trademarks that apply to the file.
    LegalTrademarks,
    /// Original name of the file, not including a path.
    OriginalFilename,
    /// Information about a private version of the file.
    PrivateBuild,
    /// Name of the product with which the file is distributed.
    ProductName,
    /// Version of the product with which the file is distributed.
    ProductVersion,
    /// Text that specifies how this version of the file differs from the
    /// standard version.
    SpecialBuild,
}

impl DeepView for StringInfo {
    type V = StringInfo;

    open spec fn deep_view(&self) -> StringInfo {
        *self
    }
}

impl StringInfo {
    /// The name as a resource definition writes it.
    pub open spec fn name(self) -> Seq<char> {
        match self {
            StringInfo::Comments => "Comments"@,
            StringInfo::CompanyName => "CompanyName"@,
            StringInfo::FileDescription => "FileDescription"@,
            StringInfo::FileVersion => "FileVersion"@,
            StringInfo::InternalName => "InternalName"@,
            StringInfo::LegalCopyright => "LegalCopyright"@,
            StringInfo::LegalTrademarks => "LegalTrademarks"@,
            StringInfo::OriginalFilename => "OriginalFilename"@,
            StringInfo::PrivateBuild => "PrivateBuild"@,
            StringInfo::ProductName => "ProductName"@,
            StringInfo::ProductVersion => "ProductVersion"@,
            StringInfo::SpecialBuild => "SpecialBuild"@,
        }
    }

    /// The name as a resource definition writes it.
    pub fn as_str(&self) -> (r: &'static str)
        ensures
            r@ == self.name(),
    {
        match self {
            StringInfo::Comments => "Comments",
            StringInfo::CompanyName => "CompanyName",
            StringInfo::FileDescription => "FileDescription",
            StringInfo::FileVersion => "FileVersion",
            StringInfo::InternalName => "InternalName",
            StringInfo::LegalCopyright => "LegalCopyright",
            StringInfo::LegalTrademarks => "LegalTrademarks",
            StringInfo::OriginalFilename => "OriginalFilename",
            StringInfo::PrivateBuild => "PrivateBuild",
            StringInfo::ProductName => "ProductName",
            StringInfo::ProductVersion => "ProductVersion",
            StringInfo::SpecialBuild => "SpecialBuild",
        }
    }
}

/// The strings of a version-information resource: at most one value under
/// each name. They are written in the order of the names, which is the
/// order of [`StringInfo`]'s variants.
#[derive(Debug)]
pub struct StringTable {
    comments: Option<String>,
    company_name: Option<String>,
    file_description: Option<String>,
    file_version: Option<String>,
    internal_name: Option<String>,
    legal_copyright: Option<String>,
    legal_trademarks: Option<String>,
    original_filename: Option<String>,
    private_build: Option<String>,
    product_name: Option<String>,
    product_version: Option<String>,
    special_build: Option<String>,
}

impl View for StringTable {
    type V = Map<StringInfo, Seq<char>>;

    /// The values by their names.
    closed spec fn view(&self) -> Map<StringInfo, Seq<char>> {
        Map::new(|key: StringInfo| self.slot(key) is Some, |key: StringInfo| self.slot(key)->0@)
    }
}

/// The table that a list of pairs gives: each pair sets the value under its
/// name, a later pair replacing an earlier one of the same name.
pub open spec fn table_of(pairs: Seq<(StringInfo, Seq<char>)>) -> Map<StringInfo, Seq<char>>
    decreases pairs.len(),
{
    if pairs.len() == 0 {
        Map::empty()
    } else {
        table_of(pairs.drop_last()).insert(pairs.last().0, pairs.last().1)
    }
}

impl StringTable {
    spec fn slot(&self, key: StringInfo) -> Option<String> {
        match key {
            StringInfo::Comments => self.comments,
            StringInfo::CompanyName => self.company_name,
            StringInfo::FileDescription => self.file_description,
            StringInfo::FileVersion => self.file_version,
            StringInfo::InternalName => self.internal_name,
            StringInfo::LegalCopyright => self.legal_copyright,
            StringInfo::LegalTrademarks => self.legal_trademarks,
            StringInfo::OriginalFilename => self.original_filename,
            StringInfo::PrivateBuild => self.private_build,
            StringInfo::ProductName => self.product_name,
            StringInfo::ProductVersion => self.product_version,
            StringInfo::SpecialBuild => self.special_build,
        }
    }

    /// A table without values.
    pub fn new() -> (r: StringTable)
        ensures
            r@ == Map::<StringInfo, Seq<char>>::empty(),
    {
        let table = StringTable {
            comments: None,
            company_name: None,
            file_description: None,
            file_version: None,
            internal_name: None,
            legal_copyright: None,
            legal_trademarks: None,
            original_filename: None,
            private_build: None,
            product_name: None,
            product_version: None,
            special_build: None,
        };
        proof {
            assert(table@ =~= Map::<StringInfo, Seq<char>>::empty());
        }
        table
    }

    /// Sets the value under `key`, in place of the one that was there.
    pub fn insert(&mut self, key: StringInfo, value: String)
        ensures
            final(self)@ == old(self)@.insert(key, value@),
    {
        match key {
            StringInfo::Comments => {
                self.comments = Some(value);
            },
            StringInfo::CompanyName => {
                self.company_name = Some(value);
            },
            StringInfo::FileDescription => {
                self.file_description = Some(value);
            },
            StringInfo::FileVersion => {
                self.file_version = Some(value);
            },
            StringInfo::InternalName => {
                self.internal_name = Some(value);
            },
            StringInfo::LegalCopyright => {
                self.legal_copyright = Some(value);
            },
            StringInfo::LegalTrademarks => {
                self.legal_trademarks = Some(value);
            },
            StringInfo::OriginalFilename => {
                self.original_filename = Some(value);
            },
            StringInfo::PrivateBuild => {
                self.private_build = Some(value);
            },
            StringInfo::ProductName => {
                self.product_name = Some(value);
            },
            StringInfo::ProductVersion => {
                self.product_version = Some(value);
            },
            StringInfo::SpecialBuild => {
                self.special_build = Some(value);
            },
        }
        proof {
            assert forall|k: StringInfo| k != key implies final(self).slot(k) == old(self).slot(
                k,
            ) by {}
            assert(final(self)@ =~= old(self)@.insert(key, value@));
        }
    }

    /// The value under `key`, if there is one.
    pub fn get(&self, key: StringInfo) -> (r: Option<&String>)
        ensures
            match r {
                Some(value) => self@.contains_key(key) && self@[key] == value@,
                None => !self@.contains_key(key),
            },
    {
        let slot = match key {
            StringInfo::Comments => &self.comments,
            StringInfo::CompanyName => &self.company_name,
            StringInfo::FileDescription => &self.file_description,
            StringInfo::FileVersion => &self.file_version,
            StringInfo::InternalName => &self.internal_name,
            StringInfo::LegalCopyright => &self.legal_copyright,
            StringInfo::LegalTrademarks => &self.legal_trademarks,
            StringInfo::OriginalFilename => &self.original_filename,
            StringInfo::PrivateBuild => &self.private_build,
            StringInfo::ProductName => &self.product_name,
            StringInfo::ProductVersion => &self.product_version,
            StringInfo::SpecialBuild => &self.special_build,
        };
        match slot {
            Some(value) => Some(value),
            None => None,
        }
    }

    /// The table that a list of pairs gives, a later pair replacing an
    /// earlier one of the same name.
    pub fn from_pairs(pairs: Vec<(StringInfo, String)>) -> (r: StringTable)
        ensures
            r@ == table_of(pairs.deep_view()),
    {
        let mut table = StringTable::new();
        let mut i: usize = 0;
        while i < pairs.len()
            invariant
                i <= pairs.len(),
                table@ == table_of(pairs.deep_view().take(i as int)),
            decreases pairs.len() - i,
        {
            let key = pairs[i].0;
            let value = pairs[i].1.clone();
            proof {
                let all = pairs.deep_view();
                assert(all.take(i + 1).drop_last() == all.take(i as int));
                assert(all.take(i + 1).last() == (key, value@));
            }
            table.insert(key, value);
            i = i + 1;
        }
        proof {
            assert(pairs.deep_view().take(pairs.len() as int) == pairs.deep_view());
        }
        table
    }
}

/// String and variable information block of the `VERSIONINFO` resource.
#[derive(Debug)]
pub struct BlockInfo {
    /// Windows language code; zero is language neutral.
    pub language: u16,
    /// Values of the `StringFileInfo` block.
    pub strings: StringTable,
}

/// A [`BlockInfo`] as a language code and a map from names to texts.
pub ghost struct BlockInfoView {
    pub language: u16,
    pub strings: Map<StringInfo, Seq<char>>,
}

impl View for BlockInfo {
    type V = BlockInfoView;

    open spec fn view(&self) -> BlockInfoView {
        BlockInfoView { language: self.language, strings: self.strings@ }
    }
}

/// The writer's state after the value under `key` is written, if the table
/// has one.
pub open spec fn entry_written(
    strings: Map<StringInfo, Seq<char>>,
    key: StringInfo,
    w: WriterState,
) -> WriterState {
    if strings.contains_key(key) {
        w.value_str(key.name(), strings[key])
    } else {
        w
    }
}

/// The writer's state after every value of the table is written, in the
/// order of the names.
pub open spec fn entries_written(strings: Map<StringInfo, Seq<char>>, w: WriterState)
    -> WriterState {
    let w = entry_written(strings, StringInfo::Comments, w);
    let w = entry_written(strings, StringInfo::CompanyName, w);
    let w = entry_written(strings, StringInfo::FileDescription, w);
    let w = entry_written(strings, StringInfo::FileVersion, w);
    let w = entry_written(strings, StringInfo::InternalName, w);
    let w = entry_written(strings, StringInfo::LegalCopyright, w);
    let w = entry_written(strings, StringInfo::LegalTrademarks, w);
    let w = entry_written(strings, StringInfo::OriginalFilename, w);
    let w = entry_written(strings, StringInfo::PrivateBuild, w);
    let w = entry_written(strings, StringInfo::ProductName, w);
    let w = entry_written(strings, StringInfo::ProductVersion, w);
    entry_written(strings, StringInfo::SpecialBuild, w)
}

/// The name of the block that holds the strings of a language: the
/// language code and the character set, four hexadecimal digits each.
pub open spec fn language_block_name(language: u16) -> Seq<char> {
    hex4(language as nat) + hex4(CHARSET as nat)
}

/// The value of the translation table: language code and character set,
/// each as `0x` and four hexadecimal digits.
pub open spec fn translation(language: u16) -> Seq<char> {
    seq!['0', 'x'] + hex4(language as nat) + seq![',', ' ', '0', 'x'] + hex4(CHARSET as nat)
}

/// The block that the build's variables give: description, version and name
/// of the package, in a language-neutral block.
pub open spec fn block_from_env(env: BuildEnvView) -> Result<BlockInfoView, ResErrorView> {
    if env.pkg_name is None {
        Err(ResErrorView::EnvVarNotFound("CARGO_PKG_NAME"@))
    } else if env.pkg_description is None {
        Err(ResErrorView::EnvVarNotFound("CARGO_PKG_DESCRIPTION"@))
    } else if env.pkg_version is None {
        Err(ResErrorView::EnvVarNotFound("CARGO_PKG_VERSION"@))
    } else {
        Ok(
            BlockInfoView {
                language: 0,
                strings: Map::<StringInfo, Seq<char>>::empty().insert(
                    StringInfo::FileDescription,
                    env.pkg_description->0,
                ).insert(StringInfo::FileVersion, env.pkg_version->0).insert(
                    StringInfo::InternalName,
                    env.pkg_name->0,
                ).insert(StringInfo::ProductName, env.pkg_name->0).insert(
                    StringInfo::ProductVersion,
                    env.pkg_version->0,
                ),
            },
        )
    }
}

impl BlockInfoView {
    /// The writer's state after the block: inside one pair of braces, the
    /// strings in a `StringFileInfo` block under the language's name, then
    /// the translation in a `VarFileInfo` block.
    pub open spec fn written(self, w: WriterState) -> WriterState {
        entries_written(
            self.strings,
            w.begin().block("StringFileInfo"@).block(language_block_name(self.language)),
        ).end().end().block("VarFileInfo"@).value_raw(
            "Translation"@,
            translation(self.language),
        ).end().end()
    }
}

/// Writing the strings changes no level.
pub proof fn lemma_entries_keep_level(strings: Map<StringInfo, Seq<char>>, w: WriterState)
    ensures
        entries_written(strings, w).level == w.level,
{
}

/// The block closes every brace that it opens: where its three levels of
/// nesting fit within the deepest level, the level after the block is the
/// level before it.
pub proof fn lemma_block_restores_level(block: BlockInfoView, w: WriterState)
    requires
        w.level + 3 <= MAX_LEVEL,
    ensures
        block.written(w).level == w.level,
{
    let inner = w.begin().block("StringFileInfo"@).block(language_block_name(block.language));
    assert(inner.level == w.level + 3);
    lemma_entries_keep_level(block.strings, inner);
}

impl BlockInfo {
    /// A block in `language` with the strings that `strings` lists, a later
    /// pair replacing an earlier one of the same name.
    pub fn new(language: u16, strings: Vec<(StringInfo, String)>) -> (r: BlockInfo)
        ensures
            r@ == (BlockInfoView { language, strings: table_of(strings.deep_view()) }),
    {
        BlockInfo { language, strings: StringTable::from_pairs(strings) }
    }

    /// Create from environment variables set by cargo.
    pub fn from_env(env: &BuildEnv) -> (r: Result<BlockInfo, ResError>)
        ensures
            match r {
                Ok(b) => block_from_env(env@) == Ok::<BlockInfoView, ResErrorView>(b@),
                Err(e) => block_from_env(env@) == Err::<BlockInfoView, ResErrorView>(e@),
            },
    {
        let name = match &env.pkg_name {
            Some(v) => v,
            None => {
                return Err(ResError::EnvVarNotFound(EnvError("CARGO_PKG_NAME")));
            },
        };
        let description = match &env.pkg_description {
            Some(v) => v,
            None => {
                return Err(ResError::EnvVarNotFound(EnvError("CARGO_PKG_DESCRIPTION")));
            },
        };
        let version = match &env.pkg_version {
            Some(v) => v,
            None => {
                return Err(ResError::EnvVarNotFound(EnvError("CARGO_PKG_VERSION")));
            },
        };
        let mut strings = StringTable::new();
        strings.insert(StringInfo::FileDescription, description.clone());
        strings.insert(StringInfo::FileVersion, version.clone());
        strings.insert(StringInfo::InternalName, name.clone());
        strings.insert(StringInfo::ProductName, name.clone());
        strings.insert(StringInfo::ProductVersion, version.clone());
        Ok(BlockInfo { language: 0, strings })
    }

    fn write_entry(&self, writer: &mut ResWriter, key: StringInfo)
        ensures
            final(writer)@ == entry_written(self@.strings, key, old(writer)@),
    {
        match self.strings.get(key) {
            Some(value) => {
                writer.value_str(key.as_str(), value.as_str());
            },
            None => {},
        }
    }

    /// Writes the block.
    pub fn write(&self, writer: &mut ResWriter)
        ensures
            final(writer)@ == self@.written(old(writer)@),
    {
        writer.begin();
        writer.block("StringFileInfo");
        let mut name = String::new();
        push_hex4(&mut name, self.language);
        push_hex4(&mut name, CHARSET);
        writer.block(name.as_str());

        self.write_entry(writer, StringInfo::Comments);
        self.write_entry(writer, StringInfo::CompanyName);
        self.write_entry(writer, StringInfo::FileDescription);
        self.write_entry(writer, StringInfo::FileVersion);
        self.write_entry(writer, StringInfo::InternalName);
        self.write_entry(writer, StringInfo::LegalCopyright);
        self.write_entry(writer, StringInfo::LegalTrademarks);
        self.write_entry(writer, StringInfo::OriginalFilename);
        self.write_entry(writer, StringInfo::PrivateBuild);
        self.write_entry(writer, StringInfo::ProductName);
        self.write_entry(writer, StringInfo::ProductVersion);
        self.write_entry(writer, StringInfo::SpecialBuild);

        writer.end();
        writer.end();

        writer.block("VarFileInfo");
        let mut pair = String::new();
        push_text(&mut pair, "0x");
        push_hex4(&mut pair, self.language);
        push_text(&mut pair, ", 0x");
        push_hex4(&mut pair, CHARSET);
        proof {
            reveal_strlit("0x");
            reveal_strlit(", 0x");
            assert("0x"@ =~= seq!['0', 'x']);
            assert(", 0x"@ =~= seq![',', ' ', '0', 'x']);
        }
        writer.value_raw("Translation", pair.as_str());
        writer.end();

        writer.end();
    }
}

impl Default for BlockInfo {
    fn default() -> (r: BlockInfo)
        ensures
            r@ == (BlockInfoView { language: 0, strings: Map::empty() }),
    {
        BlockInfo { language: 0, strings: StringTable::new() }
    }
}

} // verus!
