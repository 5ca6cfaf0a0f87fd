//! The fixed fields of a version-information resource.

use crate::error::{ResError, ResErrorView};
use crate::text::{
    decimal, parse_u16, parsed_u16, prefixed_hex, push_char, push_decimal, push_prefixed_hex,
    push_text, same_text,
};
use crate::util::{BuildEnv, BuildEnvView, EnvError};
use crate::writer::{ResWriter, WriterState};
use vstd::prelude::*;
use vstd::std_specs::ops::BitOrSpecImpl;

verus! {

/// `VS_FFI_FILEFLAGSMASK`: the bits of the file flags that have a meaning.
pub const FILE_FLAGS_MASK: u32 = 0x3F;

/// `VOS_NT_WINDOWS32`: 32-bit Windows NT.
pub const OS_WIN_NT_32: u32 = 0x40004;

/// A binary version number: four 16-bit parts.
#[derive(Debug, Clone, Copy, PartialEq, Eq, Structural)]
pub struct Version {
    pub major: u16,
    pub minor: u16,
    pub patch: u16,
    pub revision: u16,
}

/// One part of the version, read from its variable: the variable must be
/// set, and its text must write a 16-bit number in decimal.
pub open spec fn version_part(
    value: Option<Seq<char>>,
    var: Seq<char>,
    failure: Seq<char>,
) -> Result<u16, ResErrorView> {
    match value {
        None => Err(ResErrorView::EnvVarNotFound(var)),
        Some(text) => match parsed_u16(text) {
            Some(n) => Ok(n),
            None => Err(ResErrorView::Custom(failure)),
        },
    }
}

/// The version that the build's variables give: major, minor and patch
/// number read in this order, the first failure deciding; the revision is
/// zero.
pub open spec fn version_from_env(env: BuildEnvView) -> Result<Version, ResErrorView> {
    match version_part(
        env.version_major,
        "CARGO_PKG_VERSION_MAJOR"@,
        "Failed to parse version! (major)"@,
    ) {
        Err(e) => Err(e),
        Ok(major) => match version_part(
            env.version_minor,
            "CARGO_PKG_VERSION_MINOR"@,
            "Failed to parse version! (minor)"@,
        ) {
            Err(e) => Err(e),
            Ok(minor) => match version_part(
                env.version_patch,
                "CARGO_PKG_VERSION_PATCH"@,
                "Failed to parse version! (patch)"@,
            ) {
                Err(e) => Err(e),
                Ok(patch) => Ok(Version { major, minor, patch, revision: 0 }),
            },
        },
    }
}

fn read_part(value: &Option<String>, var: &'static str, failure: &'static str) -> (r: Result<
    u16,
    ResError,
>)
    ensures
        match r {
            Ok(n) => version_part(value.deep_view(), var@, failure@) == Ok::<u16, ResErrorView>(n),
            Err(e) => version_part(value.deep_view(), var@, failure@) == Err::<u16, ResErrorView>(
                e@,
            ),
        },
{
    match value {
        None => Err(ResError::EnvVarNotFound(EnvError(var))),
        Some(text) => match parse_u16(text.as_str()) {
            Some(n) => Ok(n),
            None => Err(ResError::Custom(failure)),
        },
    }
}

impl Version {
    /// The four parts as decimal numbers with dots between them.
    pub open spec fn dotted(self) -> Seq<char> {
        decimal(self.major as nat) + seq!['.'] + decimal(self.minor as nat) + seq!['.'] + decimal(
            self.patch as nat,
        ) + seq!['.'] + decimal(self.revision as nat)
    }

    /// The four parts as decimal numbers with commas between them, as a
    /// resource definition writes a version.
    pub open spec fn listed(self) -> Seq<char> {
        decimal(self.major as nat) + seq![','] + decimal(self.minor as nat) + seq![','] + decimal(
            self.patch as nat,
        ) + seq![','] + decimal(self.revision as nat)
    }

    pub fn new(major: u16, minor: u16, patch: u16, revision: u16) -> (r: Version)
        ensures
            r == (Version { major, minor, patch, revision }),
    {
        Version { major, minor, patch, revision }
    }

    /// The version `0.0.0.0`.
    pub fn zero() -> (r: Version)
        ensures
            r == (Version { major: 0, minor: 0, patch: 0, revision: 0 }),
    {
        Version::new(0, 0, 0, 0)
    }

    /// The version of the package being built, from the variables
    /// `CARGO_PKG_VERSION_MAJOR`, `CARGO_PKG_VERSION_MINOR` and
    /// `CARGO_PKG_VERSION_PATCH`. The revision is zero.
    pub fn from_env(env: &BuildEnv) -> (r: Result<Version, ResError>)
        ensures
            match r {
                Ok(v) => version_from_env(env@) == Ok::<Version, ResErrorView>(v),
                Err(e) => version_from_env(env@) == Err::<Version, ResErrorView>(e@),
            },
    {
        let major = match read_part(
            &env.version_major,
            "CARGO_PKG_VERSION_MAJOR",
            "Failed to parse version! (major)",
        ) {
            Ok(n) => n,
            Err(e) => {
                return Err(e);
            },
        };
        let minor = match read_part(
            &env.version_minor,
            "CARGO_PKG_VERSION_MINOR",
            "Failed to parse version! (minor)",
        ) {
            Ok(n) => n,
            Err(e) => {
                return Err(e);
            },
        };
        let patch = match read_part(
            &env.version_patch,
            "CARGO_PKG_VERSION_PATCH",
            "Failed to parse version! (patch)",
        ) {
            Ok(n) => n,
            Err(e) => {
                return Err(e);
            },
        };
        Ok(Version::new(major, minor, patch, 0))
    }

    /// The version as text, its parts separated by dots.
    pub fn to_string(&self) -> (r: String)
        ensures
            r@ == self.dotted(),
    {
        let mut out = String::new();
        push_decimal(&mut out, self.major as u32);
        push_char(&mut out, '.');
        push_decimal(&mut out, self.minor as u32);
        push_char(&mut out, '.');
        push_decimal(&mut out, self.patch as u32);
        push_char(&mut out, '.');
        push_decimal(&mut out, self.revision as u32);
        proof {
            assert(out@ =~= self.dotted());
        }
        out
    }
}

/// The line that gives a version under the name `field`.
pub open spec fn version_line(field: Seq<char>, version: Version) -> Seq<char> {
    field + seq![' '] + version.listed()
}

/// The line of a resource definition that gives `version` under the name
/// `field`: the four parts in decimal, separated by commas.
pub fn format_ver(field: &str, version: &Version) -> (r: String)
    ensures
        r@ == version_line(field@, *version),
{
    let mut out = String::new();
    push_text(&mut out, field);
    push_char(&mut out, ' ');
    push_decimal(&mut out, version.major as u32);
    push_char(&mut out, ',');
    push_decimal(&mut out, version.minor as u32);
    push_char(&mut out, ',');
    push_decimal(&mut out, version.patch as u32);
    push_char(&mut out, ',');
    push_decimal(&mut out, version.revision as u32);
    proof {
        assert(out@ =~= version_line(field@, *version));
    }
    out
}

/// Attributes of the file.
#[derive(Debug, Clone, Copy, PartialEq, Eq, Structural)]
pub enum FileFlags {
    /// No flags are set.
    NoFlags,
    /// The file contains debugging information or is compiled with debugging
    /// features enabled.
    Debug,
    /// The file has been modified and is not identical to the original
    /// shipping file of the same version number.
    Patched,
    /// The file is a development version, not a commercially released
    /// product.
    Prerelease,
    /// The file was not built using standard release procedures.
    PrivateBuild,
    /// The file was built by the original company using standard release
    /// procedures but is a variation of the standard file of the same version
    /// number.
    SpecialBuild,
    /// Several flags at once, as their bits.
    Combined(u32),
}

impl FileFlags {
    /// The bits of the flags.
    pub open spec fn bits(self) -> u32 {
        match self {
            FileFlags::NoFlags => 0x0,
            FileFlags::Debug => 0x1,
            FileFlags::Patched => 0x4,
            FileFlags::Prerelease => 0x2,
            FileFlags::PrivateBuild => 0x8,
            FileFlags::SpecialBuild => 0x20,
            FileFlags::Combined(v) => v,
        }
    }

    /// The flags of both sides at once.
    pub open spec fn combined(self, rhs: FileFlags) -> FileFlags {
        FileFlags::Combined(self.bits() | rhs.bits())
    }

    /// Gets the value.
    pub fn val(&self) -> (r: u32)
        ensures
            r == self.bits(),
    {
        match *self {
            FileFlags::NoFlags => 0x0,
            FileFlags::Debug => 0x1,
            FileFlags::Patched => 0x4,
            FileFlags::Prerelease => 0x2,
            FileFlags::PrivateBuild => 0x8,
            FileFlags::SpecialBuild => 0x20,
            FileFlags::Combined(v) => v,
        }
    }

    /// The flags of the package being built: the debug flag where `DEBUG` is
    /// `true`, the prerelease flag where `CARGO_PKG_VERSION_PRE` is not
    /// empty. Both variables must be set.
    pub fn from_env(env: &BuildEnv) -> (r: Result<FileFlags, ResError>)
        ensures
            match r {
                Ok(f) => flags_from_env(env@) == Ok::<FileFlags, ResErrorView>(f),
                Err(e) => flags_from_env(env@) == Err::<FileFlags, ResErrorView>(e@),
            },
    {
        let mut flags = FileFlags::NoFlags;
        match &env.debug {
            None => {
                return Err(ResError::EnvVarNotFound(EnvError("DEBUG")));
            },
            Some(debug) => {
                if same_text(debug.as_str(), "true") {
                    flags = flags | FileFlags::Debug;
                }
            },
        }
        match &env.version_pre {
            None => {
                return Err(ResError::EnvVarNotFound(EnvError("CARGO_PKG_VERSION_PRE")));
            },
            Some(pre) => {
                if !pre.as_str().is_empty() {
                    flags = flags | FileFlags::Prerelease;
                }
            },
        }
        Ok(flags)
    }
}

/// The flags that the build's variables give.
pub open spec fn flags_from_env(env: BuildEnvView) -> Result<FileFlags, ResErrorView> {
    match env.debug {
        None => Err(ResErrorView::EnvVarNotFound("DEBUG"@)),
        Some(debug) => match env.version_pre {
            None => Err(ResErrorView::EnvVarNotFound("CARGO_PKG_VERSION_PRE"@)),
            Some(pre) => {
                let first = if debug == "true"@ {
                    FileFlags::NoFlags.combined(FileFlags::Debug)
                } else {
                    FileFlags::NoFlags
                };
                if pre.len() > 0 {
                    Ok(first.combined(FileFlags::Prerelease))
                } else {
                    Ok(first)
                }
            },
        },
    }
}

impl BitOrSpecImpl for FileFlags {
    open spec fn obeys_bitor_spec() -> bool {
        true
    }

    open spec fn bitor_req(self, rhs: FileFlags) -> bool {
        true
    }

    open spec fn bitor_spec(self, rhs: FileFlags) -> FileFlags {
        self.combined(rhs)
    }
}

impl std::ops::BitOr for FileFlags {
    type Output = FileFlags;

    fn bitor(self, rhs: FileFlags) -> (r: FileFlags) {
        FileFlags::Combined(self.val() | rhs.val())
    }
}

/// What the flags of a build come to: the debug flag is bit 0, the
/// prerelease flag bit 1.
pub proof fn lemma_flags_from_env(env: BuildEnvView)
    requires
        env.debug is Some,
        env.version_pre is Some,
    ensures
        flags_from_env(env) is Ok,
        flags_from_env(env)->Ok_0.bits() == (if env.debug->0 == "true"@ {
            1u32
        } else {
            0u32
        }) + (if env.version_pre->0.len() > 0 {
            2u32
        } else {
            0u32
        }),
{
    assert(0u32 | 1u32 == 1u32) by (bit_vector);
    assert(0u32 | 2u32 == 2u32) by (bit_vector);
    assert(1u32 | 2u32 == 3u32) by (bit_vector);
}

/// The general type of a file.
#[derive(Debug, Clone, Copy, PartialEq, Eq, Structural)]
pub enum FileType {
    /// File type is unknown.
    Unknown,
    /// The file is an application.
    App,
    /// The file is a dynamic link library.
    DLL,
    /// The file is a device driver.
    DRV,
    /// The file is a font.
    Font,
    /// The file is a virtual device.
    VXD,
    /// The file is a static link library.
    StaticLib,
}

impl FileType {
    /// The number that stands for the type in a resource definition.
    pub open spec fn code(self) -> u32 {
        match self {
            FileType::Unknown => 0x0,
            FileType::App => 0x1,
            FileType::DLL => 0x2,
            FileType::DRV => 0x3,
            FileType::Font => 0x4,
            FileType::VXD => 0x5,
            FileType::StaticLib => 0x7,
        }
    }

    /// Gets the value.
    pub fn val(&self) -> (r: u32)
        ensures
            r == self.code(),
    {
        match *self {
            FileType::Unknown => 0x0,
            FileType::App => 0x1,
            FileType::DLL => 0x2,
            FileType::DRV => 0x3,
            FileType::Font => 0x4,
            FileType::VXD => 0x5,
            FileType::StaticLib => 0x7,
        }
    }
}

/// Fixed fields of the `VERSIONINFO` resource.
#[derive(Debug, Clone, Copy, PartialEq, Eq, Structural)]
pub struct FixedInfo {
    /// `FILEVERSION`: binary version number for the file.
    pub version: Version,
    /// `PRODUCTVERSION`: binary version number for the product.
    pub product_version: Version,
    /// `FILEFLAGSMASK`: which bits in the `FILEFLAGS` statement are valid.
    pub flags_mask: u32,
    /// `FILEFLAGS`: attributes of the file.
    pub flags: FileFlags,
    /// `FILEOS`: operating system for which this file was designed.
    pub os: u32,
    /// `FILETYPE`: general type of file.
    pub file_type: FileType,
    /// `FILESUBTYPE`: function of the file. Zero unless the file type is
    /// `DRV`, `Font` or `VXD`.
    pub sub_type: u32,
}

/// The line that gives a number in hexadecimal under the name `field`.
pub open spec fn hex_line(field: Seq<char>, value: u32) -> Seq<char> {
    field + prefixed_hex(value as nat)
}

fn format_hex(field: &str, value: u32) -> (r: String)
    ensures
        r@ == hex_line(field@, value),
{
    let mut out = String::new();
    push_text(&mut out, field);
    push_prefixed_hex(&mut out, value);
    out
}

/// The fixed fields that the build's variables give: file and product
/// version from the package's version, the flags from the kind of build, an
/// application for 32-bit Windows NT.
pub open spec fn fixed_from_env(env: BuildEnvView) -> Result<FixedInfo, ResErrorView> {
    match version_from_env(env) {
        Err(e) => Err(e),
        Ok(version) => match flags_from_env(env) {
            Err(e) => Err(e),
            Ok(flags) => Ok(
                FixedInfo {
                    version,
                    product_version: version,
                    flags_mask: FILE_FLAGS_MASK,
                    flags,
                    os: OS_WIN_NT_32,
                    file_type: FileType::App,
                    sub_type: 0,
                },
            ),
        },
    }
}

impl FixedInfo {
    /// The writer's state after the seven lines of the fixed fields: the two
    /// versions in decimal, the other five fields in hexadecimal.
    pub open spec fn written(self, w: WriterState) -> WriterState {
        w.line(version_line("FILEVERSION"@, self.version)).line(
            version_line("PRODUCTVERSION"@, self.product_version),
        ).line(hex_line("FILEFLAGSMASK "@, self.flags_mask)).line(
            hex_line("FILEFLAGS "@, self.flags.bits()),
        ).line(hex_line("FILEOS "@, self.os)).line(
            hex_line("FILETYPE "@, self.file_type.code()),
        ).line(hex_line("FILESUBTYPE "@, self.sub_type))
    }

    /// Create from environment variables set by cargo.
    pub fn from_env(env: &BuildEnv) -> (r: Result<FixedInfo, ResError>)
        ensures
            match r {
                Ok(f) => fixed_from_env(env@) == Ok::<FixedInfo, ResErrorView>(f),
                Err(e) => fixed_from_env(env@) == Err::<FixedInfo, ResErrorView>(e@),
            },
    {
        let version = match Version::from_env(env) {
            Ok(v) => v,
            Err(e) => {
                return Err(e);
            },
        };
        let flags = match FileFlags::from_env(env) {
            Ok(f) => f,
            Err(e) => {
                return Err(e);
            },
        };
        Ok(
            FixedInfo {
                version,
                product_version: version,
                flags_mask: FILE_FLAGS_MASK,
                flags,
                os: OS_WIN_NT_32,
                file_type: FileType::App,
                sub_type: 0,
            },
        )
    }

    /// Writes the seven lines of the fixed fields.
    pub fn write(&self, writer: &mut ResWriter)
        ensures
            final(writer)@ == self.written(old(writer)@),
    {
        writer.line(format_ver("FILEVERSION", &self.version).as_str());
        writer.line(format_ver("PRODUCTVERSION", &self.product_version).as_str());
        writer.line(format_hex("FILEFLAGSMASK ", self.flags_mask).as_str());
        writer.line(format_hex("FILEFLAGS ", self.flags.val()).as_str());
        writer.line(format_hex("FILEOS ", self.os).as_str());
        writer.line(format_hex("FILETYPE ", self.file_type.val()).as_str());
        writer.line(format_hex("FILESUBTYPE ", self.sub_type).as_str());
    }
}

impl Default for FixedInfo {
    fn default() -> (r: FixedInfo)
        ensures
            r == (FixedInfo {
                version: Version { major: 0, minor: 0, patch: 0, revision: 0 },
                product_version: Version { major: 0, minor: 0, patch: 0, revision: 0 },
                flags_mask: FILE_FLAGS_MASK,
                flags: FileFlags::NoFlags,
                os: 0,
                file_type: FileType::Unknown,
                sub_type: 0,
            }),
    {
        FixedInfo {
            version: Version::zero(),
            product_version: Version::zero(),
            flags_mask: FILE_FLAGS_MASK,
            flags: FileFlags::NoFlags,
            os: 0,
            file_type: FileType::Unknown,
            sub_type: 0,
        }
    }
}

} // verus!
