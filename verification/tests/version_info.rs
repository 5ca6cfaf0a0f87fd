use winscribe::error::ResError;
use winscribe::util::BuildEnv;
use winscribe::version_info::{
    format_ver, BlockInfo, FileFlags, FileType, FixedInfo, StringInfo, StringTable, Version,
    VersionInfo,
};
use winscribe::writer::ResWriter;

fn text(writer: &ResWriter) -> String {
    String::from_utf8(writer.as_bytes().to_vec()).unwrap()
}

fn cargo_env() -> BuildEnv {
    let mut env = BuildEnv::new();
    env.pkg_name = Some("demo".to_string());
    env.pkg_description = Some("A \"demo\"".to_string());
    env.pkg_version = Some("1.2.3-beta".to_string());
    env.version_major = Some("1".to_string());
    env.version_minor = Some("2".to_string());
    env.version_patch = Some("3".to_string());
    env.version_pre = Some("beta".to_string());
    env.debug = Some("true".to_string());
    env
}

fn missing(result: Result<impl std::fmt::Debug, ResError>) -> &'static str {
    match result {
        Err(ResError::EnvVarNotFound(e)) => e.0,
        other => panic!("unexpected: {:?}", other),
    }
}

fn custom(result: Result<impl std::fmt::Debug, ResError>) -> &'static str {
    match result {
        Err(ResError::Custom(message)) => message,
        other => panic!("unexpected: {:?}", other),
    }
}

#[test]
fn format_ver_writes_decimal_parts_with_commas() {
    assert_eq!(format_ver("FILEVERSION", &Version::new(1, 2, 3, 0)), "FILEVERSION 1,2,3,0");
    assert_eq!(
        format_ver("PRODUCTVERSION", &Version::new(65535, 0, 10, 100)),
        "PRODUCTVERSION 65535,0,10,100"
    );
    assert_eq!(format_ver("FILEVERSION", &Version::zero()), "FILEVERSION 0,0,0,0");
}

#[test]
fn format_ver_agrees_with_decimal_formatting() {
    for (a, b, c, d) in [(0u16, 9u16, 10u16, 99u16), (100, 999, 1000, 9999), (10000, 65535, 1, 70)] {
        assert_eq!(
            format_ver("FILEVERSION", &Version::new(a, b, c, d)),
            format!("FILEVERSION {},{},{},{}", a, b, c, d)
        );
    }
}

#[test]
fn version_to_string_separates_by_dots() {
    assert_eq!(Version::new(1, 2, 3, 4).to_string(), "1.2.3.4");
    assert_eq!(Version::zero().to_string(), "0.0.0.0");
}

#[test]
fn version_from_env_reads_three_parts() {
    assert_eq!(Version::from_env(&cargo_env()).unwrap(), Version::new(1, 2, 3, 0));
}

#[test]
fn version_from_env_reports_the_first_failure() {
    let mut env = cargo_env();
    env.version_patch = Some("x".to_string());
    assert_eq!(custom(Version::from_env(&env)), "Failed to parse version! (patch)");
    env.version_minor = Some("70000".to_string());
    assert_eq!(custom(Version::from_env(&env)), "Failed to parse version! (minor)");
    env.version_major = Some("".to_string());
    assert_eq!(custom(Version::from_env(&env)), "Failed to parse version! (major)");
    env.version_major = None;
    assert_eq!(missing(Version::from_env(&env)), "CARGO_PKG_VERSION_MAJOR");
    env.version_major = Some("1".to_string());
    env.version_minor = None;
    assert_eq!(missing(Version::from_env(&env)), "CARGO_PKG_VERSION_MINOR");
    env.version_minor = Some("1".to_string());
    env.version_patch = None;
    assert_eq!(missing(Version::from_env(&env)), "CARGO_PKG_VERSION_PATCH");
}

#[test]
fn file_flags_values() {
    assert_eq!(FileFlags::NoFlags.val(), 0x0);
    assert_eq!(FileFlags::Debug.val(), 0x1);
    assert_eq!(FileFlags::Prerelease.val(), 0x2);
    assert_eq!(FileFlags::Patched.val(), 0x4);
    assert_eq!(FileFlags::PrivateBuild.val(), 0x8);
    assert_eq!(FileFlags::SpecialBuild.val(), 0x20);
    assert_eq!(FileFlags::Combined(0x2A).val(), 0x2A);
}

#[test]
fn file_flags_combine_by_bits() {
    assert_eq!(FileFlags::Debug | FileFlags::Patched, FileFlags::Combined(0x5));
    assert_eq!(FileFlags::NoFlags | FileFlags::NoFlags, FileFlags::Combined(0));
    assert_eq!(
        (FileFlags::Combined(0x28) | FileFlags::SpecialBuild).val(),
        0x28
    );
}

#[test]
fn file_flags_from_env() {
    let mut env = cargo_env();
    assert_eq!(FileFlags::from_env(&env).unwrap(), FileFlags::Combined(3));
    env.debug = Some("false".to_string());
    assert_eq!(FileFlags::from_env(&env).unwrap(), FileFlags::Combined(2));
    env.version_pre = Some("".to_string());
    assert_eq!(FileFlags::from_env(&env).unwrap(), FileFlags::NoFlags);
    env.debug = Some("true".to_string());
    assert_eq!(FileFlags::from_env(&env).unwrap(), FileFlags::Combined(1));
    env.version_pre = None;
    assert_eq!(missing(FileFlags::from_env(&env)), "CARGO_PKG_VERSION_PRE");
    env.debug = None;
    assert_eq!(missing(FileFlags::from_env(&env)), "DEBUG");
}

#[test]
fn file_type_values() {
    assert_eq!(FileType::Unknown.val(), 0);
    assert_eq!(FileType::App.val(), 1);
    assert_eq!(FileType::DLL.val(), 2);
    assert_eq!(FileType::DRV.val(), 3);
    assert_eq!(FileType::Font.val(), 4);
    assert_eq!(FileType::VXD.val(), 5);
    assert_eq!(FileType::StaticLib.val(), 7);
}

#[test]
fn fixed_info_default() {
    let fixed = FixedInfo::default();
    assert_eq!(fixed.version, Version::zero());
    assert_eq!(fixed.product_version, Version::zero());
    assert_eq!(fixed.flags_mask, 0x3F);
    assert_eq!(fixed.flags, FileFlags::NoFlags);
    assert_eq!(fixed.os, 0);
    assert_eq!(fixed.file_type, FileType::Unknown);
    assert_eq!(fixed.sub_type, 0);
}

#[test]
fn fixed_info_from_env() {
    let fixed = FixedInfo::from_env(&cargo_env()).unwrap();
    assert_eq!(fixed.version, Version::new(1, 2, 3, 0));
    assert_eq!(fixed.product_version, Version::new(1, 2, 3, 0));
    assert_eq!(fixed.flags_mask, 0x3F);
    assert_eq!(fixed.flags, FileFlags::Combined(3));
    assert_eq!(fixed.os, 0x40004);
    assert_eq!(fixed.file_type, FileType::App);
    assert_eq!(fixed.sub_type, 0);
}

#[test]
fn fixed_info_from_env_reads_the_version_first() {
    let mut env = cargo_env();
    env.debug = None;
    env.version_major = Some("one".to_string());
    assert_eq!(custom(FixedInfo::from_env(&env)), "Failed to parse version! (major)");
    env.version_major = Some("1".to_string());
    assert_eq!(missing(FixedInfo::from_env(&env)), "DEBUG");
}

#[test]
fn fixed_info_writes_seven_lines() {
    let fixed = FixedInfo {
        version: Version::new(1, 2, 3, 0),
        product_version: Version::new(4, 5, 6, 7),
        flags_mask: 0x3F,
        flags: FileFlags::Combined(0x21),
        os: 0x40004,
        file_type: FileType::DLL,
        sub_type: 0xABCDEF12,
    };
    let mut writer = ResWriter::new();
    fixed.write(&mut writer);
    assert_eq!(
        text(&writer),
        "#pragma code_page(65001)\nFILEVERSION 1,2,3,0\nPRODUCTVERSION 4,5,6,7\nFILEFLAGSMASK 0x3F\nFILEFLAGS 0x21\nFILEOS 0x40004\nFILETYPE 0x2\nFILESUBTYPE 0xABCDEF12\n"
    );
}

#[test]
fn fixed_info_hexadecimal_agrees_with_formatting() {
    for value in [0u32, 9, 10, 15, 16, 255, 256, 0xFFFF, 0x10000, u32::MAX] {
        let mut fixed = FixedInfo::default();
        fixed.sub_type = value;
        let mut writer = ResWriter::new();
        fixed.write(&mut writer);
        assert!(text(&writer).ends_with(&format!("FILESUBTYPE {:#X}\n", value)));
    }
}

#[test]
fn string_info_names() {
    let all = [
        (StringInfo::Comments, "Comments"),
        (StringInfo::CompanyName, "CompanyName"),
        (StringInfo::FileDescription, "FileDescription"),
        (StringInfo::FileVersion, "FileVersion"),
        (StringInfo::InternalName, "InternalName"),
        (StringInfo::LegalCopyright, "LegalCopyright"),
        (StringInfo::LegalTrademarks, "LegalTrademarks"),
        (StringInfo::OriginalFilename, "OriginalFilename"),
        (StringInfo::PrivateBuild, "PrivateBuild"),
        (StringInfo::ProductName, "ProductName"),
        (StringInfo::ProductVersion, "ProductVersion"),
        (StringInfo::SpecialBuild, "SpecialBuild"),
    ];
    for (key, name) in all {
        assert_eq!(key.as_str(), name);
    }
}

#[test]
fn string_table_holds_one_value_for_each_name() {
    let mut table = StringTable::new();
    assert_eq!(table.get(StringInfo::Comments), None);
    table.insert(StringInfo::Comments, "first".to_string());
    table.insert(StringInfo::SpecialBuild, "special".to_string());
    table.insert(StringInfo::Comments, "second".to_string());
    assert_eq!(table.get(StringInfo::Comments), Some(&"second".to_string()));
    assert_eq!(table.get(StringInfo::SpecialBuild), Some(&"special".to_string()));
    assert_eq!(table.get(StringInfo::CompanyName), None);
}

#[test]
fn string_table_from_pairs_keeps_the_later_value() {
    let table = StringTable::from_pairs(vec![
        (StringInfo::ProductName, "a".to_string()),
        (StringInfo::FileVersion, "b".to_string()),
        (StringInfo::ProductName, "c".to_string()),
    ]);
    assert_eq!(table.get(StringInfo::ProductName), Some(&"c".to_string()));
    assert_eq!(table.get(StringInfo::FileVersion), Some(&"b".to_string()));
    assert_eq!(table.get(StringInfo::InternalName), None);
}

#[test]
fn string_table_holds_every_name() {
    let keys = [
        StringInfo::Comments,
        StringInfo::CompanyName,
        StringInfo::FileDescription,
        StringInfo::FileVersion,
        StringInfo::InternalName,
        StringInfo::LegalCopyright,
        StringInfo::LegalTrademarks,
        StringInfo::OriginalFilename,
        StringInfo::PrivateBuild,
        StringInfo::ProductName,
        StringInfo::ProductVersion,
        StringInfo::SpecialBuild,
    ];
    let mut table = StringTable::new();
    for key in keys {
        table.insert(key, key.as_str().to_lowercase());
    }
    for key in keys {
        assert_eq!(table.get(key), Some(&key.as_str().to_lowercase()));
    }
}

#[test]
fn block_info_default_is_neutral_and_empty() {
    let block = BlockInfo::default();
    assert_eq!(block.language, 0);
    assert_eq!(block.strings.get(StringInfo::FileDescription), None);
}

#[test]
fn block_info_from_env() {
    let block = BlockInfo::from_env(&cargo_env()).unwrap();
    assert_eq!(block.language, 0);
    assert_eq!(block.strings.get(StringInfo::FileDescription), Some(&"A \"demo\"".to_string()));
    assert_eq!(block.strings.get(StringInfo::FileVersion), Some(&"1.2.3-beta".to_string()));
    assert_eq!(block.strings.get(StringInfo::InternalName), Some(&"demo".to_string()));
    assert_eq!(block.strings.get(StringInfo::ProductName), Some(&"demo".to_string()));
    assert_eq!(block.strings.get(StringInfo::ProductVersion), Some(&"1.2.3-beta".to_string()));
    assert_eq!(block.strings.get(StringInfo::Comments), None);
    assert_eq!(block.strings.get(StringInfo::CompanyName), None);
}

#[test]
fn block_info_from_env_names_the_missing_variable() {
    let mut env = cargo_env();
    env.pkg_version = None;
    assert_eq!(missing(BlockInfo::from_env(&env)), "CARGO_PKG_VERSION");
    env.pkg_description = None;
    assert_eq!(missing(BlockInfo::from_env(&env)), "CARGO_PKG_DESCRIPTION");
    env.pkg_name = None;
    assert_eq!(missing(BlockInfo::from_env(&env)), "CARGO_PKG_NAME");
}

#[test]
fn block_info_writes_strings_in_the_order_of_the_names() {
    let block = BlockInfo::new(
        0x0409,
        vec![
            (StringInfo::ProductName, "Demo".to_string()),
            (StringInfo::CompanyName, "We \"the\" makers".to_string()),
            (StringInfo::FileVersion, "1.0".to_string()),
        ],
    );
    let mut writer = ResWriter::new();
    block.write(&mut writer);
    assert_eq!(
        text(&writer),
        "#pragma code_page(65001)\n\
         {\n\
         \tBLOCK \"StringFileInfo\"\n\
         \t{\n\
         \t\tBLOCK \"040904B0\"\n\
         \t\t{\n\
         \t\t\tVALUE \"CompanyName\", \"We \"\"the\"\" makers\"\n\
         \t\t\tVALUE \"FileVersion\", \"1.0\"\n\
         \t\t\tVALUE \"ProductName\", \"Demo\"\n\
         \t\t}\n\
         \t}\n\
         \tBLOCK \"VarFileInfo\"\n\
         \t{\n\
         \t\tVALUE \"Translation\", 0x0409, 0x04B0\n\
         \t}\n\
         }\n"
    );
    assert_eq!(writer.level(), 0);
}

#[test]
fn block_info_language_agrees_with_formatting() {
    for language in [0u16, 9, 0x0409, 0x0C0A, 0xFFFF, 0x1000] {
        let block = BlockInfo::new(language, vec![]);
        let mut writer = ResWriter::new();
        block.write(&mut writer);
        let out = text(&writer);
        assert!(out.contains(&format!("BLOCK \"{:04X}{:04X}\"\n", language, 1200)));
        assert!(out.contains(&format!(
            "VALUE \"Translation\", {:#06X}, {:#06X}\n",
            language, 1200
        )));
    }
}

#[test]
fn version_info_new_is_the_default() {
    let info = VersionInfo::new();
    assert_eq!(info.fixed, FixedInfo::default());
    assert_eq!(info.block.language, 0);
    let info = VersionInfo::default();
    assert_eq!(info.fixed, FixedInfo::default());
}

#[test]
fn version_info_with_language() {
    let mut info = VersionInfo::new();
    info.block.strings.insert(StringInfo::Comments, "kept".to_string());
    info.fixed.os = 4;
    let info = info.with_language(0x0409);
    assert_eq!(info.block.language, 0x0409);
    assert_eq!(info.block.strings.get(StringInfo::Comments), Some(&"kept".to_string()));
    assert_eq!(info.fixed.os, 4);
}

#[test]
fn version_info_from_env() {
    let info = VersionInfo::from_env(&cargo_env()).unwrap();
    assert_eq!(info.fixed.version, Version::new(1, 2, 3, 0));
    assert_eq!(info.block.strings.get(StringInfo::ProductName), Some(&"demo".to_string()));
    let mut env = cargo_env();
    env.pkg_name = None;
    env.version_pre = None;
    assert_eq!(missing(VersionInfo::from_env(&env)), "CARGO_PKG_VERSION_PRE");
    env.version_pre = Some("".to_string());
    assert_eq!(missing(VersionInfo::from_env(&env)), "CARGO_PKG_NAME");
}

#[test]
fn version_info_writes_header_fields_and_block() {
    let mut info = VersionInfo::new();
    info.fixed.version = Version::new(1, 2, 3, 0);
    info.fixed.file_type = FileType::App;
    info.block.strings.insert(StringInfo::FileDescription, "Demo".to_string());
    let mut writer = ResWriter::new();
    assert!(info.write(&mut writer).is_ok());
    assert_eq!(
        text(&writer),
        "#pragma code_page(65001)\n\
         1 VERSIONINFO\n\
         FILEVERSION 1,2,3,0\n\
         PRODUCTVERSION 0,0,0,0\n\
         FILEFLAGSMASK 0x3F\n\
         FILEFLAGS 0x0\n\
         FILEOS 0x0\n\
         FILETYPE 0x1\n\
         FILESUBTYPE 0x0\n\
         {\n\
         \tBLOCK \"StringFileInfo\"\n\
         \t{\n\
         \t\tBLOCK \"000004B0\"\n\
         \t\t{\n\
         \t\t\tVALUE \"FileDescription\", \"Demo\"\n\
         \t\t}\n\
         \t}\n\
         \tBLOCK \"VarFileInfo\"\n\
         \t{\n\
         \t\tVALUE \"Translation\", 0x0000, 0x04B0\n\
         \t}\n\
         }\n"
    );
}
