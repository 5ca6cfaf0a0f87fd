use winscribe::compiler::{Arg, CompilerError, Exit, Step};
use winscribe::error::ResError;
use winscribe::icon::Icon;
use winscribe::manifest::{DpiMode, Feature, Manifest};
use winscribe::util::{BuildEnv, FileNeed, Found};
use winscribe::version_info::{FileFlags, FileType, StringInfo, Version, VersionInfo};
use winscribe::{link_directive, ResBuilder, Resource, Saved, Task};

const PRAGMA: &str = "#pragma code_page(65001)\n";

fn done(saved: Result<Saved, ResError>) -> String {
    match saved {
        Ok(Saved::Done(bytes)) => String::from_utf8(bytes).unwrap(),
        other => panic!("unexpected: {:?}", other),
    }
}

fn needs(saved: Result<Saved, ResError>) -> FileNeed {
    match saved {
        Ok(Saved::Needs(need)) => need,
        other => panic!("unexpected: {:?}", other),
    }
}

fn demo() -> VersionInfo {
    let mut info = VersionInfo::new();
    info.fixed.version = Version::new(1, 2, 3, 0);
    info.fixed.flags = FileFlags::NoFlags;
    info.fixed.file_type = FileType::App;
    info.block.strings.insert(StringInfo::FileDescription, "Demo".to_string());
    info.with_language(0)
}

#[test]
fn save_without_resources_is_the_code_page_line() {
    let builder = ResBuilder::new();
    assert_eq!(builder.len(), 0);
    assert_eq!(done(builder.save(&BuildEnv::new(), &vec![])), PRAGMA);
    assert_eq!(done(ResBuilder::default().save(&BuildEnv::new(), &vec![])), PRAGMA);
}

#[test]
fn save_ignores_what_no_resource_asked_for() {
    let found = vec![Found::Failed("unused".to_string()), Found::NotUnicode];
    assert_eq!(done(ResBuilder::new().save(&BuildEnv::new(), &found)), PRAGMA);
    let builder = ResBuilder::new().push(VersionInfo::new());
    let with = done(builder.save(&BuildEnv::new(), &found));
    let without = done(builder.save(&BuildEnv::new(), &vec![]));
    assert_eq!(with, without);
}

#[test]
fn save_version_info_end_to_end() {
    let builder = ResBuilder::new().push(demo());
    let text = done(builder.save(&BuildEnv::new(), &vec![]));
    let lines: Vec<&str> = text.lines().collect();
    assert_eq!(lines[0], "#pragma code_page(65001)");
    assert_eq!(lines[1], "");
    assert_eq!(lines[2], "1 VERSIONINFO");
    assert!(lines.contains(&"FILEVERSION 1,2,3,0"));
    assert!(lines.contains(&"FILEFLAGS 0x0"));
    assert!(lines.contains(&"FILETYPE 0x1"));
    let strings = lines.iter().position(|l| *l == "\tBLOCK \"StringFileInfo\"").unwrap();
    assert_eq!(lines[strings + 1], "\t{");
    assert_eq!(lines[strings + 2], "\t\tBLOCK \"000004B0\"");
    assert_eq!(lines[strings + 3], "\t\t{");
    assert_eq!(lines[strings + 4], "\t\t\tVALUE \"FileDescription\", \"Demo\"");
    assert_eq!(lines[strings + 5], "\t\t}");
    assert_eq!(lines[strings + 6], "\t}");
    assert_eq!(lines[strings + 7], "\tBLOCK \"VarFileInfo\"");
    assert_eq!(lines[strings + 8], "\t{");
    assert_eq!(lines[strings + 9], "\t\tVALUE \"Translation\", 0x0000, 0x04B0");
    assert_eq!(lines[strings + 10], "\t}");
    assert_eq!(lines[strings + 11], "}");
    assert_eq!(lines.len(), strings + 12);
}

#[test]
fn save_asks_for_each_file_in_order() {
    let builder = ResBuilder::new()
        .push(Icon::app("app.ico"))
        .push(VersionInfo::new())
        .push(Manifest::from(Feature::DpiAware(DpiMode::System)))
        .push(Manifest::External("other.manifest".to_string()));
    assert_eq!(builder.len(), 4);
    let mut env = BuildEnv::new();
    env.out_dir = Some("out".to_string());
    let mut found = Vec::new();

    match needs(builder.save(&env, &found)) {
        FileNeed::Resolve(path) => assert_eq!(path, "app.ico"),
        other => panic!("unexpected: {:?}", other),
    }
    found.push(Found::Path("C:\\app.ico".to_string()));

    match needs(builder.save(&env, &found)) {
        FileNeed::Store(place, contents) => {
            assert_eq!(place.base, "out");
            assert_eq!(place.names, vec!["manifest.xml".to_string()]);
            assert!(contents.starts_with("<?xml version=\"1.0\""));
            assert!(contents.contains("<dpiAwareness xmlns=\"http://schemas.microsoft.com/SMI/2016/WindowsSettings\">system</dpiAwareness>"));
            assert!(contents.ends_with("</assembly>"));
        }
        other => panic!("unexpected: {:?}", other),
    }
    found.push(Found::Path("C:\\out\\manifest.xml".to_string()));

    match needs(builder.save(&env, &found)) {
        FileNeed::Resolve(path) => assert_eq!(path, "other.manifest"),
        other => panic!("unexpected: {:?}", other),
    }
    found.push(Found::Path("C:\\other.manifest".to_string()));

    let text = done(builder.save(&env, &found));
    assert!(text.starts_with("#pragma code_page(65001)\n\n32512 ICON \"C:\\\\app.ico\"\n\n1 VERSIONINFO\n"));
    assert!(text.ends_with("}\n\n1 24 \"C:\\\\out\\\\manifest.xml\"\n\n1 24 \"C:\\\\other.manifest\"\n"));
}

#[test]
fn save_fails_with_the_first_failure() {
    let builder = ResBuilder::new()
        .push(Icon::app("app.ico"))
        .push(Manifest::Internal("<assembly/>".to_string()))
        .push(Icon::new("2", "two.ico"));
    let mut env = BuildEnv::new();
    let ok = Found::Path("x".to_string());

    match builder.save(&env, &vec![Found::Failed("no such file".to_string())]) {
        Err(ResError::Io(message)) => assert_eq!(message, "no such file"),
        other => panic!("unexpected: {:?}", other),
    }
    match builder.save(&env, &vec![Found::NotUnicode, Found::Path("x".to_string())]) {
        Err(ResError::Custom(message)) => {
            assert_eq!(message, "Failed to convert path to string! Not a valid UTF-8?")
        }
        other => panic!("unexpected: {:?}", other),
    }
    match builder.save(&env, &vec![Found::Path("x".to_string())]) {
        Err(ResError::EnvVarNotFound(e)) => assert_eq!(e.0, "OUT_DIR"),
        other => panic!("unexpected: {:?}", other),
    }
    env.out_dir = Some("out".to_string());
    match builder.save(&env, &vec![ok, Found::Failed("read-only".to_string())]) {
        Err(ResError::Io(message)) => assert_eq!(message, "read-only"),
        other => panic!("unexpected: {:?}", other),
    }
    let found = vec![
        Found::Path("a".to_string()),
        Found::Path("b".to_string()),
        Found::NotUnicode,
    ];
    assert!(matches!(builder.save(&env, &found), Err(ResError::Custom(_))));
}

#[test]
fn push_takes_any_kind_of_resource() {
    let builder = ResBuilder::new()
        .push(Resource::Icon(Icon::app("a.ico")))
        .push(Resource::VersionInfo(VersionInfo::new()))
        .push(Resource::Manifest(Manifest::External("m".to_string())));
    assert_eq!(builder.len(), 3);
}

#[test]
fn resource_need_and_write() {
    let env = BuildEnv::new();
    let info = Resource::from(VersionInfo::new());
    assert!(matches!(info.need(&env), Ok(None)));
    let icon = Resource::from(Icon::app("a.ico"));
    assert!(matches!(icon.need(&env), Ok(Some(FileNeed::Resolve(_)))));
    let manifest = Resource::from(Manifest::Internal("x".to_string()));
    assert!(matches!(manifest.need(&env), Err(ResError::EnvVarNotFound(_))));

    let mut writer = winscribe::writer::ResWriter::new();
    assert!(icon.write(&mut writer, &Found::Path("C:/a.ico".to_string())).is_ok());
    assert!(manifest.write(&mut writer, &Found::Path("C:/m.xml".to_string())).is_ok());
    assert!(info.write(&mut writer, &Found::NotUnicode).is_ok());
    let text = String::from_utf8(writer.into_bytes()).unwrap();
    assert!(text.starts_with("#pragma code_page(65001)\n32512 ICON \"C:/a.ico\"\n1 24 \"C:/m.xml\"\n1 VERSIONINFO\n"));
}

#[test]
fn builder_from_env_holds_the_version_information() {
    let mut env = BuildEnv::new();
    env.pkg_name = Some("demo".to_string());
    env.pkg_description = Some("Demo".to_string());
    env.pkg_version = Some("0.1.0".to_string());
    env.version_major = Some("0".to_string());
    env.version_minor = Some("1".to_string());
    env.version_patch = Some("0".to_string());
    env.version_pre = Some("".to_string());
    env.debug = Some("false".to_string());
    let builder = ResBuilder::from_env(&env).unwrap();
    assert_eq!(builder.len(), 1);
    let text = done(builder.save(&env, &vec![]));
    assert!(text.contains("\nFILEVERSION 0,1,0,0\nPRODUCTVERSION 0,1,0,0\nFILEFLAGSMASK 0x3F\nFILEFLAGS 0x0\nFILEOS 0x40004\nFILETYPE 0x1\nFILESUBTYPE 0x0\n"));
    assert!(text.contains("\t\t\tVALUE \"FileDescription\", \"Demo\"\n\t\t\tVALUE \"FileVersion\", \"0.1.0\"\n\t\t\tVALUE \"InternalName\", \"demo\"\n\t\t\tVALUE \"ProductName\", \"demo\"\n\t\t\tVALUE \"ProductVersion\", \"0.1.0\"\n"));

    env.debug = None;
    match ResBuilder::from_env(&env) {
        Err(ResError::EnvVarNotFound(e)) => assert_eq!(e.0, "DEBUG"),
        other => panic!("unexpected: {:?}", other),
    }
}

#[test]
fn link_directive_names_the_compiled_resources() {
    assert_eq!(
        link_directive("C:\\out\\resource.res"),
        "cargo:rustc-link-arg-bins=C:\\out\\resource.res"
    );
}

fn build_env() -> BuildEnv {
    let mut env = BuildEnv::new();
    env.out_dir = Some("out".to_string());
    env.host = Some("x86_64-pc-windows-msvc".to_string());
    env
}

fn joined(place: &winscribe::util::Location) -> String {
    let mut out = place.base.clone();
    for name in &place.names {
        out.push('|');
        out.push_str(name);
    }
    out
}

#[test]
fn compile_needs_the_output_directory_before_anything_else() {
    let builder = ResBuilder::new().push(Icon::app("app.ico"));
    let mut progress = winscribe::Progress::new();
    progress.found.push(Found::Failed("gone".to_string()));
    match builder.compile(&BuildEnv::new(), &progress) {
        Err(ResError::EnvVarNotFound(e)) => assert_eq!(e.0, "OUT_DIR"),
        other => panic!("unexpected: {:?}", other),
    }
    match builder.compile(&build_env(), &progress) {
        Err(ResError::Io(message)) => assert_eq!(message, "gone"),
        other => panic!("unexpected: {:?}", other),
    }
}

#[test]
fn compile_goes_through_every_step() {
    let env = build_env();
    let builder = ResBuilder::new().push(Icon::app("app.ico"));
    let mut progress = winscribe::Progress::new();

    match builder.compile(&env, &progress) {
        Ok(Task::Need(FileNeed::Resolve(path))) => assert_eq!(path, "app.ico"),
        other => panic!("unexpected: {:?}", other),
    }
    progress.found.push(Found::Path("C:\\app.ico".to_string()));

    match builder.compile(&env, &progress) {
        Ok(Task::Store(place, bytes)) => {
            assert_eq!(joined(&place), "out|resource.rc");
            assert_eq!(
                String::from_utf8(bytes).unwrap(),
                "#pragma code_page(65001)\n\n32512 ICON \"C:\\\\app.ico\"\n"
            );
        }
        other => panic!("unexpected: {:?}", other),
    }
    progress.stored = Some(Ok(()));

    match builder.compile(&env, &progress) {
        Ok(Task::Ask(Step::ReadRegistry(key, value))) => {
            assert_eq!(key, "SOFTWARE\\Microsoft\\Windows Kits\\Installed Roots");
            assert_eq!(value, "KitsRoot10");
        }
        other => panic!("unexpected: {:?}", other),
    }
    progress.known.root = Some(Ok("C:\\Kits".to_string()));

    match builder.compile(&env, &progress) {
        Ok(Task::Ask(Step::ListDirs(place))) => assert_eq!(joined(&place), "C:\\Kits|bin"),
        other => panic!("unexpected: {:?}", other),
    }
    progress.known.versions = Some(Ok(vec!["10.0.1".to_string(), "10.0.2".to_string()]));

    match builder.compile(&env, &progress) {
        Ok(Task::Ask(Step::Probe(place))) => {
            assert_eq!(joined(&place), "C:\\Kits|bin|10.0.2|x64|rc.exe")
        }
        other => panic!("unexpected: {:?}", other),
    }
    progress.known.probes.push(false);

    match builder.compile(&env, &progress) {
        Ok(Task::Ask(Step::Probe(place))) => {
            assert_eq!(joined(&place), "C:\\Kits|bin|10.0.1|x64|rc.exe")
        }
        other => panic!("unexpected: {:?}", other),
    }
    progress.known.probes.push(true);

    match builder.compile(&env, &progress) {
        Ok(Task::Run(program, args)) => {
            assert_eq!(joined(&program), "C:\\Kits|bin|10.0.1|x64|rc.exe");
            let words: Vec<String> = args
                .iter()
                .map(|arg| match arg {
                    Arg::Text(word) => word.clone(),
                    Arg::Path(place) => joined(place),
                })
                .collect();
            assert_eq!(words, vec!["/fo", "out|resource.res", "out|resource.rc"]);
        }
        other => panic!("unexpected: {:?}", other),
    }
    progress.exit = Some(Exit::Ended(true, Some(0)));

    match builder.compile(&env, &progress) {
        Ok(Task::Link(place)) => assert_eq!(joined(&place), "out|resource.res"),
        other => panic!("unexpected: {:?}", other),
    }
}

#[test]
fn compile_fails_where_a_step_failed() {
    let env = build_env();
    let builder = ResBuilder::new();
    let mut progress = winscribe::Progress::new();
    progress.stored = Some(Err("disk full".to_string()));
    match builder.compile(&env, &progress) {
        Err(ResError::Io(message)) => assert_eq!(message, "disk full"),
        other => panic!("unexpected: {:?}", other),
    }
    progress.stored = Some(Ok(()));
    progress.known.root = Some(Err(2));
    assert!(matches!(
        builder.compile(&env, &progress),
        Err(ResError::Compiler(CompilerError::SdkNotFound(2)))
    ));
    progress.known.root = Some(Ok("C:\\Kits".to_string()));
    progress.known.versions = Some(Ok(vec!["10".to_string()]));
    progress.known.probes.push(false);
    assert!(matches!(
        builder.compile(&env, &progress),
        Err(ResError::Compiler(CompilerError::CompilerNotFound))
    ));
    progress.known.probes[0] = true;
    progress.exit = Some(Exit::Ended(false, Some(1)));
    assert!(matches!(
        builder.compile(&env, &progress),
        Err(ResError::Compiler(CompilerError::StatusFailure(1)))
    ));
    progress.exit = Some(Exit::Ended(false, None));
    assert!(matches!(
        builder.compile(&env, &progress),
        Err(ResError::Compiler(CompilerError::Terminated))
    ));
    progress.exit = Some(Exit::NotStarted("no such program".to_string()));
    assert!(matches!(
        builder.compile(&env, &progress),
        Err(ResError::Compiler(CompilerError::CommandFailed(_)))
    ));
}
