use winscribe::compiler::{
    check_exit, compile, compiler, get_arch, precedes, rank, sdk_bin_path, sdk_path, Action, Arg,
    CompilerError, Exit, Findings, Search, Step,
};
use winscribe::error::ResError;
use winscribe::util::{BuildEnv, EnvError, Location};

fn host(triple: &str) -> BuildEnv {
    let mut env = BuildEnv::new();
    env.host = Some(triple.to_string());
    env
}

fn names(list: &[&str]) -> Vec<String> {
    list.iter().map(|s| s.to_string()).collect()
}

fn path_of(place: &Location) -> String {
    let mut out = place.base.clone();
    for name in &place.names {
        out.push('|');
        out.push_str(name);
    }
    out
}

#[test]
fn get_arch_maps_the_three_architectures() {
    assert_eq!(get_arch(&host("x86_64-pc-windows-msvc")).unwrap(), "x64");
    assert_eq!(get_arch(&host("i686-pc-windows-msvc")).unwrap(), "x86");
    assert_eq!(get_arch(&host("aarch64-pc-windows-msvc")).unwrap(), "arm64");
    assert_eq!(get_arch(&host("x86_64-")).unwrap(), "x64");
    assert_eq!(get_arch(&host("i686--")).unwrap(), "x86");
}

#[test]
fn get_arch_refuses_other_architectures() {
    for triple in ["arm-unknown-linux", "x86-pc", "X86_64-pc", "-x86_64", "x86_64x-pc", " i686-pc", "-"] {
        assert!(
            matches!(get_arch(&host(triple)), Err(CompilerError::UnsupportedArch)),
            "{:?}",
            triple
        );
    }
}

#[test]
fn get_arch_refuses_a_host_without_hyphen() {
    for triple in ["", "x86_64", "i686", "aarch64", "windows"] {
        assert!(
            matches!(get_arch(&host(triple)), Err(CompilerError::InvalidHost)),
            "{:?}",
            triple
        );
    }
}

#[test]
fn get_arch_needs_the_host() {
    match get_arch(&BuildEnv::new()) {
        Err(CompilerError::EnvVarNotFound(e)) => assert_eq!(e.0, "HOST"),
        other => panic!("unexpected: {:?}", other),
    }
}

#[test]
fn sdk_path_is_the_registry_value() {
    assert_eq!(sdk_path(&Ok("C:\\Kits\\10\\".to_string())).unwrap(), "C:\\Kits\\10\\");
    assert!(matches!(sdk_path(&Err(-2147024894)), Err(CompilerError::SdkNotFound(-2147024894))));
}

#[test]
fn sdk_bin_path_is_bin_below_the_root() {
    let bin = sdk_bin_path(&Ok("C:\\Kits\\10\\".to_string())).unwrap();
    assert_eq!(bin.base, "C:\\Kits\\10\\");
    assert_eq!(bin.names, names(&["bin"]));
    assert!(matches!(sdk_bin_path(&Err(5)), Err(CompilerError::SdkNotFound(5))));
}

#[test]
fn precedes_orders_by_bytes() {
    assert!(precedes("", "a"));
    assert!(!precedes("a", ""));
    assert!(!precedes("", ""));
    assert!(!precedes("abc", "abc"));
    assert!(precedes("abc", "abd"));
    assert!(precedes("ab", "abc"));
    assert!(!precedes("abc", "ab"));
    assert!(precedes("10.0.10", "10.0.9"));
    assert!(precedes("Z", "a"));
    assert!(precedes("z", "\u{00e9}"));
    assert!(precedes("\u{00e9}", "\u{2603}"));
}

#[test]
fn precedes_agrees_with_the_order_of_strings() {
    let all = ["", "1", "10", "10.0.19041.0", "10.0.9", "10.0.10", "2", "a", "A", "\u{00e9}", "\u{1F600}", "ab", "b"];
    for a in all {
        for b in all {
            assert_eq!(precedes(a, b), a < b, "{:?} {:?}", a, b);
        }
    }
}

#[test]
fn rank_puts_the_last_in_the_order_of_strings_first() {
    let ranked = rank(&names(&["10.0.17763.0", "10.0.22621.0", "10.0.19041.0"]));
    assert_eq!(ranked, names(&["10.0.22621.0", "10.0.19041.0", "10.0.17763.0"]));
}

#[test]
fn rank_orders_text_not_numbers() {
    let ranked = rank(&names(&["10.0.9", "10.0.10", "x86", "arm64", "10.0.9"]));
    assert_eq!(ranked, names(&["x86", "arm64", "10.0.9", "10.0.9", "10.0.10"]));
}

#[test]
fn rank_agrees_with_a_descending_sort() {
    let list = names(&["b", "", "a", "c", "ab", "B", "\u{00e9}", "10", "9", "c"]);
    let mut expected = list.clone();
    expected.sort_by(|a, b| b.cmp(a));
    assert_eq!(rank(&list), expected);
    assert_eq!(rank(&Vec::new()), Vec::<String>::new());
}

fn known(root: Option<Result<&str, i32>>, versions: Option<Result<&[&str], &str>>, probes: &[bool]) -> Findings {
    let mut findings = Findings::new();
    findings.root = root.map(|r| r.map(|s| s.to_string()));
    findings.versions = versions.map(|v| v.map(names).map_err(|m| m.to_string()));
    findings.probes = probes.to_vec();
    findings
}

#[test]
fn compiler_reads_the_registry_first() {
    match compiler(&BuildEnv::new(), &Findings::new()) {
        Ok(Search::Ask(Step::ReadRegistry(key, value))) => {
            assert_eq!(key, "SOFTWARE\\Microsoft\\Windows Kits\\Installed Roots");
            assert_eq!(value, "KitsRoot10");
        }
        other => panic!("unexpected: {:?}", other),
    }
}

#[test]
fn compiler_without_sdk() {
    let findings = known(Some(Err(-2147024894)), None, &[]);
    assert!(matches!(
        compiler(&host("x86_64-pc-windows-msvc"), &findings),
        Err(CompilerError::SdkNotFound(-2147024894))
    ));
}

#[test]
fn compiler_lists_the_versions() {
    let findings = known(Some(Ok("C:\\Kits")), None, &[]);
    match compiler(&BuildEnv::new(), &findings) {
        Ok(Search::Ask(Step::ListDirs(place))) => assert_eq!(path_of(&place), "C:\\Kits|bin"),
        other => panic!("unexpected: {:?}", other),
    }
}

#[test]
fn compiler_with_unreadable_sdk() {
    let findings = known(Some(Ok("C:\\Kits")), Some(Err("Access is denied.")), &[]);
    match compiler(&BuildEnv::new(), &findings) {
        Err(CompilerError::SdkReadFailed(message)) => assert_eq!(message, "Access is denied."),
        other => panic!("unexpected: {:?}", other),
    }
}

#[test]
fn compiler_needs_the_architecture_once_the_versions_are_known() {
    let findings = known(Some(Ok("C:\\Kits")), Some(Ok(&["10.0.1"])), &[]);
    assert!(matches!(
        compiler(&BuildEnv::new(), &findings),
        Err(CompilerError::EnvVarNotFound(EnvError("HOST")))
    ));
    assert!(matches!(compiler(&host("x86_64"), &findings), Err(CompilerError::InvalidHost)));
    assert!(matches!(
        compiler(&host("mips-unknown"), &findings),
        Err(CompilerError::UnsupportedArch)
    ));
}

#[test]
fn compiler_probes_the_versions_from_the_last_to_the_first() {
    let env = host("aarch64-pc-windows-msvc");
    let versions: &[&str] = &["10.0.17763.0", "10.0.22621.0", "10.0.19041.0"];
    let expect = ["10.0.22621.0", "10.0.19041.0", "10.0.17763.0"];
    let mut probes = Vec::new();
    for version in expect {
        let findings = known(Some(Ok("C:\\Kits")), Some(Ok(versions)), &probes);
        match compiler(&env, &findings) {
            Ok(Search::Ask(Step::Probe(place))) => {
                assert_eq!(path_of(&place), format!("C:\\Kits|bin|{}|arm64|rc.exe", version))
            }
            other => panic!("unexpected: {:?}", other),
        }
        probes.push(false);
    }
    let findings = known(Some(Ok("C:\\Kits")), Some(Ok(versions)), &probes);
    assert!(matches!(compiler(&env, &findings), Err(CompilerError::CompilerNotFound)));
}

#[test]
fn compiler_is_the_first_candidate_that_is_a_file() {
    let env = host("x86_64-pc-windows-msvc");
    let versions: &[&str] = &["10.0.17763.0", "10.0.22621.0", "10.0.19041.0"];
    let findings = known(Some(Ok("C:\\Kits")), Some(Ok(versions)), &[false, true]);
    match compiler(&env, &findings) {
        Ok(Search::Found(place)) => assert_eq!(path_of(&place), "C:\\Kits|bin|10.0.19041.0|x64|rc.exe"),
        other => panic!("unexpected: {:?}", other),
    }
    let findings = known(Some(Ok("C:\\Kits")), Some(Ok(versions)), &[true, true, true]);
    match compiler(&env, &findings) {
        Ok(Search::Found(place)) => assert_eq!(path_of(&place), "C:\\Kits|bin|10.0.22621.0|x64|rc.exe"),
        other => panic!("unexpected: {:?}", other),
    }
    let findings = known(Some(Ok("C:\\Kits")), Some(Ok(versions)), &[false, false, true, true]);
    match compiler(&env, &findings) {
        Ok(Search::Found(place)) => assert_eq!(path_of(&place), "C:\\Kits|bin|10.0.17763.0|x64|rc.exe"),
        other => panic!("unexpected: {:?}", other),
    }
}

#[test]
fn compiler_in_an_sdk_without_versions() {
    let env = host("i686-pc-windows-msvc");
    let findings = known(Some(Ok("C:\\Kits")), Some(Ok(&[])), &[]);
    assert!(matches!(compiler(&env, &findings), Err(CompilerError::CompilerNotFound)));
}

#[test]
fn check_exit_tells_success_from_failure() {
    assert!(check_exit(&Exit::Ended(true, Some(0))).is_ok());
    assert!(check_exit(&Exit::Ended(true, None)).is_ok());
    assert!(matches!(
        check_exit(&Exit::Ended(false, Some(1))),
        Err(CompilerError::StatusFailure(1))
    ));
    assert!(matches!(
        check_exit(&Exit::Ended(false, Some(-1073741819))),
        Err(CompilerError::StatusFailure(-1073741819))
    ));
    assert!(matches!(check_exit(&Exit::Ended(false, None)), Err(CompilerError::Terminated)));
    match check_exit(&Exit::NotStarted("program not found".to_string())) {
        Err(CompilerError::CommandFailed(message)) => assert_eq!(message, "program not found"),
        other => panic!("unexpected: {:?}", other),
    }
}

fn place(base: &str, name: &str) -> Location {
    Location { base: base.to_string(), names: names(&[name]) }
}

#[test]
fn compile_searches_then_runs_then_is_done() {
    let env = host("x86_64-pc-windows-msvc");
    let input = place("out", "resource.rc");
    let output = place("out", "resource.res");
    let mut findings = Findings::new();
    assert!(matches!(
        compile(&env, &findings, &input, &output, &None),
        Ok(Action::Ask(Step::ReadRegistry(_, _)))
    ));
    findings.root = Some(Ok("C:\\Kits".to_string()));
    assert!(matches!(
        compile(&env, &findings, &input, &output, &None),
        Ok(Action::Ask(Step::ListDirs(_)))
    ));
    findings.versions = Some(Ok(names(&["10.0.1"])));
    assert!(matches!(
        compile(&env, &findings, &input, &output, &None),
        Ok(Action::Ask(Step::Probe(_)))
    ));
    findings.probes.push(true);
    match compile(&env, &findings, &input, &output, &None) {
        Ok(Action::Run(program, args)) => {
            assert_eq!(path_of(&program), "C:\\Kits|bin|10.0.1|x64|rc.exe");
            assert_eq!(args.len(), 3);
            match &args[0] {
                Arg::Text(word) => assert_eq!(word, "/fo"),
                other => panic!("unexpected: {:?}", other),
            }
            match &args[1] {
                Arg::Path(p) => assert_eq!(path_of(p), "out|resource.res"),
                other => panic!("unexpected: {:?}", other),
            }
            match &args[2] {
                Arg::Path(p) => assert_eq!(path_of(p), "out|resource.rc"),
                other => panic!("unexpected: {:?}", other),
            }
        }
        other => panic!("unexpected: {:?}", other),
    }
    assert!(matches!(
        compile(&env, &findings, &input, &output, &Some(Exit::Ended(true, Some(0)))),
        Ok(Action::Done)
    ));
    assert!(matches!(
        compile(&env, &findings, &input, &output, &Some(Exit::Ended(false, Some(2)))),
        Err(CompilerError::StatusFailure(2))
    ));
}

#[test]
fn compile_fails_where_the_search_fails() {
    let env = host("x86_64-pc-windows-msvc");
    let input = place("out", "resource.rc");
    let output = place("out", "resource.res");
    let findings = known(Some(Ok("C:\\Kits")), Some(Ok(&["10.0.1"])), &[false]);
    assert!(matches!(
        compile(&env, &findings, &input, &output, &Some(Exit::Ended(true, Some(0)))),
        Err(CompilerError::CompilerNotFound)
    ));
}

#[test]
fn compiler_error_messages() {
    assert_eq!(
        CompilerError::EnvVarNotFound(EnvError("HOST")).message(),
        "HOST environment varibale not found! Is it called from a build script?"
    );
    assert_eq!(CompilerError::InvalidHost.message(), "HOST env var is not a valid host triple.");
    assert_eq!(CompilerError::UnsupportedArch.message(), "Unsupported host architecture!");
    assert_eq!(
        CompilerError::SdkReadFailed("denied".to_string()).message(),
        "Failed to read Windows SDK's bin directory. denied"
    );
    assert_eq!(
        CompilerError::CompilerNotFound.message(),
        "Resource compiler (rc.exe) was not found!"
    );
    assert_eq!(
        CompilerError::CommandFailed("denied".to_string()).message(),
        "Failed to execute the resource compiler. denied"
    );
    assert_eq!(
        CompilerError::Terminated.message(),
        "The resource compiler ended without an exit code!"
    );
}

#[test]
fn compiler_error_message_writes_the_system_code_in_hexadecimal() {
    assert_eq!(
        CompilerError::SdkNotFound(-2147024894).message(),
        "Windows SDK not found! (0x80070002)"
    );
    assert_eq!(CompilerError::SdkNotFound(5).message(), "Windows SDK not found! (       0x5)");
    for code in [0, 1, 15, 16, 255, -1, i32::MAX, i32::MIN, 0x0ABCDEF1, -2147467259] {
        assert_eq!(
            CompilerError::SdkNotFound(code).message(),
            format!("Windows SDK not found! ({code:#10X})")
        );
    }
}

#[test]
fn compiler_error_message_writes_the_exit_code_in_decimal() {
    for code in [0, 1, -1, 10, 255, i32::MAX, i32::MIN, -1073741819] {
        assert_eq!(
            CompilerError::StatusFailure(code).message(),
            format!("Failed to compile resource! Exit code: {code}")
        );
    }
}

#[test]
fn res_error_messages() {
    assert_eq!(ResError::Io("disk full".to_string()).message(), "disk full");
    assert_eq!(ResError::Custom("Failed to parse version! (major)").message(), "Failed to parse version! (major)");
    assert_eq!(
        ResError::EnvVarNotFound(EnvError("DEBUG")).message(),
        "DEBUG environment varibale not found! Is it called from a build script?"
    );
    assert_eq!(
        ResError::Compiler(CompilerError::CompilerNotFound).message(),
        "Resource compiler (rc.exe) was not found!"
    );
}

#[test]
fn errors_convert() {
    assert!(matches!(
        ResError::from(CompilerError::InvalidHost),
        ResError::Compiler(CompilerError::InvalidHost)
    ));
    assert!(matches!(ResError::from(EnvError("HOST")), ResError::EnvVarNotFound(EnvError("HOST"))));
    assert!(matches!(
        CompilerError::from(EnvError("HOST")),
        CompilerError::EnvVarNotFound(EnvError("HOST"))
    ));
}
