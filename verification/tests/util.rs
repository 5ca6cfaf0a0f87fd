use winscribe::error::ResError;
use winscribe::text::{parse_u16, same_text};
use winscribe::util::{escape, escape_path, out_dir, out_file, BuildEnv, EnvError, Found};

#[test]
fn escape_rewrites_each_special_character() {
    assert_eq!(escape("\""), "\"\"");
    assert_eq!(escape("\\"), "\\\\");
    assert_eq!(escape("'"), "\\'");
    assert_eq!(escape("\t"), "\\t");
    assert_eq!(escape("\r"), "\\r");
    assert_eq!(escape("\n"), "\\n");
}

#[test]
fn escape_leaves_other_text_unchanged() {
    assert_eq!(escape(""), "");
    assert_eq!(escape("Demo"), "Demo");
    assert_eq!(escape("C:/Program Files (x86)/app.ico"), "C:/Program Files (x86)/app.ico");
    assert_eq!(escape("Gr\u{00fc}\u{00df}e \u{2603} \u{1F600}"), "Gr\u{00fc}\u{00df}e \u{2603} \u{1F600}");
}

#[test]
fn escape_in_the_middle_of_text() {
    assert_eq!(escape("a\"b\\c'd\ne\tf\rg"), "a\"\"b\\\\c\\'d\\ne\\tf\\rg");
    assert_eq!(escape("C:\\icons\\app.ico"), "C:\\\\icons\\\\app.ico");
    assert_eq!(escape("\"\""), "\"\"\"\"");
}

#[test]
fn escape_path_of_a_found_path() {
    let found = Found::Path("C:\\it's\\here.ico".to_string());
    assert_eq!(escape_path(&found).unwrap(), "C:\\\\it\\'s\\\\here.ico");
}

#[test]
fn escape_path_of_a_path_that_is_no_text() {
    match escape_path(&Found::NotUnicode) {
        Err(ResError::Custom(message)) => {
            assert_eq!(message, "Failed to convert path to string! Not a valid UTF-8?")
        }
        other => panic!("unexpected: {:?}", other),
    }
}

#[test]
fn escape_path_of_a_failure() {
    match escape_path(&Found::Failed("No such file".to_string())) {
        Err(ResError::Io(message)) => assert_eq!(message, "No such file"),
        other => panic!("unexpected: {:?}", other),
    }
}

#[test]
fn env_error_message_names_the_variable() {
    assert_eq!(
        EnvError("OUT_DIR").message(),
        "OUT_DIR environment varibale not found! Is it called from a build script?"
    );
}

#[test]
fn out_dir_is_the_variable() {
    let mut env = BuildEnv::new();
    assert_eq!(out_dir(&env).unwrap_err().0, "OUT_DIR");
    env.out_dir = Some("target/out".to_string());
    assert_eq!(out_dir(&env).unwrap(), "target/out");
}

#[test]
fn out_file_is_below_the_output_directory() {
    let mut env = BuildEnv::new();
    assert_eq!(out_file(&env, "resource.rc").unwrap_err().0, "OUT_DIR");
    env.out_dir = Some("target/out".to_string());
    let place = out_file(&env, "resource.rc").unwrap();
    assert_eq!(place.base, "target/out");
    assert_eq!(place.names, vec!["resource.rc".to_string()]);
    let again = place.duplicate();
    assert_eq!(again.base, place.base);
    assert_eq!(again.names, place.names);
}

#[test]
fn parse_u16_reads_decimal_numbers() {
    assert_eq!(parse_u16("0"), Some(0));
    assert_eq!(parse_u16("7"), Some(7));
    assert_eq!(parse_u16("007"), Some(7));
    assert_eq!(parse_u16("+12"), Some(12));
    assert_eq!(parse_u16("65535"), Some(65535));
    assert_eq!(parse_u16("0000000000000065535"), Some(65535));
}

#[test]
fn parse_u16_refuses_what_is_no_number() {
    assert_eq!(parse_u16(""), None);
    assert_eq!(parse_u16("+"), None);
    assert_eq!(parse_u16("-1"), None);
    assert_eq!(parse_u16("1.0"), None);
    assert_eq!(parse_u16(" 1"), None);
    assert_eq!(parse_u16("1 "), None);
    assert_eq!(parse_u16("12a"), None);
    assert_eq!(parse_u16("++1"), None);
    assert_eq!(parse_u16("65536"), None);
    assert_eq!(parse_u16("99999999999999999999"), None);
    assert_eq!(parse_u16("\u{0661}"), None);
}

#[test]
fn parse_u16_agrees_with_the_standard_library() {
    for text in ["0", "1", "+5", "655", "65535", "65536", "", "+", "-", "-0", "0x10", "1_000", "4294967296"] {
        assert_eq!(parse_u16(text), text.parse::<u16>().ok(), "{:?}", text);
    }
}

#[test]
fn same_text_compares_characters() {
    assert!(same_text("", ""));
    assert!(same_text("true", "true"));
    assert!(!same_text("true", "True"));
    assert!(!same_text("true", "tru"));
    assert!(!same_text("tru", "true"));
}
