use rbrew::driver::command::output_arguments;
use rbrew::driver::events::{collect_executables, is_readable, member};
use rbrew::driver::place::{decimal_text, output_place};
use rbrew::driver::{
    executables, rbrew_file, split_records, BuildError, BuildRequest, Member, MissingFile,
    OutputType, Platform, Verbosity,
};

fn texts(values: &[&str]) -> Vec<String> {
    values.iter().map(|value| value.to_string()).collect()
}

fn records(output: &str) -> Vec<String> {
    split_records(output.as_bytes())
        .into_iter()
        .map(|record| String::from_utf8(record).unwrap())
        .collect()
}

fn request() -> BuildRequest {
    BuildRequest {
        platform: Platform::Gamecube,
        output_type: OutputType::Dol,
        workspace: false,
        package: None,
        custom_options: vec![],
    }
}

#[test]
fn platform_is_read_from_an_argument() {
    assert_eq!(Platform::from_arg_value("gamecube"), Ok(Platform::Gamecube));
    assert_eq!(Platform::from_arg_value("gc"), Ok(Platform::Gamecube));
    assert_eq!(Platform::from_arg_value("wii"), Err("expected a valid platform.".to_string()));
    assert_eq!(Platform::from_arg_value(""), Err("expected a valid platform.".to_string()));
    assert_eq!(Platform::from_arg_value("GC"), Err("expected a valid platform.".to_string()));
}

#[test]
fn platform_has_its_target_file() {
    assert_eq!(Platform::Gamecube.target_json_name(), "rbrew_gamecube.json");
    assert_eq!(request().target_file(), "targets/rbrew_gamecube.json");
}

#[test]
fn output_type_is_read_from_an_argument() {
    assert_eq!(OutputType::from_arg_value("elf"), Ok(OutputType::Elf));
    assert_eq!(OutputType::from_arg_value("dol"), Ok(OutputType::Dol));
    assert_eq!(
        OutputType::from_arg_value("exe"),
        Err("expected a valid output type.".to_string())
    );
    assert_eq!(OutputType::default(), OutputType::Elf);
}

#[test]
fn output_type_has_its_extension_and_platforms() {
    assert_eq!(OutputType::Elf.extension_name(), "");
    assert_eq!(OutputType::Dol.extension_name(), ".dol");
    assert!(OutputType::Elf.supports_platform(Platform::Gamecube));
    assert!(OutputType::Dol.supports_platform(Platform::Gamecube));
    assert_eq!(request().check(), Ok(()));
}

#[test]
fn verbosity_is_ordered() {
    let order = [Verbosity::Quiet, Verbosity::Normal, Verbosity::Verbose];
    for (i, verbosity) in order.iter().enumerate() {
        for (j, level) in order.iter().enumerate() {
            assert_eq!(verbosity.should_output(*level), i >= j);
        }
    }
    assert_eq!(Verbosity::default(), Verbosity::Normal);
}

#[test]
fn verbosity_is_read_from_an_argument() {
    assert_eq!(Verbosity::from_arg_value("quiet"), Ok(Verbosity::Quiet));
    assert_eq!(Verbosity::from_arg_value("normal"), Ok(Verbosity::Normal));
    assert_eq!(Verbosity::from_arg_value("verbose"), Ok(Verbosity::Verbose));
    assert_eq!(
        Verbosity::from_arg_value("loud"),
        Err("expected 'quiet', 'normal' or 'verbose'.".to_string())
    );
}

#[test]
fn file_is_settled_by_its_existence() {
    assert_eq!(rbrew_file("targets/a.json".to_string(), true), Ok("targets/a.json".to_string()));
    assert_eq!(
        rbrew_file("targets/a.json".to_string(), false),
        Err(MissingFile { path: "targets/a.json".to_string() })
    );
}

#[test]
fn toolchain_is_asked_for_the_build() {
    assert_eq!(
        request().cargo_arguments("/r/targets/rbrew_gamecube.json"),
        texts(&["build", "--target=/r/targets/rbrew_gamecube.json"])
    );
    let full = BuildRequest {
        platform: Platform::Gamecube,
        output_type: OutputType::Elf,
        workspace: true,
        package: Some("game".to_string()),
        custom_options: texts(&["--release", "-j", "4"]),
    };
    assert_eq!(
        full.cargo_arguments("t.json"),
        texts(&[
            "build",
            "--package",
            "game",
            "--workspace",
            "--target=t.json",
            "--release",
            "-j",
            "4",
        ])
    );
}

#[test]
fn verbosity_is_handed_to_the_watched_run() {
    let common = texts(&["build", "--target=t.json"]);
    assert_eq!(
        Verbosity::Quiet.status_arguments(&common),
        texts(&["build", "--target=t.json", "--quiet"])
    );
    assert_eq!(Verbosity::Normal.status_arguments(&common), common);
    assert_eq!(
        Verbosity::Verbose.status_arguments(&common),
        texts(&["build", "--target=t.json", "--verbose"])
    );
    assert_eq!(
        output_arguments(&common),
        texts(&["build", "--target=t.json", "-message-format=json", "--quiet"])
    );
    assert_eq!(output_arguments(&vec![]), texts(&["-message-format=json", "--quiet"]));
}

#[test]
fn answer_is_cut_into_records() {
    assert_eq!(records(""), Vec::<String>::new());
    assert_eq!(records("\n\n"), Vec::<String>::new());
    assert_eq!(records("{}"), texts(&["{}"]));
    assert_eq!(records("{\"a\":1}\n{\"b\":2}\n"), texts(&["{\"a\":1}", "{\"b\":2}"]));
    assert_eq!(records("{\"a\":1}{\"b\":2}"), texts(&["{\"a\":1}", "{\"b\":2}"]));
    assert_eq!(
        records("x {\"a\":{\"b\":{}},\"c\":{}} y {} z"),
        texts(&["{\"a\":{\"b\":{}},\"c\":{}}", "{}"])
    );
    assert_eq!(records("} } {\"a\":1} }"), texts(&["{\"a\":1}"]));
    assert_eq!(records("{\"a\":1}\n{\"b\":{"), texts(&["{\"a\":1}", "{\"b\":{"]));
    assert_eq!(records("{\"p\":\"\u{e9}\u{4e16}\"}"), texts(&["{\"p\":\"\u{e9}\u{4e16}\"}"]));
}

#[test]
fn executables_are_read_from_the_answer() {
    let output = [
        "{\"reason\":\"compiler-artifact\",\"target\":{\"name\":\"lib\"},\"executable\":null}",
        "{\"reason\":\"compiler-artifact\",\"target\":{\"name\":\"game\"},",
        "\"executable\":\"/work/target/debug/game\"}",
        "{\"reason\":\"compiler-artifact\",\"executable\":\"/work/target/debug/\u{e9}\"}",
        "{\"reason\":\"build-finished\",\"success\":true}",
    ]
    .join("\n");
    assert_eq!(
        executables(output.as_bytes()),
        Ok(texts(&["/work/target/debug/game", "/work/target/debug/\u{e9}"]))
    );
    assert_eq!(executables(b""), Ok(vec![]));
    assert_eq!(executables(b"{\"executable\":7}"), Ok(vec![]));
    assert_eq!(executables(b"{\"executable\":\"\"}"), Ok(texts(&[""])));
    assert_eq!(executables(b"{\"Executable\":\"a\"}"), Ok(vec![]));
}

#[test]
fn record_that_is_not_json_spoils_the_answer() {
    assert_eq!(
        executables(b"{\"executable\":\"a\"}\n{\"executable\":}"),
        Err(BuildError::InvalidJson)
    );
    assert_eq!(executables(b"{\"executable\":\"a\"}\n{\"b\":{"), Err(BuildError::InvalidJson));
    assert_eq!(executables(b"{\"executable\":\"\xff\"}"), Err(BuildError::InvalidJson));
}

#[test]
fn members_are_collected() {
    let text = |value: &str| Member::Text(value.to_string());
    assert_eq!(collect_executables(&vec![]), Ok(vec![]));
    assert_eq!(
        collect_executables(&vec![text("a"), Member::Absent, text("b"), text("a")]),
        Ok(texts(&["a", "b", "a"]))
    );
    assert_eq!(
        collect_executables(&vec![Member::NotText, text("a"), Member::NotText, Member::Absent]),
        Ok(texts(&["a"]))
    );
    assert_eq!(
        collect_executables(&vec![Member::NotText, Member::NotObject]),
        Err(BuildError::NotAnObject)
    );
    assert_eq!(
        collect_executables(&vec![text("a"), Member::NotObject, text("b")]),
        Err(BuildError::NotAnObject)
    );
    assert_eq!(
        collect_executables(&vec![Member::NotObject, text("a"), Member::Malformed]),
        Err(BuildError::InvalidJson)
    );
    assert_eq!(collect_executables(&vec![Member::Malformed]), Err(BuildError::InvalidJson));
}

#[test]
fn odd_records_do_not_stop_the_reading() {
    let malformed: [&str; 12] = [
        "{\u{e9}}",
        "{\"a\":\u{e9}}",
        "{\"a\":1\u{4e16}}",
        "{\"a\":1\u{4e16}",
        "{\"a\":-}",
        "{\"a\":\"\\ud800\"}",
        "{\"a\":\"\\u12\"}",
        "{\"a\":tru}",
        "{\"a\" 1}",
        "{,}",
        "{\"a\":\"\u{1f600}",
        "{\"\u{e9}\":\u{e9}",
    ];
    for record in malformed {
        assert_eq!(executables(record.as_bytes()), Err(BuildError::InvalidJson), "{}", record);
    }
    let fine: [&str; 6] = [
        "{\"a\":1e999999999999}",
        "{\"a\":-0.0e-999999999999}",
        "{\"a\":123456789012345678901234567890123456789012345678901234567890}",
        "{\"\u{e9}\":\"\u{1f600}\"}",
        "{\"a\":[[[[[[[[[[[[[[[[]]]]]]]]]]]]]]]]}",
        "{\"executable\":null,\"executable\":null}",
    ];
    for record in fine {
        assert_eq!(executables(record.as_bytes()), Ok(vec![]), "{}", record);
    }
    let deep = "{\"a\":".repeat(2000) + "1" + &"}".repeat(2000);
    assert_eq!(executables(deep.as_bytes()), Err(BuildError::InvalidJson));
    let nested = "{\"a\":".repeat(100) + "1" + &"}".repeat(100);
    assert_eq!(executables(nested.as_bytes()), Ok(vec![]));
    assert_eq!(
        executables("{\"executable\":\"a\\u00e9\\n\"}".as_bytes()),
        Ok(texts(&["a\u{e9}\n"]))
    );
}

#[test]
fn numbers_are_written_in_decimal() {
    assert_eq!(decimal_text(0), "0");
    assert_eq!(decimal_text(7), "7");
    assert_eq!(decimal_text(9), "9");
    assert_eq!(decimal_text(10), "10");
    assert_eq!(decimal_text(101), "101");
    assert_eq!(decimal_text(12345), "12345");
    assert_eq!(decimal_text(9876543210), "9876543210");
    assert_eq!(decimal_text(usize::MAX), usize::MAX.to_string());
    for number in 0..2000usize {
        assert_eq!(decimal_text(number), number.to_string());
    }
}

#[test]
fn executable_is_left_where_it_was_asked_for() {
    let some = |value: &str| Some(value.to_string());
    assert_eq!(
        output_place(some("out"), some("/work/target/debug"), some("game"), 0, OutputType::Dol),
        ("out".to_string(), "game".to_string(), ".dol")
    );
    assert_eq!(
        output_place(None, some("/work/target/debug"), some("game"), 3, OutputType::Elf),
        ("/work/target/debug".to_string(), "game".to_string(), "")
    );
    assert_eq!(
        output_place(None, None, some("game"), 3, OutputType::Elf),
        ("".to_string(), "game".to_string(), "")
    );
    assert_eq!(
        output_place(some(""), some("/work"), None, 0, OutputType::Dol),
        ("".to_string(), "output0".to_string(), ".dol")
    );
    assert_eq!(
        output_place(None, None, None, 12, OutputType::Dol),
        ("".to_string(), "output12".to_string(), ".dol")
    );
    assert_eq!(
        output_place(None, some("d"), None, 407, OutputType::Elf),
        ("d".to_string(), "output407".to_string(), "")
    );
}

#[test]
fn long_numbers_are_not_read() {
    let fraction = |digits: usize| format!("{{\"executable\":\"a\",\"n\":0.{}}}", "0".repeat(digits));
    assert_eq!(executables(fraction(1).as_bytes()), Ok(texts(&["a"])));
    assert_eq!(executables(fraction(32767).as_bytes()), Ok(texts(&["a"])));
    assert_eq!(executables(fraction(32768).as_bytes()), Err(BuildError::InvalidJson));
    assert_eq!(executables(fraction(32769).as_bytes()), Err(BuildError::InvalidJson));
    assert_eq!(executables(fraction(100000).as_bytes()), Err(BuildError::InvalidJson));

    let whole = |digits: usize| format!("{{\"executable\":\"a\",\"n\":{}}}", "9".repeat(digits));
    assert_eq!(executables(whole(32767).as_bytes()), Ok(texts(&["a"])));
    assert_eq!(executables(whole(32768).as_bytes()), Err(BuildError::InvalidJson));

    let both = format!(
        "{{\"executable\":\"a\",\"n\":-{}.{}e-{}}}",
        "9".repeat(32767),
        "0".repeat(32767),
        "9".repeat(32767)
    );
    assert_eq!(executables(both.as_bytes()), Ok(texts(&["a"])));
    let small = format!("{{\"executable\":\"a\",\"n\":1.{}e{}}}", "5".repeat(32767), "9".repeat(40));
    assert_eq!(executables(small.as_bytes()), Ok(texts(&["a"])));

    let name = format!("{{\"executable\":\"{}\"}}", "7".repeat(32768));
    assert_eq!(executables(name.as_bytes()), Err(BuildError::InvalidJson));
    let other = format!("{}\n{}", fraction(3), fraction(40000));
    assert_eq!(executables(other.as_bytes()), Err(BuildError::InvalidJson));
}

#[test]
fn digits_in_a_row_are_counted() {
    assert!(is_readable(b""));
    assert!(is_readable(b"no digits"));
    assert!(is_readable("1".repeat(32767).as_bytes()));
    assert!(!is_readable("1".repeat(32768).as_bytes()));
    let broken = format!("{}.{}", "1".repeat(32767), "2".repeat(32767));
    assert!(is_readable(broken.as_bytes()));
    let late = format!("{}x{}", "1".repeat(10), "2".repeat(32768));
    assert!(!is_readable(late.as_bytes()));
    let tail = format!("{}x", "2".repeat(32768));
    assert!(!is_readable(tail.as_bytes()));
}

#[test]
fn record_is_looked_up_under_a_key() {
    let text = |value: &str| Member::Text(value.to_string());
    assert_eq!(member(b"{\"a\":\"x\",\"b\":1}", "a"), text("x"));
    assert_eq!(member(b"{\"a\":\"x\",\"b\":1}", "b"), Member::NotText);
    assert_eq!(member(b"{\"a\":null}", "a"), Member::NotText);
    assert_eq!(member(b"{\"a\":\"x\",\"b\":1}", "c"), Member::Absent);
    assert_eq!(member(b"{}", "a"), Member::Absent);
    assert_eq!(member(b"[\"a\"]", "a"), Member::NotObject);
    assert_eq!(member(b"\"a\"", "a"), Member::NotObject);
    assert_eq!(member(b"17", "a"), Member::NotObject);
    assert_eq!(member(b"{\"a\"", "a"), Member::Malformed);
    assert_eq!(member(b"", "a"), Member::Malformed);
    assert_eq!(member(b"{\"a\":\"\xff\"}", "a"), Member::Malformed);
    let long = format!("{{\"a\":\"x\",\"b\":0.{}}}", "0".repeat(32768));
    assert_eq!(member(long.as_bytes(), "a"), Member::Malformed);
}
