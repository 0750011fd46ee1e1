use zen::highlight::{grammar_name_for, runs_for_line, StyledRun};
use zen::syntax::Token;
use zen::theme::ZenTheme;

fn joined(runs: &[StyledRun]) -> String {
    runs.iter().map(|r| r.text.as_str()).collect()
}

#[test]
fn dark_rust_scenario_keeps_text_and_colours_keyword() {
    let theme = ZenTheme::dark_theme();
    let code = "fn main() {}\n";
    let runs = theme.highlight_code(code, "rs");
    assert_eq!(joined(&runs), code);
    let keyword = [168, 85, 247, 255];
    assert!(runs.iter().any(|r| r.text == "fn" && r.color == keyword));
    assert!(runs.len() > 1);
}

const SAMPLES: [&str; 7] = [
    "",
    "x",
    "no newline at end",
    "line one\nline two",
    "fn a() -> u8 { 1 }\n\n// comment\r\nlet s = \"str\";\n",
    "#include <stdio.h>\nint main(void) { return 0; }",
    "\u{e9} \u{fc} \u{2713} \u{1f600}\n\t tabs\n",
];

fn check_round_trip(language: &str, samples: &[&str]) {
    let theme = ZenTheme::dark_theme();
    for code in samples {
        let runs = theme.highlight_code(code, language);
        assert_eq!(joined(&runs), *code, "language {language}");
        assert!(runs.iter().all(|r| !r.text.is_empty() && r.font_size == 13));
    }
}

#[test]
fn round_trip_rust() {
    check_round_trip("rs", &SAMPLES);
}

#[test]
fn round_trip_c_family() {
    check_round_trip("c", &SAMPLES[3..6]);
    check_round_trip("cpp", &SAMPLES[4..6]);
    check_round_trip("java", &SAMPLES[4..5]);
}

#[test]
fn round_trip_scripting_languages() {
    check_round_trip("py", &SAMPLES[4..5]);
    check_round_trip("js", &SAMPLES[4..5]);
    check_round_trip("sh", &SAMPLES[4..5]);
    check_round_trip("go", &SAMPLES[4..5]);
}

#[test]
fn round_trip_markup_and_data() {
    check_round_trip("md", &SAMPLES[4..7]);
    check_round_trip("html", &SAMPLES[4..5]);
    check_round_trip("json", &SAMPLES[4..5]);
    check_round_trip("yaml", &SAMPLES[4..5]);
}

#[test]
fn round_trip_grammars_missing_from_the_bundle() {
    check_round_trip("ts", &SAMPLES[4..5]);
    check_round_trip("toml", &SAMPLES[4..5]);
    check_round_trip("xml", &SAMPLES[4..5]);
    check_round_trip("css", &SAMPLES[4..5]);
}

#[test]
fn unknown_languages_fall_back_to_plain_text() {
    let theme = ZenTheme::light_theme();
    let code = "some text\nmore";
    for lang in ["", "nonsense", "RS", "🙂", "Plain Text", "zzz.qq"] {
        let runs = theme.highlight_code(code, lang);
        assert!(!runs.is_empty());
        assert_eq!(joined(&runs), code);
    }
    let runs = theme.highlight_code(code, "nonsense");
    assert!(runs.iter().all(|r| r.color == [33, 37, 41, 255] && !r.bold));
}

#[test]
fn empty_text_gives_no_runs() {
    let runs = ZenTheme::dark_theme().highlight_code("", "rs");
    assert!(runs.is_empty());
}

#[test]
fn lookup_by_extension_and_by_name() {
    let theme = ZenTheme::dark_theme();
    let code = "def f():\n    return 'x'\n";
    let by_extension = theme.highlight_code(code, "pyw");
    let plain = theme.highlight_code(code, "nonsense");
    assert_eq!(joined(&by_extension), code);
    assert!(by_extension.len() > plain.len());
    let by_name = theme.highlight_code(code, "Python");
    assert_eq!(joined(&by_name), code);
    assert!(by_name.len() > plain.len());
}

#[test]
fn code_font_size_is_carried_by_every_run() {
    let theme = ZenTheme::dark_theme().with_code_font_size(20);
    let runs = theme.highlight_code("let x = 1;\n", "rs");
    assert!(runs.iter().all(|r| r.font_size == 20));
}

#[test]
fn grammar_table() {
    assert_eq!(grammar_name_for("rs"), Some("Rust"));
    assert_eq!(grammar_name_for("rust"), Some("Rust"));
    assert_eq!(grammar_name_for("hxx"), Some("C++"));
    assert_eq!(grammar_name_for("yml"), Some("YAML"));
    assert_eq!(grammar_name_for("zsh"), Some("Bash"));
    assert_eq!(grammar_name_for("markdown"), Some("Markdown"));
    assert_eq!(grammar_name_for("RS"), None);
    assert_eq!(grammar_name_for(""), None);
    assert_eq!(grammar_name_for("rb"), None);
}

fn token(text: &str, color: [u8; 4], font_style: u8) -> Token {
    Token { text: text.to_string(), color, font_style }
}

#[test]
fn line_runs_from_tokens() {
    let plain = [1, 2, 3, 255];
    let tokens = vec![token("fn", [9, 9, 9, 255], 1), token(" ", [7, 7, 7, 255], 0)];
    let runs = runs_for_line("fn main\n", Some(tokens), plain, 13);
    assert_eq!(runs.len(), 3);
    assert_eq!(runs[0].text, "fn");
    assert!(runs[0].bold);
    assert_eq!(runs[0].color, [9, 9, 9, 255]);
    assert!(!runs[1].bold);
    assert_eq!(runs[2].text, "main\n");
    assert_eq!(runs[2].color, plain);
    assert!(!runs[2].bold);
    assert!(runs.iter().all(|r| r.font_size == 13));
}

#[test]
fn line_runs_when_tokens_cover_the_line() {
    let tokens = vec![token("ab", [0, 0, 0, 255], 4), token("c", [5, 5, 5, 255], 5)];
    let runs = runs_for_line("abc", Some(tokens), [1, 1, 1, 255], 9);
    assert_eq!(runs.len(), 2);
    assert!(!runs[0].bold);
    assert!(runs[1].bold);
}

#[test]
fn line_runs_without_tokens() {
    let runs = runs_for_line("whole line\n", None, [4, 5, 6, 255], 11);
    assert_eq!(runs.len(), 1);
    assert_eq!(runs[0].text, "whole line\n");
    assert_eq!(runs[0].color, [4, 5, 6, 255]);
    assert!(runs_for_line("", None, [4, 5, 6, 255], 11).is_empty());
}
