use zen::app::{SaveRequest, ZenEditor};
use zen::config::EditorConfig;
use zen::editor::{detect_language, gutter_sample, CodeEditor, MAX_MEASURED_LINES, MIN_EDITOR_WIDTH, UNITS_PER_POINT};
use zen::highlight::StyledRun;
use zen::theme::ZenTheme;

fn joined(runs: &[StyledRun]) -> String {
    runs.iter().map(|r| r.text.as_str()).collect()
}

fn editor() -> CodeEditor {
    CodeEditor::new(ZenTheme::load_available_themes(Vec::new()))
}

#[test]
fn new_editor_is_empty_rust_in_dark() {
    let e = editor();
    assert_eq!(e.text_str(), "");
    assert_eq!(e.language(), "rs");
    assert_eq!(e.theme().name, "Dark");
    assert_eq!(e.document_version(), 0);
    assert_eq!(e.layout_computations(), 0);
    assert_eq!(e.line_height(), None);
    assert_eq!(e.max_line_width(), None);
    assert!(e.show_line_numbers());
    assert_eq!(e.selected_file(), &None);
    assert_eq!(e.line_count(), 1);
}

#[test]
fn second_read_is_served_from_cache() {
    let mut e = editor();
    e.set_text("fn main() {}\n".to_string());
    let first = e.get_highlighted_layout();
    assert_eq!(e.layout_computations(), 1);
    let version = e.document_version();
    let second = e.get_highlighted_layout();
    assert_eq!(e.layout_computations(), 1);
    assert_eq!(e.document_version(), version);
    assert_eq!(first.len(), second.len());
    for (a, b) in first.iter().zip(second.iter()) {
        assert_eq!(a.text, b.text);
        assert_eq!(a.color, b.color);
        assert_eq!(a.bold, b.bold);
        assert_eq!(a.font_size, b.font_size);
    }
}

#[test]
fn every_read_sees_the_latest_edit() {
    let mut e = editor();
    let texts = ["fn a() {}\n", "fn a() {}\nfn b() {}\n", "", "let x = 1;"];
    let mut computations = 0;
    for text in texts {
        let before = e.document_version();
        e.set_text(text.to_string());
        assert!(e.document_version() > before);
        assert_eq!(e.line_height(), None);
        assert_eq!(e.max_line_width(), None);
        let runs = e.get_highlighted_layout();
        computations += 1;
        assert_eq!(joined(&runs), text);
        assert_eq!(e.layout_computations(), computations);
        assert_eq!(joined(&e.get_highlighted_layout()), text);
        assert_eq!(e.layout_computations(), computations);
    }
}

#[test]
fn language_change_recomputes() {
    let mut e = editor();
    e.set_text("# title\n".to_string());
    let as_rust = e.get_highlighted_layout();
    e.set_language("md".to_string());
    assert_eq!(e.language(), "md");
    let as_markdown = e.get_highlighted_layout();
    assert_eq!(e.layout_computations(), 2);
    assert_eq!(joined(&as_rust), joined(&as_markdown));
}

#[test]
fn theme_change_with_other_font_size_invalidates_line_height() {
    let mut e = editor();
    e.set_text("fn main() {}\n".to_string());
    let before = e.get_highlighted_layout();
    e.record_line_height(15_500);
    assert_eq!(e.line_height(), Some(15_500));
    e.record_line_widths(&vec![90_000]);
    let bigger = e.theme().with_code_font_size(20);
    e.set_theme(bigger);
    assert_eq!(e.line_height(), None);
    assert_eq!(e.max_line_width(), None);
    assert_eq!(e.theme().typography.code_font_size, 20);
    let after = e.get_highlighted_layout();
    assert_eq!(e.layout_computations(), 2);
    assert_eq!(joined(&before), joined(&after));
    assert!(after.iter().all(|r| r.font_size == 20));
    assert_eq!(e.record_line_height(23_000), 23_000);
    assert_eq!(e.line_height(), Some(23_000));
}

#[test]
fn set_theme_selects_by_name() {
    let mut e = editor();
    e.set_theme(ZenTheme::light_theme());
    assert_eq!(e.selected_theme_index(), 1);
    let mut other = ZenTheme::dark_theme();
    other.name = "Unlisted".to_string();
    e.set_theme(other);
    assert_eq!(e.selected_theme_index(), 1);
    assert_eq!(e.theme().name, "Unlisted");
}

#[test]
fn select_theme_from_the_list() {
    let mut e = editor();
    e.set_text("x".to_string());
    e.get_highlighted_layout();
    e.select_theme(0);
    assert_eq!(e.layout_computations(), 1);
    e.select_theme(1);
    assert_eq!(e.theme().name, "Light");
    assert_eq!(e.selected_theme_index(), 1);
    e.get_highlighted_layout();
    assert_eq!(e.layout_computations(), 2);
    e.select_theme(7);
    assert_eq!(e.selected_theme_index(), 7);
    assert_eq!(e.theme().name, "Light");
}

#[test]
fn set_code_font_size_keeps_the_theme() {
    let mut e = editor();
    e.set_code_font_size(16);
    assert_eq!(e.theme().typography.code_font_size, 16);
    assert_eq!(e.theme().typography.font_size, 17);
    assert_eq!(e.theme().name, "Dark");
}

#[test]
fn width_is_floored_for_a_short_word() {
    let mut e = editor();
    e.set_text("hello".to_string());
    let lines = e.lines_to_measure();
    assert_eq!(lines, vec!["hello".to_string()]);
    let width = e.record_line_widths(&vec![40 * UNITS_PER_POINT]);
    assert_eq!(width, MIN_EDITOR_WIDTH);
    assert_eq!(MIN_EDITOR_WIDTH, 800 * UNITS_PER_POINT);
    assert!(e.max_line_width().unwrap() >= 800 * UNITS_PER_POINT);
}

#[test]
fn width_is_the_widest_line() {
    let mut e = editor();
    e.set_text("a\nbb\nccc".to_string());
    assert_eq!(e.record_line_widths(&vec![1_000_000, 2_500_000, 900_000]), 2_500_000);
    assert_eq!(e.max_line_width(), Some(2_500_000));
    assert_eq!(e.record_line_widths(&Vec::new()), MIN_EDITOR_WIDTH);
}

#[test]
fn only_the_first_lines_are_measured() {
    let mut e = editor();
    let text: String = (0..1500).map(|i| format!("line {i}\r\n")).collect();
    e.set_text(text);
    let lines = e.lines_to_measure();
    assert_eq!(lines.len(), MAX_MEASURED_LINES);
    assert_eq!(lines[0], "line 0");
    assert_eq!(lines[999], "line 999");
    assert_eq!(e.line_count(), 1500);
}

#[test]
fn load_file_takes_language_from_name() {
    let mut e = editor();
    e.load_file("/p/main.py".to_string(), "main.py", "print(1)\n".to_string());
    assert_eq!(e.language(), "py");
    assert_eq!(e.text_str(), "print(1)\n");
    assert_eq!(e.selected_file(), &Some("/p/main.py".to_string()));
    e.load_file("/p/CMakeLists.txt".to_string(), "CMakeLists.txt", "project(x)".to_string());
    assert_eq!(e.language(), "c");
    e.load_file("/p/Makefile".to_string(), "Makefile", "all:".to_string());
    assert_eq!(e.language(), "c");
    assert_eq!(e.document_version(), 3);
    e.new_file();
    assert_eq!(e.text_str(), "");
    assert_eq!(e.selected_file(), &None);
    assert_eq!(e.document_version(), 4);
}

#[test]
fn language_detection_table() {
    assert_eq!(detect_language("CMakeLists.txt"), Some("c".to_string()));
    assert_eq!(detect_language("cmakelists.TXT"), Some("c".to_string()));
    assert_eq!(detect_language("main.rs"), Some("rs".to_string()));
    assert_eq!(detect_language("archive.tar.gz"), Some("gz".to_string()));
    assert_eq!(detect_language("trailing."), Some("".to_string()));
    assert_eq!(detect_language(".bashrc"), None);
    assert_eq!(detect_language("Makefile"), None);
    assert_eq!(detect_language(".."), None);
    assert_eq!(detect_language(""), None);
}

#[test]
fn session_starts_in_configured_theme() {
    let z = ZenEditor::new(EditorConfig { default_theme: "Light".to_string() }, Vec::new());
    assert_eq!(z.code_editor.theme().name, "Light");
    assert_eq!(z.code_editor.selected_theme_index(), 1);
    assert!(!z.show_settings);
    let z = ZenEditor::new(EditorConfig { default_theme: "Missing".to_string() }, Vec::new());
    assert_eq!(z.code_editor.theme().name, "Dark");
    assert_eq!(z.code_editor.selected_theme_index(), 0);
    let mut mine = ZenTheme::dark_theme();
    mine.name = "Mine".to_string();
    let z = ZenEditor::new(EditorConfig { default_theme: "Mine".to_string() }, vec![mine]);
    assert_eq!(z.code_editor.selected_theme_index(), 2);
    assert_eq!(EditorConfig::default().default_theme, "Dark");
}

#[test]
fn saving_asks_for_a_location_until_there_is_a_file() {
    let mut z = ZenEditor::new(EditorConfig::default(), Vec::new());
    assert_eq!(z.save_current_file(), SaveRequest::ChooseLocation);
    z.code_editor.set_selected_file(Some("/tmp/a.rs".to_string()));
    assert_eq!(z.save_current_file(), SaveRequest::WriteTo("/tmp/a.rs".to_string()));
}

#[test]
fn pending_file_replaces_the_document() {
    let mut z = ZenEditor::new(EditorConfig::default(), Vec::new());
    let start = z.code_editor.document_version();
    z.handle_pending_file_operations(None);
    assert_eq!(z.code_editor.document_version(), start);
    z.handle_pending_file_operations(Some(("notes.txt".to_string(), "hello".to_string())));
    assert_eq!(z.code_editor.text_str(), "hello");
    assert_eq!(z.code_editor.selected_file(), &Some("notes.txt".to_string()));
    assert_eq!(z.code_editor.document_version(), start + 1);
    z.code_editor.set_theme(ZenTheme::light_theme());
    z.set_default_theme_to_current();
    assert_eq!(z.config.default_theme, "Light");
}

#[test]
fn gutter_sample_has_one_more_digit_than_the_line_count() {
    assert_eq!(gutter_sample(0), "99");
    assert_eq!(gutter_sample(9), "99");
    assert_eq!(gutter_sample(10), "999");
    assert_eq!(gutter_sample(1500), "99999");
}
