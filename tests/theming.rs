use zen::syntax::plain_scope;
use zen::theme::{scope_rule_table, SyntaxRole, ZenTheme, LINE_HIGHLIGHT_ALPHA};

#[test]
fn builtin_themes() {
    let dark = ZenTheme::dark_theme();
    assert_eq!(dark.name, "Dark");
    assert_eq!(dark.colors.editor_bg, [2, 2, 2]);
    assert_eq!(dark.syntax.keyword, [168, 85, 247]);
    assert_eq!(dark.typography.code_font_size, 13);
    assert_eq!(dark.typography.font_size, 14);
    assert_eq!(dark.spacing.item_spacing, [8, 6]);
    assert_eq!(dark.spacing.panel_margin, 6);
    let light = ZenTheme::light_theme();
    assert_eq!(light.name, "Light");
    assert_eq!(light.colors.selection, [13, 110, 253]);
    assert_eq!(light.syntax.string, [163, 21, 21]);
    assert_eq!(ZenTheme::default().name, "Dark");
    assert_eq!(dark.editor_background(), [2, 2, 2]);
    assert_eq!(light.text_color(), [33, 37, 41]);
}

#[test]
fn available_themes_put_builtins_first() {
    let mut custom = ZenTheme::light_theme();
    custom.name = "Solar".to_string();
    let themes = ZenTheme::load_available_themes(vec![custom]);
    let names: Vec<&str> = themes.iter().map(|t| t.name.as_str()).collect();
    assert_eq!(names, ["Dark", "Light", "Solar"]);
    assert_eq!(ZenTheme::load_available_themes(Vec::new()).len(), 2);
}

#[test]
fn font_size_change_makes_a_new_theme() {
    let dark = ZenTheme::dark_theme();
    let bigger = dark.with_code_font_size(18);
    assert_eq!(bigger.typography.code_font_size, 18);
    assert_eq!(bigger.typography.font_size, 19);
    assert_eq!(bigger.name, "Dark");
    assert_eq!(dark.typography.code_font_size, 13);
}

#[test]
fn scope_table_resolves_roles() {
    let rules = scope_rule_table();
    assert_eq!(rules.len(), 44);
    assert_eq!(rules[0].selector, "keyword");
    assert_eq!(rules[0].role, SyntaxRole::Keyword);
    assert!(!rules[0].bold);
    assert_eq!(rules[1].selector, "keyword.control");
    assert!(rules[1].bold);
    assert_eq!(rules[3].selector, "storage.type");
    assert!(rules[3].bold);
    assert_eq!(rules[4].selector, "storage.modifier");
    assert!(!rules[4].bold);
    assert_eq!(rules[43].selector, "meta.use");
    assert_eq!(rules[43].role, SyntaxRole::Text);
    let dark = ZenTheme::dark_theme();
    let table = dark.scope_styles();
    assert_eq!(table.styles.len(), 44);
    assert_eq!(table.foreground, [204, 204, 204]);
    assert_eq!(table.background, [2, 2, 2]);
    let string = table.styles.iter().find(|s| s.selector == "string.quoted.double").unwrap();
    assert_eq!(string.color, [218, 112, 214]);
    assert!(!string.bold);
    let function = table.styles.iter().find(|s| s.selector == "entity.name.function").unwrap();
    assert_eq!(function.color, dark.syntax.format_specifier);
    assert_eq!(dark.syntax.color_of(SyntaxRole::Variable), [248, 174, 76]);
}

#[test]
fn syntect_theme_mirrors_the_scope_table() {
    let dark = ZenTheme::dark_theme();
    let theme = dark.create_syntect_theme();
    assert_eq!(theme.name.as_deref(), Some("Dark"));
    assert_eq!(theme.scopes.len(), 44);
    let fg = theme.settings.foreground.unwrap();
    assert_eq!((fg.r, fg.g, fg.b, fg.a), (204, 204, 204, 255));
    let bg = theme.settings.background.unwrap();
    assert_eq!((bg.r, bg.g, bg.b, bg.a), (2, 2, 2, 255));
    let caret = theme.settings.caret.unwrap();
    assert_eq!((caret.r, caret.g, caret.b), (204, 204, 204));
    let line = theme.settings.line_highlight.unwrap();
    assert_eq!((line.r, line.g, line.b, line.a), (96, 96, 96, LINE_HIGHLIGHT_ALPHA));
    let first = &theme.scopes[0];
    let c = first.style.foreground.unwrap();
    assert_eq!((c.r, c.g, c.b, c.a), (168, 85, 247, 255));
    assert_eq!(first.style.font_style, None);
    assert_eq!(theme.scopes[1].style.font_style, Some(syntect::highlighting::FontStyle::BOLD));
    assert_eq!(theme.scopes[2].style.font_style, None);
    assert!(theme.scopes.iter().all(|item| item.style.background.is_none()
        && item.style.foreground.map(|c| c.a) == Some(255)));
}

#[test]
fn plain_scopes() {
    assert!(plain_scope("keyword"));
    assert!(plain_scope("meta.function-call"));
    assert!(plain_scope("a_1.b"));
    assert!(!plain_scope(""));
    assert!(!plain_scope(" keyword"));
    assert!(!plain_scope("a,b"));
    assert!(!plain_scope("a|b"));
    assert!(!plain_scope("a -b"));
    assert!(!plain_scope("a..b"));
    assert!(!plain_scope(".a"));
    assert!(!plain_scope("a."));
    assert!(!plain_scope("Keyword"));
    assert!(scope_rule_table().iter().all(|r| plain_scope(r.selector)));
}
