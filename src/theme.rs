use syntect::highlighting::Theme;
use vstd::prelude::*;

use crate::syntax::{
    is_plain_scope, new_syntect_theme, plain_scope, push_theme_rule, theme_rules, theme_settings,
    ThemeRule, FONT_STYLE_BOLD,
};

verus! {

/// Colours of the editor's chrome, each an RGB triple.
#[derive(Clone, Copy, Debug)]
pub struct ThemeColors {
    pub window_bg: [u8; 3],
    pub panel_bg: [u8; 3],
    pub editor_bg: [u8; 3],
    pub faint_bg: [u8; 3],
    pub text_primary: [u8; 3],
    pub text_secondary: [u8; 3],
    pub text_disabled: [u8; 3],
    pub button_bg: [u8; 3],
    pub button_hover: [u8; 3],
    pub button_active: [u8; 3],
    pub selection: [u8; 3],
    pub separator: [u8; 3],
}

/// Colours of the semantic roles that highlighted code is drawn in.
#[derive(Clone, Copy, Debug)]
pub struct SyntaxColors {
    pub text: [u8; 3],
    pub keyword: [u8; 3],
    pub literal: [u8; 3],
    pub string: [u8; 3],
    pub punctuation: [u8; 3],
    pub preprocessor: [u8; 3],
    pub format_specifier: [u8; 3],
    pub types: [u8; 3],
    pub variables: [u8; 3],
}

/// Spacing of the chrome, in logical points.
#[derive(Clone, Copy, Debug)]
pub struct ThemeSpacing {
    pub item_spacing: [u32; 2],
    pub button_padding: [u32; 2],
    pub window_margin: u32,
    pub panel_margin: i8,
}

/// Font sizes, in logical points.
#[derive(Clone, Copy, Debug)]
pub struct ThemeTypography {
    pub font_size: u32,
    pub code_font_size: u32,
}

/// A named theme: chrome colours, spacing, font sizes and syntax colours.
/// A theme is a value: changing a setting makes a new theme.
#[derive(Debug)]
pub struct ZenTheme {
    pub name: String,
    pub colors: ThemeColors,
    pub spacing: ThemeSpacing,
    pub typography: ThemeTypography,
    pub syntax: SyntaxColors,
}

impl Clone for ZenTheme {
    fn clone(&self) -> (r: Self)
        ensures
            r == *self,
    {
        ZenTheme {
            name: self.name.clone(),
            colors: self.colors,
            spacing: self.spacing,
            typography: self.typography,
            syntax: self.syntax,
        }
    }
}

/// The semantic role a grammar scope is drawn as.
#[derive(Clone, Copy, Debug, PartialEq, Eq)]
pub enum SyntaxRole {
    Text,
    Keyword,
    Literal,
    StringLiteral,
    Punctuation,
    Preprocessor,
    FunctionLike,
    Type,
    Variable,
}

impl SyntaxColors {
    pub open spec fn spec_color_of(&self, role: SyntaxRole) -> [u8; 3] {
        match role {
            SyntaxRole::Text => self.text,
            SyntaxRole::Keyword => self.keyword,
            SyntaxRole::Literal => self.literal,
            SyntaxRole::StringLiteral => self.string,
            SyntaxRole::Punctuation => self.punctuation,
            SyntaxRole::Preprocessor => self.preprocessor,
            SyntaxRole::FunctionLike => self.format_specifier,
            SyntaxRole::Type => self.types,
            SyntaxRole::Variable => self.variables,
        }
    }

    /// The colour of a role.
    #[verifier::when_used_as_spec(spec_color_of)]
    pub fn color_of(&self, role: SyntaxRole) -> (c: [u8; 3])
        ensures
            c == self.spec_color_of(role),
    {
        match role {
            SyntaxRole::Text => self.text,
            SyntaxRole::Keyword => self.keyword,
            SyntaxRole::Literal => self.literal,
            SyntaxRole::StringLiteral => self.string,
            SyntaxRole::Punctuation => self.punctuation,
            SyntaxRole::Preprocessor => self.preprocessor,
            SyntaxRole::FunctionLike => self.format_specifier,
            SyntaxRole::Type => self.types,
            SyntaxRole::Variable => self.variables,
        }
    }
}

/// Spacing shared by the built-in themes.
pub open spec fn builtin_spacing() -> ThemeSpacing {
    ThemeSpacing { item_spacing: [8, 6], button_padding: [12, 6], window_margin: 8, panel_margin: 6 }
}

/// Font sizes shared by the built-in themes.
pub open spec fn builtin_typography() -> ThemeTypography {
    ThemeTypography { font_size: 14, code_font_size: 13 }
}

pub open spec fn dark_colors() -> ThemeColors {
    ThemeColors {
        window_bg: [5, 5, 5],
        panel_bg: [10, 10, 10],
        editor_bg: [2, 2, 2],
        faint_bg: [32, 32, 32],
        text_primary: [204, 204, 204],
        text_secondary: [153, 153, 153],
        text_disabled: [102, 102, 102],
        button_bg: [48, 48, 48],
        button_hover: [64, 64, 64],
        button_active: [80, 80, 80],
        selection: [96, 96, 96],
        separator: [48, 48, 48],
    }
}

pub open spec fn dark_syntax() -> SyntaxColors {
    SyntaxColors {
        text: [204, 204, 204],
        keyword: [168, 85, 247],
        literal: [186, 85, 211],
        string: [218, 112, 214],
        punctuation: [212, 212, 212],
        preprocessor: [147, 112, 219],
        format_specifier: [199, 21, 133],
        types: [129, 140, 248],
        variables: [248, 174, 76],
    }
}

pub open spec fn light_colors() -> ThemeColors {
    ThemeColors {
        window_bg: [248, 249, 250],
        panel_bg: [255, 255, 255],
        editor_bg: [252, 253, 254],
        faint_bg: [240, 242, 245],
        text_primary: [33, 37, 41],
        text_secondary: [73, 80, 87],
        text_disabled: [134, 142, 150],
        button_bg: [233, 236, 239],
        button_hover: [222, 226, 230],
        button_active: [201, 203, 207],
        selection: [13, 110, 253],
        separator: [222, 226, 230],
    }
}

pub open spec fn light_syntax() -> SyntaxColors {
    SyntaxColors {
        text: [33, 37, 41],
        keyword: [147, 51, 234],
        literal: [9, 134, 88],
        string: [163, 21, 21],
        punctuation: [0, 0, 0],
        preprocessor: [128, 128, 128],
        format_specifier: [148, 148, 148],
        types: [37, 99, 235],
        variables: [217, 119, 6],
    }
}

/// The built-in dark theme.
pub open spec fn is_dark_theme(t: ZenTheme) -> bool {
    &&& t.name@ == "Dark"@
    &&& t.colors == dark_colors()
    &&& t.spacing == builtin_spacing()
    &&& t.typography == builtin_typography()
    &&& t.syntax == dark_syntax()
}

/// The built-in light theme.
pub open spec fn is_light_theme(t: ZenTheme) -> bool {
    &&& t.name@ == "Light"@
    &&& t.colors == light_colors()
    &&& t.spacing == builtin_spacing()
    &&& t.typography == builtin_typography()
    &&& t.syntax == light_syntax()
}

/// `themes` is what is on offer given the themes read from files: the dark
/// and the light theme, then those read, in their order.
pub open spec fn offers_themes(themes: Seq<ZenTheme>, loaded: Seq<ZenTheme>) -> bool {
    &&& themes.len() == loaded.len() + 2
    &&& is_dark_theme(themes[0])
    &&& is_light_theme(themes[1])
    &&& themes.subrange(2, themes.len() as int) == loaded
}

impl ZenTheme {
    /// The built-in dark theme, named "Dark".
    pub fn dark_theme() -> (r: ZenTheme)
        ensures
            is_dark_theme(r),
    {
        ZenTheme {
            name: String::from_str("Dark"),
            colors: ThemeColors {
                window_bg: [5, 5, 5],
                panel_bg: [10, 10, 10],
                editor_bg: [2, 2, 2],
                faint_bg: [32, 32, 32],
                text_primary: [204, 204, 204],
                text_secondary: [153, 153, 153],
                text_disabled: [102, 102, 102],
                button_bg: [48, 48, 48],
                button_hover: [64, 64, 64],
                button_active: [80, 80, 80],
                selection: [96, 96, 96],
                separator: [48, 48, 48],
            },
            spacing: ThemeSpacing {
                item_spacing: [8, 6],
                button_padding: [12, 6],
                window_margin: 8,
                panel_margin: 6,
            },
            typography: ThemeTypography { font_size: 14, code_font_size: 13 },
            syntax: SyntaxColors {
                text: [204, 204, 204],
                keyword: [168, 85, 247],
                literal: [186, 85, 211],
                string: [218, 112, 214],
                punctuation: [212, 212, 212],
                preprocessor: [147, 112, 219],
                format_specifier: [199, 21, 133],
                types: [129, 140, 248],
                variables: [248, 174, 76],
            },
        }
    }

    /// The built-in light theme, named "Light".
    pub fn light_theme() -> (r: ZenTheme)
        ensures
            is_light_theme(r),
    {
        ZenTheme {
            name: String::from_str("Light"),
            colors: ThemeColors {
                window_bg: [248, 249, 250],
                panel_bg: [255, 255, 255],
                editor_bg: [252, 253, 254],
                faint_bg: [240, 242, 245],
                text_primary: [33, 37, 41],
                text_secondary: [73, 80, 87],
                text_disabled: [134, 142, 150],
                button_bg: [233, 236, 239],
                button_hover: [222, 226, 230],
                button_active: [201, 203, 207],
                selection: [13, 110, 253],
                separator: [222, 226, 230],
            },
            spacing: ThemeSpacing {
                item_spacing: [8, 6],
                button_padding: [12, 6],
                window_margin: 8,
                panel_margin: 6,
            },
            typography: ThemeTypography { font_size: 14, code_font_size: 13 },
            syntax: SyntaxColors {
                text: [33, 37, 41],
                keyword: [147, 51, 234],
                literal: [9, 134, 88],
                string: [163, 21, 21],
                punctuation: [0, 0, 0],
                preprocessor: [128, 128, 128],
                format_specifier: [148, 148, 148],
                types: [37, 99, 235],
                variables: [217, 119, 6],
            },
        }
    }

    /// The themes offered to the user: the two built-in ones, then those
    /// read from theme files, in the order given.
    pub fn load_available_themes(loaded: Vec<ZenTheme>) -> (r: Vec<ZenTheme>)
        ensures
            offers_themes(r@, loaded@),
    {
        let mut themes: Vec<ZenTheme> = Vec::new();
        themes.push(ZenTheme::dark_theme());
        themes.push(ZenTheme::light_theme());
        let mut rest = loaded;
        themes.append(&mut rest);
        assert(themes@.subrange(2, themes@.len() as int) =~= loaded@);
        themes
    }

    /// Background colour of the editing surface.
    pub fn editor_background(&self) -> (c: [u8; 3])
        ensures
            c == self.colors.editor_bg,
    {
        self.colors.editor_bg
    }

    /// Colour of ordinary text in the chrome.
    pub fn text_color(&self) -> (c: [u8; 3])
        ensures
            c == self.colors.text_primary,
    {
        self.colors.text_primary
    }

    /// The same theme with another code font size; the interface font is
    /// kept one point larger.
    pub fn with_code_font_size(&self, size: u32) -> (r: ZenTheme)
        requires
            size < u32::MAX,
        ensures
            r.name == self.name,
            r.colors == self.colors,
            r.spacing == self.spacing,
            r.syntax == self.syntax,
            r.typography.code_font_size == size,
            r.typography.font_size == size + 1,
    {
        let mut r = self.clone();
        r.typography = ThemeTypography { font_size: size + 1, code_font_size: size };
        r
    }

    /// How this theme styles grammar scopes: each scope rule with its role
    /// resolved to this theme's colour.
    pub fn scope_styles(&self) -> (t: ScopeStyleTable)
        ensures
            t.name == self.name,
            t.foreground == self.syntax.text,
            t.background == self.colors.editor_bg,
            t.line_highlight == self.colors.selection,
            t.styles@ == resolved_styles(self.syntax),
    {
        let rules = scope_rule_table();
        let mut styles: Vec<ScopeStyle> = Vec::new();
        for i in 0..rules.len()
            invariant
                rules@ == scope_rules(),
                styles@ == scope_rules().take(i as int).map_values(|rule: ScopeRule| rule.styled(self.syntax)),
        {
            let rule = rules[i];
            styles.push(ScopeStyle { selector: rule.selector, color: self.syntax.color_of(rule.role), bold: rule.bold });
            assert(scope_rules().take(i + 1) =~= scope_rules().take(i as int).push(rule));
        }
        assert(scope_rules().take(rules.len() as int) =~= scope_rules());
        ScopeStyleTable {
            name: self.name.clone(),
            foreground: self.syntax.text,
            background: self.colors.editor_bg,
            line_highlight: self.colors.selection,
            styles,
        }
    }
}

/// An RGB colour with the given opacity, as RGBA.
pub open spec fn with_alpha(c: [u8; 3], alpha: u8) -> Seq<u8> {
    seq![c[0], c[1], c[2], alpha]
}

fn rgba(c: [u8; 3], alpha: u8) -> (r: [u8; 4])
    ensures
        r@ == with_alpha(c, alpha),
{
    let r = [c[0], c[1], c[2], alpha];
    assert(r@ =~= with_alpha(c, alpha));
    r
}

/// Opacity of the current-line colour.
pub const LINE_HIGHLIGHT_ALPHA: u8 = 50;

/// The name and editor colours a theme gives its syntect theme: the text
/// colour as foreground and caret, the editor background, and the selection
/// colour faintly as current line.
pub open spec fn syntect_settings_of(theme: ZenTheme) -> (Seq<char>, Seq<u8>, Seq<u8>, Seq<u8>, Seq<u8>) {
    (
        theme.name@,
        with_alpha(theme.syntax.text, 255),
        with_alpha(theme.colors.editor_bg, 255),
        with_alpha(theme.syntax.text, 255),
        with_alpha(theme.colors.selection, LINE_HIGHLIGHT_ALPHA),
    )
}

/// A scope style as a rule of a syntect theme: fully opaque foreground, no
/// background, and bold or no font style.
pub open spec fn as_theme_rule(s: ScopeStyle) -> ThemeRule {
    (
        s.selector@,
        Some(with_alpha(s.color, 255)),
        None,
        if s.bold {
            Some(FONT_STYLE_BOLD)
        } else {
            None
        },
    )
}

/// The scope styles that `kept` marks, in order, as rules of a syntect
/// theme.
pub open spec fn kept_rules(styles: Seq<ScopeStyle>, kept: Seq<bool>) -> Seq<ThemeRule>
    decreases styles.len(),
{
    if styles.len() == 0 {
        Seq::empty()
    } else {
        let rest = kept_rules(styles.drop_last(), kept.drop_last());
        let s = styles.last();
        if kept.last() {
            rest.push(as_theme_rule(s))
        } else {
            rest
        }
    }
}

impl ZenTheme {
    /// This theme as a syntect theme: its name, the text colour as
    /// foreground and caret, the editor background, the selection colour
    /// faintly as current line, and the scope styles in order, less any whose
    /// selector syntect refuses or that is not a plain scope.
    pub fn create_syntect_theme(&self) -> (t: Theme)
        ensures
            theme_settings(t) == syntect_settings_of(*self),
            exists|kept: Seq<bool>|
                kept.len() == scope_rules().len() && theme_rules(t) == #[trigger] kept_rules(
                    resolved_styles(self.syntax),
                    kept,
                ),
    {
        let table = self.scope_styles();
        let foreground = rgba(table.foreground, 255);
        let mut theme = new_syntect_theme(
            table.name.as_str(),
            foreground,
            rgba(table.background, 255),
            foreground,
            rgba(table.line_highlight, LINE_HIGHLIGHT_ALPHA),
        );
        let ghost settings = theme_settings(theme);
        let ghost mut kept: Seq<bool> = Seq::empty();
        for i in 0..table.styles.len()
            invariant
                theme_settings(theme) == settings,
                kept.len() == i,
                theme_rules(theme) == kept_rules(table.styles@.take(i as int), kept),
        {
            let style = table.styles[i];
            let added = if plain_scope(style.selector) {
                push_theme_rule(&mut theme, style.selector, rgba(style.color, 255), style.bold)
            } else {
                false
            };
            proof {
                assert(table.styles@.take(i + 1).drop_last() =~= table.styles@.take(i as int));
                assert(kept.push(added).drop_last() =~= kept);
                kept = kept.push(added);
            }
        }
        assert(table.styles@.take(table.styles.len() as int) =~= table.styles@);
        assert(kept_rules(table.styles@, kept) == theme_rules(theme));
        theme
    }
}

impl Default for ZenTheme {
    /// The dark theme.
    fn default() -> (r: Self)
        ensures
            is_dark_theme(r),
    {
        ZenTheme::dark_theme()
    }
}

/// The scope rules with their roles resolved to the colours of `syntax`.
pub open spec fn resolved_styles(syntax: SyntaxColors) -> Seq<ScopeStyle> {
    scope_rules().map_values(|rule: ScopeRule| rule.styled(syntax))
}

/// A grammar scope selector and how it is drawn: in the colour of a role,
/// and either bold or with the weight it inherits.
#[derive(Clone, Copy, Debug)]
pub struct ScopeRule {
    pub selector: &'static str,
    pub role: SyntaxRole,
    pub bold: bool,
}

/// A scope selector with its role resolved to a colour.
#[derive(Clone, Copy, Debug)]
pub struct ScopeStyle {
    pub selector: &'static str,
    pub color: [u8; 3],
    pub bold: bool,
}

impl ScopeRule {
    pub open spec fn styled(self, syntax: SyntaxColors) -> ScopeStyle {
        ScopeStyle { selector: self.selector, color: syntax.spec_color_of(self.role), bold: self.bold }
    }
}

/// How a theme draws code: the default text colour, the background, the
/// current-line colour, and the style of each scope rule, in order (a later
/// rule of equal precision wins).
#[derive(Debug)]
pub struct ScopeStyleTable {
    pub name: String,
    pub foreground: [u8; 3],
    pub background: [u8; 3],
    pub line_highlight: [u8; 3],
    pub styles: Vec<ScopeStyle>,
}

/// The scopes that themes colour, in order.  A scope no rule selects is
/// drawn in the text colour.
pub open spec fn scope_rules() -> Seq<ScopeRule> {
    seq![
        ScopeRule { selector: "keyword", role: SyntaxRole::Keyword, bold: false },
        ScopeRule { selector: "keyword.control", role: SyntaxRole::Keyword, bold: true },
        ScopeRule { selector: "keyword.operator", role: SyntaxRole::Keyword, bold: false },
        ScopeRule { selector: "storage.type", role: SyntaxRole::Keyword, bold: true },
        ScopeRule { selector: "storage.modifier", role: SyntaxRole::Keyword, bold: false },
        ScopeRule { selector: "keyword.other", role: SyntaxRole::Keyword, bold: true },
        ScopeRule { selector: "keyword.other.rust", role: SyntaxRole::Keyword, bold: true },
        ScopeRule { selector: "keyword.other.use", role: SyntaxRole::Keyword, bold: true },
        ScopeRule { selector: "string", role: SyntaxRole::StringLiteral, bold: false },
        ScopeRule { selector: "string.quoted", role: SyntaxRole::StringLiteral, bold: false },
        ScopeRule { selector: "string.quoted.double", role: SyntaxRole::StringLiteral, bold: false },
        ScopeRule { selector: "string.quoted.single", role: SyntaxRole::StringLiteral, bold: false },
        ScopeRule { selector: "constant", role: SyntaxRole::Literal, bold: false },
        ScopeRule { selector: "constant.numeric", role: SyntaxRole::Literal, bold: false },
        ScopeRule { selector: "constant.language", role: SyntaxRole::Literal, bold: false },
        ScopeRule { selector: "constant.character", role: SyntaxRole::Literal, bold: false },
        ScopeRule { selector: "entity.name.function", role: SyntaxRole::FunctionLike, bold: false },
        ScopeRule { selector: "support.function", role: SyntaxRole::FunctionLike, bold: false },
        ScopeRule { selector: "meta.function-call", role: SyntaxRole::FunctionLike, bold: false },
        ScopeRule { selector: "entity.name.type", role: SyntaxRole::Type, bold: false },
        ScopeRule { selector: "entity.name.class", role: SyntaxRole::Type, bold: false },
        ScopeRule { selector: "entity.name.type.struct", role: SyntaxRole::Type, bold: false },
        ScopeRule { selector: "entity.name.type.enum", role: SyntaxRole::Type, bold: false },
        ScopeRule { selector: "support.type", role: SyntaxRole::Type, bold: false },
        ScopeRule { selector: "variable", role: SyntaxRole::Variable, bold: false },
        ScopeRule { selector: "variable.parameter", role: SyntaxRole::Variable, bold: false },
        ScopeRule { selector: "variable.other", role: SyntaxRole::Variable, bold: false },
        ScopeRule { selector: "variable.other.member", role: SyntaxRole::Variable, bold: false },
        ScopeRule { selector: "meta.macro", role: SyntaxRole::Preprocessor, bold: true },
        ScopeRule { selector: "entity.name.function.macro", role: SyntaxRole::Preprocessor, bold: true },
        ScopeRule { selector: "support.function.macro", role: SyntaxRole::Preprocessor, bold: true },
        ScopeRule { selector: "meta.attribute", role: SyntaxRole::Preprocessor, bold: false },
        ScopeRule { selector: "entity.name.namespace", role: SyntaxRole::FunctionLike, bold: false },
        ScopeRule { selector: "punctuation", role: SyntaxRole::Punctuation, bold: false },
        ScopeRule { selector: "punctuation.separator", role: SyntaxRole::Punctuation, bold: false },
        ScopeRule { selector: "punctuation.terminator", role: SyntaxRole::Punctuation, bold: false },
        ScopeRule { selector: "punctuation.definition", role: SyntaxRole::Punctuation, bold: false },
        ScopeRule { selector: "punctuation.definition.lifetime", role: SyntaxRole::Keyword, bold: false },
        ScopeRule { selector: "entity.name.lifetime", role: SyntaxRole::Keyword, bold: false },
        ScopeRule { selector: "storage.modifier.lifetime", role: SyntaxRole::Keyword, bold: false },
        ScopeRule { selector: "meta.preprocessor", role: SyntaxRole::Preprocessor, bold: false },
        ScopeRule { selector: "keyword.other.directive", role: SyntaxRole::Preprocessor, bold: false },
        ScopeRule { selector: "support.type.primitive", role: SyntaxRole::Type, bold: false },
        ScopeRule { selector: "meta.use", role: SyntaxRole::Text, bold: false },
    ]
}

/// The scope rules, as a vector.
pub fn scope_rule_table() -> (r: Vec<ScopeRule>)
    ensures
        r@ == scope_rules(),
{
    let r = vec![
        ScopeRule { selector: "keyword", role: SyntaxRole::Keyword, bold: false },
        ScopeRule { selector: "keyword.control", role: SyntaxRole::Keyword, bold: true },
        ScopeRule { selector: "keyword.operator", role: SyntaxRole::Keyword, bold: false },
        ScopeRule { selector: "storage.type", role: SyntaxRole::Keyword, bold: true },
        ScopeRule { selector: "storage.modifier", role: SyntaxRole::Keyword, bold: false },
        ScopeRule { selector: "keyword.other", role: SyntaxRole::Keyword, bold: true },
        ScopeRule { selector: "keyword.other.rust", role: SyntaxRole::Keyword, bold: true },
        ScopeRule { selector: "keyword.other.use", role: SyntaxRole::Keyword, bold: true },
        ScopeRule { selector: "string", role: SyntaxRole::StringLiteral, bold: false },
        ScopeRule { selector: "string.quoted", role: SyntaxRole::StringLiteral, bold: false },
        ScopeRule { selector: "string.quoted.double", role: SyntaxRole::StringLiteral, bold: false },
        ScopeRule { selector: "string.quoted.single", role: SyntaxRole::StringLiteral, bold: false },
        ScopeRule { selector: "constant", role: SyntaxRole::Literal, bold: false },
        ScopeRule { selector: "constant.numeric", role: SyntaxRole::Literal, bold: false },
        ScopeRule { selector: "constant.language", role: SyntaxRole::Literal, bold: false },
        ScopeRule { selector: "constant.character", role: SyntaxRole::Literal, bold: false },
        ScopeRule { selector: "entity.name.function", role: SyntaxRole::FunctionLike, bold: false },
        ScopeRule { selector: "support.function", role: SyntaxRole::FunctionLike, bold: false },
        ScopeRule { selector: "meta.function-call", role: SyntaxRole::FunctionLike, bold: false },
        ScopeRule { selector: "entity.name.type", role: SyntaxRole::Type, bold: false },
        ScopeRule { selector: "entity.name.class", role: SyntaxRole::Type, bold: false },
        ScopeRule { selector: "entity.name.type.struct", role: SyntaxRole::Type, bold: false },
        ScopeRule { selector: "entity.name.type.enum", role: SyntaxRole::Type, bold: false },
        ScopeRule { selector: "support.type", role: SyntaxRole::Type, bold: false },
        ScopeRule { selector: "variable", role: SyntaxRole::Variable, bold: false },
        ScopeRule { selector: "variable.parameter", role: SyntaxRole::Variable, bold: false },
        ScopeRule { selector: "variable.other", role: SyntaxRole::Variable, bold: false },
        ScopeRule { selector: "variable.other.member", role: SyntaxRole::Variable, bold: false },
        ScopeRule { selector: "meta.macro", role: SyntaxRole::Preprocessor, bold: true },
        ScopeRule { selector: "entity.name.function.macro", role: SyntaxRole::Preprocessor, bold: true },
        ScopeRule { selector: "support.function.macro", role: SyntaxRole::Preprocessor, bold: true },
        ScopeRule { selector: "meta.attribute", role: SyntaxRole::Preprocessor, bold: false },
        ScopeRule { selector: "entity.name.namespace", role: SyntaxRole::FunctionLike, bold: false },
        ScopeRule { selector: "punctuation", role: SyntaxRole::Punctuation, bold: false },
        ScopeRule { selector: "punctuation.separator", role: SyntaxRole::Punctuation, bold: false },
        ScopeRule { selector: "punctuation.terminator", role: SyntaxRole::Punctuation, bold: false },
        ScopeRule { selector: "punctuation.definition", role: SyntaxRole::Punctuation, bold: false },
        ScopeRule { selector: "punctuation.definition.lifetime", role: SyntaxRole::Keyword, bold: false },
        ScopeRule { selector: "entity.name.lifetime", role: SyntaxRole::Keyword, bold: false },
        ScopeRule { selector: "storage.modifier.lifetime", role: SyntaxRole::Keyword, bold: false },
        ScopeRule { selector: "meta.preprocessor", role: SyntaxRole::Preprocessor, bold: false },
        ScopeRule { selector: "keyword.other.directive", role: SyntaxRole::Preprocessor, bold: false },
        ScopeRule { selector: "support.type.primitive", role: SyntaxRole::Type, bold: false },
        ScopeRule { selector: "meta.use", role: SyntaxRole::Text, bold: false },
    ];
    assert(r@ =~= scope_rules());
    r
}

} // verus!
