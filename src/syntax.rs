//! The grammars and theme machinery of syntect, as this library uses them.
use std::str::FromStr;
use syntect::easy::HighlightLines;
use syntect::highlighting::{Color, FontStyle, ScopeSelectors, StyleModifier, Theme, ThemeItem};
use syntect::parsing::SyntaxSet;
use vstd::prelude::*;

use crate::text::joined;

verus! {

#[verifier::external_type_specification]
#[verifier::external_body]
pub struct ExTheme(Theme);

#[verifier::external_type_specification]
#[verifier::external_body]
pub struct ExSyntaxSet(SyntaxSet);

#[verifier::external_type_specification]
#[verifier::external_body]
pub struct ExHighlightLines<'a>(HighlightLines<'a>);

#[verifier::external_type_specification]
#[verifier::external_body]
pub struct ExSyntectError(syntect::Error);

/// A scope rule of a syntect theme: its selector, written as a plain scope
/// (see `is_plain_scope`), and the style it applies: foreground RGBA,
/// background RGBA and font style bits, each when set.
pub type ThemeRule = (Seq<char>, Option<Seq<u8>>, Option<Seq<u8>>, Option<u8>);

/// The scope rules a syntect theme holds, in order.
pub uninterp spec fn theme_rules(theme: Theme) -> Seq<ThemeRule>;

/// The name and editor colours of a syntect theme: name, foreground,
/// background, caret and current-line RGBA.
pub uninterp spec fn theme_settings(theme: Theme) -> (Seq<char>, Seq<u8>, Seq<u8>, Seq<u8>, Seq<u8>);

/// A token as plain values: its text, foreground RGBA and font style bits.
pub type TokenValue = (Seq<char>, [u8; 4], u8);

/// The tokens syntect gives for `line` in the bundled grammar named
/// `grammar`, with a theme of these rules and settings, after it was given
/// the lines `earlier`; `None` when it fails on the line.
pub uninterp spec fn syntect_tokens(
    grammar: Seq<char>,
    rules: Seq<ThemeRule>,
    settings: (Seq<char>, Seq<u8>, Seq<u8>, Seq<u8>, Seq<u8>),
    earlier: Seq<Seq<char>>,
    line: Seq<char>,
) -> Option<Seq<TokenValue>>;

/// What a highlighter was made with: the grammar's name and the rules and
/// settings of its theme.
pub uninterp spec fn highlighter_setup(h: HighlightLines<'_>) -> (
    Seq<char>,
    Seq<ThemeRule>,
    (Seq<char>, Seq<u8>, Seq<u8>, Seq<u8>, Seq<u8>),
);

/// The lines a highlighter has been given, in order.
pub uninterp spec fn highlighter_history(h: HighlightLines<'_>) -> Seq<Seq<char>>;

/// A character of a scope atom as this library writes selectors.
pub open spec fn is_atom_char(c: char) -> bool {
    ('a' <= c && c <= 'z') || ('0' <= c && c <= '9') || c == '-' || c == '_'
}

/// A selector that is one plain scope: atoms of lowercase letters, digits,
/// `-` and `_`, joined by single dots.  Syntect reads such a text as exactly
/// that scope, so no two of them parse alike.
pub open spec fn is_plain_scope(s: Seq<char>) -> bool {
    &&& s.len() > 0
    &&& is_atom_char(s[0])
    &&& is_atom_char(s.last())
    &&& forall|i: int| 0 <= i < s.len() ==> is_atom_char(#[trigger] s[i]) || s[i] == '.'
    &&& forall|i: int| 0 <= i < s.len() - 1 ==> !(#[trigger] s[i] == '.' && s[i + 1] == '.')
}

/// Whether `s` is a plain scope.
pub fn plain_scope(s: &str) -> (r: bool)
    ensures
        r == is_plain_scope(s@),
{
    let n = s.unicode_len();
    if n == 0 {
        return false;
    }
    let mut i: usize = 0;
    let mut prev_dot = false;
    while i < n
        invariant
            n == s@.len() > 0,
            i <= n,
            i == 0 ==> !prev_dot,
            i > 0 ==> prev_dot == (s@[i - 1] == '.'),
            i > 0 ==> is_atom_char(s@[0]),
            forall|j: int| 0 <= j < i ==> is_atom_char(#[trigger] s@[j]) || s@[j] == '.',
            forall|j: int| 0 <= j < i - 1 ==> !(#[trigger] s@[j] == '.' && s@[j + 1] == '.'),
        decreases n - i,
    {
        let c = s.get_char(i);
        let atom = ('a' <= c && c <= 'z') || ('0' <= c && c <= '9') || c == '-' || c == '_';
        if c == '.' {
            if i == 0 || prev_dot {
                return false;
            }
            prev_dot = true;
        } else if atom {
            prev_dot = false;
        } else {
            return false;
        }
        i = i + 1;
    }
    !prev_dot
}

/// Whether syntect's bundled grammars hold one named `name`.
pub uninterp spec fn bundles_syntax_named(name: Seq<char>) -> bool;

/// The name of the bundled grammar that syntect picks for a file extension.
pub uninterp spec fn bundled_syntax_for_extension(extension: Seq<char>) -> Option<Seq<char>>;

/// Relies on `Theme::default` and on the public fields of `Theme`: a theme
/// with this name and these editor colours, and no scope rules.
#[verifier::external_body]
pub(crate) fn new_syntect_theme(
    name: &str,
    foreground: [u8; 4],
    background: [u8; 4],
    caret: [u8; 4],
    line_highlight: [u8; 4],
) -> (theme: Theme)
    ensures
        theme_rules(theme) == Seq::<ThemeRule>::empty(),
        theme_settings(theme) == (name@, foreground@, background@, caret@, line_highlight@),
{
    let rgba = |c: [u8; 4]| Color { r: c[0], g: c[1], b: c[2], a: c[3] };
    let mut theme = Theme::default();
    theme.name = Some(name.to_string());
    theme.settings.foreground = Some(rgba(foreground));
    theme.settings.background = Some(rgba(background));
    theme.settings.caret = Some(rgba(caret));
    theme.settings.line_highlight = Some(rgba(line_highlight));
    theme
}

/// Relies on `ScopeSelectors::from_str` and on the public `scopes` of
/// `Theme`: a rule whose selector parses is appended, with this foreground,
/// no background, and bold or no font style; otherwise the theme is left as
/// it was.
#[verifier::external_body]
pub(crate) fn push_theme_rule(theme: &mut Theme, selector: &str, foreground: [u8; 4], bold: bool) -> (added: bool)
    requires
        is_plain_scope(selector@),
    ensures
        theme_settings(*final(theme)) == theme_settings(*old(theme)),
        theme_rules(*final(theme)) == (if added {
            theme_rules(*old(theme)).push(
                (
                    selector@,
                    Some(foreground@),
                    None::<Seq<u8>>,
                    if bold {
                        Some(FONT_STYLE_BOLD)
                    } else {
                        None
                    },
                ),
            )
        } else {
            theme_rules(*old(theme))
        }),
{
    let Ok(scope) = ScopeSelectors::from_str(selector) else { return false };
    let font_style = if bold { Some(FontStyle::BOLD) } else { None };
    let fg = Color { r: foreground[0], g: foreground[1], b: foreground[2], a: foreground[3] };
    let style = StyleModifier { foreground: Some(fg), background: None, font_style };
    theme.scopes.push(ThemeItem { scope, style });
    true
}

/// The bit of syntect's `FontStyle::BOLD`.
pub const FONT_STYLE_BOLD: u8 = 1;

/// A piece of a highlighted line as syntect hands it out: its text, its
/// foreground RGBA and the bits of its font style.
#[derive(Debug)]
pub struct Token {
    pub text: String,
    pub color: [u8; 4],
    pub font_style: u8,
}

/// A token as plain values.
pub open spec fn token_value(t: Token) -> TokenValue {
    (t.text@, t.color, t.font_style)
}

/// The texts of a sequence of tokens.
pub open spec fn token_texts(tokens: Seq<Token>) -> Seq<Seq<char>> {
    tokens.map_values(|t: Token| t.text@)
}

/// The grammars bundled with syntect, for lines that keep their newlines.
pub(crate) struct Grammars {
    set: SyntaxSet,
}

impl Grammars {
    /// Relies on `SyntaxSet::load_defaults_newlines`: the bundled grammars.
    #[verifier::external_body]
    pub(crate) fn load_defaults() -> (g: Grammars) {
        Grammars { set: SyntaxSet::load_defaults_newlines() }
    }

    /// Relies on `SyntaxSet::find_syntax_by_name`: whether a grammar has
    /// exactly this name.
    #[verifier::external_body]
    pub(crate) fn has_syntax_named(&self, name: &str) -> (found: bool)
        ensures
            found == bundles_syntax_named(name@),
    {
        self.set.find_syntax_by_name(name).is_some()
    }

    /// Relies on `SyntaxSet::find_syntax_by_extension`: the name of the grammar
    /// that claims this extension, compared without ASCII case.
    #[verifier::external_body]
    pub(crate) fn syntax_for_extension(&self, extension: &str) -> (name: Option<String>)
        ensures
            name matches Some(n) ==> bundled_syntax_for_extension(extension@) == Some(n@),
            name is None ==> bundled_syntax_for_extension(extension@) is None,
    {
        self.set.find_syntax_by_extension(extension).map(|s| s.name.clone())
    }

    /// Relies on `HighlightLines::new`: a highlighter in the grammar named
    /// `name` and in `theme`, at the start of a text, when there is such a
    /// grammar.
    #[verifier::external_body]
    pub(crate) fn highlighter_for<'a>(&self, name: &str, theme: &'a Theme) -> (h: Option<HighlightLines<'a>>)
        ensures
            h is Some <==> bundles_syntax_named(name@),
            h matches Some(hl) ==> highlighter_setup(hl) == (name@, theme_rules(*theme), theme_settings(*theme))
                && highlighter_history(hl) == Seq::<Seq<char>>::empty(),
    {
        match self.set.find_syntax_by_name(name) {
            Some(syntax) => Some(HighlightLines::new(syntax, theme)),
            None => None,
        }
    }

    /// Relies on `HighlightLines::highlight_line`: the line's pieces in order,
    /// none empty and each following the last; they spell the whole line
    /// unless syntect's scope stack fails part way, when they spell a prefix.
    /// What comes out depends on the grammar, the theme's rules and settings,
    /// the lines given before and this line alone.
    #[verifier::external_body]
    pub(crate) fn highlight_line(&self, lines: &mut HighlightLines, line: &str) -> (r: Result<Vec<Token>, syntect::Error>)
        ensures
            highlighter_setup(*final(lines)) == highlighter_setup(*old(lines)),
            highlighter_history(*final(lines)) == highlighter_history(*old(lines)).push(line@),
            r matches Ok(tokens) ==> syntect_tokens(
                highlighter_setup(*old(lines)).0,
                highlighter_setup(*old(lines)).1,
                highlighter_setup(*old(lines)).2,
                highlighter_history(*old(lines)),
                line@,
            ) == Some(tokens@.map_values(|t: Token| token_value(t))),
            r is Err ==> syntect_tokens(
                highlighter_setup(*old(lines)).0,
                highlighter_setup(*old(lines)).1,
                highlighter_setup(*old(lines)).2,
                highlighter_history(*old(lines)),
                line@,
            ) is None,
            r matches Ok(tokens) ==> {
                &&& joined(token_texts(tokens@)).len() <= line@.len()
                &&& line@.take(joined(token_texts(tokens@)).len() as int) == joined(token_texts(tokens@))
                &&& forall|i: int| 0 <= i < tokens@.len() ==> #[trigger] tokens@[i].text@.len() > 0
            },
    {
        let pieces = lines.highlight_line(line, &self.set)?;
        Ok(pieces.into_iter().map(|(style, text)| Token {
            text: text.to_string(),
            color: [style.foreground.r, style.foreground.g, style.foreground.b, style.foreground.a],
            font_style: style.font_style.bits(),
        }).collect())
    }
}

} // verus!
