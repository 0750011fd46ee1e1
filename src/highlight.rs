//! Highlighting a text into styled runs.
use vstd::prelude::*;

use crate::syntax::{
    bundled_syntax_for_extension, bundles_syntax_named, highlighter_history, highlighter_setup,
    syntect_tokens, theme_rules, theme_settings, token_texts, token_value, Grammars, ThemeRule,
    Token, TokenValue, FONT_STYLE_BOLD,
};
use crate::text::{joined, lemma_joined_concat, lemma_joined_push, lemma_lines_with_endings,
    lines_with_endings, same_text, split_lines_with_endings, views};
use crate::theme::{kept_rules, resolved_styles, scope_rules, syntect_settings_of, ZenTheme};

verus! {

broadcast use vstd::string::group_string_axioms;

/// A span of text with the style it is drawn in: an RGBA colour, a weight,
/// and the size of the monospace font.
#[derive(Debug)]
pub struct StyledRun {
    pub text: String,
    pub color: [u8; 4],
    pub bold: bool,
    pub font_size: u32,
}

/// What a styled run holds, with its text as characters.
pub struct StyledRunView {
    pub text: Seq<char>,
    pub color: [u8; 4],
    pub bold: bool,
    pub font_size: u32,
}

impl View for StyledRun {
    type V = StyledRunView;

    open spec fn view(&self) -> StyledRunView {
        StyledRunView { text: self.text@, color: self.color, bold: self.bold, font_size: self.font_size }
    }
}

impl Clone for StyledRun {
    fn clone(&self) -> (r: Self)
        ensures
            r == *self,
    {
        StyledRun { text: self.text.clone(), color: self.color, bold: self.bold, font_size: self.font_size }
    }
}

/// The views of a sequence of runs.
pub open spec fn run_views(runs: Seq<StyledRun>) -> Seq<StyledRunView> {
    runs.map_values(|r: StyledRun| r@)
}

/// The texts of a sequence of runs.
pub open spec fn run_texts(runs: Seq<StyledRunView>) -> Seq<Seq<char>> {
    runs.map_values(|r: StyledRunView| r.text)
}

/// The text that a sequence of runs spells.
pub open spec fn spelled(runs: Seq<StyledRun>) -> Seq<char> {
    joined(run_texts(run_views(runs)))
}

/// A token as a run in a font of the given size.
pub open spec fn token_run(t: Token, font_size: u32) -> StyledRunView {
    StyledRunView { text: t.text@, color: t.color, bold: t.font_style & FONT_STYLE_BOLD != 0, font_size }
}

/// A run in the plain style: the given colour, regular weight.
pub open spec fn plain_run(text: Seq<char>, color: [u8; 4], font_size: u32) -> StyledRunView {
    StyledRunView { text, color, bold: false, font_size }
}

/// Whether tokens spell a prefix of `line`, none of them empty, as syntect
/// hands them out.
pub open spec fn tokens_fit(line: Seq<char>, tokens: Seq<Token>) -> bool {
    &&& joined(token_texts(tokens)).len() <= line.len()
    &&& line.take(joined(token_texts(tokens)).len() as int) == joined(token_texts(tokens))
    &&& forall|i: int| 0 <= i < tokens.len() ==> #[trigger] tokens[i].text@.len() > 0
}

/// The runs of one line.  Without tokens (the highlighter failed) the line
/// is one plain run; otherwise each token is a run, and what the tokens leave
/// of the line follows as one plain run.
pub open spec fn line_runs(line: Seq<char>, tokens: Option<Seq<Token>>, color: [u8; 4], font_size: u32) -> Seq<StyledRunView> {
    match tokens {
        None => if line.len() == 0 {
            Seq::empty()
        } else {
            seq![plain_run(line, color, font_size)]
        },
        Some(ts) => {
            let head = ts.map_values(|t: Token| token_run(t, font_size));
            let covered = joined(token_texts(ts)).len();
            if covered < line.len() {
                head.push(plain_run(line.subrange(covered as int, line.len() as int), color, font_size))
            } else {
                head
            }
        },
    }
}

proof fn lemma_token_runs_spell(ts: Seq<Token>, font_size: u32)
    ensures
        run_texts(ts.map_values(|t: Token| token_run(t, font_size))) == token_texts(ts),
{
    assert(run_texts(ts.map_values(|t: Token| token_run(t, font_size))) =~= token_texts(ts));
}

/// The runs of a line spell the line, and none is empty.
pub proof fn lemma_line_runs_spell(line: Seq<char>, tokens: Option<Seq<Token>>, color: [u8; 4], font_size: u32)
    requires
        tokens matches Some(ts) ==> tokens_fit(line, ts),
    ensures
        joined(run_texts(line_runs(line, tokens, color, font_size))) == line,
        forall|i: int| 0 <= i < line_runs(line, tokens, color, font_size).len()
            ==> #[trigger] line_runs(line, tokens, color, font_size)[i].text.len() > 0,
        forall|i: int| 0 <= i < line_runs(line, tokens, color, font_size).len()
            ==> #[trigger] line_runs(line, tokens, color, font_size)[i].font_size == font_size,
{
    match tokens {
        None => {
            if line.len() > 0 {
                let r = seq![plain_run(line, color, font_size)];
                assert(run_texts(r) =~= seq![line]);
                assert(seq![line] =~= Seq::<Seq<char>>::empty().push(line));
                lemma_joined_push(Seq::<Seq<char>>::empty(), line);
                assert(Seq::<char>::empty() + line =~= line);
            } else {
                assert(line =~= Seq::<char>::empty());
            }
        },
        Some(ts) => {
            let head = ts.map_values(|t: Token| token_run(t, font_size));
            lemma_token_runs_spell(ts, font_size);
            let covered = joined(token_texts(ts)).len();
            if covered < line.len() {
                let rest = line.subrange(covered as int, line.len() as int);
                let tail = plain_run(rest, color, font_size);
                assert(run_texts(head.push(tail)) =~= run_texts(head).push(rest));
                lemma_joined_push(run_texts(head), rest);
                assert(line =~= line.take(covered as int) + rest);
            } else {
                assert(line =~= line.take(covered as int));
            }
        },
    }
}

/// The tokens of a vector, when there is one.
pub open spec fn tokens_view(tokens: Option<Vec<Token>>) -> Option<Seq<Token>> {
    match tokens {
        Some(ts) => Some(ts@),
        None => None,
    }
}

/// Builds the runs of one line from what the highlighter gave for it:
/// tokens, or nothing when it failed.  `color` is the plain text colour.
pub fn runs_for_line(line: &str, tokens: Option<Vec<Token>>, color: [u8; 4], font_size: u32) -> (runs: Vec<StyledRun>)
    requires
        tokens matches Some(ts) ==> tokens_fit(line@, ts@),
    ensures
        run_views(runs@) == line_runs(line@, tokens_view(tokens), color, font_size),
{
    let mut runs: Vec<StyledRun> = Vec::new();
    match tokens {
        None => {
            if !line.is_empty() {
                runs.push(StyledRun { text: line.to_string(), color, bold: false, font_size });
                assert(run_views(runs@) =~= seq![plain_run(line@, color, font_size)]);
            } else {
                assert(run_views(runs@) =~= Seq::<StyledRunView>::empty());
            }
        },
        Some(ts) => {
            let len = line.unicode_len();
            let mut covered: usize = 0;
            for i in 0..ts.len()
                invariant
                    len == line@.len(),
                    tokens_fit(line@, ts@),
                    covered == joined(token_texts(ts@.take(i as int))).len(),
                    run_views(runs@) == ts@.take(i as int).map_values(|t: Token| token_run(t, font_size)),
            {
                let t = &ts[i];
                proof {
                    assert(ts@.take(i + 1).drop_last() =~= ts@.take(i as int));
                    assert(token_texts(ts@.take(i + 1)) =~= token_texts(ts@.take(i as int)).push(t.text@));
                    lemma_joined_push(token_texts(ts@.take(i as int)), t.text@);
                    assert(token_texts(ts@) =~= token_texts(ts@.take(i + 1)) + token_texts(ts@.skip(i + 1)));
                    lemma_joined_concat(token_texts(ts@.take(i + 1)), token_texts(ts@.skip(i + 1)));
                }
                let n = t.text.as_str().unicode_len();
                covered = covered + n;
                let ghost before = run_views(runs@);
                runs.push(StyledRun {
                    text: t.text.clone(),
                    color: t.color,
                    bold: t.font_style & FONT_STYLE_BOLD != 0,
                    font_size,
                });
                assert(run_views(runs@) =~= before.push(token_run(ts@[i as int], font_size)));
                assert(run_views(runs@) =~= ts@.take(i + 1).map_values(|t: Token| token_run(t, font_size)));
            }
            assert(ts@.take(ts@.len() as int) =~= ts@);
            if covered < len {
                let rest = line.substring_char(covered, len);
                let ghost head = run_views(runs@);
                runs.push(StyledRun { text: rest.to_string(), color, bold: false, font_size });
                assert(run_views(runs@) =~= head.push(plain_run(line@.subrange(covered as int, len as int), color, font_size)));
            }
        },
    }
    runs
}

/// Grammar names for the language identifiers that this editor knows,
/// matched exactly.
pub open spec fn language_grammars() -> Seq<(&'static str, &'static str)> {
    seq![
        ("rs", "Rust"), ("rust", "Rust"),
        ("py", "Python"), ("python", "Python"),
        ("js", "JavaScript"), ("javascript", "JavaScript"),
        ("ts", "TypeScript"), ("typescript", "TypeScript"),
        ("c", "C"), ("h", "C"),
        ("cpp", "C++"), ("cc", "C++"), ("cxx", "C++"), ("hpp", "C++"), ("hh", "C++"), ("hxx", "C++"),
        ("java", "Java"),
        ("go", "Go"),
        ("json", "JSON"),
        ("toml", "TOML"),
        ("yaml", "YAML"), ("yml", "YAML"),
        ("xml", "XML"),
        ("html", "HTML"),
        ("css", "CSS"),
        ("md", "Markdown"), ("markdown", "Markdown"),
        ("sh", "Bash"), ("bash", "Bash"), ("zsh", "Bash"),
    ]
}

/// The grammar that the first entry for `language` names, if any.
pub open spec fn lookup_grammar(table: Seq<(&'static str, &'static str)>, language: Seq<char>) -> Option<&'static str>
    decreases table.len(),
{
    if table.len() == 0 {
        None
    } else if table[0].0@ == language {
        Some(table[0].1)
    } else {
        lookup_grammar(table.drop_first(), language)
    }
}

/// The grammar name that a language identifier stands for, if it is one
/// this editor knows.
pub fn grammar_name_for(language: &str) -> (r: Option<&'static str>)
    ensures
        r == lookup_grammar(language_grammars(), language@),
{
    let table: Vec<(&'static str, &'static str)> = vec![
        ("rs", "Rust"), ("rust", "Rust"),
        ("py", "Python"), ("python", "Python"),
        ("js", "JavaScript"), ("javascript", "JavaScript"),
        ("ts", "TypeScript"), ("typescript", "TypeScript"),
        ("c", "C"), ("h", "C"),
        ("cpp", "C++"), ("cc", "C++"), ("cxx", "C++"), ("hpp", "C++"), ("hh", "C++"), ("hxx", "C++"),
        ("java", "Java"),
        ("go", "Go"),
        ("json", "JSON"),
        ("toml", "TOML"),
        ("yaml", "YAML"), ("yml", "YAML"),
        ("xml", "XML"),
        ("html", "HTML"),
        ("css", "CSS"),
        ("md", "Markdown"), ("markdown", "Markdown"),
        ("sh", "Bash"), ("bash", "Bash"), ("zsh", "Bash"),
    ];
    assert(table@ =~= language_grammars());
    assert(table@.skip(0) =~= table@);
    for i in 0..table.len()
        invariant
            table@ == language_grammars(),
            lookup_grammar(table@, language@) == lookup_grammar(table@.skip(i as int), language@),
    {
        let entry = table[i];
        assert(table@.skip(i as int).drop_first() =~= table@.skip(i + 1));
        if same_text(entry.0, language) {
            return Some(entry.1);
        }
    }
    None
}

/// The grammar used for a language identifier: the one the identifier names
/// in the table; failing that (for an identifier outside the table) the one
/// that claims it as an extension, then the one of that name; failing
/// everything, plain text.  `None` only if even plain text is missing.
pub open spec fn resolved_grammar(language: Seq<char>) -> Option<Seq<char>> {
    let plain = if bundles_syntax_named("Plain Text"@) {
        Some("Plain Text"@)
    } else {
        None
    };
    match lookup_grammar(language_grammars(), language) {
        Some(name) => if bundles_syntax_named(name@) {
            Some(name@)
        } else {
            plain
        },
        None => match bundled_syntax_for_extension(language) {
            Some(n) => Some(n),
            None => if bundles_syntax_named(language) {
                Some(language)
            } else {
                plain
            },
        },
    }
}

fn plain_text_grammar(grammars: &Grammars) -> (r: Option<String>)
    ensures
        r matches Some(n) ==> bundles_syntax_named("Plain Text"@) && n@ == "Plain Text"@,
        r is None ==> !bundles_syntax_named("Plain Text"@),
{
    let plain = "Plain Text";
    if grammars.has_syntax_named(plain) {
        Some(plain.to_string())
    } else {
        None
    }
}

fn resolve_grammar(grammars: &Grammars, language: &str) -> (r: Option<String>)
    ensures
        r matches Some(n) ==> resolved_grammar(language@) == Some(n@),
        r is None ==> resolved_grammar(language@) is None,
{
    match grammar_name_for(language) {
        Some(name) => {
            if grammars.has_syntax_named(name) {
                Some(name.to_string())
            } else {
                plain_text_grammar(grammars)
            }
        },
        None => match grammars.syntax_for_extension(language) {
            Some(n) => Some(n),
            None => {
                if grammars.has_syntax_named(language) {
                    Some(language.to_string())
                } else {
                    plain_text_grammar(grammars)
                }
            },
        },
    }
}

proof fn lemma_run_texts_concat(a: Seq<StyledRun>, b: Seq<StyledRun>)
    ensures
        spelled(a + b) == spelled(a) + spelled(b),
{
    assert(run_texts(run_views(a + b)) =~= run_texts(run_views(a)) + run_texts(run_views(b)));
    lemma_joined_concat(run_texts(run_views(a)), run_texts(run_views(b)));
}

/// What highlighting promises of runs for a text in a theme: they spell the
/// text exactly, none is empty (so a non-empty text has at least one run),
/// and all are in the theme's code font size.
pub open spec fn highlight_result(theme: ZenTheme, code: Seq<char>, runs: Seq<StyledRun>) -> bool {
    &&& spelled(runs) == code
    &&& code.len() > 0 ==> runs.len() > 0
    &&& forall|i: int| 0 <= i < runs.len() ==> (#[trigger] runs[i]).text@.len() > 0
        && runs[i].font_size == theme.typography.code_font_size
}

/// The runs of consecutive lines, each built from what the highlighter gave
/// for it (see `line_runs`).
pub open spec fn runs_of_lines(
    lines: Seq<Seq<char>>,
    tokens: Seq<Option<Seq<Token>>>,
    color: [u8; 4],
    font_size: u32,
) -> Seq<StyledRunView>
    decreases lines.len(),
{
    if lines.len() == 0 {
        Seq::empty()
    } else {
        runs_of_lines(lines.drop_last(), tokens.drop_last(), color, font_size) + line_runs(
            lines.last(),
            tokens.last(),
            color,
            font_size,
        )
    }
}

/// Whether `tokens` holds, for each line, what a highlighter may give for
/// it: nothing, or tokens that spell a prefix of the line.
pub open spec fn tokens_for_lines(lines: Seq<Seq<char>>, tokens: Seq<Option<Seq<Token>>>) -> bool {
    &&& tokens.len() == lines.len()
    &&& forall|i: int| 0 <= i < lines.len() ==> (#[trigger] tokens[i] matches Some(ts) ==> tokens_fit(lines[i], ts))
}

proof fn lemma_runs_of_lines_spell(
    lines: Seq<Seq<char>>,
    tokens: Seq<Option<Seq<Token>>>,
    color: [u8; 4],
    font_size: u32,
)
    requires
        tokens_for_lines(lines, tokens),
    ensures
        joined(run_texts(runs_of_lines(lines, tokens, color, font_size))) == joined(lines),
    decreases lines.len(),
{
    if lines.len() > 0 {
        let (front, last) = (lines.drop_last(), lines.last());
        assert forall|i: int| 0 <= i < front.len() implies (#[trigger] tokens.drop_last()[i] matches Some(ts)
            ==> tokens_fit(front[i], ts)) by {
            assert(tokens.drop_last()[i] == tokens[i]);
        }
        lemma_runs_of_lines_spell(front, tokens.drop_last(), color, font_size);
        assert(tokens[lines.len() - 1] == tokens.last());
        lemma_line_runs_spell(last, tokens.last(), color, font_size);
        let head = runs_of_lines(front, tokens.drop_last(), color, font_size);
        let tail = line_runs(last, tokens.last(), color, font_size);
        assert(run_texts(head + tail) =~= run_texts(head) + run_texts(tail));
        lemma_joined_concat(run_texts(head), run_texts(tail));
    }
}

/// Round trip: whatever the highlighter gives for each line of a text (in
/// any language, for any input), the runs built from it spell the text
/// exactly.
pub proof fn lemma_highlight_round_trip(
    code: Seq<char>,
    tokens: Seq<Option<Seq<Token>>>,
    color: [u8; 4],
    font_size: u32,
)
    requires
        tokens_for_lines(lines_with_endings(code), tokens),
    ensures
        joined(run_texts(runs_of_lines(lines_with_endings(code), tokens, color, font_size))) == code,
{
    lemma_runs_of_lines_spell(lines_with_endings(code), tokens, color, font_size);
    lemma_lines_with_endings(code);
}

/// Totality: whatever the highlighter gives (including nothing at all, as
/// for an unknown language), a non-empty text gets at least one run, and
/// together the runs cover all of it.
pub proof fn lemma_highlight_covers_text(
    code: Seq<char>,
    tokens: Seq<Option<Seq<Token>>>,
    color: [u8; 4],
    font_size: u32,
)
    requires
        tokens_for_lines(lines_with_endings(code), tokens),
        code.len() > 0,
    ensures
        runs_of_lines(lines_with_endings(code), tokens, color, font_size).len() > 0,
        joined(run_texts(runs_of_lines(lines_with_endings(code), tokens, color, font_size))) == code,
{
    lemma_highlight_round_trip(code, tokens, color, font_size);
    let runs = runs_of_lines(lines_with_endings(code), tokens, color, font_size);
    if runs.len() == 0 {
        assert(run_texts(runs) =~= Seq::<Seq<char>>::empty());
    }
}

/// The plain text colour of a theme, fully opaque.
pub open spec fn plain_color(theme: ZenTheme) -> [u8; 4] {
    [theme.syntax.text[0], theme.syntax.text[1], theme.syntax.text[2], 255]
}

/// A highlighter's answer for a line as plain values.
pub open spec fn token_option_value(tokens: Option<Seq<Token>>) -> Option<Seq<TokenValue>> {
    match tokens {
        Some(ts) => Some(ts.map_values(|t: Token| token_value(t))),
        None => None,
    }
}

/// What the highlighter gives for line `i` of `lines`: syntect's tokens in
/// `grammar` and a theme of `rules` and `settings`, when that grammar is
/// bundled; nothing when there is no grammar.
pub open spec fn expected_tokens(
    grammar: Option<Seq<char>>,
    rules: Seq<ThemeRule>,
    settings: (Seq<char>, Seq<u8>, Seq<u8>, Seq<u8>, Seq<u8>),
    lines: Seq<Seq<char>>,
    i: int,
) -> Option<Seq<TokenValue>> {
    match grammar {
        Some(g) => if bundles_syntax_named(g) {
            syntect_tokens(g, rules, settings, lines.take(i), lines[i])
        } else {
            None
        },
        None => None,
    }
}

/// `runs` is the highlighting of `code` as `language` in `theme`: what
/// `highlight_result` promises, and, line by line, the runs built from
/// syntect's tokens in the grammar resolved for the language and the
/// theme's syntect rules (less any syntect refused), or the plain line when
/// there are no tokens.
pub open spec fn highlighted(theme: ZenTheme, code: Seq<char>, language: Seq<char>, runs: Seq<StyledRun>) -> bool {
    let lines = lines_with_endings(code);
    &&& highlight_result(theme, code, runs)
    &&& exists|kept: Seq<bool>, tokens: Seq<Option<Seq<Token>>>|
        #![trigger kept_rules(resolved_styles(theme.syntax), kept), runs_of_lines(lines, tokens, plain_color(theme), theme.typography.code_font_size)]
        {
            &&& kept.len() == scope_rules().len()
            &&& tokens_for_lines(lines, tokens)
            &&& run_views(runs) == runs_of_lines(lines, tokens, plain_color(theme), theme.typography.code_font_size)
            &&& forall|i: int| 0 <= i < lines.len() ==> #[trigger] token_option_value(tokens[i]) == expected_tokens(
                resolved_grammar(language),
                kept_rules(resolved_styles(theme.syntax), kept),
                syntect_settings_of(theme),
                lines,
                i,
            )
        }
}

impl ZenTheme {
    /// Highlights `code` as the language `language` in this theme.  The runs
    /// spell `code` exactly, whatever the language identifier; none is empty,
    /// so a non-empty text gives at least one run; all are in this theme's
    /// code font size.  Lines that the highlighter cannot read are kept as
    /// plain runs.
    pub fn highlight_code(&self, code: &str, language: &str) -> (runs: Vec<StyledRun>)
        ensures
            highlighted(*self, code@, language@, runs@),
    {
        let grammars = Grammars::load_defaults();
        let theme = self.create_syntect_theme();
        let lines = split_lines_with_endings(code);
        proof {
            lemma_lines_with_endings(code@);
        }
        let color: [u8; 4] = [self.syntax.text[0], self.syntax.text[1], self.syntax.text[2], 255];
        let font_size = self.typography.code_font_size;
        let ghost grammar = resolved_grammar(language@);
        let ghost kept = choose|k: Seq<bool>|
            k.len() == scope_rules().len() && theme_rules(theme) == #[trigger] kept_rules(
                resolved_styles(self.syntax),
                k,
            );
        let ghost rules = kept_rules(resolved_styles(self.syntax), kept);
        let ghost settings = syntect_settings_of(*self);
        let mut highlighter = match resolve_grammar(&grammars, language) {
            Some(name) => grammars.highlighter_for(name.as_str(), &theme),
            None => None,
        };
        let mut runs: Vec<StyledRun> = Vec::new();
        let ghost mut given: Seq<Option<Seq<Token>>> = Seq::empty();
        assert(color == plain_color(*self));
        for i in 0..lines.len()
            invariant
                color == plain_color(*self),
                kept.len() == scope_rules().len(),
                rules == kept_rules(resolved_styles(self.syntax), kept),
                theme_rules(theme) == rules,
                theme_settings(theme) == settings,
                settings == syntect_settings_of(*self),
                grammar == resolved_grammar(language@),
                match highlighter {
                    Some(h) => grammar matches Some(g) && bundles_syntax_named(g) && highlighter_setup(h) == (
                        g,
                        rules,
                        settings,
                    ) && highlighter_history(h) == views(lines@).take(i as int),
                    None => !(grammar matches Some(g) && bundles_syntax_named(g)),
                },
                given.len() == i,
                forall|j: int| 0 <= j < i ==> #[trigger] token_option_value(given[j]) == expected_tokens(
                    grammar,
                    rules,
                    settings,
                    lines_with_endings(code@),
                    j,
                ),
                tokens_for_lines(views(lines@).take(i as int), given),
                run_views(runs@) == runs_of_lines(views(lines@).take(i as int), given, color, font_size),
                views(lines@) == lines_with_endings(code@),
                joined(lines_with_endings(code@)) == code@,
                forall|j: int| 0 <= j < lines_with_endings(code@).len() ==> #[trigger] lines_with_endings(code@)[j].len() > 0,
                font_size == self.typography.code_font_size,
                spelled(runs@) == joined(views(lines@).take(i as int)),
                forall|j: int| 0 <= j < runs@.len() ==> (#[trigger] runs@[j]).text@.len() > 0
                    && runs@[j].font_size == font_size,
        {
            let line = lines[i].as_str();
            assert(views(lines@)[i as int] == line@);
            assert(lines_with_endings(code@).take(i as int) == views(lines@).take(i as int));
            let tokens = match &mut highlighter {
                Some(h) => match grammars.highlight_line(h, line) {
                    Ok(ts) => Some(ts),
                    Err(_) => None,
                },
                None => None,
            };
            let mut more = runs_for_line(line, tokens, color, font_size);
            proof {
                lemma_line_runs_spell(line@, tokens_view(tokens), color, font_size);
                assert(run_texts(run_views(more@)) == run_texts(line_runs(line@, tokens_view(tokens), color, font_size)));
                lemma_run_texts_concat(runs@, more@);
                assert(views(lines@).take(i + 1) =~= views(lines@).take(i as int).push(line@));
                lemma_joined_push(views(lines@).take(i as int), line@);
                assert forall|j: int| 0 <= j < more@.len() implies (#[trigger] more@[j]).text@.len() > 0
                    && more@[j].font_size == font_size by {
                    assert(run_views(more@)[j] == more@[j]@);
                }
            }
            let ghost before = runs@;
            let ghost added = more@;
            runs.append(&mut more);
            assert(runs@ =~= before + added);
            proof {
                let lines_before = views(lines@).take(i as int);
                let given_after = given.push(tokens_view(tokens));
                assert(given_after.drop_last() =~= given);
                assert(token_option_value(given_after[i as int]) == expected_tokens(
                    grammar,
                    rules,
                    settings,
                    lines_with_endings(code@),
                    i as int,
                ));
                assert forall|j: int| 0 <= j < i + 1 implies #[trigger] token_option_value(given_after[j])
                    == expected_tokens(grammar, rules, settings, lines_with_endings(code@), j) by {
                    if j < i {
                        assert(given_after[j] == given[j]);
                    }
                }
                assert(views(lines@).take(i + 1).drop_last() =~= lines_before);
                assert(run_views(runs@) =~= run_views(before) + run_views(added));
                assert forall|j: int| 0 <= j < i + 1 implies (#[trigger] given_after[j] matches Some(ts)
                    ==> tokens_fit(views(lines@).take(i + 1)[j], ts)) by {
                    if j < i {
                        assert(given_after[j] == given[j]);
                        assert(views(lines@).take(i + 1)[j] == lines_before[j]);
                    }
                }
                given = given_after;
            }
            assert forall|j: int| 0 <= j < runs@.len() implies (#[trigger] runs@[j]).text@.len() > 0
                && runs@[j].font_size == font_size by {
                if j >= before.len() {
                    assert(runs@[j] == added[j - before.len()]);
                }
            }
        }
        assert(views(lines@).take(lines@.len() as int) =~= views(lines@));
        assert(tokens_for_lines(lines_with_endings(code@), given));
        assert(kept_rules(resolved_styles(self.syntax), kept) == rules);
        assert(run_views(runs@) == runs_of_lines(lines_with_endings(code@), given, color, font_size));
        proof {
            if code@.len() > 0 && runs@.len() == 0 {
                assert(run_texts(run_views(runs@)) =~= Seq::<Seq<char>>::empty());
            }
        }
        runs
    }
}

} // verus!
