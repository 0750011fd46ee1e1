//! The editing session: the document, its language and theme, and what is
//! derived from them (styled runs, line height, editor width), each cached
//! under the document version it was computed at.
use vstd::prelude::*;

use crate::highlight::{highlighted, spelled, StyledRun};
use crate::text::{
    push_char, count_rows, eq_ignore_ascii_case, equal_ignoring_ascii_case, extension_of, file_extension,
    first_lines, row_count, text_lines, views,
};
use crate::theme::{is_dark_theme, ZenTheme};
use crate::tree::{FileExplorer, FileTreeNode};

verus! {

/// A derived value and the document version it was computed at.
#[derive(Debug)]
pub struct CacheEntry<T> {
    pub value: T,
    pub stamped_version: u64,
}

/// Lengths of the editing surface are counted in thousandths of a logical
/// point.
pub const UNITS_PER_POINT: u32 = 1000;

/// The editing surface is never narrower than this, however short its lines.
pub const MIN_EDITOR_WIDTH: u32 = 800 * UNITS_PER_POINT;

/// Only this many lines, from the top, are measured for the width.
pub const MAX_MEASURED_LINES: usize = 1000;

/// The version after `v`.  The counter stops at its largest value; every
/// change also empties the caches, so a stopped counter serves nothing stale.
pub open spec fn next_version(v: u64) -> u64 {
    if v < u64::MAX {
        (v + 1) as u64
    } else {
        v
    }
}

/// `n` counted once more, stopping at the largest value.
pub open spec fn counted(n: u64) -> u64 {
    if n < u64::MAX {
        (n + 1) as u64
    } else {
        n
    }
}

/// Whether a cache entry holds a value stamped with version `v`.
pub open spec fn fresh<T>(entry: Option<CacheEntry<T>>, v: u64) -> bool {
    entry matches Some(e) && e.stamped_version == v
}

/// The widest of some measured widths; 0 when there are none.
pub open spec fn widest(widths: Seq<u32>) -> u32
    decreases widths.len(),
{
    if widths.len() == 0 {
        0
    } else {
        let w = widest(widths.drop_last());
        if widths.last() > w {
            widths.last()
        } else {
            w
        }
    }
}

/// The width of the editing surface for lines of the measured widths: the
/// widest line, but at least `MIN_EDITOR_WIDTH`.
pub open spec fn surface_width(widths: Seq<u32>) -> u32 {
    if widest(widths) > MIN_EDITOR_WIDTH {
        widest(widths)
    } else {
        MIN_EDITOR_WIDTH
    }
}

/// The number of decimal digits of `n`.
pub open spec fn decimal_digits(n: nat) -> nat
    decreases n,
{
    if n < 10 {
        1
    } else {
        1 + decimal_digits(n / 10)
    }
}

/// The text whose width the line-number gutter takes: one more nine than
/// the largest line number has digits.
pub fn gutter_sample(line_count: usize) -> (s: String)
    ensures
        s@ == Seq::new(decimal_digits(line_count as nat) + 1, |i: int| '9'),
{
    let mut s = String::new();
    push_char(&mut s, '9');
    push_char(&mut s, '9');
    let mut n = line_count;
    while n >= 10
        invariant
            s@.len() + decimal_digits(n as nat) == decimal_digits(line_count as nat) + 2,
            forall|i: int| 0 <= i < s@.len() ==> s@[i] == '9',
        decreases n,
    {
        push_char(&mut s, '9');
        n = n / 10;
    }
    assert(s@ =~= Seq::new(decimal_digits(line_count as nat) + 1, |i: int| '9'));
    s
}

/// The language a file is edited as, from its name: "c" for any spelling of
/// `CMakeLists.txt`, else the name's extension.  `None` keeps the current
/// language.
pub open spec fn language_for_file_name(name: Seq<char>) -> Option<Seq<char>> {
    if equal_ignoring_ascii_case(name, "CMakeLists.txt"@) {
        Some("c"@)
    } else {
        extension_of(name)
    }
}

/// The language a file named `name` is edited as, if its name tells.
pub fn detect_language(name: &str) -> (r: Option<String>)
    ensures
        r matches Some(l) ==> language_for_file_name(name@) == Some(l@),
        r is None ==> language_for_file_name(name@) is None,
{
    if eq_ignore_ascii_case(name, "CMakeLists.txt") {
        Some("c".to_string())
    } else {
        file_extension(name)
    }
}

/// The index of the first theme named `name`.
pub open spec fn first_named(themes: Seq<ZenTheme>, name: Seq<char>) -> Option<int>
    decreases themes.len(),
{
    if themes.len() == 0 {
        None
    } else if themes[0].name@ == name {
        Some(0)
    } else {
        match first_named(themes.drop_first(), name) {
            Some(i) => Some(i + 1),
            None => None,
        }
    }
}

proof fn lemma_first_named(themes: Seq<ZenTheme>, name: Seq<char>)
    ensures
        first_named(themes, name) matches Some(i) ==> 0 <= i < themes.len() && themes[i].name@ == name
            && forall|k: int| 0 <= k < i ==> themes[k].name@ != name,
        first_named(themes, name) is None ==> forall|k: int| 0 <= k < themes.len() ==> themes[k].name@ != name,
    decreases themes.len(),
{
    if themes.len() > 0 {
        lemma_first_named(themes.drop_first(), name);
        assert forall|k: int| 1 <= k < themes.len() implies themes[k] == themes.drop_first()[k - 1] by {}
    }
}

/// The position of the first theme named `name`.
pub(crate) fn first_theme_named(themes: &Vec<ZenTheme>, name: &String) -> (r: Option<usize>)
    ensures
        r matches Some(i) ==> first_named(themes@, name@) == Some(i as int),
        r is None ==> first_named(themes@, name@) is None,
        r matches Some(i) ==> i < themes@.len() && themes@[i as int].name@ == name@,
{
    proof {
        lemma_first_named(themes@, name@);
    }
    for i in 0..themes.len()
        invariant
            forall|k: int| 0 <= k < i ==> themes@[k].name@ != name@,
    {
        if themes[i].name == *name {
            proof {
                lemma_first_named(themes@, name@);
            }
            return Some(i);
        }
    }
    None
}

/// The editor: a document with its language, the theme it is drawn in, the
/// themes on offer, the project tree, and the cached styled runs and
/// geometry.
pub struct CodeEditor {
    language: String,
    code: String,
    selected_file: Option<String>,
    file_explorer: FileExplorer,
    theme: ZenTheme,
    available_themes: Vec<ZenTheme>,
    selected_theme_index: usize,
    show_line_numbers: bool,
    document_version: u64,
    cached_line_height: Option<CacheEntry<u32>>,
    cached_max_line_width: Option<CacheEntry<u32>>,
    cached_layout: Option<CacheEntry<Vec<StyledRun>>>,
    layout_computations: u64,
}

impl CodeEditor {
    /// The document's text.
    pub closed spec fn text(self) -> Seq<char> {
        self.code@
    }

    /// The language identifier the document is highlighted as.
    pub closed spec fn language_id(self) -> Seq<char> {
        self.language@
    }

    /// The theme the document is drawn in.
    pub closed spec fn current_theme(self) -> ZenTheme {
        self.theme
    }

    /// The themes on offer.
    pub closed spec fn themes(self) -> Seq<ZenTheme> {
        self.available_themes@
    }

    /// The position of the chosen theme among those on offer.
    pub closed spec fn theme_index(self) -> usize {
        self.selected_theme_index
    }

    /// The file the document belongs to, if any.
    pub closed spec fn file(self) -> Option<String> {
        self.selected_file
    }

    /// The project tree.
    pub closed spec fn explorer(self) -> FileExplorer {
        self.file_explorer
    }

    /// Whether line numbers are shown.
    pub closed spec fn line_numbers_shown(self) -> bool {
        self.show_line_numbers
    }

    /// The document version: it moves on with every change.
    pub closed spec fn version(self) -> u64 {
        self.document_version
    }

    /// The cached styled runs.
    pub closed spec fn layout_entry(self) -> Option<CacheEntry<Vec<StyledRun>>> {
        self.cached_layout
    }

    /// The cached line height.
    pub closed spec fn line_height_entry(self) -> Option<CacheEntry<u32>> {
        self.cached_line_height
    }

    /// The cached editor width.
    pub closed spec fn width_entry(self) -> Option<CacheEntry<u32>> {
        self.cached_max_line_width
    }

    /// How many times the styled runs have been computed.
    pub closed spec fn computations(self) -> u64 {
        self.layout_computations
    }

    /// Whether the cached styled runs belong to the current version.
    pub open spec fn layout_fresh(self) -> bool {
        fresh(self.layout_entry(), self.version())
    }

    /// Whether the cached line height belongs to the current version.
    pub open spec fn line_height_fresh(self) -> bool {
        fresh(self.line_height_entry(), self.version())
    }

    /// Whether the cached editor width belongs to the current version.
    pub open spec fn width_fresh(self) -> bool {
        fresh(self.width_entry(), self.version())
    }

    /// The cache invariant: valid styled runs are the highlighting of the
    /// current text in the current language and theme, and a valid width is
    /// at least the minimum.
    pub open spec fn wf(self) -> bool {
        &&& self.layout_fresh() ==> highlighted(
            self.current_theme(),
            self.text(),
            self.language_id(),
            self.layout_entry()->0.value@,
        )
        &&& self.width_fresh() ==> self.width_entry()->0.value >= MIN_EDITOR_WIDTH
    }

    /// What no edit touches: the themes on offer, the project tree, the
    /// line-number setting.
    pub open spec fn same_surroundings(old: Self, new: Self) -> bool {
        &&& new.themes() == old.themes()
        &&& new.explorer() == old.explorer()
        &&& new.line_numbers_shown() == old.line_numbers_shown()
    }

    /// The document, its language and theme, the chosen theme and the
    /// version are the same.
    pub open spec fn same_document(old: Self, new: Self) -> bool {
        &&& new.text() == old.text()
        &&& new.language_id() == old.language_id()
        &&& new.current_theme() == old.current_theme()
        &&& new.theme_index() == old.theme_index()
        &&& new.version() == old.version()
        &&& new.themes() == old.themes()
        &&& new.line_numbers_shown() == old.line_numbers_shown()
    }

    /// The cache entries and the computation count are the same.
    pub open spec fn same_caches(old: Self, new: Self) -> bool {
        &&& new.layout_entry() == old.layout_entry()
        &&& new.line_height_entry() == old.line_height_entry()
        &&& new.width_entry() == old.width_entry()
        &&& new.computations() == old.computations()
    }

    /// `new` is `old` after a change that invalidates everything derived: the
    /// version moves on and every cache entry is dropped.
    pub open spec fn invalidated(old: Self, new: Self) -> bool {
        &&& new.version() == next_version(old.version())
        &&& new.layout_entry() is None
        &&& new.line_height_entry() is None
        &&& new.width_entry() is None
        &&& new.computations() == old.computations()
        &&& Self::same_surroundings(old, new)
    }

    /// `new` is `old` with its text replaced by `text`.
    pub open spec fn text_edited(old: Self, new: Self, text: Seq<char>) -> bool {
        &&& Self::invalidated(old, new)
        &&& new.text() == text
        &&& new.language_id() == old.language_id()
        &&& new.current_theme() == old.current_theme()
        &&& new.theme_index() == old.theme_index()
        &&& new.file() == old.file()
    }

    /// `new` is `old` drawn in `theme`; the chosen index moves to the first
    /// theme on offer with its name, if there is one.
    pub open spec fn theme_changed(old: Self, new: Self, theme: ZenTheme) -> bool {
        &&& Self::invalidated(old, new)
        &&& new.text() == old.text()
        &&& new.language_id() == old.language_id()
        &&& new.current_theme() == theme
        &&& new.theme_index() == (match first_named(old.themes(), theme.name@) {
            Some(i) => i as usize,
            None => old.theme_index(),
        })
        &&& new.file() == old.file()
    }

    /// Everything but the caches and the computation count is the same.
    pub open spec fn same_state(old: Self, new: Self) -> bool {
        &&& new.text() == old.text()
        &&& new.language_id() == old.language_id()
        &&& new.current_theme() == old.current_theme()
        &&& new.theme_index() == old.theme_index()
        &&& new.file() == old.file()
        &&& new.version() == old.version()
        &&& Self::same_surroundings(old, new)
    }

    /// Reading the styled runs took `old` to `new` and gave `runs`: they are
    /// the highlighting of the current text in the current language and
    /// theme, and they are now cached under the current version.  A valid
    /// cache is served as it is, changing nothing; otherwise the runs are
    /// computed once more.
    pub open spec fn layout_read(old: Self, new: Self, runs: Seq<StyledRun>) -> bool {
        &&& highlighted(old.current_theme(), old.text(), old.language_id(), runs)
        &&& new.layout_fresh()
        &&& new.layout_entry()->0.value@ == runs
        &&& if old.layout_fresh() {
            new == old && runs == old.layout_entry()->0.value@
        } else {
            &&& Self::same_state(old, new)
            &&& new.line_height_entry() == old.line_height_entry()
            &&& new.width_entry() == old.width_entry()
            &&& new.computations() == counted(old.computations())
        }
    }

    /// A new editor: an empty document in Rust, drawn in the dark theme, with
    /// `available_themes` on offer and the first of them chosen.
    pub fn new(available_themes: Vec<ZenTheme>) -> (e: CodeEditor)
        ensures
            e.wf(),
            e.text() == Seq::<char>::empty(),
            e.language_id() == "rs"@,
            is_dark_theme(e.current_theme()),
            e.themes() == available_themes@,
            e.theme_index() == 0,
            e.file() is None,
            e.line_numbers_shown(),
            e.version() == 0,
            e.layout_entry() is None,
            e.line_height_entry() is None,
            e.width_entry() is None,
            e.computations() == 0,
    {
        CodeEditor {
            language: "rs".to_string(),
            code: String::new(),
            selected_file: None,
            file_explorer: FileExplorer::default(),
            theme: ZenTheme::dark_theme(),
            available_themes,
            selected_theme_index: 0,
            show_line_numbers: true,
            document_version: 0,
            cached_line_height: None,
            cached_max_line_width: None,
            cached_layout: None,
            layout_computations: 0,
        }
    }

    /// The document's text.
    pub fn text_str(&self) -> (r: &str)
        ensures
            r@ == self.text(),
    {
        self.code.as_str()
    }

    /// The language identifier.
    pub fn language(&self) -> (r: &str)
        ensures
            r@ == self.language_id(),
    {
        self.language.as_str()
    }

    /// The theme in use.
    pub fn theme(&self) -> (r: &ZenTheme)
        ensures
            *r == self.current_theme(),
    {
        &self.theme
    }

    /// The themes on offer.
    pub fn available_themes(&self) -> (r: &Vec<ZenTheme>)
        ensures
            r@ == self.themes(),
    {
        &self.available_themes
    }

    /// The position of the chosen theme among those on offer.
    pub fn selected_theme_index(&self) -> (r: usize)
        ensures
            r == self.theme_index(),
    {
        self.selected_theme_index
    }

    /// The file the document belongs to.
    pub fn selected_file(&self) -> (r: &Option<String>)
        ensures
            *r == self.file(),
    {
        &self.selected_file
    }

    /// Whether line numbers are shown.
    pub fn show_line_numbers(&self) -> (r: bool)
        ensures
            r == self.line_numbers_shown(),
    {
        self.show_line_numbers
    }

    /// The document version.
    pub fn document_version(&self) -> (r: u64)
        ensures
            r == self.version(),
    {
        self.document_version
    }

    /// How many times the styled runs have been computed.
    pub fn layout_computations(&self) -> (r: u64)
        ensures
            r == self.computations(),
    {
        self.layout_computations
    }

    /// The project tree.
    pub fn file_explorer(&self) -> (r: &FileExplorer)
        ensures
            *r == self.explorer(),
    {
        &self.file_explorer
    }

    /// The project tree, to expand, collapse and select in.  Nothing else
    /// of the editor changes through it.
    pub fn file_explorer_mut(&mut self) -> (r: &mut FileExplorer)
        ensures
            *r == old(self).explorer(),
            final(self).explorer() == *final(r),
            Self::same_document(*old(self), *final(self)),
            Self::same_caches(*old(self), *final(self)),
            final(self).file() == old(self).file(),
    {
        &mut self.file_explorer
    }

    /// Moves the version on and drops every cached value: the one step that
    /// every change of the document, its language or its theme goes through.
    fn invalidate_caches(&mut self)
        ensures
            final(self).version() == next_version(old(self).version()),
            final(self).layout_entry() is None,
            final(self).line_height_entry() is None,
            final(self).width_entry() is None,
            final(self).computations() == old(self).computations(),
            Self::same_surroundings(*old(self), *final(self)),
            Self::same_state(
                *old(self),
                CodeEditor { document_version: old(self).document_version, ..*final(self) },
            ),
            final(self).wf(),
    {
        if self.document_version < u64::MAX {
            self.document_version = self.document_version + 1;
        }
        self.cached_line_height = None;
        self.cached_max_line_width = None;
        self.cached_layout = None;
    }

    /// Replaces the text of the document.
    pub fn set_text(&mut self, text: String)
        ensures
            final(self).wf(),
            Self::text_edited(*old(self), *final(self), text@),
    {
        self.code = text;
        self.invalidate_caches();
    }

    /// Highlights the document as another language.
    pub fn set_language(&mut self, language: String)
        ensures
            final(self).wf(),
            Self::invalidated(*old(self), *final(self)),
            final(self).language_id() == language@,
            final(self).text() == old(self).text(),
            final(self).current_theme() == old(self).current_theme(),
            final(self).theme_index() == old(self).theme_index(),
            final(self).file() == old(self).file(),
    {
        self.language = language;
        self.invalidate_caches();
    }

    /// Draws the document in `theme`.
    pub fn set_theme(&mut self, theme: ZenTheme)
        ensures
            final(self).wf(),
            Self::theme_changed(*old(self), *final(self), theme),
    {
        if let Some(i) = first_theme_named(&self.available_themes, &theme.name) {
            self.selected_theme_index = i;
        }
        self.theme = theme;
        self.invalidate_caches();
    }

    /// Chooses the theme at `index` among those on offer, as the settings
    /// list does: choosing the current one changes nothing; an index past the
    /// end is remembered but draws nothing new.
    pub fn select_theme(&mut self, index: usize)
        ensures
            old(self).wf() ==> final(self).wf(),
            index == old(self).theme_index() ==> *final(self) == *old(self),
            index != old(self).theme_index() && index < old(self).themes().len() ==> {
                &&& Self::invalidated(*old(self), *final(self))
                &&& final(self).text() == old(self).text()
                &&& final(self).language_id() == old(self).language_id()
                &&& final(self).current_theme() == old(self).themes()[index as int]
                &&& final(self).theme_index() == first_named(old(self).themes(), old(self).themes()[index as int].name@)->0
                &&& final(self).file() == old(self).file()
                &&& final(self).wf()
            },
            index != old(self).theme_index() && index >= old(self).themes().len() ==> {
                &&& final(self).theme_index() == index
                &&& final(self).text() == old(self).text()
                &&& final(self).language_id() == old(self).language_id()
                &&& final(self).current_theme() == old(self).current_theme()
                &&& final(self).version() == old(self).version()
                &&& final(self).file() == old(self).file()
                &&& Self::same_surroundings(*old(self), *final(self))
                &&& Self::same_caches(*old(self), *final(self))
            },
    {
        if index != self.selected_theme_index {
            self.selected_theme_index = index;
            if index < self.available_themes.len() {
                let theme = self.available_themes[index].clone();
                proof {
                    lemma_first_named(self.available_themes@, theme.name@);
                    if first_named(self.available_themes@, theme.name@) is None {
                        assert(self.available_themes@[index as int].name@ == theme.name@);
                    }
                }
                self.set_theme(theme);
            }
        }
    }

    /// Draws the code at another font size, keeping the rest of the theme.
    pub fn set_code_font_size(&mut self, size: u32)
        requires
            size < u32::MAX,
        ensures
            final(self).wf(),
            Self::theme_changed(*old(self), *final(self), final(self).current_theme()),
            final(self).current_theme().typography.code_font_size == size,
            final(self).current_theme().typography.font_size == size + 1,
            final(self).current_theme().name == old(self).current_theme().name,
            final(self).current_theme().colors == old(self).current_theme().colors,
            final(self).current_theme().spacing == old(self).current_theme().spacing,
            final(self).current_theme().syntax == old(self).current_theme().syntax,
    {
        let theme = self.theme.with_code_font_size(size);
        self.set_theme(theme);
    }

    /// Opens the file at `path`, named `file_name`, holding `content`: the
    /// document becomes that text, belongs to that file, and takes the
    /// language the name tells (keeping the current one otherwise).
    pub fn load_file(&mut self, path: String, file_name: &str, content: String)
        ensures
            final(self).wf(),
            Self::invalidated(*old(self), *final(self)),
            final(self).text() == content@,
            final(self).file() == Some(path),
            final(self).language_id() == (match language_for_file_name(file_name@) {
                Some(l) => l,
                None => old(self).language_id(),
            }),
            final(self).current_theme() == old(self).current_theme(),
            final(self).theme_index() == old(self).theme_index(),
    {
        self.code = content;
        self.selected_file = Some(path);
        if let Some(language) = detect_language(file_name) {
            self.language = language;
        }
        self.invalidate_caches();
    }

    /// Starts an empty document that belongs to no file.
    pub fn new_file(&mut self)
        ensures
            final(self).wf(),
            Self::invalidated(*old(self), *final(self)),
            final(self).text() == Seq::<char>::empty(),
            final(self).file() is None,
            final(self).language_id() == old(self).language_id(),
            final(self).current_theme() == old(self).current_theme(),
            final(self).theme_index() == old(self).theme_index(),
    {
        self.code = String::new();
        self.selected_file = None;
        self.invalidate_caches();
    }

    /// Records that the document now belongs to the file at `path` (after it
    /// was saved there); the text is unchanged, so nothing is invalidated.
    pub fn set_selected_file(&mut self, path: Option<String>)
        ensures
            final(self).file() == path,
            Self::same_document(*old(self), *final(self)),
            Self::same_caches(*old(self), *final(self)),
            final(self).explorer() == old(self).explorer(),
    {
        self.selected_file = path;
    }

    /// Shows `tree` as the project.
    pub fn open_project(&mut self, tree: FileTreeNode)
        ensures
            final(self).explorer().root == Some(tree),
            final(self).explorer().selected_file == old(self).explorer().selected_file,
            final(self).explorer().pending_file_load == old(self).explorer().pending_file_load,
            Self::same_document(*old(self), *final(self)),
            Self::same_caches(*old(self), *final(self)),
            final(self).file() == old(self).file(),
    {
        self.file_explorer.open_project(tree);
    }

    /// Hands out the file the tree asked to open, at most once.
    pub fn take_pending_file(&mut self) -> (r: Option<String>)
        ensures
            r == old(self).explorer().pending_file_load,
            final(self).explorer().pending_file_load is None,
            final(self).explorer().root == old(self).explorer().root,
            final(self).explorer().selected_file == old(self).explorer().selected_file,
            Self::same_document(*old(self), *final(self)),
            Self::same_caches(*old(self), *final(self)),
            final(self).file() == old(self).file(),
    {
        self.file_explorer.take_pending_file()
    }

    /// The styled runs of the document, served from the cache when it is
    /// valid and computed (and cached) otherwise.
    pub fn get_highlighted_layout(&mut self) -> (runs: Vec<StyledRun>)
        requires
            old(self).wf(),
        ensures
            final(self).wf(),
            Self::layout_read(*old(self), *final(self), runs@),
    {
        let valid = match &self.cached_layout {
            Some(entry) => entry.stamped_version == self.document_version,
            None => false,
        };
        if !valid {
            let runs = self.theme.highlight_code(self.code.as_str(), self.language.as_str());
            self.cached_layout = Some(CacheEntry { value: runs, stamped_version: self.document_version });
            if self.layout_computations < u64::MAX {
                self.layout_computations = self.layout_computations + 1;
            }
        }
        match &self.cached_layout {
            Some(entry) => entry.value.clone(),
            None => Vec::new(),
        }
    }

    /// The line height, if one was recorded since the last change.
    pub fn line_height(&self) -> (r: Option<u32>)
        ensures
            r == (if self.line_height_fresh() {
                Some(self.line_height_entry()->0.value)
            } else {
                None
            }),
    {
        match &self.cached_line_height {
            Some(entry) => if entry.stamped_version == self.document_version {
                Some(entry.value)
            } else {
                None
            },
            None => None,
        }
    }

    /// Records the line height measured for the current theme's code font.
    pub fn record_line_height(&mut self, height: u32) -> (r: u32)
        requires
            old(self).wf(),
        ensures
            r == height,
            final(self).wf(),
            final(self).line_height_fresh(),
            final(self).line_height_entry()->0.value == height,
            Self::same_state(*old(self), *final(self)),
            final(self).layout_entry() == old(self).layout_entry(),
            final(self).width_entry() == old(self).width_entry(),
            final(self).computations() == old(self).computations(),
    {
        self.cached_line_height = Some(CacheEntry { value: height, stamped_version: self.document_version });
        height
    }

    /// The lines whose widths decide the editor width: the first
    /// `MAX_MEASURED_LINES` lines, without their endings.
    pub fn lines_to_measure(&self) -> (lines: Vec<String>)
        ensures
            views(lines@) == text_lines(self.text()).take(
                if MAX_MEASURED_LINES < text_lines(self.text()).len() {
                    MAX_MEASURED_LINES as int
                } else {
                    text_lines(self.text()).len() as int
                },
            ),
    {
        first_lines(self.code.as_str(), MAX_MEASURED_LINES)
    }

    /// The editor width, if one was recorded since the last change.
    pub fn max_line_width(&self) -> (r: Option<u32>)
        requires
            self.wf(),
        ensures
            r == (if self.width_fresh() {
                Some(self.width_entry()->0.value)
            } else {
                None
            }),
            r matches Some(w) ==> w >= MIN_EDITOR_WIDTH,
    {
        match &self.cached_max_line_width {
            Some(entry) => if entry.stamped_version == self.document_version {
                Some(entry.value)
            } else {
                None
            },
            None => None,
        }
    }

    /// Records the measured widths of `lines_to_measure` and caches the
    /// editor width they give: the widest, but at least `MIN_EDITOR_WIDTH`.
    pub fn record_line_widths(&mut self, widths: &Vec<u32>) -> (r: u32)
        requires
            old(self).wf(),
        ensures
            r == surface_width(widths@),
            r >= MIN_EDITOR_WIDTH,
            final(self).wf(),
            final(self).width_fresh(),
            final(self).width_entry()->0.value == r,
            Self::same_state(*old(self), *final(self)),
            final(self).layout_entry() == old(self).layout_entry(),
            final(self).line_height_entry() == old(self).line_height_entry(),
            final(self).computations() == old(self).computations(),
    {
        let mut w: u32 = 0;
        for i in 0..widths.len()
            invariant
                w == widest(widths@.take(i as int)),
        {
            assert(widths@.take(i + 1).drop_last() =~= widths@.take(i as int));
            if widths[i] > w {
                w = widths[i];
            }
        }
        assert(widths@.take(widths@.len() as int) =~= widths@);
        let width = if w > MIN_EDITOR_WIDTH {
            w
        } else {
            MIN_EDITOR_WIDTH
        };
        self.cached_max_line_width = Some(CacheEntry { value: width, stamped_version: self.document_version });
        width
    }

    /// How many rows the document occupies: its line count, at least one.
    pub fn line_count(&self) -> (n: usize)
        ensures
            n == row_count(self.text()),
    {
        count_rows(self.code.as_str())
    }
}

/// After an edit of the text, nothing computed before it is served: the
/// next read of the styled runs computes them again, for the edited text in
/// the current theme, and neither line height nor width is valid until it
/// is measured again.
pub proof fn lemma_read_after_edit(
    before: CodeEditor,
    edited: CodeEditor,
    text: Seq<char>,
    after: CodeEditor,
    runs: Seq<StyledRun>,
)
    requires
        CodeEditor::text_edited(before, edited, text),
        CodeEditor::layout_read(edited, after, runs),
    ensures
        spelled(runs) == text,
        highlighted(before.current_theme(), text, before.language_id(), runs),
        after.computations() == counted(before.computations()),
        !edited.line_height_fresh(),
        !edited.width_fresh(),
        after.layout_fresh(),
{
}

/// After a change of theme, the next read of the styled runs computes them
/// again, in the new theme and for the same text, and the line height and
/// width must be measured again.
pub proof fn lemma_read_after_theme_change(
    before: CodeEditor,
    changed: CodeEditor,
    theme: ZenTheme,
    after: CodeEditor,
    runs: Seq<StyledRun>,
)
    requires
        CodeEditor::theme_changed(before, changed, theme),
        CodeEditor::layout_read(changed, after, runs),
    ensures
        spelled(runs) == before.text(),
        highlighted(theme, before.text(), before.language_id(), runs),
        after.computations() == counted(before.computations()),
        !changed.line_height_fresh(),
        !changed.width_fresh(),
{
}

/// After a change of language, the next read of the styled runs computes
/// them again, for the same text in the same theme, as the new language.
pub proof fn lemma_read_after_language_change(
    before: CodeEditor,
    changed: CodeEditor,
    after: CodeEditor,
    runs: Seq<StyledRun>,
)
    requires
        CodeEditor::invalidated(before, changed),
        changed.text() == before.text(),
        changed.current_theme() == before.current_theme(),
        CodeEditor::layout_read(changed, after, runs),
    ensures
        spelled(runs) == before.text(),
        highlighted(before.current_theme(), before.text(), changed.language_id(), runs),
        after.computations() == counted(before.computations()),
{
}

/// Two reads of the styled runs with no change between them give the same
/// runs, and the second computes nothing and changes nothing.
pub proof fn lemma_second_read_is_cached(
    e0: CodeEditor,
    e1: CodeEditor,
    first: Seq<StyledRun>,
    e2: CodeEditor,
    second: Seq<StyledRun>,
)
    requires
        CodeEditor::layout_read(e0, e1, first),
        CodeEditor::layout_read(e1, e2, second),
    ensures
        second == first,
        e2 == e1,
        e2.computations() == e1.computations(),
{
}

} // verus!
