//! The editor session as the window shows it: the code editor, the
//! settings, and whether the settings window is open.
use vstd::prelude::*;

use crate::config::EditorConfig;
use crate::editor::{first_named, first_theme_named, CodeEditor};
use crate::theme::{is_dark_theme, offers_themes, ZenTheme};

verus! {

/// Where the document goes when it is saved.
#[derive(Debug, PartialEq, Eq)]
pub enum SaveRequest {
    /// Write it to the file it belongs to.
    WriteTo(String),
    /// It belongs to no file yet: ask where to write it.
    ChooseLocation,
}

/// The editor session.
pub struct ZenEditor {
    pub code_editor: CodeEditor,
    pub config: EditorConfig,
    pub show_settings: bool,
}

impl ZenEditor {
    /// A session with these settings and the themes read from theme files:
    /// the built-in themes come first, and the editor starts in the first
    /// theme named as the settings ask, or in the dark theme when none is.
    pub fn new(config: EditorConfig, loaded_themes: Vec<ZenTheme>) -> (z: ZenEditor)
        ensures
            z.code_editor.wf(),
            z.code_editor.text() == Seq::<char>::empty(),
            offers_themes(z.code_editor.themes(), loaded_themes@),
            z.config == config,
            !z.show_settings,
            match first_named(z.code_editor.themes(), config.default_theme@) {
                Some(i) => z.code_editor.current_theme() == z.code_editor.themes()[i] && z.code_editor.theme_index() == i,
                None => is_dark_theme(z.code_editor.current_theme()) && z.code_editor.theme_index() == 0,
            },
    {
        let themes = ZenTheme::load_available_themes(loaded_themes);
        let found = first_theme_named(&themes, &config.default_theme);
        let mut code_editor = CodeEditor::new(themes);
        match found {
            Some(i) => {
                let theme = code_editor.available_themes()[i].clone();
                code_editor.set_theme(theme);
            },
            None => {},
        }
        ZenEditor { code_editor, config, show_settings: false }
    }

    /// Where the document goes when the user saves it.
    pub fn save_current_file(&self) -> (r: SaveRequest)
        ensures
            r == (match self.code_editor.file() {
                Some(path) => SaveRequest::WriteTo(path),
                None => SaveRequest::ChooseLocation,
            }),
    {
        match self.code_editor.selected_file() {
            Some(path) => SaveRequest::WriteTo(path.clone()),
            None => SaveRequest::ChooseLocation,
        }
    }

    /// Takes in a file that was opened in the background, given as its name
    /// and its text: the document becomes that text and belongs to that file.
    pub fn handle_pending_file_operations(&mut self, pending: Option<(String, String)>)
        ensures
            final(self).config == old(self).config,
            final(self).show_settings == old(self).show_settings,
            old(self).code_editor.wf() ==> final(self).code_editor.wf(),
            match pending {
                Some((name, content)) => {
                    &&& CodeEditor::invalidated(old(self).code_editor, final(self).code_editor)
                    &&& final(self).code_editor.text() == content@
                    &&& final(self).code_editor.file() == Some(name)
                    &&& final(self).code_editor.language_id() == old(self).code_editor.language_id()
                    &&& final(self).code_editor.current_theme() == old(self).code_editor.current_theme()
                    &&& final(self).code_editor.theme_index() == old(self).code_editor.theme_index()
                },
                None => final(self).code_editor == old(self).code_editor,
            },
    {
        if let Some((name, content)) = pending {
            self.code_editor.set_text(content);
            self.code_editor.set_selected_file(Some(name));
        }
    }

    /// Makes the current theme the one to start in next time.
    pub fn set_default_theme_to_current(&mut self)
        ensures
            final(self).config.default_theme == old(self).code_editor.current_theme().name,
            final(self).code_editor == old(self).code_editor,
            final(self).show_settings == old(self).show_settings,
    {
        self.config.default_theme = self.code_editor.theme().name.clone();
    }
}

} // verus!
