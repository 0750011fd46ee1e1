//! Settings the editor keeps between sessions.
use vstd::prelude::*;

verus! {

/// The editor's settings: the name of the theme to start in.
#[derive(Debug)]
pub struct EditorConfig {
    pub default_theme: String,
}

impl Default for EditorConfig {
    /// Start in the dark theme.
    fn default() -> (r: Self)
        ensures
            r.default_theme@ == "Dark"@,
    {
        EditorConfig { default_theme: "Dark".to_string() }
    }
}

impl Clone for EditorConfig {
    fn clone(&self) -> (r: Self)
        ensures
            r == *self,
    {
        EditorConfig { default_theme: self.default_theme.clone() }
    }
}

} // verus!
