//! User settings.

use vstd::prelude::*;
use vstd::string::StringExecFns;
use crate::data::{copy_opt_text, opt_text};

verus! {

/// Colour overrides, each written as `#rrggbb`.
#[derive(Debug, Clone, PartialEq)]
pub struct Theme {
    pub accent: Option<String>,
    pub selection: Option<String>,
    pub header: Option<String>,
    pub dim: Option<String>,
    pub bold: Option<String>,
}

/// The mathematical content of a [`Theme`].
#[verifier::ext_equal]
pub struct ThemeView {
    pub accent: Option<Seq<char>>,
    pub selection: Option<Seq<char>>,
    pub header: Option<Seq<char>>,
    pub dim: Option<Seq<char>>,
    pub bold: Option<Seq<char>>,
}

impl View for Theme {
    type V = ThemeView;

    open spec fn view(&self) -> ThemeView {
        ThemeView {
            accent: opt_text(self.accent),
            selection: opt_text(self.selection),
            header: opt_text(self.header),
            dim: opt_text(self.dim),
            bold: opt_text(self.bold),
        }
    }
}

/// The settings a user can give; every one of them is optional.
#[derive(Debug, Clone, PartialEq)]
pub struct Config {
    /// Command that opens the editor.
    pub editor_cmd: Option<String>,
    /// Whether to synchronise when the session ends.
    pub auto_sync: Option<bool>,
    /// Colour overrides.
    pub theme: Option<Theme>,
    /// Name of the initial sort policy.
    pub sort_mode: Option<String>,
}

/// The mathematical content of a [`Config`].
#[verifier::ext_equal]
pub struct ConfigView {
    pub editor_cmd: Option<Seq<char>>,
    pub auto_sync: Option<bool>,
    pub theme: Option<ThemeView>,
    pub sort_mode: Option<Seq<char>>,
}

/// The content of an optional theme.
pub open spec fn opt_theme(t: Option<Theme>) -> Option<ThemeView> {
    match t {
        Some(t) => Some(t@),
        None => None,
    }
}

impl View for Config {
    type V = ConfigView;

    open spec fn view(&self) -> ConfigView {
        ConfigView {
            editor_cmd: opt_text(self.editor_cmd),
            auto_sync: self.auto_sync,
            theme: opt_theme(self.theme),
            sort_mode: opt_text(self.sort_mode),
        }
    }
}

impl ConfigView {
    /// The settings used where the user gave none: no editor command, no
    /// synchronising at the end, no colour overrides, documents by date.
    pub open spec fn initial() -> ConfigView {
        ConfigView {
            editor_cmd: None,
            auto_sync: Some(false),
            theme: None,
            sort_mode: Some("Date"@),
        }
    }
}

impl Theme {
    /// A copy of the overrides.
    pub fn duplicate(&self) -> (r: Theme)
        ensures
            r@ == self@,
    {
        Theme {
            accent: copy_opt_text(&self.accent),
            selection: copy_opt_text(&self.selection),
            header: copy_opt_text(&self.header),
            dim: copy_opt_text(&self.dim),
            bold: copy_opt_text(&self.bold),
        }
    }
}

impl Config {
    /// A copy of the settings.
    pub fn duplicate(&self) -> (r: Config)
        ensures
            r@ == self@,
    {
        Config {
            editor_cmd: copy_opt_text(&self.editor_cmd),
            auto_sync: self.auto_sync,
            theme: match &self.theme {
                Some(t) => Some(t.duplicate()),
                None => None,
            },
            sort_mode: copy_opt_text(&self.sort_mode),
        }
    }
}

impl Default for Config {
    fn default() -> (r: Config)
        ensures
            r@ == ConfigView::initial(),
    {
        Config {
            editor_cmd: None,
            auto_sync: Some(false),
            theme: None,
            sort_mode: Some(String::from_str("Date")),
        }
    }
}

} // verus!
