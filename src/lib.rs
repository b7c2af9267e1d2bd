//! Generates a Neovim colour scheme from an abstract palette: theme providers
//! resolve semantic roles to colours, a fixed catalogue turns them into
//! highlight groups, and the serializer writes the groups out as a Lua module.

mod catalogue;
mod category;
mod color;
mod highlight;
mod lua;
mod named;
mod neovim;
mod style;
mod syntark;
mod thematic;
mod theme;

pub use catalogue::{Paint, Recipe, Rule, Source, CATALOGUE_LEN};
pub use category::{Category, DiagnosticLevel, Token};
pub use color::{Color, Shade};
pub use highlight::{
    completion_kind_name, diagnostic_level_as_str, Diagnostic, DiagnosticUiKind, HighlightName, Language, LspHighlightName,
    LspModifier, LspType, LspTypeMod,
};
pub use neovim::{Highlight, NeovimTheme};
pub use style::{Style, UnderlineStyle};
pub use syntark::{Derivation, SyntarkTheme};
pub use thematic::{DarkThematicTheme, LightThematicTheme, Provider, ThematicTheme};
pub use theme::Theme;
