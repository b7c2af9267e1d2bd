use crate::category::{Category, DiagnosticLevel, Token};
use crate::color::{Color, Shade};
use crate::named;
use crate::theme::Theme;
use vstd::prelude::*;

verus! {

/// How a colour of a single-palette theme is obtained.
#[derive(Clone, Copy, Debug, PartialEq, Eq, Structural)]
pub enum Derivation<R> {
    /// A fixed colour, `0xRRGGBB`.
    Fixed(u32),
    /// The colour of another role.
    Alias(R),
    /// The colour of another role, adjusted.
    Shaded(R, Shade),
    /// A fixed colour, adjusted.
    Toned(u32, Shade),
}

/// How each category of the single-palette theme is obtained.
pub open spec fn syntark_category_rule(category: Category) -> Derivation<Category> {
    match category {
        Category::ActiveSearchMatch => Derivation::Fixed(named::CHOCOLATE),
        Category::ActiveTab => Derivation::Fixed(named::WHITE),
        Category::ActiveTabBackground => Derivation::Alias(Category::NormalBackground),
        Category::BadSpelling => Derivation::Fixed(named::BROWN),
        Category::ColumnGuide => Derivation::Shaded(Category::NormalBackground, Shade::Darken(100)),
        Category::CursorLine => Derivation::Shaded(Category::NormalBackground, Shade::Lighten(10)),
        Category::CursorLineNumber => Derivation::Fixed(named::WHITE),
        Category::DiffAdd => Derivation::Toned(named::GREEN, Shade::Tone { saturation: 300, value: 300 }),
        Category::DiffChange => Derivation::Toned(named::GREEN, Shade::Tone { saturation: 600, value: 150 }),
        Category::DiffDelete => Derivation::Toned(named::RED, Shade::Tone { saturation: 400, value: 300 }),
        Category::DiffText => Derivation::Alias(Category::DiffAdd),
        Category::Folded => Derivation::Shaded(Category::NormalBackground, Shade::Darken(200)),
        Category::InactiveTab => Derivation::Shaded(Category::Normal, Shade::Darken(750)),
        Category::InactiveTabBackground => Derivation::Shaded(Category::NormalBackground, Shade::Darken(300)),
        Category::LineNumber => Derivation::Shaded(Category::Normal, Shade::Darken(750)),
        Category::MatchedBracket => Derivation::Fixed(named::YELLOW),
        Category::MessageSeparator => Derivation::Alias(Category::Normal),
        Category::ModeMessage => Derivation::Alias(Category::Normal),
        Category::NonText => Derivation::Fixed(named::DIMGRAY),
        Category::Normal => Derivation::Fixed(0xd8d8d8),
        Category::NormalBackground => Derivation::Fixed(0x181818),
        Category::Question => Derivation::Alias(Category::Selection),
        Category::Search => Derivation::Alias(Category::Normal),
        Category::SearchMatch => Derivation::Fixed(named::BLUE),
        Category::Selection => Derivation::Fixed(named::DARKSLATEGRAY),
        Category::Special => Derivation::Fixed(named::DODGERBLUE),
        Category::StatusLine => Derivation::Shaded(Category::NormalBackground, Shade::Lighten(5)),
        Category::TermCursor => Derivation::Fixed(0xaeafad),
        Category::UnfocusedTermCursor => Derivation::Alias(Category::TermCursor),
        Category::Whitespace => Derivation::Shaded(Category::Normal, Shade::Darken(900)),
    }
}

/// How each token of the single-palette theme is obtained.
pub open spec fn syntark_token_rule(token: Token) -> Derivation<Token> {
    match token {
        Token::Attribute => Derivation::Fixed(named::LIGHTPINK),
        Token::Boolean => Derivation::Alias(Token::Integer),
        Token::Character => Derivation::Fixed(named::SEAGREEN),
        Token::Comment => Derivation::Fixed(named::SLATEGRAY),
        Token::Constant => Derivation::Fixed(named::LIGHTSALMON),
        Token::ConstGenericParameter => Derivation::Alias(Token::Constant),
        Token::Delimiter => Derivation::Fixed(named::LIGHTCORAL),
        Token::DocComment => Derivation::Alias(Token::Comment),
        Token::Enum => Derivation::Alias(Token::Type),
        Token::Field => Derivation::Fixed(named::TAN),
        Token::Float => Derivation::Alias(Token::Integer),
        Token::Function => Derivation::Fixed(named::DEEPSKYBLUE),
        Token::Identifier => Derivation::Fixed(named::STEELBLUE),
        Token::Integer => Derivation::Fixed(named::GOLDENROD),
        Token::Interface => Derivation::Fixed(named::TEAL),
        Token::Keyword => Derivation::Fixed(named::ORCHID),
        Token::Link => Derivation::Fixed(named::DARKCYAN),
        Token::Macro => Derivation::Fixed(named::PINK),
        Token::Module => Derivation::Fixed(named::AQUAMARINE),
        Token::Operator => Derivation::Fixed(named::DODGERBLUE),
        Token::Parameter => Derivation::Alias(Token::Variable),
        Token::Static => Derivation::Alias(Token::Variable),
        Token::String => Derivation::Fixed(named::FORESTGREEN),
        Token::Struct => Derivation::Alias(Token::Type),
        Token::Tag => Derivation::Fixed(named::CADETBLUE),
        Token::Todo => Derivation::Fixed(named::DARKORANGE),
        Token::Type => Derivation::Fixed(named::LIGHTGREEN),
        Token::TypeParameter => Derivation::Alias(Token::Type),
        Token::Variable => Derivation::Alias(Token::Identifier),
        Token::Variant => Derivation::Fixed(named::LIGHTSKYBLUE),
    }
}

/// The diagnostic colours of the single-palette theme.
pub open spec fn syntark_level(level: DiagnosticLevel) -> Color {
    match level {
        DiagnosticLevel::Error => Color::from_hex_spec(named::CRIMSON),
        DiagnosticLevel::Warning => Color::from_hex_spec(named::ORANGE),
        DiagnosticLevel::Info => Color::from_hex_spec(named::STEELBLUE),
        DiagnosticLevel::Hint => Color::from_hex_spec(named::AQUA),
    }
}

/// Whether `theme` gives `category` the colour that `rule` describes, where
/// `shade` performs the adjustments.
pub open spec fn follows_category_rule<T: Theme, F: Fn(Color, Shade) -> Color>(
    theme: &T,
    shade: &F,
    category: Category,
    rule: Derivation<Category>,
) -> bool {
    match rule {
        Derivation::Fixed(hex) => theme.category_of(category) == Color::from_hex_spec(hex),
        Derivation::Alias(other) => theme.category_of(category) == theme.category_of(other),
        Derivation::Shaded(other, s) => shade.ensures(
            (theme.category_of(other), s),
            theme.category_of(category),
        ),
        Derivation::Toned(hex, s) => shade.ensures(
            (Color::from_hex_spec(hex), s),
            theme.category_of(category),
        ),
    }
}

/// Whether `theme` gives `token` the colour that `rule` describes.
pub open spec fn follows_token_rule<T: Theme>(theme: &T, token: Token, rule: Derivation<Token>) -> bool {
    match rule {
        Derivation::Fixed(hex) => theme.token_of(token) == Color::from_hex_spec(hex),
        Derivation::Alias(other) => theme.token_of(token) == theme.token_of(other),
        Derivation::Shaded(..) | Derivation::Toned(..) => false,
    }
}

/// How many aliases a category passes through before a colour is reached.
pub open spec fn syntark_category_depth(category: Category) -> nat {
    match category {
        Category::ActiveTabBackground | Category::DiffText | Category::MessageSeparator | Category::ModeMessage | Category::Question | Category::Search | Category::UnfocusedTermCursor => 1,
        _ => 0,
    }
}

/// How many aliases a token passes through before a colour is reached.
pub open spec fn syntark_token_depth(token: Token) -> nat {
    match token {
        Token::Boolean | Token::ConstGenericParameter | Token::DocComment | Token::Enum | Token::Float | Token::Struct | Token::TypeParameter | Token::Variable => 1,
        Token::Parameter | Token::Static => 2,
        _ => 0,
    }
}

/// A single-palette theme: every colour is fixed or derived from another
/// role's colour. The adjusted colours are computed once, when the theme is made.
#[derive(Debug)]
pub struct SyntarkTheme {
    column_guide: Color,
    cursor_line: Color,
    diff_add: Color,
    diff_change: Color,
    diff_delete: Color,
    folded: Color,
    inactive_tab: Color,
    inactive_tab_background: Color,
    line_number: Color,
    status_line: Color,
    whitespace: Color,
}

impl SyntarkTheme {
    /// Makes the theme, computing its adjusted colours with `shade`.
    pub fn new<F: Fn(Color, Shade) -> Color>(shade: &F) -> (r: Self)
        requires
            forall|c: Color, s: Shade| shade.requires((c, s)),
        ensures
            forall|c: Category| follows_category_rule(&r, shade, c, #[trigger] syntark_category_rule(c)),
            forall|t: Token| follows_token_rule(&r, t, #[trigger] syntark_token_rule(t)),
            forall|l: DiagnosticLevel| #[trigger] r.level_of(l) == syntark_level(l),
    {
        let normal = Color::from_hex(0xd8d8d8);
        let normal_background = Color::from_hex(0x181818);
        let column_guide = shade(normal_background, Shade::Darken(100));
        let cursor_line = shade(normal_background, Shade::Lighten(10));
        let diff_add = shade(Color::from_hex(named::GREEN), Shade::Tone { saturation: 300, value: 300 });
        let diff_change = shade(Color::from_hex(named::GREEN), Shade::Tone { saturation: 600, value: 150 });
        let diff_delete = shade(Color::from_hex(named::RED), Shade::Tone { saturation: 400, value: 300 });
        let folded = shade(normal_background, Shade::Darken(200));
        let inactive_tab = shade(normal, Shade::Darken(750));
        let inactive_tab_background = shade(normal_background, Shade::Darken(300));
        let line_number = shade(normal, Shade::Darken(750));
        let status_line = shade(normal_background, Shade::Lighten(5));
        let whitespace = shade(normal, Shade::Darken(900));
        SyntarkTheme {
            column_guide,
            cursor_line,
            diff_add,
            diff_change,
            diff_delete,
            folded,
            inactive_tab,
            inactive_tab_background,
            line_number,
            status_line,
            whitespace,
        }
    }
}

impl Theme for SyntarkTheme {
    closed spec fn category_of(&self, category: Category) -> Color
        decreases syntark_category_depth(category),
    {
        match category {
            Category::ActiveSearchMatch => Color::from_hex_spec(named::CHOCOLATE),
            Category::ActiveTab => Color::from_hex_spec(named::WHITE),
            Category::ActiveTabBackground => self.category_of(Category::NormalBackground),
            Category::BadSpelling => Color::from_hex_spec(named::BROWN),
            Category::ColumnGuide => self.column_guide,
            Category::CursorLine => self.cursor_line,
            Category::CursorLineNumber => Color::from_hex_spec(named::WHITE),
            Category::DiffAdd => self.diff_add,
            Category::DiffChange => self.diff_change,
            Category::DiffDelete => self.diff_delete,
            Category::DiffText => self.category_of(Category::DiffAdd),
            Category::Folded => self.folded,
            Category::InactiveTab => self.inactive_tab,
            Category::InactiveTabBackground => self.inactive_tab_background,
            Category::LineNumber => self.line_number,
            Category::MatchedBracket => Color::from_hex_spec(named::YELLOW),
            Category::MessageSeparator => self.category_of(Category::Normal),
            Category::ModeMessage => self.category_of(Category::Normal),
            Category::NonText => Color::from_hex_spec(named::DIMGRAY),
            Category::Normal => Color::from_hex_spec(0xd8d8d8),
            Category::NormalBackground => Color::from_hex_spec(0x181818),
            Category::Question => self.category_of(Category::Selection),
            Category::Search => self.category_of(Category::Normal),
            Category::SearchMatch => Color::from_hex_spec(named::BLUE),
            Category::Selection => Color::from_hex_spec(named::DARKSLATEGRAY),
            Category::Special => Color::from_hex_spec(named::DODGERBLUE),
            Category::StatusLine => self.status_line,
            Category::TermCursor => Color::from_hex_spec(0xaeafad),
            Category::UnfocusedTermCursor => self.category_of(Category::TermCursor),
            Category::Whitespace => self.whitespace,
        }
    }

    closed spec fn token_of(&self, token: Token) -> Color
        decreases syntark_token_depth(token),
    {
        match token {
            Token::Attribute => Color::from_hex_spec(named::LIGHTPINK),
            Token::Boolean => self.token_of(Token::Integer),
            Token::Character => Color::from_hex_spec(named::SEAGREEN),
            Token::Comment => Color::from_hex_spec(named::SLATEGRAY),
            Token::Constant => Color::from_hex_spec(named::LIGHTSALMON),
            Token::ConstGenericParameter => self.token_of(Token::Constant),
            Token::Delimiter => Color::from_hex_spec(named::LIGHTCORAL),
            Token::DocComment => self.token_of(Token::Comment),
            Token::Enum => self.token_of(Token::Type),
            Token::Field => Color::from_hex_spec(named::TAN),
            Token::Float => self.token_of(Token::Integer),
            Token::Function => Color::from_hex_spec(named::DEEPSKYBLUE),
            Token::Identifier => Color::from_hex_spec(named::STEELBLUE),
            Token::Integer => Color::from_hex_spec(named::GOLDENROD),
            Token::Interface => Color::from_hex_spec(named::TEAL),
            Token::Keyword => Color::from_hex_spec(named::ORCHID),
            Token::Link => Color::from_hex_spec(named::DARKCYAN),
            Token::Macro => Color::from_hex_spec(named::PINK),
            Token::Module => Color::from_hex_spec(named::AQUAMARINE),
            Token::Operator => Color::from_hex_spec(named::DODGERBLUE),
            Token::Parameter => self.token_of(Token::Variable),
            Token::Static => self.token_of(Token::Variable),
            Token::String => Color::from_hex_spec(named::FORESTGREEN),
            Token::Struct => self.token_of(Token::Type),
            Token::Tag => Color::from_hex_spec(named::CADETBLUE),
            Token::Todo => Color::from_hex_spec(named::DARKORANGE),
            Token::Type => Color::from_hex_spec(named::LIGHTGREEN),
            Token::TypeParameter => self.token_of(Token::Type),
            Token::Variable => self.token_of(Token::Identifier),
            Token::Variant => Color::from_hex_spec(named::LIGHTSKYBLUE),
        }
    }

    closed spec fn level_of(&self, level: DiagnosticLevel) -> Color {
        syntark_level(level)
    }

    fn category_color(&self, category: Category) -> (r: Color)
        decreases syntark_category_depth(category),
    {
        match category {
            Category::ActiveSearchMatch => Color::from_hex(named::CHOCOLATE),
            Category::ActiveTab => Color::from_hex(named::WHITE),
            Category::ActiveTabBackground => self.category_color(Category::NormalBackground),
            Category::BadSpelling => Color::from_hex(named::BROWN),
            Category::ColumnGuide => self.column_guide,
            Category::CursorLine => self.cursor_line,
            Category::CursorLineNumber => Color::from_hex(named::WHITE),
            Category::DiffAdd => self.diff_add,
            Category::DiffChange => self.diff_change,
            Category::DiffDelete => self.diff_delete,
            Category::DiffText => self.category_color(Category::DiffAdd),
            Category::Folded => self.folded,
            Category::InactiveTab => self.inactive_tab,
            Category::InactiveTabBackground => self.inactive_tab_background,
            Category::LineNumber => self.line_number,
            Category::MatchedBracket => Color::from_hex(named::YELLOW),
            Category::MessageSeparator => self.category_color(Category::Normal),
            Category::ModeMessage => self.category_color(Category::Normal),
            Category::NonText => Color::from_hex(named::DIMGRAY),
            Category::Normal => Color::from_hex(0xd8d8d8),
            Category::NormalBackground => Color::from_hex(0x181818),
            Category::Question => self.category_color(Category::Selection),
            Category::Search => self.category_color(Category::Normal),
            Category::SearchMatch => Color::from_hex(named::BLUE),
            Category::Selection => Color::from_hex(named::DARKSLATEGRAY),
            Category::Special => Color::from_hex(named::DODGERBLUE),
            Category::StatusLine => self.status_line,
            Category::TermCursor => Color::from_hex(0xaeafad),
            Category::UnfocusedTermCursor => self.category_color(Category::TermCursor),
            Category::Whitespace => self.whitespace,
        }
    }

    fn token_color(&self, token: Token) -> (r: Color)
        decreases syntark_token_depth(token),
    {
        match token {
            Token::Attribute => Color::from_hex(named::LIGHTPINK),
            Token::Boolean => self.token_color(Token::Integer),
            Token::Character => Color::from_hex(named::SEAGREEN),
            Token::Comment => Color::from_hex(named::SLATEGRAY),
            Token::Constant => Color::from_hex(named::LIGHTSALMON),
            Token::ConstGenericParameter => self.token_color(Token::Constant),
            Token::Delimiter => Color::from_hex(named::LIGHTCORAL),
            Token::DocComment => self.token_color(Token::Comment),
            Token::Enum => self.token_color(Token::Type),
            Token::Field => Color::from_hex(named::TAN),
            Token::Float => self.token_color(Token::Integer),
            Token::Function => Color::from_hex(named::DEEPSKYBLUE),
            Token::Identifier => Color::from_hex(named::STEELBLUE),
            Token::Integer => Color::from_hex(named::GOLDENROD),
            Token::Interface => Color::from_hex(named::TEAL),
            Token::Keyword => Color::from_hex(named::ORCHID),
            Token::Link => Color::from_hex(named::DARKCYAN),
            Token::Macro => Color::from_hex(named::PINK),
            Token::Module => Color::from_hex(named::AQUAMARINE),
            Token::Operator => Color::from_hex(named::DODGERBLUE),
            Token::Parameter => self.token_color(Token::Variable),
            Token::Static => self.token_color(Token::Variable),
            Token::String => Color::from_hex(named::FORESTGREEN),
            Token::Struct => self.token_color(Token::Type),
            Token::Tag => Color::from_hex(named::CADETBLUE),
            Token::Todo => Color::from_hex(named::DARKORANGE),
            Token::Type => Color::from_hex(named::LIGHTGREEN),
            Token::TypeParameter => self.token_color(Token::Type),
            Token::Variable => self.token_color(Token::Identifier),
            Token::Variant => Color::from_hex(named::LIGHTSKYBLUE),
        }
    }

    fn diagnostic_level_color(&self, level: DiagnosticLevel) -> (r: Color) {
        match level {
            DiagnosticLevel::Error => Color::from_hex(named::CRIMSON),
            DiagnosticLevel::Warning => Color::from_hex(named::ORANGE),
            DiagnosticLevel::Info => Color::from_hex(named::STEELBLUE),
            DiagnosticLevel::Hint => Color::from_hex(named::AQUA),
        }
    }
}

} // verus!
