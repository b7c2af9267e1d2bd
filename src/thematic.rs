use crate::category::{Category, DiagnosticLevel, Token};
use crate::color::Color;
use crate::named;
use crate::theme::Theme;
use vstd::prelude::*;

verus! {

#[derive(Clone, Copy, Debug, PartialEq, Eq, Structural)]
enum ThematicVariant {
    Dark,
    Light,
}

/// A theme with a dark and a light variant that share their derivation rules
/// and differ only in their primitive colours.
#[derive(Debug)]
pub struct ThematicTheme {
    variant: ThematicVariant,
}

impl ThematicTheme {
    /// Whether this is the dark variant.
    pub closed spec fn is_dark(&self) -> bool {
        self.variant == ThematicVariant::Dark
    }

    pub fn dark() -> (r: Self)
        ensures
            r.is_dark(),
            forall|c: Category| #[trigger] r.category_of(c) == thematic_category(&DarkThematicTheme, c),
            forall|t: Token| #[trigger] r.token_of(t) == thematic_token(&DarkThematicTheme, t),
            forall|l: DiagnosticLevel| #[trigger] r.level_of(l) == level_spec(l),
    {
        Self { variant: ThematicVariant::Dark }
    }

    pub fn light() -> (r: Self)
        ensures
            !r.is_dark(),
            forall|c: Category| #[trigger] r.category_of(c) == thematic_category(&LightThematicTheme, c),
            forall|t: Token| #[trigger] r.token_of(t) == thematic_token(&LightThematicTheme, t),
            forall|l: DiagnosticLevel| #[trigger] r.level_of(l) == level_spec(l),
    {
        Self { variant: ThematicVariant::Light }
    }
}

impl Theme for ThematicTheme {
    closed spec fn category_of(&self, category: Category) -> Color {
        match self.variant {
            ThematicVariant::Dark => thematic_category(&DarkThematicTheme, category),
            ThematicVariant::Light => thematic_category(&LightThematicTheme, category),
        }
    }

    closed spec fn token_of(&self, token: Token) -> Color {
        match self.variant {
            ThematicVariant::Dark => thematic_token(&DarkThematicTheme, token),
            ThematicVariant::Light => thematic_token(&LightThematicTheme, token),
        }
    }

    closed spec fn level_of(&self, level: DiagnosticLevel) -> Color {
        level_spec(level)
    }

    fn category_color(&self, category: Category) -> (r: Color) {
        match self.variant {
            ThematicVariant::Dark => category_color(&DarkThematicTheme, category),
            ThematicVariant::Light => category_color(&LightThematicTheme, category),
        }
    }

    fn token_color(&self, token: Token) -> (r: Color) {
        match self.variant {
            ThematicVariant::Dark => token_color(&DarkThematicTheme, token),
            ThematicVariant::Light => token_color(&LightThematicTheme, token),
        }
    }

    fn diagnostic_level_color(&self, level: DiagnosticLevel) -> (r: Color) {
        level_color(level)
    }
}

/// The diagnostic colours, shared by both variants.
pub open spec fn level_spec(level: DiagnosticLevel) -> Color {
    match level {
        DiagnosticLevel::Error => Color::from_hex_spec(named::CRIMSON),
        DiagnosticLevel::Warning => Color::from_hex_spec(named::ORANGE),
        DiagnosticLevel::Info => Color::from_hex_spec(named::STEELBLUE),
        DiagnosticLevel::Hint => Color::from_hex_spec(named::AQUA),
    }
}

fn level_color(level: DiagnosticLevel) -> (r: Color)
    ensures
        r == level_spec(level),
{
    match level {
        DiagnosticLevel::Error => Color::from_hex(named::CRIMSON),
        DiagnosticLevel::Warning => Color::from_hex(named::ORANGE),
        DiagnosticLevel::Info => Color::from_hex(named::STEELBLUE),
        DiagnosticLevel::Hint => Color::from_hex(named::AQUA),
    }
}

/// How many aliases a category passes through before it reaches a primitive
/// or a fixed colour.
pub open spec fn category_depth(category: Category) -> nat {
    match category {
        Category::ActiveTab | Category::ActiveTabBackground | Category::DiffText | Category::MessageSeparator | Category::ModeMessage | Category::Question | Category::Search | Category::UnfocusedTermCursor => 1,
        _ => 0,
    }
}

/// How many aliases a token passes through before it reaches a primitive or a
/// fixed colour.
pub open spec fn token_depth(token: Token) -> nat {
    match token {
        Token::Boolean | Token::Character | Token::ConstGenericParameter | Token::DocComment | Token::Enum | Token::Float | Token::Macro | Token::Operator | Token::Struct | Token::TypeParameter | Token::Variable => 1,
        Token::Field | Token::Parameter | Token::Static => 2,
        _ => 0,
    }
}

/// The colour of a category under a variant's primitives.
pub open spec fn thematic_category<P: Provider>(provider: &P, category: Category) -> Color
    decreases category_depth(category),
{
    match category {
        Category::ActiveSearchMatch => provider.spec_active_search_match(),
        Category::ActiveTab => thematic_category(provider, Category::Normal),
        Category::ActiveTabBackground => thematic_category(provider, Category::NormalBackground),
        Category::BadSpelling => provider.spec_error(),
        Category::ColumnGuide => provider.spec_guide(),
        Category::CursorLine => provider.spec_selection(),
        Category::CursorLineNumber => provider.spec_foreground(),
        Category::DiffAdd => provider.spec_diff_add(),
        Category::DiffChange => provider.spec_diff_change(),
        Category::DiffDelete => provider.spec_diff_delete(),
        Category::DiffText => thematic_category(provider, Category::DiffAdd),
        Category::Folded => provider.spec_secondary_background(),
        Category::InactiveTab => provider.spec_secondary_foreground(),
        Category::InactiveTabBackground => provider.spec_secondary_background(),
        Category::LineNumber => provider.spec_secondary_foreground(),
        Category::MatchedBracket => provider.spec_matched_bracket(),
        Category::MessageSeparator => thematic_category(provider, Category::Normal),
        Category::ModeMessage => thematic_category(provider, Category::Normal),
        Category::NonText => provider.spec_secondary_foreground(),
        Category::Normal => provider.spec_foreground(),
        Category::NormalBackground => provider.spec_background(),
        Category::Question => thematic_category(provider, Category::Selection),
        Category::Search => thematic_category(provider, Category::Normal),
        Category::SearchMatch => provider.spec_search_match(),
        Category::Selection => provider.spec_selection(),
        Category::Special => Color::from_hex_spec(named::DODGERBLUE),
        Category::StatusLine => provider.spec_secondary_background(),
        Category::TermCursor => provider.spec_cursor(),
        Category::UnfocusedTermCursor => thematic_category(provider, Category::TermCursor),
        Category::Whitespace => provider.spec_secondary_foreground(),
    }
}

/// The colour of a token under a variant's primitives.
pub open spec fn thematic_token<P: Provider>(provider: &P, token: Token) -> Color
    decreases token_depth(token),
{
    match token {
        Token::Attribute => Color::from_hex_spec(named::LIGHTPINK),
        Token::Boolean => thematic_token(provider, Token::Variant),
        Token::Character => thematic_token(provider, Token::String),
        Token::Comment => provider.spec_secondary_foreground(),
        Token::Constant => Color::from_hex_spec(named::CADETBLUE),
        Token::ConstGenericParameter => thematic_token(provider, Token::Constant),
        Token::Delimiter => provider.spec_foreground(),
        Token::DocComment => thematic_token(provider, Token::Comment),
        Token::Enum => thematic_token(provider, Token::Type),
        Token::Field => thematic_token(provider, Token::Variable),
        Token::Float => thematic_token(provider, Token::Integer),
        Token::Function => Color::from_hex_spec(named::DEEPSKYBLUE),
        Token::Identifier => Color::from_hex_spec(named::STEELBLUE),
        Token::Integer => Color::from_hex_spec(named::LIGHTSALMON),
        Token::Interface => Color::from_hex_spec(named::SEAGREEN),
        Token::Keyword => Color::from_hex_spec(0xbb9af7),
        Token::Link => Color::from_hex_spec(named::DARKCYAN),
        Token::Macro => thematic_token(provider, Token::Attribute),
        Token::Module => Color::from_hex_spec(named::TEAL),
        Token::Operator => thematic_token(provider, Token::Keyword),
        Token::Parameter => thematic_token(provider, Token::Variable),
        Token::Static => thematic_token(provider, Token::Variable),
        Token::String => Color::from_hex_spec(named::DARKKHAKI),
        Token::Struct => thematic_token(provider, Token::Type),
        Token::Tag => provider.spec_foreground(),
        Token::Todo => Color::from_hex_spec(named::DARKORANGE),
        Token::Type => Color::from_hex_spec(named::DARKSEAGREEN),
        Token::TypeParameter => thematic_token(provider, Token::Type),
        Token::Variable => thematic_token(provider, Token::Identifier),
        Token::Variant => Color::from_hex_spec(named::CORNFLOWERBLUE),
    }
}

fn category_color<P: Provider>(provider: &P, category: Category) -> (r: Color)
    ensures
        r == thematic_category(provider, category),
    decreases category_depth(category),
{
    match category {
        Category::ActiveSearchMatch => provider.active_search_match(),
        Category::ActiveTab => category_color(provider, Category::Normal),
        Category::ActiveTabBackground => category_color(provider, Category::NormalBackground),
        Category::BadSpelling => provider.error(),
        Category::ColumnGuide => provider.guide(),
        Category::CursorLine => provider.selection(),
        Category::CursorLineNumber => provider.foreground(),
        Category::DiffAdd => provider.diff_add(),
        Category::DiffChange => provider.diff_change(),
        Category::DiffDelete => provider.diff_delete(),
        Category::DiffText => category_color(provider, Category::DiffAdd),
        Category::Folded => provider.secondary_background(),
        Category::InactiveTab => provider.secondary_foreground(),
        Category::InactiveTabBackground => provider.secondary_background(),
        Category::LineNumber => provider.secondary_foreground(),
        Category::MatchedBracket => provider.matched_bracket(),
        Category::MessageSeparator => category_color(provider, Category::Normal),
        Category::ModeMessage => category_color(provider, Category::Normal),
        Category::NonText => provider.secondary_foreground(),
        Category::Normal => provider.foreground(),
        Category::NormalBackground => provider.background(),
        Category::Question => category_color(provider, Category::Selection),
        Category::Search => category_color(provider, Category::Normal),
        Category::SearchMatch => provider.search_match(),
        Category::Selection => provider.selection(),
        Category::Special => Color::from_hex(named::DODGERBLUE),
        Category::StatusLine => provider.secondary_background(),
        Category::TermCursor => provider.cursor(),
        Category::UnfocusedTermCursor => category_color(provider, Category::TermCursor),
        Category::Whitespace => provider.secondary_foreground(),
    }
}

fn token_color<P: Provider>(provider: &P, token: Token) -> (r: Color)
    ensures
        r == thematic_token(provider, token),
    decreases token_depth(token),
{
    match token {
        Token::Attribute => Color::from_hex(named::LIGHTPINK),
        Token::Boolean => token_color(provider, Token::Variant),
        Token::Character => token_color(provider, Token::String),
        Token::Comment => provider.secondary_foreground(),
        Token::Constant => Color::from_hex(named::CADETBLUE),
        Token::ConstGenericParameter => token_color(provider, Token::Constant),
        Token::Delimiter => provider.foreground(),
        Token::DocComment => token_color(provider, Token::Comment),
        Token::Enum => token_color(provider, Token::Type),
        Token::Field => token_color(provider, Token::Variable),
        Token::Float => token_color(provider, Token::Integer),
        Token::Function => Color::from_hex(named::DEEPSKYBLUE),
        Token::Identifier => Color::from_hex(named::STEELBLUE),
        Token::Integer => Color::from_hex(named::LIGHTSALMON),
        Token::Interface => Color::from_hex(named::SEAGREEN),
        Token::Keyword => Color::from_hex(0xbb9af7),
        Token::Link => Color::from_hex(named::DARKCYAN),
        Token::Macro => token_color(provider, Token::Attribute),
        Token::Module => Color::from_hex(named::TEAL),
        Token::Operator => token_color(provider, Token::Keyword),
        Token::Parameter => token_color(provider, Token::Variable),
        Token::Static => token_color(provider, Token::Variable),
        Token::String => Color::from_hex(named::DARKKHAKI),
        Token::Struct => token_color(provider, Token::Type),
        Token::Tag => provider.foreground(),
        Token::Todo => Color::from_hex(named::DARKORANGE),
        Token::Type => Color::from_hex(named::DARKSEAGREEN),
        Token::TypeParameter => token_color(provider, Token::Type),
        Token::Variable => token_color(provider, Token::Identifier),
        Token::Variant => Color::from_hex(named::CORNFLOWERBLUE),
    }
}

/// The dark variant's primitive colours.
pub struct DarkThematicTheme;

/// The light variant's primitive colours; it borrows the accents of the dark one.
pub struct LightThematicTheme;

/// The primitive colours of a paired theme variant. The category and token
/// colours of every variant are derived from these alone.
pub trait Provider {
    spec fn spec_active_search_match(&self) -> Color;

    spec fn spec_error(&self) -> Color;

    spec fn spec_diff_add(&self) -> Color;

    spec fn spec_diff_change(&self) -> Color;

    spec fn spec_diff_delete(&self) -> Color;

    spec fn spec_guide(&self) -> Color;

    spec fn spec_foreground(&self) -> Color;

    spec fn spec_background(&self) -> Color;

    spec fn spec_secondary_background(&self) -> Color;

    spec fn spec_secondary_foreground(&self) -> Color;

    spec fn spec_search_match(&self) -> Color;

    spec fn spec_selection(&self) -> Color;

    spec fn spec_matched_bracket(&self) -> Color;

    spec fn spec_cursor(&self) -> Color;

    fn active_search_match(&self) -> (r: Color)
        ensures
            r == self.spec_active_search_match(),
    ;

    fn error(&self) -> (r: Color)
        ensures
            r == self.spec_error(),
    ;

    fn diff_add(&self) -> (r: Color)
        ensures
            r == self.spec_diff_add(),
    ;

    fn diff_change(&self) -> (r: Color)
        ensures
            r == self.spec_diff_change(),
    ;

    fn diff_delete(&self) -> (r: Color)
        ensures
            r == self.spec_diff_delete(),
    ;

    fn guide(&self) -> (r: Color)
        ensures
            r == self.spec_guide(),
    ;

    fn foreground(&self) -> (r: Color)
        ensures
            r == self.spec_foreground(),
    ;

    fn background(&self) -> (r: Color)
        ensures
            r == self.spec_background(),
    ;

    fn secondary_background(&self) -> (r: Color)
        ensures
            r == self.spec_secondary_background(),
    ;

    fn secondary_foreground(&self) -> (r: Color)
        ensures
            r == self.spec_secondary_foreground(),
    ;

    fn search_match(&self) -> (r: Color)
        ensures
            r == self.spec_search_match(),
    ;

    fn selection(&self) -> (r: Color)
        ensures
            r == self.spec_selection(),
    ;

    fn matched_bracket(&self) -> (r: Color)
        ensures
            r == self.spec_matched_bracket(),
    ;

    fn cursor(&self) -> (r: Color)
        ensures
            r == self.spec_cursor(),
    ;
}

impl Provider for DarkThematicTheme {
    open spec fn spec_active_search_match(&self) -> Color {
        Color::from_hex_spec(named::CORAL)
    }

    open spec fn spec_error(&self) -> Color {
        Color::from_hex_spec(0xbf616a)
    }

    open spec fn spec_diff_add(&self) -> Color {
        Color::from_hex_spec(0xa3be8c)
    }

    open spec fn spec_diff_change(&self) -> Color {
        self.spec_secondary_background()
    }

    open spec fn spec_diff_delete(&self) -> Color {
        Color::from_hex_spec(0xbf616a)
    }

    open spec fn spec_guide(&self) -> Color {
        self.spec_secondary_background()
    }

    open spec fn spec_foreground(&self) -> Color {
        Color::from_hex_spec(0xd8d8d8)
    }

    open spec fn spec_background(&self) -> Color {
        Color::from_hex_spec(0x181818)
    }

    open spec fn spec_secondary_background(&self) -> Color {
        Color::from_hex_spec(0x202020)
    }

    open spec fn spec_secondary_foreground(&self) -> Color {
        Color::from_hex_spec(named::SLATEGRAY)
    }

    open spec fn spec_search_match(&self) -> Color {
        Color::from_hex_spec(named::ROYALBLUE)
    }

    open spec fn spec_selection(&self) -> Color {
        Color::from_hex_spec(0x282828)
    }

    open spec fn spec_matched_bracket(&self) -> Color {
        self.spec_search_match()
    }

    open spec fn spec_cursor(&self) -> Color {
        Color::from_hex_spec(0xd8dee9)
    }

    fn active_search_match(&self) -> (r: Color) {
        Color::from_hex(named::CORAL)
    }

    fn error(&self) -> (r: Color) {
        Color::from_hex(0xbf616a)
    }

    fn diff_add(&self) -> (r: Color) {
        Color::from_hex(0xa3be8c)
    }

    fn diff_change(&self) -> (r: Color) {
        self.secondary_background()
    }

    fn diff_delete(&self) -> (r: Color) {
        Color::from_hex(0xbf616a)
    }

    fn guide(&self) -> (r: Color) {
        self.secondary_background()
    }

    fn foreground(&self) -> (r: Color) {
        Color::from_hex(0xd8d8d8)
    }

    fn background(&self) -> (r: Color) {
        Color::from_hex(0x181818)
    }

    fn secondary_background(&self) -> (r: Color) {
        Color::from_hex(0x202020)
    }

    fn secondary_foreground(&self) -> (r: Color) {
        Color::from_hex(named::SLATEGRAY)
    }

    fn search_match(&self) -> (r: Color) {
        Color::from_hex(named::ROYALBLUE)
    }

    fn selection(&self) -> (r: Color) {
        Color::from_hex(0x282828)
    }

    fn matched_bracket(&self) -> (r: Color) {
        self.search_match()
    }

    fn cursor(&self) -> (r: Color) {
        Color::from_hex(0xd8dee9)
    }
}

impl Provider for LightThematicTheme {
    open spec fn spec_active_search_match(&self) -> Color {
        DarkThematicTheme.spec_active_search_match()
    }

    open spec fn spec_error(&self) -> Color {
        DarkThematicTheme.spec_error()
    }

    open spec fn spec_diff_add(&self) -> Color {
        DarkThematicTheme.spec_diff_add()
    }

    open spec fn spec_diff_change(&self) -> Color {
        DarkThematicTheme.spec_diff_change()
    }

    open spec fn spec_diff_delete(&self) -> Color {
        DarkThematicTheme.spec_diff_delete()
    }

    open spec fn spec_guide(&self) -> Color {
        self.spec_secondary_background()
    }

    open spec fn spec_foreground(&self) -> Color {
        Color::from_hex_spec(named::BLACK)
    }

    open spec fn spec_background(&self) -> Color {
        Color::from_hex_spec(named::BEIGE)
    }

    open spec fn spec_secondary_background(&self) -> Color {
        Color::from_hex_spec(named::IVORY)
    }

    open spec fn spec_secondary_foreground(&self) -> Color {
        Color::from_hex_spec(named::LIGHTGRAY)
    }

    open spec fn spec_search_match(&self) -> Color {
        DarkThematicTheme.spec_search_match()
    }

    open spec fn spec_selection(&self) -> Color {
        Color::from_hex_spec(named::AZURE)
    }

    open spec fn spec_matched_bracket(&self) -> Color {
        DarkThematicTheme.spec_matched_bracket()
    }

    open spec fn spec_cursor(&self) -> Color {
        Color::from_hex_spec(named::SLATEGRAY)
    }

    fn active_search_match(&self) -> (r: Color) {
        DarkThematicTheme.active_search_match()
    }

    fn error(&self) -> (r: Color) {
        DarkThematicTheme.error()
    }

    fn diff_add(&self) -> (r: Color) {
        DarkThematicTheme.diff_add()
    }

    fn diff_change(&self) -> (r: Color) {
        DarkThematicTheme.diff_change()
    }

    fn diff_delete(&self) -> (r: Color) {
        DarkThematicTheme.diff_delete()
    }

    fn guide(&self) -> (r: Color) {
        self.secondary_background()
    }

    fn foreground(&self) -> (r: Color) {
        Color::from_hex(named::BLACK)
    }

    fn background(&self) -> (r: Color) {
        Color::from_hex(named::BEIGE)
    }

    fn secondary_background(&self) -> (r: Color) {
        Color::from_hex(named::IVORY)
    }

    fn secondary_foreground(&self) -> (r: Color) {
        Color::from_hex(named::LIGHTGRAY)
    }

    fn search_match(&self) -> (r: Color) {
        DarkThematicTheme.search_match()
    }

    fn selection(&self) -> (r: Color) {
        Color::from_hex(named::AZURE)
    }

    fn matched_bracket(&self) -> (r: Color) {
        DarkThematicTheme.matched_bracket()
    }

    fn cursor(&self) -> (r: Color) {
        Color::from_hex(named::SLATEGRAY)
    }
}

} // verus!
