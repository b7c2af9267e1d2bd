use crate::category::{Category, DiagnosticLevel, Token};
use crate::color::Shade;
use crate::highlight::{Diagnostic, DiagnosticUiKind, HighlightName, Language, LspTypeMod, LspType};
use vstd::prelude::*;

verus! {

/// The role whose colour a catalogue entry asks the theme for.
#[derive(Clone, Copy, Debug, PartialEq, Eq, Structural)]
pub enum Source {
    Category(Category),
    Token(Token),
    Level(DiagnosticLevel),
}

/// A colour of a catalogue entry: a role's colour, as it is or adjusted.
#[derive(Clone, Copy, Debug, PartialEq, Eq, Structural)]
pub enum Paint {
    Plain(Source),
    Shaded(Source, Shade),
}

/// The style of a catalogue entry, before the theme is consulted.
#[derive(Clone, Copy, Debug, PartialEq, Eq, Structural)]
pub struct Recipe {
    pub foreground: Option<Paint>,
    pub background: Option<Paint>,
    pub special: Option<Paint>,
    pub underline: Option<crate::style::UnderlineStyle>,
    pub reversed: bool,
}

/// What the catalogue says of one highlight group: a style to compute, or
/// another group whose style the editor copies.
#[derive(Clone, Copy, Debug, PartialEq, Eq, Structural)]
pub enum Rule {
    Style(Recipe),
    Link(HighlightName),
}

/// The number of entries in the catalogue.
pub const CATALOGUE_LEN: usize = 162;

/// A role's colour, as it is.
pub open spec fn spec_category(c: Category) -> Option<Paint> {
    Some(Paint::Plain(Source::Category(c)))
}

#[verifier::when_used_as_spec(spec_category)]
pub fn category(c: Category) -> (r: Option<Paint>)
    ensures
        r == spec_category(c),
{
    Some(Paint::Plain(Source::Category(c)))
}

pub open spec fn spec_token(t: Token) -> Option<Paint> {
    Some(Paint::Plain(Source::Token(t)))
}

#[verifier::when_used_as_spec(spec_token)]
pub fn token(t: Token) -> (r: Option<Paint>)
    ensures
        r == spec_token(t),
{
    Some(Paint::Plain(Source::Token(t)))
}

pub open spec fn spec_level(l: DiagnosticLevel) -> Option<Paint> {
    Some(Paint::Plain(Source::Level(l)))
}

#[verifier::when_used_as_spec(spec_level)]
pub fn level(l: DiagnosticLevel) -> (r: Option<Paint>)
    ensures
        r == spec_level(l),
{
    Some(Paint::Plain(Source::Level(l)))
}

/// A category's colour, adjusted.
pub open spec fn spec_shaded(c: Category, s: Shade) -> Option<Paint> {
    Some(Paint::Shaded(Source::Category(c), s))
}

#[verifier::when_used_as_spec(spec_shaded)]
pub fn shaded(c: Category, s: Shade) -> (r: Option<Paint>)
    ensures
        r == spec_shaded(c, s),
{
    Some(Paint::Shaded(Source::Category(c), s))
}

/// A style that sets at most a foreground and a background.
pub open spec fn spec_colors(foreground: Option<Paint>, background: Option<Paint>) -> Rule {
    Rule::Style(Recipe { foreground, background, special: None, underline: None, reversed: false })
}

#[verifier::when_used_as_spec(spec_colors)]
pub fn colors(foreground: Option<Paint>, background: Option<Paint>) -> (r: Rule)
    ensures
        r == spec_colors(foreground, background),
{
    Rule::Style(Recipe { foreground, background, special: None, underline: None, reversed: false })
}

/// A style that sets nothing but reverse video.
pub open spec fn spec_reverse_video() -> Rule {
    Rule::Style(Recipe { foreground: None, background: None, special: None, underline: None, reversed: true })
}

#[verifier::when_used_as_spec(spec_reverse_video)]
pub fn reverse_video() -> (r: Rule)
    ensures
        r == spec_reverse_video(),
{
    Rule::Style(Recipe { foreground: None, background: None, special: None, underline: None, reversed: true })
}

/// The groups built into the editor.
pub open spec fn editor_entry(k: usize) -> (HighlightName, Rule) {
    match k {
        0 => (HighlightName::ColorColumn, colors(None, category(Category::ColumnGuide))),
        1 => (HighlightName::Conceal, colors(None, None)),
        2 => (HighlightName::CurSearch, colors(category(Category::Search), category(Category::ActiveSearchMatch))),
        3 => (HighlightName::Cursor, reverse_video()),
        4 => (HighlightName::CursorIM, Rule::Link(HighlightName::Cursor)),
        5 => (HighlightName::CursorColumn, colors(None, None)),
        6 => (HighlightName::CursorLine, colors(None, category(Category::CursorLine))),
        7 => (HighlightName::Directory, colors(None, None)),
        8 => (HighlightName::DiffAdd, colors(None, category(Category::DiffAdd))),
        9 => (HighlightName::DiffChange, colors(None, category(Category::DiffChange))),
        10 => (HighlightName::DiffDelete, colors(None, category(Category::DiffDelete))),
        11 => (HighlightName::DiffText, colors(None, category(Category::DiffText))),
        12 => (HighlightName::EndOfBuffer, Rule::Link(HighlightName::NonText)),
        13 => (HighlightName::TermCursor, colors(None, category(Category::TermCursor))),
        14 => (HighlightName::TermCursorNC, colors(None, category(Category::UnfocusedTermCursor))),
        15 => (HighlightName::ErrorMsg, colors(level(DiagnosticLevel::Error), None)),
        16 => (HighlightName::WinSeparator, colors(shaded(Category::Normal, Shade::Darken(950)), None)),
        17 => (HighlightName::Folded, colors(None, category(Category::Folded))),
        18 => (HighlightName::FoldColumn, colors(None, None)),
        19 => (HighlightName::SignColumn, colors(None, None)),
        20 => (HighlightName::IncSearch, Rule::Link(HighlightName::CurSearch)),
        21 => (HighlightName::Substitute, Rule::Link(HighlightName::IncSearch)),
        22 => (HighlightName::LineNr, colors(category(Category::LineNumber), None)),
        23 => (HighlightName::LineNrAbove, Rule::Link(HighlightName::LineNr)),
        24 => (HighlightName::LineNrBelow, Rule::Link(HighlightName::LineNr)),
        25 => (HighlightName::CursorLineNr, colors(category(Category::CursorLineNumber), None)),
        26 => (HighlightName::CursorLineFold, Rule::Link(HighlightName::FoldColumn)),
        27 => (HighlightName::CursorLineSign, Rule::Link(HighlightName::SignColumn)),
        28 => (HighlightName::MatchParen, colors(category(Category::MatchedBracket), None)),
        29 => (HighlightName::ModeMsg, colors(category(Category::ModeMessage), None)),
        30 => (HighlightName::MsgArea, colors(None, None)),
        31 => (HighlightName::MsgSeparator, colors(category(Category::MessageSeparator), None)),
        32 => (HighlightName::MoreMsg, Rule::Link(HighlightName::ModeMsg)),
        33 => (HighlightName::NonText, colors(category(Category::NonText), None)),
        34 => (HighlightName::Normal, colors(category(Category::Normal), category(Category::NormalBackground))),
        35 => (HighlightName::NormalFloat, colors(None, None)),
        36 => (HighlightName::FloatBorder, Rule::Link(HighlightName::WinSeparator)),
        37 => (HighlightName::FloatTitle, Rule::Link(HighlightName::Title)),
        38 => (HighlightName::NormalNC, colors(None, None)),
        39 => (HighlightName::Pmenu, colors(None, None)),
        40 => (HighlightName::PmenuSel, Rule::Link(HighlightName::Visual)),
        41 => (HighlightName::PmenuKind, colors(None, None)),
        42 => (HighlightName::PmenuKindSel, Rule::Link(HighlightName::Visual)),
        43 => (HighlightName::PmenuExtra, colors(None, None)),
        44 => (HighlightName::PmenuExtraSel, Rule::Link(HighlightName::Visual)),
        45 => (HighlightName::PmenuSbar, colors(shaded(Category::NormalBackground, Shade::Lighten(100)), None)),
        46 => (HighlightName::PmenuThumb, Rule::Link(HighlightName::Pmenu)),
        47 => (HighlightName::Question, colors(category(Category::Question), None)),
        48 => (HighlightName::QuickFixLine, colors(None, None)),
        49 => (HighlightName::Search, colors(category(Category::Search), category(Category::SearchMatch))),
        50 => (HighlightName::SpecialKey, colors(category(Category::Special), None)),
        51 => (HighlightName::SpellBad, colors(category(Category::BadSpelling), None)),
        52 => (HighlightName::SpellCap, Rule::Link(HighlightName::SpellBad)),
        53 => (HighlightName::SpellLocal, Rule::Link(HighlightName::SpellBad)),
        54 => (HighlightName::SpellRare, Rule::Link(HighlightName::SpellBad)),
        55 => (HighlightName::StatusLine, colors(None, category(Category::StatusLine))),
        56 => (HighlightName::StatusLineNC, colors(None, shaded(Category::StatusLine, Shade::Darken(500)))),
        57 => (HighlightName::TabLine, colors(category(Category::InactiveTab), category(Category::InactiveTabBackground))),
        58 => (HighlightName::TabLineFill, colors(None, None)),
        59 => (HighlightName::TabLineSel, colors(category(Category::ActiveTab), category(Category::ActiveTabBackground))),
        60 => (HighlightName::Title, Rule::Link(HighlightName::TabLineSel)),
        61 => (HighlightName::Visual, colors(None, category(Category::Selection))),
        62 => (HighlightName::VisualNOS, Rule::Link(HighlightName::Visual)),
        63 => (HighlightName::WarningMsg, colors(level(DiagnosticLevel::Warning), None)),
        64 => (HighlightName::WhiteSpace, colors(category(Category::Whitespace), None)),
        65 => (HighlightName::WildMenu, Rule::Link(HighlightName::PmenuSel)),
        66 => (HighlightName::WinBar, Rule::Link(HighlightName::TabLineSel)),
        67 => (HighlightName::WinBarNC, Rule::Link(HighlightName::TabLine)),
        _ => arbitrary(),
    }
}

/// The classic syntax groups.
pub open spec fn syntax_entry(k: usize) -> (HighlightName, Rule) {
    match k {
        0 => (HighlightName::Boolean, colors(token(Token::Boolean), None)),
        1 => (HighlightName::Character, colors(token(Token::Character), None)),
        2 => (HighlightName::Comment, colors(token(Token::Comment), None)),
        3 => (HighlightName::Conditional, Rule::Link(HighlightName::Keyword)),
        4 => (HighlightName::Constant, colors(token(Token::Constant), None)),
        5 => (HighlightName::Debug, colors(None, None)),
        6 => (HighlightName::Define, Rule::Link(HighlightName::Macro)),
        7 => (HighlightName::Delimiter, colors(token(Token::Delimiter), None)),
        8 => (HighlightName::Error, colors(level(DiagnosticLevel::Error), None)),
        9 => (HighlightName::Exception, Rule::Link(HighlightName::Keyword)),
        10 => (HighlightName::Float, colors(token(Token::Float), None)),
        11 => (HighlightName::Function, colors(token(Token::Function), None)),
        12 => (HighlightName::Identifier, colors(token(Token::Identifier), None)),
        13 => (HighlightName::Include, colors(token(Token::Module), None)),
        14 => (HighlightName::Keyword, colors(token(Token::Keyword), None)),
        15 => (HighlightName::Label, Rule::Link(HighlightName::Keyword)),
        16 => (HighlightName::Macro, colors(token(Token::Macro), None)),
        17 => (HighlightName::Number, colors(token(Token::Integer), None)),
        18 => (HighlightName::Operator, colors(token(Token::Operator), None)),
        19 => (HighlightName::PreCondit, Rule::Link(HighlightName::Macro)),
        20 => (HighlightName::PreProc, Rule::Link(HighlightName::Macro)),
        21 => (HighlightName::Repeat, Rule::Link(HighlightName::Keyword)),
        22 => (HighlightName::Special, Rule::Link(HighlightName::SpecialChar)),
        23 => (HighlightName::SpecialChar, colors(category(Category::Special), None)),
        24 => (HighlightName::SpecialComment, Rule::Link(HighlightName::Comment)),
        25 => (HighlightName::Statement, Rule::Link(HighlightName::Keyword)),
        26 => (HighlightName::StorageClass, Rule::Link(HighlightName::Keyword)),
        27 => (HighlightName::String, colors(token(Token::String), None)),
        28 => (HighlightName::Structure, Rule::Link(HighlightName::Type)),
        29 => (HighlightName::Tag, colors(token(Token::Tag), None)),
        30 => (HighlightName::Todo, colors(token(Token::Todo), None)),
        31 => (HighlightName::Type, colors(token(Token::Type), None)),
        32 => (HighlightName::Typedef, Rule::Link(HighlightName::Type)),
        33 => (HighlightName::Underlined, colors(token(Token::Link), None)),
        _ => arbitrary(),
    }
}

/// Diagnostic extras, markdown and completion-menu match groups.
pub open spec fn extra_entry(k: usize) -> (HighlightName, Rule) {
    match k {
        0 => (HighlightName::DiagnosticDeprecated, colors(None, None)),
        1 => (HighlightName::DiagnosticUnnecessary, colors(None, None)),
        2 => (HighlightName::MarkdownCode, colors(token(Token::Identifier), None)),
        3 => (HighlightName::MarkdownCodeBlock, colors(token(Token::String), None)),
        4 => (HighlightName::MarkdownH1, colors(token(Token::Module), None)),
        5 => (HighlightName::MarkdownH2, Rule::Link(HighlightName::MarkdownH1)),
        6 => (HighlightName::MarkdownHeadingDelimiter, Rule::Link(HighlightName::Delimiter)),
        7 => (HighlightName::MarkdownLinkText, colors(token(Token::Link), None)),
        8 => (HighlightName::CmpItemAbbrMatch, Rule::Link(HighlightName::Special)),
        9 => (HighlightName::CmpItemAbbrMatchFuzzy, Rule::Link(HighlightName::Special)),
        _ => arbitrary(),
    }
}

/// The fuzzy-finder groups.
pub open spec fn finder_entry(k: usize) -> (HighlightName, Rule) {
    match k {
        0 => (HighlightName::TelescopeBorder, Rule::Link(HighlightName::FloatBorder)),
        1 => (HighlightName::TelescopeTitle, Rule::Link(HighlightName::Title)),
        _ => arbitrary(),
    }
}

/// The LSP token types, in their order in the catalogue.
pub open spec fn lsp_type_at(k: usize) -> LspType {
    match k {
        0 => LspType::Class,
        1 => LspType::Decorator,
        2 => LspType::Derive,
        3 => LspType::Enum,
        4 => LspType::EnumMember,
        5 => LspType::Function,
        6 => LspType::Interface,
        7 => LspType::Keyword,
        8 => LspType::Macro,
        9 => LspType::Method,
        10 => LspType::Namespace,
        11 => LspType::Parameter,
        12 => LspType::Property,
        13 => LspType::Struct,
        14 => LspType::Type,
        15 => LspType::TypeAlias,
        16 => LspType::TypeParameter,
        17 => LspType::Variable,
        _ => arbitrary(),
    }
}

/// The position of an LSP token type among `lsp_type_at`.
pub open spec fn lsp_type_index(ty: LspType) -> int {
    match ty {
        LspType::Class => 0,
        LspType::Decorator => 1,
        LspType::Derive => 2,
        LspType::Enum => 3,
        LspType::EnumMember => 4,
        LspType::Function => 5,
        LspType::Interface => 6,
        LspType::Keyword => 7,
        LspType::Macro => 8,
        LspType::Method => 9,
        LspType::Namespace => 10,
        LspType::Parameter => 11,
        LspType::Property => 12,
        LspType::Struct => 13,
        LspType::Type => 14,
        LspType::TypeAlias => 15,
        LspType::TypeParameter => 16,
        LspType::Variable => 17,
    }
}

/// The token whose colour an LSP token type is shown in.
pub open spec fn lsp_token(ty: LspType) -> Token {
    match ty {
        LspType::Class => Token::Type,
        LspType::Decorator => Token::Attribute,
        LspType::Derive => Token::Interface,
        LspType::Enum => Token::Enum,
        LspType::EnumMember => Token::Variant,
        LspType::Function => Token::Function,
        LspType::Interface => Token::Interface,
        LspType::Keyword => Token::Keyword,
        LspType::Macro => Token::Macro,
        LspType::Method => Token::Function,
        LspType::Namespace => Token::Module,
        LspType::Parameter => Token::Parameter,
        LspType::Property => Token::Field,
        LspType::Struct => Token::Type,
        LspType::Type => Token::Type,
        LspType::TypeAlias => Token::Type,
        LspType::TypeParameter => Token::TypeParameter,
        LspType::Variable => Token::Variable,
    }
}

pub open spec fn level_at(k: int) -> DiagnosticLevel {
    if k == 0 {
        DiagnosticLevel::Error
    } else if k == 1 {
        DiagnosticLevel::Warning
    } else if k == 2 {
        DiagnosticLevel::Info
    } else {
        DiagnosticLevel::Hint
    }
}

pub open spec fn level_index(level: DiagnosticLevel) -> int {
    match level {
        DiagnosticLevel::Error => 0,
        DiagnosticLevel::Warning => 1,
        DiagnosticLevel::Info => 2,
        DiagnosticLevel::Hint => 3,
    }
}

pub open spec fn ui_kind_at(k: int) -> Option<DiagnosticUiKind> {
    if k == 0 {
        None
    } else if k == 1 {
        Some(DiagnosticUiKind::VirtualText)
    } else {
        Some(DiagnosticUiKind::Underline)
    }
}

pub open spec fn ui_kind_index(kind: Option<DiagnosticUiKind>) -> int {
    match kind {
        None => 0,
        Some(DiagnosticUiKind::VirtualText) => 1,
        Some(DiagnosticUiKind::Underline) => 2,
    }
}

/// A style that sets only the foreground.
pub open spec fn foreground_rule(source: Source) -> Rule {
    Rule::Style(
        Recipe {
            foreground: Some(Paint::Plain(source)),
            background: None,
            special: None,
            underline: None,
            reversed: false,
        },
    )
}

/// The rule of a diagnostic group: the severity's colour as foreground; under
/// the underline kind, as a curly underline instead; under the virtual-text
/// kind, with the colour darkened by 0.95 as background.
pub open spec fn diagnostic_rule(level: DiagnosticLevel, kind: Option<DiagnosticUiKind>) -> Rule {
    let color = Source::Level(level);
    match kind {
        None => foreground_rule(color),
        Some(DiagnosticUiKind::Underline) => Rule::Style(
            Recipe {
                foreground: None,
                background: None,
                special: Some(Paint::Plain(color)),
                underline: Some(crate::style::UnderlineStyle::Curly),
                reversed: false,
            },
        ),
        Some(DiagnosticUiKind::VirtualText) => Rule::Style(
            Recipe {
                foreground: Some(Paint::Plain(color)),
                background: Some(Paint::Shaded(color, Shade::Darken(950))),
                special: None,
                underline: None,
                reversed: false,
            },
        ),
    }
}

/// Entry `i` of the catalogue: a group name and its rule.
pub open spec fn catalogue_entry(i: int) -> (HighlightName, Rule) {
    if i < 68 {
        editor_entry(i as usize)
    } else if i < 86 {
        let ty = lsp_type_at((i - 68) as usize);
        (HighlightName::of_type(ty), foreground_rule(Source::Token(lsp_token(ty))))
    } else if i < 120 {
        syntax_entry((i - 86) as usize)
    } else if i < 132 {
        let level = level_at((i - 120) / 3);
        let kind = ui_kind_at((i - 120) % 3);
        (HighlightName::Diagnostic(Diagnostic { level, kind }), diagnostic_rule(level, kind))
    } else if i < 142 {
        extra_entry((i - 132) as usize)
    } else if i < 160 {
        let ty = lsp_type_at((i - 142) as usize);
        (HighlightName::CmpItemKind(ty), Rule::Link(HighlightName::of_type(ty)))
    } else {
        finder_entry((i - 160) as usize)
    }
}

/// The position of a group in the catalogue, or -1 for a group it does not hold.
pub open spec fn catalogue_index(name: HighlightName) -> int {
    match name {
        HighlightName::ColorColumn => 0,
        HighlightName::Conceal => 1,
        HighlightName::CurSearch => 2,
        HighlightName::Cursor => 3,
        HighlightName::CursorIM => 4,
        HighlightName::CursorColumn => 5,
        HighlightName::CursorLine => 6,
        HighlightName::Directory => 7,
        HighlightName::DiffAdd => 8,
        HighlightName::DiffChange => 9,
        HighlightName::DiffDelete => 10,
        HighlightName::DiffText => 11,
        HighlightName::EndOfBuffer => 12,
        HighlightName::TermCursor => 13,
        HighlightName::TermCursorNC => 14,
        HighlightName::ErrorMsg => 15,
        HighlightName::WinSeparator => 16,
        HighlightName::Folded => 17,
        HighlightName::FoldColumn => 18,
        HighlightName::SignColumn => 19,
        HighlightName::IncSearch => 20,
        HighlightName::Substitute => 21,
        HighlightName::LineNr => 22,
        HighlightName::LineNrAbove => 23,
        HighlightName::LineNrBelow => 24,
        HighlightName::CursorLineNr => 25,
        HighlightName::CursorLineFold => 26,
        HighlightName::CursorLineSign => 27,
        HighlightName::MatchParen => 28,
        HighlightName::ModeMsg => 29,
        HighlightName::MsgArea => 30,
        HighlightName::MsgSeparator => 31,
        HighlightName::MoreMsg => 32,
        HighlightName::NonText => 33,
        HighlightName::Normal => 34,
        HighlightName::NormalFloat => 35,
        HighlightName::FloatBorder => 36,
        HighlightName::FloatTitle => 37,
        HighlightName::NormalNC => 38,
        HighlightName::Pmenu => 39,
        HighlightName::PmenuSel => 40,
        HighlightName::PmenuKind => 41,
        HighlightName::PmenuKindSel => 42,
        HighlightName::PmenuExtra => 43,
        HighlightName::PmenuExtraSel => 44,
        HighlightName::PmenuSbar => 45,
        HighlightName::PmenuThumb => 46,
        HighlightName::Question => 47,
        HighlightName::QuickFixLine => 48,
        HighlightName::Search => 49,
        HighlightName::SpecialKey => 50,
        HighlightName::SpellBad => 51,
        HighlightName::SpellCap => 52,
        HighlightName::SpellLocal => 53,
        HighlightName::SpellRare => 54,
        HighlightName::StatusLine => 55,
        HighlightName::StatusLineNC => 56,
        HighlightName::TabLine => 57,
        HighlightName::TabLineFill => 58,
        HighlightName::TabLineSel => 59,
        HighlightName::Title => 60,
        HighlightName::Visual => 61,
        HighlightName::VisualNOS => 62,
        HighlightName::WarningMsg => 63,
        HighlightName::WhiteSpace => 64,
        HighlightName::WildMenu => 65,
        HighlightName::WinBar => 66,
        HighlightName::WinBarNC => 67,
        HighlightName::Boolean => 86,
        HighlightName::Character => 87,
        HighlightName::Comment => 88,
        HighlightName::Conditional => 89,
        HighlightName::Constant => 90,
        HighlightName::Debug => 91,
        HighlightName::Define => 92,
        HighlightName::Delimiter => 93,
        HighlightName::Error => 94,
        HighlightName::Exception => 95,
        HighlightName::Float => 96,
        HighlightName::Function => 97,
        HighlightName::Identifier => 98,
        HighlightName::Include => 99,
        HighlightName::Keyword => 100,
        HighlightName::Label => 101,
        HighlightName::Macro => 102,
        HighlightName::Number => 103,
        HighlightName::Operator => 104,
        HighlightName::PreCondit => 105,
        HighlightName::PreProc => 106,
        HighlightName::Repeat => 107,
        HighlightName::Special => 108,
        HighlightName::SpecialChar => 109,
        HighlightName::SpecialComment => 110,
        HighlightName::Statement => 111,
        HighlightName::StorageClass => 112,
        HighlightName::String => 113,
        HighlightName::Structure => 114,
        HighlightName::Tag => 115,
        HighlightName::Todo => 116,
        HighlightName::Type => 117,
        HighlightName::Typedef => 118,
        HighlightName::Underlined => 119,
        HighlightName::DiagnosticDeprecated => 132,
        HighlightName::DiagnosticUnnecessary => 133,
        HighlightName::MarkdownCode => 134,
        HighlightName::MarkdownCodeBlock => 135,
        HighlightName::MarkdownH1 => 136,
        HighlightName::MarkdownH2 => 137,
        HighlightName::MarkdownHeadingDelimiter => 138,
        HighlightName::MarkdownLinkText => 139,
        HighlightName::CmpItemAbbrMatch => 140,
        HighlightName::CmpItemAbbrMatchFuzzy => 141,
        HighlightName::TelescopeBorder => 160,
        HighlightName::TelescopeTitle => 161,
        HighlightName::Lsp(h) => match h.type_mod {
            LspTypeMod::Type(ty) => if h.lang == None::<Language> {
                68 + lsp_type_index(ty)
            } else {
                -1
            },
            _ => -1,
        },
        HighlightName::Diagnostic(d) => 120 + 3 * level_index(d.level) + ui_kind_index(d.kind),
        HighlightName::CmpItemKind(ty) => 142 + lsp_type_index(ty),
    }
}

/// Whether the catalogue holds a group of this name.
pub open spec fn in_catalogue(name: HighlightName) -> bool {
    0 <= catalogue_index(name) < CATALOGUE_LEN
}


/// Every entry of the catalogue sits at the position `catalogue_index` gives
/// its name; so no two entries share a name.
pub proof fn lemma_catalogue_index(i: int)
    requires
        0 <= i < CATALOGUE_LEN,
    ensures
        catalogue_index(catalogue_entry(i).0) == i,
{
    if 120 <= i < 132 {
        assert(i == 120 + 3 * ((i - 120) / 3) + (i - 120) % 3);
    }
}

/// Every group that an entry links to is itself in the catalogue, under its
/// own name.
pub proof fn lemma_link_target_present(i: int)
    requires
        0 <= i < CATALOGUE_LEN,
    ensures
        catalogue_entry(i).1 matches Rule::Link(target) ==> in_catalogue(target)
            && catalogue_entry(catalogue_index(target)).0 == target,
{
}

/// The derived families are complete: every severity with every way of
/// showing it, and every LSP token type with its completion-menu kind, has
/// its entry.
pub proof fn lemma_families_complete(level: DiagnosticLevel, kind: Option<DiagnosticUiKind>, ty: LspType)
    ensures
        in_catalogue(HighlightName::Diagnostic(Diagnostic { level, kind })),
        catalogue_entry(catalogue_index(HighlightName::Diagnostic(Diagnostic { level, kind }))).0
            == HighlightName::Diagnostic(Diagnostic { level, kind }),
        in_catalogue(HighlightName::of_type(ty)),
        catalogue_entry(catalogue_index(HighlightName::of_type(ty))).0 == HighlightName::of_type(ty),
        in_catalogue(HighlightName::CmpItemKind(ty)),
        catalogue_entry(catalogue_index(HighlightName::CmpItemKind(ty))).0 == HighlightName::CmpItemKind(ty),
{
    let i = catalogue_index(HighlightName::Diagnostic(Diagnostic { level, kind }));
    assert((i - 120) / 3 == level_index(level) && (i - 120) % 3 == ui_kind_index(kind));
}

/// Whether following the links from entry `i` reaches a style in at most
/// `fuel` steps.
pub open spec fn settles(i: int, fuel: nat) -> bool
    decreases fuel,
{
    match catalogue_entry(i).1 {
        Rule::Style(_) => true,
        Rule::Link(target) => fuel > 0 && settles(catalogue_index(target), (fuel - 1) as nat),
    }
}

/// The links of the catalogue form no cycle: from every entry, at most two
/// links lead to a style.
pub proof fn lemma_links_settle(i: int)
    requires
        0 <= i < CATALOGUE_LEN,
    ensures
        settles(i, 2),
{
    reveal_with_fuel(settles, 3);
}

fn editor_rule(k: usize) -> (r: (HighlightName, Rule))
    requires
        k < 68,
    ensures
        r == editor_entry(k),
{
    match k {
        0 => (HighlightName::ColorColumn, colors(None, category(Category::ColumnGuide))),
        1 => (HighlightName::Conceal, colors(None, None)),
        2 => (HighlightName::CurSearch, colors(category(Category::Search), category(Category::ActiveSearchMatch))),
        3 => (HighlightName::Cursor, reverse_video()),
        4 => (HighlightName::CursorIM, Rule::Link(HighlightName::Cursor)),
        5 => (HighlightName::CursorColumn, colors(None, None)),
        6 => (HighlightName::CursorLine, colors(None, category(Category::CursorLine))),
        7 => (HighlightName::Directory, colors(None, None)),
        8 => (HighlightName::DiffAdd, colors(None, category(Category::DiffAdd))),
        9 => (HighlightName::DiffChange, colors(None, category(Category::DiffChange))),
        10 => (HighlightName::DiffDelete, colors(None, category(Category::DiffDelete))),
        11 => (HighlightName::DiffText, colors(None, category(Category::DiffText))),
        12 => (HighlightName::EndOfBuffer, Rule::Link(HighlightName::NonText)),
        13 => (HighlightName::TermCursor, colors(None, category(Category::TermCursor))),
        14 => (HighlightName::TermCursorNC, colors(None, category(Category::UnfocusedTermCursor))),
        15 => (HighlightName::ErrorMsg, colors(level(DiagnosticLevel::Error), None)),
        16 => (HighlightName::WinSeparator, colors(shaded(Category::Normal, Shade::Darken(950)), None)),
        17 => (HighlightName::Folded, colors(None, category(Category::Folded))),
        18 => (HighlightName::FoldColumn, colors(None, None)),
        19 => (HighlightName::SignColumn, colors(None, None)),
        20 => (HighlightName::IncSearch, Rule::Link(HighlightName::CurSearch)),
        21 => (HighlightName::Substitute, Rule::Link(HighlightName::IncSearch)),
        22 => (HighlightName::LineNr, colors(category(Category::LineNumber), None)),
        23 => (HighlightName::LineNrAbove, Rule::Link(HighlightName::LineNr)),
        24 => (HighlightName::LineNrBelow, Rule::Link(HighlightName::LineNr)),
        25 => (HighlightName::CursorLineNr, colors(category(Category::CursorLineNumber), None)),
        26 => (HighlightName::CursorLineFold, Rule::Link(HighlightName::FoldColumn)),
        27 => (HighlightName::CursorLineSign, Rule::Link(HighlightName::SignColumn)),
        28 => (HighlightName::MatchParen, colors(category(Category::MatchedBracket), None)),
        29 => (HighlightName::ModeMsg, colors(category(Category::ModeMessage), None)),
        30 => (HighlightName::MsgArea, colors(None, None)),
        31 => (HighlightName::MsgSeparator, colors(category(Category::MessageSeparator), None)),
        32 => (HighlightName::MoreMsg, Rule::Link(HighlightName::ModeMsg)),
        33 => (HighlightName::NonText, colors(category(Category::NonText), None)),
        34 => (HighlightName::Normal, colors(category(Category::Normal), category(Category::NormalBackground))),
        35 => (HighlightName::NormalFloat, colors(None, None)),
        36 => (HighlightName::FloatBorder, Rule::Link(HighlightName::WinSeparator)),
        37 => (HighlightName::FloatTitle, Rule::Link(HighlightName::Title)),
        38 => (HighlightName::NormalNC, colors(None, None)),
        39 => (HighlightName::Pmenu, colors(None, None)),
        40 => (HighlightName::PmenuSel, Rule::Link(HighlightName::Visual)),
        41 => (HighlightName::PmenuKind, colors(None, None)),
        42 => (HighlightName::PmenuKindSel, Rule::Link(HighlightName::Visual)),
        43 => (HighlightName::PmenuExtra, colors(None, None)),
        44 => (HighlightName::PmenuExtraSel, Rule::Link(HighlightName::Visual)),
        45 => (HighlightName::PmenuSbar, colors(shaded(Category::NormalBackground, Shade::Lighten(100)), None)),
        46 => (HighlightName::PmenuThumb, Rule::Link(HighlightName::Pmenu)),
        47 => (HighlightName::Question, colors(category(Category::Question), None)),
        48 => (HighlightName::QuickFixLine, colors(None, None)),
        49 => (HighlightName::Search, colors(category(Category::Search), category(Category::SearchMatch))),
        50 => (HighlightName::SpecialKey, colors(category(Category::Special), None)),
        51 => (HighlightName::SpellBad, colors(category(Category::BadSpelling), None)),
        52 => (HighlightName::SpellCap, Rule::Link(HighlightName::SpellBad)),
        53 => (HighlightName::SpellLocal, Rule::Link(HighlightName::SpellBad)),
        54 => (HighlightName::SpellRare, Rule::Link(HighlightName::SpellBad)),
        55 => (HighlightName::StatusLine, colors(None, category(Category::StatusLine))),
        56 => (HighlightName::StatusLineNC, colors(None, shaded(Category::StatusLine, Shade::Darken(500)))),
        57 => (HighlightName::TabLine, colors(category(Category::InactiveTab), category(Category::InactiveTabBackground))),
        58 => (HighlightName::TabLineFill, colors(None, None)),
        59 => (HighlightName::TabLineSel, colors(category(Category::ActiveTab), category(Category::ActiveTabBackground))),
        60 => (HighlightName::Title, Rule::Link(HighlightName::TabLineSel)),
        61 => (HighlightName::Visual, colors(None, category(Category::Selection))),
        62 => (HighlightName::VisualNOS, Rule::Link(HighlightName::Visual)),
        63 => (HighlightName::WarningMsg, colors(level(DiagnosticLevel::Warning), None)),
        64 => (HighlightName::WhiteSpace, colors(category(Category::Whitespace), None)),
        65 => (HighlightName::WildMenu, Rule::Link(HighlightName::PmenuSel)),
        66 => (HighlightName::WinBar, Rule::Link(HighlightName::TabLineSel)),
        67 => (HighlightName::WinBarNC, Rule::Link(HighlightName::TabLine)),
        _ => unreached(),
    }
}

fn syntax_rule(k: usize) -> (r: (HighlightName, Rule))
    requires
        k < 34,
    ensures
        r == syntax_entry(k),
{
    match k {
        0 => (HighlightName::Boolean, colors(token(Token::Boolean), None)),
        1 => (HighlightName::Character, colors(token(Token::Character), None)),
        2 => (HighlightName::Comment, colors(token(Token::Comment), None)),
        3 => (HighlightName::Conditional, Rule::Link(HighlightName::Keyword)),
        4 => (HighlightName::Constant, colors(token(Token::Constant), None)),
        5 => (HighlightName::Debug, colors(None, None)),
        6 => (HighlightName::Define, Rule::Link(HighlightName::Macro)),
        7 => (HighlightName::Delimiter, colors(token(Token::Delimiter), None)),
        8 => (HighlightName::Error, colors(level(DiagnosticLevel::Error), None)),
        9 => (HighlightName::Exception, Rule::Link(HighlightName::Keyword)),
        10 => (HighlightName::Float, colors(token(Token::Float), None)),
        11 => (HighlightName::Function, colors(token(Token::Function), None)),
        12 => (HighlightName::Identifier, colors(token(Token::Identifier), None)),
        13 => (HighlightName::Include, colors(token(Token::Module), None)),
        14 => (HighlightName::Keyword, colors(token(Token::Keyword), None)),
        15 => (HighlightName::Label, Rule::Link(HighlightName::Keyword)),
        16 => (HighlightName::Macro, colors(token(Token::Macro), None)),
        17 => (HighlightName::Number, colors(token(Token::Integer), None)),
        18 => (HighlightName::Operator, colors(token(Token::Operator), None)),
        19 => (HighlightName::PreCondit, Rule::Link(HighlightName::Macro)),
        20 => (HighlightName::PreProc, Rule::Link(HighlightName::Macro)),
        21 => (HighlightName::Repeat, Rule::Link(HighlightName::Keyword)),
        22 => (HighlightName::Special, Rule::Link(HighlightName::SpecialChar)),
        23 => (HighlightName::SpecialChar, colors(category(Category::Special), None)),
        24 => (HighlightName::SpecialComment, Rule::Link(HighlightName::Comment)),
        25 => (HighlightName::Statement, Rule::Link(HighlightName::Keyword)),
        26 => (HighlightName::StorageClass, Rule::Link(HighlightName::Keyword)),
        27 => (HighlightName::String, colors(token(Token::String), None)),
        28 => (HighlightName::Structure, Rule::Link(HighlightName::Type)),
        29 => (HighlightName::Tag, colors(token(Token::Tag), None)),
        30 => (HighlightName::Todo, colors(token(Token::Todo), None)),
        31 => (HighlightName::Type, colors(token(Token::Type), None)),
        32 => (HighlightName::Typedef, Rule::Link(HighlightName::Type)),
        33 => (HighlightName::Underlined, colors(token(Token::Link), None)),
        _ => unreached(),
    }
}

fn extra_rule(k: usize) -> (r: (HighlightName, Rule))
    requires
        k < 10,
    ensures
        r == extra_entry(k),
{
    match k {
        0 => (HighlightName::DiagnosticDeprecated, colors(None, None)),
        1 => (HighlightName::DiagnosticUnnecessary, colors(None, None)),
        2 => (HighlightName::MarkdownCode, colors(token(Token::Identifier), None)),
        3 => (HighlightName::MarkdownCodeBlock, colors(token(Token::String), None)),
        4 => (HighlightName::MarkdownH1, colors(token(Token::Module), None)),
        5 => (HighlightName::MarkdownH2, Rule::Link(HighlightName::MarkdownH1)),
        6 => (HighlightName::MarkdownHeadingDelimiter, Rule::Link(HighlightName::Delimiter)),
        7 => (HighlightName::MarkdownLinkText, colors(token(Token::Link), None)),
        8 => (HighlightName::CmpItemAbbrMatch, Rule::Link(HighlightName::Special)),
        9 => (HighlightName::CmpItemAbbrMatchFuzzy, Rule::Link(HighlightName::Special)),
        _ => unreached(),
    }
}

fn finder_rule(k: usize) -> (r: (HighlightName, Rule))
    requires
        k < 2,
    ensures
        r == finder_entry(k),
{
    match k {
        0 => (HighlightName::TelescopeBorder, Rule::Link(HighlightName::FloatBorder)),
        1 => (HighlightName::TelescopeTitle, Rule::Link(HighlightName::Title)),
        _ => unreached(),
    }
}

fn lsp_type_of(k: usize) -> (r: LspType)
    requires
        k < 18,
    ensures
        r == lsp_type_at(k),
{
    match k {
        0 => LspType::Class,
        1 => LspType::Decorator,
        2 => LspType::Derive,
        3 => LspType::Enum,
        4 => LspType::EnumMember,
        5 => LspType::Function,
        6 => LspType::Interface,
        7 => LspType::Keyword,
        8 => LspType::Macro,
        9 => LspType::Method,
        10 => LspType::Namespace,
        11 => LspType::Parameter,
        12 => LspType::Property,
        13 => LspType::Struct,
        14 => LspType::Type,
        15 => LspType::TypeAlias,
        16 => LspType::TypeParameter,
        17 => LspType::Variable,
        _ => unreached(),
    }
}

fn lsp_token_of(ty: LspType) -> (r: Token)
    ensures
        r == lsp_token(ty),
{
    match ty {
        LspType::Class => Token::Type,
        LspType::Decorator => Token::Attribute,
        LspType::Derive => Token::Interface,
        LspType::Enum => Token::Enum,
        LspType::EnumMember => Token::Variant,
        LspType::Function => Token::Function,
        LspType::Interface => Token::Interface,
        LspType::Keyword => Token::Keyword,
        LspType::Macro => Token::Macro,
        LspType::Method => Token::Function,
        LspType::Namespace => Token::Module,
        LspType::Parameter => Token::Parameter,
        LspType::Property => Token::Field,
        LspType::Struct => Token::Type,
        LspType::Type => Token::Type,
        LspType::TypeAlias => Token::Type,
        LspType::TypeParameter => Token::TypeParameter,
        LspType::Variable => Token::Variable,
    }
}

fn level_of_index(k: usize) -> (r: DiagnosticLevel)
    ensures
        r == level_at(k as int),
{
    if k == 0 {
        DiagnosticLevel::Error
    } else if k == 1 {
        DiagnosticLevel::Warning
    } else if k == 2 {
        DiagnosticLevel::Info
    } else {
        DiagnosticLevel::Hint
    }
}

fn ui_kind_of_index(k: usize) -> (r: Option<DiagnosticUiKind>)
    ensures
        r == ui_kind_at(k as int),
{
    if k == 0 {
        None
    } else if k == 1 {
        Some(DiagnosticUiKind::VirtualText)
    } else {
        Some(DiagnosticUiKind::Underline)
    }
}

fn foreground_of(source: Source) -> (r: Rule)
    ensures
        r == foreground_rule(source),
{
    Rule::Style(
        Recipe {
            foreground: Some(Paint::Plain(source)),
            background: None,
            special: None,
            underline: None,
            reversed: false,
        },
    )
}

fn diagnostic_rule_of(level: DiagnosticLevel, kind: Option<DiagnosticUiKind>) -> (r: Rule)
    ensures
        r == diagnostic_rule(level, kind),
{
    let color = Source::Level(level);
    match kind {
        None => foreground_of(color),
        Some(DiagnosticUiKind::Underline) => Rule::Style(
            Recipe {
                foreground: None,
                background: None,
                special: Some(Paint::Plain(color)),
                underline: Some(crate::style::UnderlineStyle::Curly),
                reversed: false,
            },
        ),
        Some(DiagnosticUiKind::VirtualText) => Rule::Style(
            Recipe {
                foreground: Some(Paint::Plain(color)),
                background: Some(Paint::Shaded(color, Shade::Darken(950))),
                special: None,
                underline: None,
                reversed: false,
            },
        ),
    }
}

/// Entry `i` of the catalogue.
pub fn catalogue_rule(i: usize) -> (r: (HighlightName, Rule))
    requires
        i < CATALOGUE_LEN,
    ensures
        r == catalogue_entry(i as int),
{
    if i < 68 {
        editor_rule(i)
    } else if i < 86 {
        let ty = lsp_type_of(i - 68);
        (HighlightName::from_type(ty), foreground_of(Source::Token(lsp_token_of(ty))))
    } else if i < 120 {
        syntax_rule(i - 86)
    } else if i < 132 {
        let level = level_of_index((i - 120) / 3);
        let kind = ui_kind_of_index((i - 120) % 3);
        (HighlightName::Diagnostic(Diagnostic { level, kind }), diagnostic_rule_of(level, kind))
    } else if i < 142 {
        extra_rule(i - 132)
    } else if i < 160 {
        let ty = lsp_type_of(i - 142);
        (HighlightName::CmpItemKind(ty), Rule::Link(HighlightName::from_type(ty)))
    } else {
        finder_rule(i - 160)
    }
}

} // verus!
