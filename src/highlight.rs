use crate::category::DiagnosticLevel;
use heck::ToUpperCamelCase;
use vstd::prelude::*;

verus! {

/// The identity of a highlight group. Two names are equal when their
/// structure is; the text of a name is only made when it is written out.
#[derive(Clone, Copy, Debug, PartialEq, Eq, Hash, Structural)]
pub enum HighlightName {
    // Built into Neovim
    ColorColumn,
    Conceal,
    CurSearch,
    Cursor,
    CursorIM,
    CursorColumn,
    CursorLine,
    Directory,
    DiffAdd,
    DiffChange,
    DiffDelete,
    DiffText,
    EndOfBuffer,
    TermCursor,
    TermCursorNC,
    ErrorMsg,
    WinSeparator,
    Folded,
    FoldColumn,
    SignColumn,
    IncSearch,
    Substitute,
    LineNr,
    LineNrAbove,
    LineNrBelow,
    CursorLineNr,
    CursorLineFold,
    CursorLineSign,
    MatchParen,
    ModeMsg,
    MsgArea,
    MsgSeparator,
    MoreMsg,
    NonText,
    Normal,
    NormalFloat,
    FloatBorder,
    FloatTitle,
    NormalNC,
    Pmenu,
    PmenuSel,
    PmenuKind,
    PmenuKindSel,
    PmenuExtra,
    PmenuExtraSel,
    PmenuSbar,
    PmenuThumb,
    Question,
    QuickFixLine,
    Search,
    SpecialKey,
    SpellBad,
    SpellCap,
    SpellLocal,
    SpellRare,
    StatusLine,
    StatusLineNC,
    TabLine,
    TabLineFill,
    TabLineSel,
    Title,
    Visual,
    VisualNOS,
    WarningMsg,
    WhiteSpace,
    WildMenu,
    WinBar,
    WinBarNC,
    Lsp(LspHighlightName),
    Boolean,
    Character,
    Comment,
    Conditional,
    Constant,
    Debug,
    Define,
    Delimiter,
    Error,
    Exception,
    Float,
    Function,
    Identifier,
    Include,
    Keyword,
    Label,
    Macro,
    Number,
    Operator,
    PreCondit,
    PreProc,
    Repeat,
    Special,
    SpecialChar,
    SpecialComment,
    Statement,
    StorageClass,
    String,
    Structure,
    Tag,
    Todo,
    Type,
    Typedef,
    Underlined,
    // Diagnostics
    Diagnostic(Diagnostic),
    DiagnosticDeprecated,
    DiagnosticUnnecessary,
    // Markdown
    MarkdownCode,
    MarkdownCodeBlock,
    MarkdownH1,
    MarkdownH2,
    MarkdownHeadingDelimiter,
    MarkdownLinkText,
    // nvim-cmp
    CmpItemAbbrMatch,
    CmpItemAbbrMatchFuzzy,
    CmpItemKind(LspType),
    // Telescope
    TelescopeBorder,
    TelescopeTitle,
}

/// What heck's upper camel case makes of a text.
pub uninterp spec fn upper_camel_of(s: Seq<char>) -> Seq<char>;

/// Relies on heck's `ToUpperCamelCase` for `str`: words are split at case
/// changes and separators and joined with their first letters capitalised.
/// The result depends on the characters of `s` alone.
#[verifier::external_body]
fn upper_camel_case(s: &str) -> (r: String)
    ensures
        r@ == upper_camel_of(s@),
{
    s.to_upper_camel_case()
}

/// The completion-menu group of a token type whose name, in upper camel case,
/// is `camel`.
pub fn completion_kind_name(camel: &str) -> (r: String)
    ensures
        r@ == "CmpItemKind"@ + camel@,
{
    let mut s = String::from_str("CmpItemKind");
    s.append(camel);
    s
}

impl HighlightName {
    /// The name under which the editor knows the group.
    pub open spec fn rendered(self) -> Seq<char> {
        match self {
            HighlightName::ColorColumn => "ColorColumn"@,
            HighlightName::Conceal => "Conceal"@,
            HighlightName::CurSearch => "CurSearch"@,
            HighlightName::Cursor => "Cursor"@,
            HighlightName::CursorIM => "CursorIM"@,
            HighlightName::CursorColumn => "CursorColumn"@,
            HighlightName::CursorLine => "CursorLine"@,
            HighlightName::Directory => "Directory"@,
            HighlightName::DiffAdd => "DiffAdd"@,
            HighlightName::DiffChange => "DiffChange"@,
            HighlightName::DiffDelete => "DiffDelete"@,
            HighlightName::DiffText => "DiffText"@,
            HighlightName::EndOfBuffer => "EndOfBuffer"@,
            HighlightName::TermCursor => "TermCursor"@,
            HighlightName::TermCursorNC => "TermCursorNC"@,
            HighlightName::ErrorMsg => "ErrorMsg"@,
            HighlightName::WinSeparator => "WinSeparator"@,
            HighlightName::Folded => "Folded"@,
            HighlightName::FoldColumn => "FoldColumn"@,
            HighlightName::SignColumn => "SignColumn"@,
            HighlightName::IncSearch => "IncSearch"@,
            HighlightName::Substitute => "Substitute"@,
            HighlightName::LineNr => "LineNr"@,
            HighlightName::LineNrAbove => "LineNrAbove"@,
            HighlightName::LineNrBelow => "LineNrBelow"@,
            HighlightName::CursorLineNr => "CursorLineNr"@,
            HighlightName::CursorLineFold => "CursorLineFold"@,
            HighlightName::CursorLineSign => "CursorLineSign"@,
            HighlightName::MatchParen => "MatchParen"@,
            HighlightName::ModeMsg => "ModeMsg"@,
            HighlightName::MsgArea => "MsgArea"@,
            HighlightName::MsgSeparator => "MsgSeparator"@,
            HighlightName::MoreMsg => "MoreMsg"@,
            HighlightName::NonText => "NonText"@,
            HighlightName::Normal => "Normal"@,
            HighlightName::NormalFloat => "NormalFloat"@,
            HighlightName::FloatBorder => "FloatBorder"@,
            HighlightName::FloatTitle => "FloatTitle"@,
            HighlightName::NormalNC => "NormalNC"@,
            HighlightName::Pmenu => "Pmenu"@,
            HighlightName::PmenuSel => "PmenuSel"@,
            HighlightName::PmenuKind => "PmenuKind"@,
            HighlightName::PmenuKindSel => "PmenuKindSel"@,
            HighlightName::PmenuExtra => "PmenuExtra"@,
            HighlightName::PmenuExtraSel => "PmenuExtraSel"@,
            HighlightName::PmenuSbar => "PmenuSbar"@,
            HighlightName::PmenuThumb => "PmenuThumb"@,
            HighlightName::Question => "Question"@,
            HighlightName::QuickFixLine => "QuickFixLine"@,
            HighlightName::Search => "Search"@,
            HighlightName::SpecialKey => "SpecialKey"@,
            HighlightName::SpellBad => "SpellBad"@,
            HighlightName::SpellCap => "SpellCap"@,
            HighlightName::SpellLocal => "SpellLocal"@,
            HighlightName::SpellRare => "SpellRare"@,
            HighlightName::StatusLine => "StatusLine"@,
            HighlightName::StatusLineNC => "StatusLineNC"@,
            HighlightName::TabLine => "TabLine"@,
            HighlightName::TabLineFill => "TabLineFill"@,
            HighlightName::TabLineSel => "TabLineSel"@,
            HighlightName::Title => "Title"@,
            HighlightName::Visual => "Visual"@,
            HighlightName::VisualNOS => "VisualNOS"@,
            HighlightName::WarningMsg => "WarningMsg"@,
            HighlightName::WhiteSpace => "WhiteSpace"@,
            HighlightName::WildMenu => "WildMenu"@,
            HighlightName::WinBar => "WinBar"@,
            HighlightName::WinBarNC => "WinBarNC"@,
            HighlightName::Boolean => "Boolean"@,
            HighlightName::Character => "Character"@,
            HighlightName::Comment => "Comment"@,
            HighlightName::Conditional => "Conditional"@,
            HighlightName::Constant => "Constant"@,
            HighlightName::Debug => "Debug"@,
            HighlightName::Define => "Define"@,
            HighlightName::Delimiter => "Delimiter"@,
            HighlightName::Error => "Error"@,
            HighlightName::Exception => "Exception"@,
            HighlightName::Float => "Float"@,
            HighlightName::Function => "Function"@,
            HighlightName::Identifier => "Identifier"@,
            HighlightName::Include => "Include"@,
            HighlightName::Keyword => "Keyword"@,
            HighlightName::Label => "Label"@,
            HighlightName::Macro => "Macro"@,
            HighlightName::Number => "Number"@,
            HighlightName::Operator => "Operator"@,
            HighlightName::PreCondit => "PreCondit"@,
            HighlightName::PreProc => "PreProc"@,
            HighlightName::Repeat => "Repeat"@,
            HighlightName::Special => "Special"@,
            HighlightName::SpecialChar => "SpecialChar"@,
            HighlightName::SpecialComment => "SpecialComment"@,
            HighlightName::Statement => "Statement"@,
            HighlightName::StorageClass => "StorageClass"@,
            HighlightName::String => "String"@,
            HighlightName::Structure => "Structure"@,
            HighlightName::Tag => "Tag"@,
            HighlightName::Todo => "Todo"@,
            HighlightName::Type => "Type"@,
            HighlightName::Typedef => "Typedef"@,
            HighlightName::Underlined => "Underlined"@,
            HighlightName::DiagnosticDeprecated => "DiagnosticDeprecated"@,
            HighlightName::DiagnosticUnnecessary => "DiagnosticUnnecessary"@,
            HighlightName::TelescopeBorder => "TelescopeBorder"@,
            HighlightName::TelescopeTitle => "TelescopeTitle"@,
            HighlightName::CmpItemAbbrMatch => "CmpItemAbbrMatch"@,
            HighlightName::CmpItemAbbrMatchFuzzy => "CmpItemAbbrMatchFuzzy"@,
            HighlightName::MarkdownCode => "markdownCode"@,
            HighlightName::MarkdownCodeBlock => "markdownCodeBlock"@,
            HighlightName::MarkdownH1 => "markdownH1"@,
            HighlightName::MarkdownH2 => "markdownH2"@,
            HighlightName::MarkdownHeadingDelimiter => "markdownHeadingDelimiter"@,
            HighlightName::MarkdownLinkText => "markdownLinkText"@,
            HighlightName::Lsp(h) => h.rendered(),
            HighlightName::Diagnostic(d) => d.rendered(),
            HighlightName::CmpItemKind(k) => "CmpItemKind"@ + upper_camel_of(k.rendered()),
        }
    }

    pub fn to_string(&self) -> (r: String)
        ensures
            r@ == self.rendered(),
    {
        match self {
            HighlightName::ColorColumn => String::from_str("ColorColumn"),
            HighlightName::Conceal => String::from_str("Conceal"),
            HighlightName::CurSearch => String::from_str("CurSearch"),
            HighlightName::Cursor => String::from_str("Cursor"),
            HighlightName::CursorIM => String::from_str("CursorIM"),
            HighlightName::CursorColumn => String::from_str("CursorColumn"),
            HighlightName::CursorLine => String::from_str("CursorLine"),
            HighlightName::Directory => String::from_str("Directory"),
            HighlightName::DiffAdd => String::from_str("DiffAdd"),
            HighlightName::DiffChange => String::from_str("DiffChange"),
            HighlightName::DiffDelete => String::from_str("DiffDelete"),
            HighlightName::DiffText => String::from_str("DiffText"),
            HighlightName::EndOfBuffer => String::from_str("EndOfBuffer"),
            HighlightName::TermCursor => String::from_str("TermCursor"),
            HighlightName::TermCursorNC => String::from_str("TermCursorNC"),
            HighlightName::ErrorMsg => String::from_str("ErrorMsg"),
            HighlightName::WinSeparator => String::from_str("WinSeparator"),
            HighlightName::Folded => String::from_str("Folded"),
            HighlightName::FoldColumn => String::from_str("FoldColumn"),
            HighlightName::SignColumn => String::from_str("SignColumn"),
            HighlightName::IncSearch => String::from_str("IncSearch"),
            HighlightName::Substitute => String::from_str("Substitute"),
            HighlightName::LineNr => String::from_str("LineNr"),
            HighlightName::LineNrAbove => String::from_str("LineNrAbove"),
            HighlightName::LineNrBelow => String::from_str("LineNrBelow"),
            HighlightName::CursorLineNr => String::from_str("CursorLineNr"),
            HighlightName::CursorLineFold => String::from_str("CursorLineFold"),
            HighlightName::CursorLineSign => String::from_str("CursorLineSign"),
            HighlightName::MatchParen => String::from_str("MatchParen"),
            HighlightName::ModeMsg => String::from_str("ModeMsg"),
            HighlightName::MsgArea => String::from_str("MsgArea"),
            HighlightName::MsgSeparator => String::from_str("MsgSeparator"),
            HighlightName::MoreMsg => String::from_str("MoreMsg"),
            HighlightName::NonText => String::from_str("NonText"),
            HighlightName::Normal => String::from_str("Normal"),
            HighlightName::NormalFloat => String::from_str("NormalFloat"),
            HighlightName::FloatBorder => String::from_str("FloatBorder"),
            HighlightName::FloatTitle => String::from_str("FloatTitle"),
            HighlightName::NormalNC => String::from_str("NormalNC"),
            HighlightName::Pmenu => String::from_str("Pmenu"),
            HighlightName::PmenuSel => String::from_str("PmenuSel"),
            HighlightName::PmenuKind => String::from_str("PmenuKind"),
            HighlightName::PmenuKindSel => String::from_str("PmenuKindSel"),
            HighlightName::PmenuExtra => String::from_str("PmenuExtra"),
            HighlightName::PmenuExtraSel => String::from_str("PmenuExtraSel"),
            HighlightName::PmenuSbar => String::from_str("PmenuSbar"),
            HighlightName::PmenuThumb => String::from_str("PmenuThumb"),
            HighlightName::Question => String::from_str("Question"),
            HighlightName::QuickFixLine => String::from_str("QuickFixLine"),
            HighlightName::Search => String::from_str("Search"),
            HighlightName::SpecialKey => String::from_str("SpecialKey"),
            HighlightName::SpellBad => String::from_str("SpellBad"),
            HighlightName::SpellCap => String::from_str("SpellCap"),
            HighlightName::SpellLocal => String::from_str("SpellLocal"),
            HighlightName::SpellRare => String::from_str("SpellRare"),
            HighlightName::StatusLine => String::from_str("StatusLine"),
            HighlightName::StatusLineNC => String::from_str("StatusLineNC"),
            HighlightName::TabLine => String::from_str("TabLine"),
            HighlightName::TabLineFill => String::from_str("TabLineFill"),
            HighlightName::TabLineSel => String::from_str("TabLineSel"),
            HighlightName::Title => String::from_str("Title"),
            HighlightName::Visual => String::from_str("Visual"),
            HighlightName::VisualNOS => String::from_str("VisualNOS"),
            HighlightName::WarningMsg => String::from_str("WarningMsg"),
            HighlightName::WhiteSpace => String::from_str("WhiteSpace"),
            HighlightName::WildMenu => String::from_str("WildMenu"),
            HighlightName::WinBar => String::from_str("WinBar"),
            HighlightName::WinBarNC => String::from_str("WinBarNC"),
            HighlightName::Boolean => String::from_str("Boolean"),
            HighlightName::Character => String::from_str("Character"),
            HighlightName::Comment => String::from_str("Comment"),
            HighlightName::Conditional => String::from_str("Conditional"),
            HighlightName::Constant => String::from_str("Constant"),
            HighlightName::Debug => String::from_str("Debug"),
            HighlightName::Define => String::from_str("Define"),
            HighlightName::Delimiter => String::from_str("Delimiter"),
            HighlightName::Error => String::from_str("Error"),
            HighlightName::Exception => String::from_str("Exception"),
            HighlightName::Float => String::from_str("Float"),
            HighlightName::Function => String::from_str("Function"),
            HighlightName::Identifier => String::from_str("Identifier"),
            HighlightName::Include => String::from_str("Include"),
            HighlightName::Keyword => String::from_str("Keyword"),
            HighlightName::Label => String::from_str("Label"),
            HighlightName::Macro => String::from_str("Macro"),
            HighlightName::Number => String::from_str("Number"),
            HighlightName::Operator => String::from_str("Operator"),
            HighlightName::PreCondit => String::from_str("PreCondit"),
            HighlightName::PreProc => String::from_str("PreProc"),
            HighlightName::Repeat => String::from_str("Repeat"),
            HighlightName::Special => String::from_str("Special"),
            HighlightName::SpecialChar => String::from_str("SpecialChar"),
            HighlightName::SpecialComment => String::from_str("SpecialComment"),
            HighlightName::Statement => String::from_str("Statement"),
            HighlightName::StorageClass => String::from_str("StorageClass"),
            HighlightName::String => String::from_str("String"),
            HighlightName::Structure => String::from_str("Structure"),
            HighlightName::Tag => String::from_str("Tag"),
            HighlightName::Todo => String::from_str("Todo"),
            HighlightName::Type => String::from_str("Type"),
            HighlightName::Typedef => String::from_str("Typedef"),
            HighlightName::Underlined => String::from_str("Underlined"),
            HighlightName::DiagnosticDeprecated => String::from_str("DiagnosticDeprecated"),
            HighlightName::DiagnosticUnnecessary => String::from_str("DiagnosticUnnecessary"),
            HighlightName::TelescopeBorder => String::from_str("TelescopeBorder"),
            HighlightName::TelescopeTitle => String::from_str("TelescopeTitle"),
            HighlightName::CmpItemAbbrMatch => String::from_str("CmpItemAbbrMatch"),
            HighlightName::CmpItemAbbrMatchFuzzy => String::from_str("CmpItemAbbrMatchFuzzy"),
            HighlightName::MarkdownCode => String::from_str("markdownCode"),
            HighlightName::MarkdownCodeBlock => String::from_str("markdownCodeBlock"),
            HighlightName::MarkdownH1 => String::from_str("markdownH1"),
            HighlightName::MarkdownH2 => String::from_str("markdownH2"),
            HighlightName::MarkdownHeadingDelimiter => String::from_str("markdownHeadingDelimiter"),
            HighlightName::MarkdownLinkText => String::from_str("markdownLinkText"),
            HighlightName::Lsp(h) => h.to_string(),
            HighlightName::Diagnostic(d) => d.to_string(),
            HighlightName::CmpItemKind(k) => {
                let camel = upper_camel_case(k.to_string().as_str());
                completion_kind_name(camel.as_str())
            },
        }
    }

    /// The semantic-token group of an LSP token type, for every language.
    pub open spec fn of_type(ty: LspType) -> HighlightName {
        HighlightName::Lsp(LspHighlightName { type_mod: LspTypeMod::Type(ty), lang: None })
    }

    pub fn from_type(ty: LspType) -> (r: HighlightName)
        ensures
            r == HighlightName::of_type(ty),
    {
        HighlightName::Lsp(LspHighlightName { type_mod: LspTypeMod::Type(ty), lang: None })
    }
}

/// A semantic-token group: a token type or modifier, for all languages or for one.
#[derive(Clone, Copy, Debug, PartialEq, Eq, Hash, Structural)]
pub struct LspHighlightName {
    pub type_mod: LspTypeMod,
    pub lang: Option<Language>,
}

impl LspHighlightName {
    pub open spec fn rendered(self) -> Seq<char> {
        "@lsp."@ + self.type_mod.rendered() + match self.lang {
            Some(lang) => "."@ + lang.rendered(),
            None => Seq::empty(),
        }
    }

    pub fn to_string(&self) -> (r: String)
        ensures
            r@ == self.rendered(),
    {
        let mut s = String::from_str("@lsp.");
        let type_mod = self.type_mod.to_string();
        s.append(type_mod.as_str());
        match self.lang {
            Some(lang) => {
                s.append(".");
                let lang = lang.to_string();
                s.append(lang.as_str());
            },
            None => {},
        }
        s
    }
}

/// The selector of a semantic-token group.
#[derive(Clone, Copy, Debug, PartialEq, Eq, Hash, Structural)]
pub enum LspTypeMod {
    Type(LspType),
    Modifier(LspModifier),
    Both(LspType, LspModifier),
}

impl LspTypeMod {
    pub open spec fn rendered(self) -> Seq<char> {
        match self {
            LspTypeMod::Type(ty) => "type."@ + ty.rendered(),
            LspTypeMod::Modifier(m) => "mod."@ + m.rendered(),
            LspTypeMod::Both(ty, m) => "typemod."@ + ty.rendered() + "."@ + m.rendered(),
        }
    }

    pub fn to_string(&self) -> (r: String)
        ensures
            r@ == self.rendered(),
    {
        match self {
            LspTypeMod::Type(ty) => {
                let mut s = String::from_str("type.");
                s.append(ty.to_string().as_str());
                s
            },
            LspTypeMod::Modifier(m) => {
                let mut s = String::from_str("mod.");
                s.append(m.to_string().as_str());
                s
            },
            LspTypeMod::Both(ty, m) => {
                let mut s = String::from_str("typemod.");
                s.append(ty.to_string().as_str());
                s.append(".");
                s.append(m.to_string().as_str());
                s
            },
        }
    }
}

/// A language that semantic-token groups can be restricted to.
#[derive(Clone, Copy, Debug, PartialEq, Eq, Hash, Structural)]
pub enum Language {
    Rust,
}

impl Language {
    pub open spec fn rendered(self) -> Seq<char> {
        match self {
            Language::Rust => "rust"@,
        }
    }

    pub fn to_string(&self) -> (r: String)
        ensures
            r@ == self.rendered(),
    {
        match self {
            Language::Rust => String::from_str("rust"),
        }
    }
}

/// An LSP semantic token type.
#[derive(Clone, Copy, Debug, PartialEq, Eq, Hash, Structural)]
pub enum LspType {
    Class,
    Decorator,
    Derive,
    Enum,
    EnumMember,
    Function,
    Interface,
    Keyword,
    Macro,
    Method,
    Namespace,
    Parameter,
    Property,
    Struct,
    Type,
    TypeAlias,
    TypeParameter,
    Variable,
}

impl LspType {
    pub open spec fn rendered(self) -> Seq<char> {
        match self {
            LspType::Class => "class"@,
            LspType::Decorator => "decorator"@,
            LspType::Derive => "derive"@,
            LspType::Enum => "enum"@,
            LspType::EnumMember => "enumMember"@,
            LspType::Function => "function"@,
            LspType::Interface => "interface"@,
            LspType::Keyword => "keyword"@,
            LspType::Macro => "macro"@,
            LspType::Method => "method"@,
            LspType::Namespace => "namespace"@,
            LspType::Parameter => "parameter"@,
            LspType::Property => "property"@,
            LspType::Struct => "struct"@,
            LspType::Type => "type"@,
            LspType::TypeAlias => "typeAlias"@,
            LspType::TypeParameter => "typeParameter"@,
            LspType::Variable => "variable"@,
        }
    }

    pub fn to_string(&self) -> (r: String)
        ensures
            r@ == self.rendered(),
    {
        match self {
            LspType::Class => String::from_str("class"),
            LspType::Decorator => String::from_str("decorator"),
            LspType::Derive => String::from_str("derive"),
            LspType::Enum => String::from_str("enum"),
            LspType::EnumMember => String::from_str("enumMember"),
            LspType::Function => String::from_str("function"),
            LspType::Interface => String::from_str("interface"),
            LspType::Keyword => String::from_str("keyword"),
            LspType::Macro => String::from_str("macro"),
            LspType::Method => String::from_str("method"),
            LspType::Namespace => String::from_str("namespace"),
            LspType::Parameter => String::from_str("parameter"),
            LspType::Property => String::from_str("property"),
            LspType::Struct => String::from_str("struct"),
            LspType::Type => String::from_str("type"),
            LspType::TypeAlias => String::from_str("typeAlias"),
            LspType::TypeParameter => String::from_str("typeParameter"),
            LspType::Variable => String::from_str("variable"),
        }
    }
}

/// An LSP semantic token modifier.
#[derive(Clone, Copy, Debug, PartialEq, Eq, Hash, Structural)]
pub enum LspModifier {
    Deprecated,
}

impl LspModifier {
    pub open spec fn rendered(self) -> Seq<char> {
        match self {
            LspModifier::Deprecated => "deprecated"@,
        }
    }

    pub fn to_string(&self) -> (r: String)
        ensures
            r@ == self.rendered(),
    {
        match self {
            LspModifier::Deprecated => String::from_str("deprecated"),
        }
    }
}

/// The text by which the editor names a diagnostic severity.
pub open spec fn level_text(level: DiagnosticLevel) -> Seq<char> {
    match level {
        DiagnosticLevel::Error => "Error"@,
        DiagnosticLevel::Warning => "Warn"@,
        DiagnosticLevel::Info => "Info"@,
        DiagnosticLevel::Hint => "Hint"@,
    }
}

pub fn diagnostic_level_as_str(level: DiagnosticLevel) -> (r: &'static str)
    ensures
        r@ == level_text(level),
{
    match level {
        DiagnosticLevel::Error => "Error",
        DiagnosticLevel::Warning => "Warn",
        DiagnosticLevel::Info => "Info",
        DiagnosticLevel::Hint => "Hint",
    }
}

/// Where the editor shows a diagnostic, besides the sign column.
#[derive(Clone, Copy, Debug, PartialEq, Eq, Hash, Structural)]
pub enum DiagnosticUiKind {
    VirtualText,
    Underline,
}

impl DiagnosticUiKind {
    pub open spec fn rendered(self) -> Seq<char> {
        match self {
            DiagnosticUiKind::VirtualText => "VirtualText"@,
            DiagnosticUiKind::Underline => "Underline"@,
        }
    }

    pub fn to_string(&self) -> (r: String)
        ensures
            r@ == self.rendered(),
    {
        match self {
            DiagnosticUiKind::VirtualText => String::from_str("VirtualText"),
            DiagnosticUiKind::Underline => String::from_str("Underline"),
        }
    }
}

/// A diagnostic group: a severity, alone or with a way of showing it.
#[derive(Clone, Copy, Debug, PartialEq, Eq, Hash, Structural)]
pub struct Diagnostic {
    pub level: DiagnosticLevel,
    pub kind: Option<DiagnosticUiKind>,
}

impl Diagnostic {
    pub open spec fn rendered(self) -> Seq<char> {
        "Diagnostic"@ + match self.kind {
            Some(kind) => kind.rendered(),
            None => Seq::empty(),
        } + level_text(self.level)
    }

    pub fn to_string(&self) -> (r: String)
        ensures
            r@ == self.rendered(),
    {
        let mut s = String::from_str("Diagnostic");
        match self.kind {
            Some(kind) => s.append(kind.to_string().as_str()),
            None => {},
        }
        s.append(diagnostic_level_as_str(self.level));
        s
    }
}

} // verus!
