use vstd::prelude::*;

verus! {

/// A user-interface role that needs a colour.
#[derive(Clone, Copy, Debug, PartialEq, Eq, Hash, Structural)]
pub enum Category {
    ActiveSearchMatch,
    ActiveTab,
    ActiveTabBackground,
    BadSpelling,
    ColumnGuide,
    CursorLine,
    CursorLineNumber,
    DiffAdd,
    DiffChange,
    DiffDelete,
    DiffText,
    Folded,
    InactiveTab,
    InactiveTabBackground,
    LineNumber,
    MatchedBracket,
    MessageSeparator,
    ModeMessage,
    NonText,
    Normal,
    NormalBackground,
    Question,
    Search,
    SearchMatch,
    Selection,
    Special,
    StatusLine,
    TermCursor,
    UnfocusedTermCursor,
    Whitespace,
}

/// A syntax role that needs a colour.
#[derive(Clone, Copy, Debug, PartialEq, Eq, Hash, Structural)]
pub enum Token {
    Attribute,
    Boolean,
    Character,
    Comment,
    Constant,
    ConstGenericParameter,
    Delimiter,
    DocComment,
    Enum,
    Field,
    Float,
    Function,
    Identifier,
    Integer,
    Interface,
    Keyword,
    Link,
    Macro,
    Module,
    Operator,
    Parameter,
    Static,
    String,
    Struct,
    Tag,
    Todo,
    Type,
    TypeParameter,
    Variable,
    Variant,
}

/// The severity of a diagnostic.
#[derive(Clone, Copy, Debug, PartialEq, Eq, Hash, Structural)]
pub enum DiagnosticLevel {
    Error,
    Warning,
    Info,
    Hint,
}

} // verus!
