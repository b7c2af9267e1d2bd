use syntinct::{
    diagnostic_level_as_str, Category, Color, Diagnostic, DiagnosticLevel, DiagnosticUiKind, Highlight,
    HighlightName, Language, LspHighlightName, LspModifier, LspType, LspTypeMod, NeovimTheme, Shade, Style,
    SyntarkTheme, ThematicTheme, Theme, Token, UnderlineStyle,
};

/// Stands in for the colour arithmetic: darkening by 0.95 gives a colour
/// that no provider uses, so its origin is visible.
fn marker(c: Color, s: Shade) -> Color {
    match s {
        Shade::Darken(950) => Color::new(c.red / 20, c.green / 20, c.blue / 20),
        _ => Color::new(1, 2, 3),
    }
}

/// A provider whose error colour is `#bf616a`.
struct Nord;

impl Theme for Nord {
    fn category_of(&self, category: Category) -> Color {
        self.category_color(category)
    }

    fn token_of(&self, token: Token) -> Color {
        self.token_color(token)
    }

    fn level_of(&self, level: DiagnosticLevel) -> Color {
        self.diagnostic_level_color(level)
    }

    fn category_color(&self, _category: Category) -> Color {
        Color::from_hex(0x2e3440)
    }

    fn token_color(&self, _token: Token) -> Color {
        Color::from_hex(0x88c0d0)
    }

    fn diagnostic_level_color(&self, level: DiagnosticLevel) -> Color {
        match level {
            DiagnosticLevel::Error => Color::from_hex(0xbf616a),
            _ => Color::from_hex(0xebcb8b),
        }
    }
}

fn lsp(ty: LspType) -> HighlightName {
    HighlightName::Lsp(LspHighlightName { type_mod: LspTypeMod::Type(ty), lang: None })
}

fn diagnostic(level: DiagnosticLevel, kind: Option<DiagnosticUiKind>) -> HighlightName {
    HighlightName::Diagnostic(Diagnostic { level, kind })
}

#[test]
fn normal_and_end_of_buffer() {
    let table = NeovimTheme::new(&ThematicTheme::dark(), &marker);
    let expected = Style::default().foreground(Color::from_hex(0xd8d8d8)).background(Color::from_hex(0x181818));
    assert_eq!(table.highlight(&HighlightName::Normal), Some(Highlight::Value(expected)));
    assert_eq!(expected.special, None);
    assert_eq!(expected.bold, None);
    assert_eq!(expected.underline, None);
    assert!(!expected.reversed);
    assert_eq!(table.highlight(&HighlightName::EndOfBuffer), Some(Highlight::Link(HighlightName::NonText)));
}

#[test]
fn diagnostic_error_variants() {
    let table = NeovimTheme::new(&Nord, &marker);
    let red = Color::from_hex(0xbf616a);
    let underline = Style::default().special(red).curly_underline();
    assert_eq!(
        table.highlight(&diagnostic(DiagnosticLevel::Error, Some(DiagnosticUiKind::Underline))),
        Some(Highlight::Value(underline))
    );
    assert_eq!(underline.foreground, None);
    assert_eq!(underline.background, None);
    assert_eq!(underline.underline, Some(UnderlineStyle::Curly));
    let virtual_text = Style::default().foreground(red).background(marker(red, Shade::Darken(950)));
    assert_eq!(
        table.highlight(&diagnostic(DiagnosticLevel::Error, Some(DiagnosticUiKind::VirtualText))),
        Some(Highlight::Value(virtual_text))
    );
    assert_eq!(
        table.highlight(&diagnostic(DiagnosticLevel::Error, None)),
        Some(Highlight::Value(Style::default().foreground(red)))
    );
}

#[test]
fn completion_kind_links_to_lsp_type() {
    let table = NeovimTheme::new(&ThematicTheme::dark(), &marker);
    assert_eq!(
        table.highlight(&HighlightName::CmpItemKind(LspType::Function)),
        Some(Highlight::Link(lsp(LspType::Function)))
    );
    assert!(matches!(table.highlight(&lsp(LspType::Function)), Some(Highlight::Value(_))));
}

#[test]
fn every_diagnostic_pair_is_present() {
    let table = NeovimTheme::new(&ThematicTheme::light(), &marker);
    for level in [DiagnosticLevel::Error, DiagnosticLevel::Warning, DiagnosticLevel::Info, DiagnosticLevel::Hint] {
        for kind in [None, Some(DiagnosticUiKind::VirtualText), Some(DiagnosticUiKind::Underline)] {
            assert!(table.highlight(&diagnostic(level, kind)).is_some());
        }
    }
}

#[test]
fn groups_outside_the_catalogue_are_absent() {
    let table = NeovimTheme::new(&ThematicTheme::dark(), &marker);
    let modifier = HighlightName::Lsp(LspHighlightName {
        type_mod: LspTypeMod::Modifier(LspModifier::Deprecated),
        lang: None,
    });
    let rust_function = HighlightName::Lsp(LspHighlightName {
        type_mod: LspTypeMod::Type(LspType::Function),
        lang: Some(Language::Rust),
    });
    assert_eq!(table.highlight(&modifier), None);
    assert_eq!(table.highlight(&rust_function), None);
}

#[test]
fn adjusted_entries_use_the_shade() {
    let table = NeovimTheme::new(&ThematicTheme::dark(), &marker);
    let normal = Color::from_hex(0xd8d8d8);
    assert_eq!(
        table.highlight(&HighlightName::WinSeparator),
        Some(Highlight::Value(Style::default().foreground(marker(normal, Shade::Darken(950)))))
    );
    assert_eq!(
        table.highlight(&HighlightName::StatusLineNC),
        Some(Highlight::Value(Style::default().background(Color::new(1, 2, 3))))
    );
    assert_eq!(table.highlight(&HighlightName::Cursor), Some(Highlight::Value(Style::reverse())));
}

#[test]
fn syntark_table_links() {
    let table = NeovimTheme::new(&SyntarkTheme::new(&marker), &marker);
    assert_eq!(table.highlight(&HighlightName::Substitute), Some(Highlight::Link(HighlightName::IncSearch)));
    assert_eq!(table.highlight(&HighlightName::TelescopeBorder), Some(Highlight::Link(HighlightName::FloatBorder)));
    assert_eq!(table.highlight(&HighlightName::Special), Some(Highlight::Link(HighlightName::SpecialChar)));
}

#[test]
fn rendered_names() {
    assert_eq!(HighlightName::MarkdownH1.to_string(), "markdownH1");
    assert_eq!(HighlightName::ColorColumn.to_string(), "ColorColumn");
    assert_eq!(lsp(LspType::EnumMember).to_string(), "@lsp.type.enumMember");
    assert_eq!(
        HighlightName::Lsp(LspHighlightName {
            type_mod: LspTypeMod::Both(LspType::Function, LspModifier::Deprecated),
            lang: Some(Language::Rust),
        })
        .to_string(),
        "@lsp.typemod.function.deprecated.rust"
    );
    assert_eq!(
        LspTypeMod::Modifier(LspModifier::Deprecated).to_string(),
        "mod.deprecated"
    );
    assert_eq!(diagnostic(DiagnosticLevel::Warning, Some(DiagnosticUiKind::VirtualText)).to_string(), "DiagnosticVirtualTextWarn");
    assert_eq!(diagnostic(DiagnosticLevel::Hint, None).to_string(), "DiagnosticHint");
    assert_eq!(diagnostic_level_as_str(DiagnosticLevel::Info), "Info");
}

#[test]
fn completion_kind_names_are_upper_camel_case() {
    assert_eq!(HighlightName::CmpItemKind(LspType::EnumMember).to_string(), "CmpItemKindEnumMember");
    assert_eq!(HighlightName::CmpItemKind(LspType::Class).to_string(), "CmpItemKindClass");
    assert_eq!(HighlightName::CmpItemKind(LspType::TypeParameter).to_string(), "CmpItemKindTypeParameter");
}

#[test]
fn style_builders_set_one_field() {
    let red = Color::new(255, 0, 0);
    let s = Style::default().foreground(red).background(red).special(red).dotted_underline();
    assert_eq!(s.underline, Some(UnderlineStyle::Dotted));
    assert_eq!(s.double_underline().underline, Some(UnderlineStyle::Double));
    assert_eq!(s.dashed_underline().underline, Some(UnderlineStyle::Dashed));
    assert_eq!(s.underline().underline, Some(UnderlineStyle::Single));
    assert_eq!(s.no_underline().underline, None);
    assert_eq!(s.no_foreground().foreground, None);
    assert_eq!(s.no_background().background, None);
    assert_eq!(s.no_special().special, None);
    assert_eq!(s.no_foreground().background, Some(red));
    assert!(Style::reverse().reversed);
    assert_eq!(Style::reverse().no_foreground(), Style::reverse());
}

#[test]
fn completion_kind_name_prefixes() {
    assert_eq!(syntinct::completion_kind_name("EnumMember"), "CmpItemKindEnumMember");
    assert_eq!(syntinct::completion_kind_name(""), "CmpItemKind");
}
