use palette::{Darken, FromColor, Hsv, Lighten, LinSrgb, Srgb};
use syntinct::{Category, Color, DiagnosticLevel, Shade, SyntarkTheme, ThematicTheme, Theme, Token};

fn shade(c: Color, s: Shade) -> Color {
    let rgb = Srgb::new(c.red, c.green, c.blue);
    let out: Srgb<u8> = match s {
        Shade::Lighten(f) => {
            let linear: LinSrgb<f32> = rgb.into_linear();
            Srgb::from_linear(linear.lighten(f as f32 / 1000.0))
        }
        Shade::Darken(f) => {
            let linear: LinSrgb<f32> = rgb.into_linear();
            Srgb::from_linear(linear.darken(f as f32 / 1000.0))
        }
        Shade::Tone { saturation, value } => {
            let hsv: Hsv = Hsv::from_color(rgb.into_format::<f32>());
            let toned = Hsv {
                saturation: saturation as f32 / 1000.0,
                value: value as f32 / 1000.0,
                ..hsv
            };
            Srgb::<f32>::from_color(toned).into_format()
        }
    };
    Color::new(out.red, out.green, out.blue)
}

const CATEGORIES: [Category; 30] = [
    Category::ActiveSearchMatch,
    Category::ActiveTab,
    Category::ActiveTabBackground,
    Category::BadSpelling,
    Category::ColumnGuide,
    Category::CursorLine,
    Category::CursorLineNumber,
    Category::DiffAdd,
    Category::DiffChange,
    Category::DiffDelete,
    Category::DiffText,
    Category::Folded,
    Category::InactiveTab,
    Category::InactiveTabBackground,
    Category::LineNumber,
    Category::MatchedBracket,
    Category::MessageSeparator,
    Category::ModeMessage,
    Category::NonText,
    Category::Normal,
    Category::NormalBackground,
    Category::Question,
    Category::Search,
    Category::SearchMatch,
    Category::Selection,
    Category::Special,
    Category::StatusLine,
    Category::TermCursor,
    Category::UnfocusedTermCursor,
    Category::Whitespace,
];

const TOKENS: [Token; 30] = [
    Token::Attribute,
    Token::Boolean,
    Token::Character,
    Token::Comment,
    Token::Constant,
    Token::ConstGenericParameter,
    Token::Delimiter,
    Token::DocComment,
    Token::Enum,
    Token::Field,
    Token::Float,
    Token::Function,
    Token::Identifier,
    Token::Integer,
    Token::Interface,
    Token::Keyword,
    Token::Link,
    Token::Macro,
    Token::Module,
    Token::Operator,
    Token::Parameter,
    Token::Static,
    Token::String,
    Token::Struct,
    Token::Tag,
    Token::Todo,
    Token::Type,
    Token::TypeParameter,
    Token::Variable,
    Token::Variant,
];

const LEVELS: [DiagnosticLevel; 4] = [
    DiagnosticLevel::Error,
    DiagnosticLevel::Warning,
    DiagnosticLevel::Info,
    DiagnosticLevel::Hint,
];

fn hex(c: u32) -> Color {
    Color::from_hex(c)
}

fn answers_every_role<T: Theme>(theme: &T) -> usize {
    let mut n = 0;
    for c in CATEGORIES {
        let _ = theme.category_color(c);
        n += 1;
    }
    for t in TOKENS {
        let _ = theme.token_color(t);
        n += 1;
    }
    for l in LEVELS {
        let _ = theme.diagnostic_level_color(l);
        n += 1;
    }
    n
}

#[test]
fn every_provider_answers_every_role() {
    assert_eq!(answers_every_role(&SyntarkTheme::new(&shade)), 64);
    assert_eq!(answers_every_role(&ThematicTheme::dark()), 64);
    assert_eq!(answers_every_role(&ThematicTheme::light()), 64);
}

#[test]
fn from_hex_splits_channels() {
    assert_eq!(hex(0xbf616a), Color::new(0xbf, 0x61, 0x6a));
    assert_eq!(hex(0x000000), Color::new(0, 0, 0));
    assert_eq!(hex(0xffffff), Color::new(255, 255, 255));
}

#[test]
fn dark_variant_primitives() {
    let dark = ThematicTheme::dark();
    assert_eq!(dark.category_color(Category::Normal), hex(0xd8d8d8));
    assert_eq!(dark.category_color(Category::NormalBackground), hex(0x181818));
    assert_eq!(dark.category_color(Category::BadSpelling), hex(0xbf616a));
    assert_eq!(dark.category_color(Category::DiffChange), hex(0x202020));
    assert_eq!(dark.category_color(Category::MatchedBracket), hex(0x4169e1));
    assert_eq!(dark.category_color(Category::Special), hex(0x1e90ff));
}

#[test]
fn light_variant_shares_accents() {
    let dark = ThematicTheme::dark();
    let light = ThematicTheme::light();
    assert_eq!(light.category_color(Category::Normal), hex(0x000000));
    assert_eq!(light.category_color(Category::NormalBackground), hex(0xf5f5dc));
    assert_eq!(light.category_color(Category::CursorLine), hex(0xf0ffff));
    assert_eq!(light.category_color(Category::SearchMatch), dark.category_color(Category::SearchMatch));
    assert_eq!(light.category_color(Category::DiffAdd), hex(0xa3be8c));
    assert_eq!(light.category_color(Category::DiffChange), hex(0x202020));
    for l in LEVELS {
        assert_eq!(light.diagnostic_level_color(l), dark.diagnostic_level_color(l));
    }
}

#[test]
fn thematic_aliases_follow_their_targets() {
    for theme in [ThematicTheme::dark(), ThematicTheme::light()] {
        assert_eq!(theme.category_color(Category::ActiveTab), theme.category_color(Category::Normal));
        assert_eq!(theme.category_color(Category::Question), theme.category_color(Category::Selection));
        assert_eq!(theme.category_color(Category::DiffText), theme.category_color(Category::DiffAdd));
        assert_eq!(theme.token_color(Token::Field), theme.token_color(Token::Identifier));
        assert_eq!(theme.token_color(Token::Static), hex(0x4682b4));
        assert_eq!(theme.token_color(Token::Operator), hex(0xbb9af7));
        assert_eq!(theme.token_color(Token::Macro), hex(0xffb6c1));
    }
    assert_eq!(ThematicTheme::light().token_color(Token::Comment), hex(0xd3d3d3));
    assert_eq!(ThematicTheme::dark().token_color(Token::Comment), hex(0x708090));
}

#[test]
fn syntark_fixed_and_aliased_colors() {
    let theme = SyntarkTheme::new(&shade);
    assert_eq!(theme.category_color(Category::Normal), hex(0xd8d8d8));
    assert_eq!(theme.category_color(Category::NormalBackground), hex(0x181818));
    assert_eq!(theme.category_color(Category::ActiveTabBackground), hex(0x181818));
    assert_eq!(theme.category_color(Category::UnfocusedTermCursor), hex(0xaeafad));
    assert_eq!(theme.category_color(Category::DiffText), theme.category_color(Category::DiffAdd));
    assert_eq!(theme.token_color(Token::Parameter), hex(0x4682b4));
    assert_eq!(theme.token_color(Token::Boolean), hex(0xdaa520));
    assert_eq!(theme.token_color(Token::ConstGenericParameter), hex(0xffa07a));
    assert_eq!(theme.diagnostic_level_color(DiagnosticLevel::Error), hex(0xdc143c));
}

#[test]
fn syntark_adjusted_colors_use_the_shade() {
    let theme = SyntarkTheme::new(&shade);
    let normal = hex(0xd8d8d8);
    let background = hex(0x181818);
    assert_eq!(theme.category_color(Category::ColumnGuide), shade(background, Shade::Darken(100)));
    assert_eq!(theme.category_color(Category::StatusLine), shade(background, Shade::Lighten(5)));
    assert_eq!(theme.category_color(Category::Whitespace), shade(normal, Shade::Darken(900)));
    assert_eq!(
        theme.category_color(Category::DiffDelete),
        shade(hex(0xff0000), Shade::Tone { saturation: 400, value: 300 })
    );
    let marked = SyntarkTheme::new(&|_c: Color, _s: Shade| Color::new(1, 2, 3));
    assert_eq!(marked.category_color(Category::LineNumber), Color::new(1, 2, 3));
    assert_eq!(marked.category_color(Category::Normal), normal);
}

#[test]
fn from_hex_ignores_the_top_byte() {
    assert_eq!(hex(0xff123456), Color::new(0x12, 0x34, 0x56));
}
