use crate::catalogue::{
    catalogue_entry, catalogue_index, catalogue_rule, lemma_catalogue_index,
    lemma_link_target_present, Paint, Rule, Source, CATALOGUE_LEN,
};
use crate::color::{Color, Shade};
use crate::highlight::HighlightName;
use crate::lua::{module_text, write_module};
use crate::style::Style;
use crate::theme::Theme;
use vstd::prelude::*;

verus! {

/// A resolved highlight group: a concrete style, or a link that the editor
/// follows when it loads the scheme.
#[derive(Clone, Copy, Debug, PartialEq, Eq, Structural)]
pub enum Highlight {
    Value(Style),
    Link(HighlightName),
}

/// The colour that `base` gives to a role.
pub open spec fn source_color<T: Theme>(base: &T, source: Source) -> Color {
    match source {
        Source::Category(c) => base.category_of(c),
        Source::Token(t) => base.token_of(t),
        Source::Level(l) => base.level_of(l),
    }
}

/// Whether `color` is what `paint` asks for: nothing for nothing, the role's
/// colour, or a result of `shade` on the role's colour.
pub open spec fn paints<T: Theme, F: Fn(Color, Shade) -> Color>(
    base: &T,
    shade: &F,
    paint: Option<Paint>,
    color: Option<Color>,
) -> bool {
    match paint {
        None => color == None::<Color>,
        Some(Paint::Plain(source)) => color == Some(source_color(base, source)),
        Some(Paint::Shaded(source, s)) => match color {
            Some(c) => shade.ensures((source_color(base, source), s), c),
            None => false,
        },
    }
}

/// Whether `highlight` is what `rule` makes of `base`: the same link, or a
/// style with exactly the attributes the recipe sets.
pub open spec fn realizes<T: Theme, F: Fn(Color, Shade) -> Color>(
    base: &T,
    shade: &F,
    rule: Rule,
    highlight: Highlight,
) -> bool {
    match rule {
        Rule::Link(target) => highlight == Highlight::Link(target),
        Rule::Style(recipe) => match highlight {
            Highlight::Value(style) => {
                &&& paints(base, shade, recipe.foreground, style.foreground)
                &&& paints(base, shade, recipe.background, style.background)
                &&& paints(base, shade, recipe.special, style.special)
                &&& style.bold == None::<bool>
                &&& style.italic == None::<bool>
                &&& style.strikethrough == None::<bool>
                &&& style.underline == recipe.underline
                &&& style.reversed == recipe.reversed
            },
            Highlight::Link(_) => false,
        },
    }
}

/// Whether `shade` gives one result for each argument.
pub open spec fn is_function<F: Fn(Color, Shade) -> Color>(shade: &F) -> bool {
    forall|a: (Color, Shade), x: Color, y: Color|
        shade.ensures(a, x) && shade.ensures(a, y) ==> x == y
}

fn source_color_of<T: Theme>(base: &T, source: Source) -> (r: Color)
    ensures
        r == source_color(base, source),
{
    match source {
        Source::Category(c) => base.category_color(c),
        Source::Token(t) => base.token_color(t),
        Source::Level(l) => base.diagnostic_level_color(l),
    }
}

fn paint_color<T: Theme, F: Fn(Color, Shade) -> Color>(
    base: &T,
    shade: &F,
    paint: Option<Paint>,
) -> (r: Option<Color>)
    requires
        forall|c: Color, s: Shade| shade.requires((c, s)),
    ensures
        paints(base, shade, paint, r),
{
    match paint {
        None => None,
        Some(Paint::Plain(source)) => Some(source_color_of(base, source)),
        Some(Paint::Shaded(source, s)) => Some(shade(source_color_of(base, source), s)),
    }
}

fn realize<T: Theme, F: Fn(Color, Shade) -> Color>(base: &T, shade: &F, rule: Rule) -> (r: Highlight)
    requires
        forall|c: Color, s: Shade| shade.requires((c, s)),
    ensures
        realizes(base, shade, rule, r),
{
    match rule {
        Rule::Link(target) => Highlight::Link(target),
        Rule::Style(recipe) => Highlight::Value(
            Style {
                foreground: paint_color(base, shade, recipe.foreground),
                background: paint_color(base, shade, recipe.background),
                special: paint_color(base, shade, recipe.special),
                bold: None,
                italic: None,
                strikethrough: None,
                underline: recipe.underline,
                reversed: recipe.reversed,
            },
        ),
    }
}

/// The full set of highlight groups of a colour scheme, one per catalogue
/// entry, in catalogue order.
#[derive(Clone, Debug)]
pub struct NeovimTheme {
    highlights: Vec<(HighlightName, Highlight)>,
}

impl NeovimTheme {
    pub closed spec fn entries(&self) -> Seq<(HighlightName, Highlight)> {
        self.highlights@
    }

    /// Whether this table is the catalogue evaluated against `base`, with
    /// `shade` doing the colour adjustments.
    pub open spec fn resolves<T: Theme, F: Fn(Color, Shade) -> Color>(&self, base: &T, shade: &F) -> bool {
        &&& self.entries().len() == CATALOGUE_LEN
        &&& forall|i: int|
            0 <= i < CATALOGUE_LEN ==> {
                &&& (#[trigger] self.entries()[i]).0 == catalogue_entry(i).0
                &&& realizes(base, shade, catalogue_entry(i).1, self.entries()[i].1)
            }
    }

    /// Evaluates every catalogue entry against `base`.
    pub fn new<T: Theme, F: Fn(Color, Shade) -> Color>(base: &T, shade: &F) -> (r: Self)
        requires
            forall|c: Color, s: Shade| shade.requires((c, s)),
        ensures
            r.resolves(base, shade),
    {
        let mut highlights: Vec<(HighlightName, Highlight)> = Vec::new();
        let mut i: usize = 0;
        while i < CATALOGUE_LEN
            invariant
                i <= CATALOGUE_LEN,
                highlights@.len() == i,
                forall|c: Color, s: Shade| shade.requires((c, s)),
                forall|j: int|
                    0 <= j < i ==> {
                        &&& (#[trigger] highlights@[j]).0 == catalogue_entry(j).0
                        &&& realizes(base, shade, catalogue_entry(j).1, highlights@[j].1)
                    },
            decreases CATALOGUE_LEN - i,
        {
            let (name, rule) = catalogue_rule(i);
            let highlight = realize(base, shade, rule);
            highlights.push((name, highlight));
            i += 1;
        }
        NeovimTheme { highlights }
    }

    /// The highlight of the group `name`, if the table holds it.
    pub fn highlight(&self, name: &HighlightName) -> (r: Option<Highlight>)
        ensures
            match r {
                Some(h) => exists|i: int|
                    0 <= i < self.entries().len() && #[trigger] self.entries()[i] == (*name, h),
                None => forall|i: int|
                    0 <= i < self.entries().len() ==> (#[trigger] self.entries()[i]).0 != *name,
            },
    {
        let mut i: usize = 0;
        while i < self.highlights.len()
            invariant
                i <= self.highlights@.len(),
                forall|j: int| 0 <= j < i ==> (#[trigger] self.highlights@[j]).0 != *name,
            decreases self.highlights@.len() - i,
        {
            if self.highlights[i].0 == *name {
                return Some(self.highlights[i].1);
            }
            i += 1;
        }
        None
    }
    /// Appends the Lua module for this table to `out`: a table literal with
    /// the groups sorted by name, then `support`, the runtime code that applies
    /// the table, verbatim.
    pub fn write(&self, out: &mut String, support: &str)
        ensures
            final(out)@ == old(out)@ + module_text(self.entries(), support@),
    {
        write_module(out, &self.highlights, support);
    }

    /// The Lua module for this table, followed by `support`.
    pub fn to_lua_module(&self, support: &str) -> (r: String)
        ensures
            r@ == module_text(self.entries(), support@),
    {
        let mut s = String::new();
        self.write(&mut s, support);
        assert(s@ =~= module_text(self.entries(), support@));
        s
    }
}

/// A resolved table holds each group once.
pub proof fn lemma_names_distinct<T: Theme, F: Fn(Color, Shade) -> Color>(
    table: &NeovimTheme,
    base: &T,
    shade: &F,
    i: int,
    j: int,
)
    requires
        table.resolves(base, shade),
        0 <= i < table.entries().len(),
        0 <= j < table.entries().len(),
        i != j,
    ensures
        table.entries()[i].0 != table.entries()[j].0,
{
    lemma_catalogue_index(i);
    lemma_catalogue_index(j);
}

/// Every link in a resolved table points at a group that the table holds.
pub proof fn lemma_links_closed<T: Theme, F: Fn(Color, Shade) -> Color>(
    table: &NeovimTheme,
    base: &T,
    shade: &F,
    i: int,
)
    requires
        table.resolves(base, shade),
        0 <= i < table.entries().len(),
    ensures
        table.entries()[i].1 matches Highlight::Link(target) ==> exists|j: int|
            0 <= j < table.entries().len() && #[trigger] table.entries()[j].0 == target,
{
    lemma_link_target_present(i);
    if let Highlight::Link(target) = table.entries()[i].1 {
        let j = catalogue_index(target);
        assert(table.entries()[j].0 == target);
    }
}

/// Resolving one theme twice, with an adjustment that is a function, gives
/// the same table and the same Lua module.
pub proof fn lemma_resolution_deterministic<T: Theme, F: Fn(Color, Shade) -> Color>(
    first: &NeovimTheme,
    second: &NeovimTheme,
    base: &T,
    shade: &F,
    support: Seq<char>,
)
    requires
        first.resolves(base, shade),
        second.resolves(base, shade),
        is_function(shade),
    ensures
        first.entries() == second.entries(),
        module_text(first.entries(), support) == module_text(second.entries(), support),
{
    assert forall|i: int| 0 <= i < first.entries().len() implies #[trigger] first.entries()[i] == second.entries()[i] by {
        let rule = catalogue_entry(i).1;
        let (h1, h2) = (first.entries()[i].1, second.entries()[i].1);
        assert(realizes(base, shade, rule, h1) && realizes(base, shade, rule, h2));
        if let (Highlight::Value(s1), Highlight::Value(s2)) = (h1, h2) {
            assert(s1 == s2);
        }
    }
    assert(first.entries() =~= second.entries());
}

} // verus!
