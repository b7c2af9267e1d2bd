use crate::color::Color;
use crate::highlight::HighlightName;
use crate::neovim::Highlight;
use crate::style::{Style, UnderlineStyle};
use vstd::prelude::*;
use vstd::seq_lib::lemma_concat_associative;

verus! {

/// A group's rendered name beside its highlight.
pub type NamedHighlight = (String, Highlight);

/// Lexicographic order on texts, character by character.
pub open spec fn text_le(a: Seq<char>, b: Seq<char>) -> bool
    decreases a.len(),
{
    if a.len() == 0 {
        true
    } else if b.len() == 0 {
        false
    } else if a[0] != b[0] {
        a[0] < b[0]
    } else {
        text_le(a.drop_first(), b.drop_first())
    }
}

/// Any two texts are ordered one way or the other.
pub proof fn lemma_text_le_total(a: Seq<char>, b: Seq<char>)
    ensures
        text_le(a, b) || text_le(b, a),
    decreases a.len(),
{
    if a.len() > 0 && b.len() > 0 && a[0] == b[0] {
        lemma_text_le_total(a.drop_first(), b.drop_first());
    }
}

/// Inserts `e` into `s` after every entry whose name is not greater than its own.
pub open spec fn insert_by_name(s: Seq<(Seq<char>, Highlight)>, e: (Seq<char>, Highlight)) -> Seq<(Seq<char>, Highlight)>
    decreases s.len(),
{
    if s.len() == 0 {
        seq![e]
    } else if !text_le(s.last().0, e.0) {
        insert_by_name(s.drop_last(), e).push(s.last())
    } else {
        s.push(e)
    }
}

/// The entries in order of their names; entries with equal names keep their order.
pub open spec fn sort_by_name(s: Seq<(Seq<char>, Highlight)>) -> Seq<(Seq<char>, Highlight)>
    decreases s.len(),
{
    if s.len() == 0 {
        s
    } else {
        insert_by_name(sort_by_name(s.drop_last()), s.last())
    }
}

/// Whether each entry's name is at most the next one's.
pub open spec fn sorted_by_name(s: Seq<(Seq<char>, Highlight)>) -> bool {
    forall|i: int| 0 <= i < s.len() - 1 ==> text_le(#[trigger] s[i].0, s[i + 1].0)
}

pub proof fn lemma_insert_by_name_sorted(s: Seq<(Seq<char>, Highlight)>, e: (Seq<char>, Highlight))
    requires
        sorted_by_name(s),
    ensures
        sorted_by_name(insert_by_name(s, e)),
        insert_by_name(s, e).len() == s.len() + 1,
        s.len() > 0 ==> insert_by_name(s, e).last() == e || insert_by_name(s, e).last() == s.last(),
        s.len() == 0 ==> insert_by_name(s, e).last() == e,
    decreases s.len(),
{
    if s.len() > 0 {
        let r = insert_by_name(s, e);
        if !text_le(s.last().0, e.0) {
            let s0 = s.drop_last();
            assert(sorted_by_name(s0)) by {
                assert forall|i: int| 0 <= i < s0.len() - 1 implies text_le(#[trigger] s0[i].0, s0[i + 1].0) by {
                    assert(s0[i] == s[i] && s0[i + 1] == s[i + 1]);
                }
            }
            lemma_insert_by_name_sorted(s0, e);
            let r0 = insert_by_name(s0, e);
            lemma_text_le_total(s.last().0, e.0);
            if s0.len() > 0 && r0.last() == s0.last() {
                assert(s0.last() == s[s.len() - 2]);
            }
            assert forall|i: int| 0 <= i < r.len() - 1 implies text_le(#[trigger] r[i].0, r[i + 1].0) by {
                if i < r0.len() - 1 {
                    assert(r[i] == r0[i] && r[i + 1] == r0[i + 1]);
                } else {
                    assert(r[i] == r0.last());
                }
            }
        } else {
            assert forall|i: int| 0 <= i < r.len() - 1 implies text_le(#[trigger] r[i].0, r[i + 1].0) by {
                if i < s.len() - 1 {
                    assert(r[i] == s[i] && r[i + 1] == s[i + 1]);
                }
            }
        }
    }
}

/// The serializer's order: the entries come out sorted by name.
pub proof fn lemma_sort_by_name_sorted(s: Seq<(Seq<char>, Highlight)>)
    ensures
        sorted_by_name(sort_by_name(s)),
        sort_by_name(s).len() == s.len(),
    decreases s.len(),
{
    if s.len() > 0 {
        lemma_sort_by_name_sorted(s.drop_last());
        lemma_insert_by_name_sorted(sort_by_name(s.drop_last()), s.last());
    }
}

pub proof fn lemma_insert_by_name_keeps(s: Seq<(Seq<char>, Highlight)>, e: (Seq<char>, Highlight))
    ensures
        insert_by_name(s, e).to_multiset() =~= s.to_multiset().insert(e),
    decreases s.len(),
{
    broadcast use vstd::seq_lib::group_to_multiset_ensures;

    if s.len() == 0 {
        assert(seq![e] =~= s.push(e));
    } else if !text_le(s.last().0, e.0) {
        let s0 = s.drop_last();
        lemma_insert_by_name_keeps(s0, e);
        assert(s0.push(s.last()) =~= s);
    }
}

/// The serializer drops and repeats no entry: sorting keeps every entry as
/// often as it occurs.
pub proof fn lemma_sort_by_name_keeps(s: Seq<(Seq<char>, Highlight)>)
    ensures
        sort_by_name(s).to_multiset() =~= s.to_multiset(),
    decreases s.len(),
{
    broadcast use vstd::seq_lib::group_to_multiset_ensures;

    if s.len() > 0 {
        let s0 = s.drop_last();
        lemma_sort_by_name_keeps(s0);
        lemma_insert_by_name_keeps(sort_by_name(s0), s.last());
        assert(s0.push(s.last()) =~= s);
    }
}

/// The view of named entries that the order and the text are stated over.
pub open spec fn plain(v: Seq<NamedHighlight>) -> Seq<(Seq<char>, Highlight)> {
    v.map_values(|e: NamedHighlight| (e.0@, e.1))
}

/// The entries of a table beside the rendered names of their groups.
pub open spec fn named(entries: Seq<(HighlightName, Highlight)>) -> Seq<(Seq<char>, Highlight)> {
    entries.map_values(|e: (HighlightName, Highlight)| (e.0.rendered(), e.1))
}

/// Inserting at the first position, counted from the back, after which no
/// greater name follows is what `insert_by_name` does.
proof fn lemma_insert_at(s: Seq<(Seq<char>, Highlight)>, e: (Seq<char>, Highlight), j: int)
    requires
        0 <= j <= s.len(),
        forall|k: int| j <= k < s.len() ==> !text_le(#[trigger] s[k].0, e.0),
        j == 0 || text_le(s[j - 1].0, e.0),
    ensures
        insert_by_name(s, e) == s.insert(j, e),
    decreases s.len(),
{
    if s.len() == 0 {
        assert(seq![e] =~= s.insert(j, e));
    } else if j == s.len() {
        assert(s.push(e) =~= s.insert(j, e));
    } else {
        let s0 = s.drop_last();
        assert(!text_le(s[s.len() - 1].0, e.0));
        assert forall|k: int| j <= k < s0.len() implies !text_le(#[trigger] s0[k].0, e.0) by {
            assert(s0[k] == s[k]);
        }
        if j > 0 {
            assert(s0[j - 1] == s[j - 1]);
        }
        lemma_insert_at(s0, e, j);
        assert(s0.insert(j, e).push(s.last()) =~= s.insert(j, e));
    }
}

/// Whether `a` comes no later than `b`.
fn text_le_exec(a: &str, b: &str) -> (r: bool)
    ensures
        r == text_le(a@, b@),
{
    let la = a.unicode_len();
    let lb = b.unicode_len();
    let mut i: usize = 0;
    assert(a@.skip(0) =~= a@ && b@.skip(0) =~= b@);
    while i < la && i < lb
        invariant
            la == a@.len(),
            lb == b@.len(),
            i <= la,
            i <= lb,
            text_le(a@, b@) == text_le(a@.skip(i as int), b@.skip(i as int)),
        decreases la - i,
    {
        let ca = a.get_char(i);
        let cb = b.get_char(i);
        assert(a@.skip(i as int)[0] == ca && b@.skip(i as int)[0] == cb);
        if ca != cb {
            return ca < cb;
        }
        assert(a@.skip(i as int).drop_first() =~= a@.skip(i as int + 1));
        assert(b@.skip(i as int).drop_first() =~= b@.skip(i as int + 1));
        i += 1;
    }
    assert(i == la ==> a@.skip(i as int).len() == 0);
    assert(i == lb ==> b@.skip(i as int).len() == 0);
    i == la
}

/// Inserts `e` where `insert_by_name` puts it.
fn insert_named(sorted: &mut Vec<NamedHighlight>, e: NamedHighlight)
    ensures
        plain(final(sorted)@) == insert_by_name(plain(old(sorted)@), (e.0@, e.1)),
{
    let ghost s = plain(sorted@);
    let mut j: usize = sorted.len();
    let mut found = false;
    while j > 0 && !found
        invariant
            j <= sorted@.len(),
            s == plain(sorted@),
            sorted@ == old(sorted)@,
            forall|k: int| j <= k < s.len() ==> !text_le(#[trigger] s[k].0, e.0@),
            found ==> j > 0 && text_le(s[j - 1].0, e.0@),
        decreases j + if found { 0int } else { 1int },
    {
        if text_le_exec(sorted[j - 1].0.as_str(), e.0.as_str()) {
            found = true;
        } else {
            j -= 1;
        }
    }
    proof {
        lemma_insert_at(s, (e.0@, e.1), j as int);
    }
    let ghost v = (e.0@, e.1);
    sorted.insert(j, e);
    assert(plain(sorted@) =~= s.insert(j as int, v));
}

pub open spec fn hex_digit_text(n: u8) -> Seq<char> {
    match n {
        0 => "0"@,
        1 => "1"@,
        2 => "2"@,
        3 => "3"@,
        4 => "4"@,
        5 => "5"@,
        6 => "6"@,
        7 => "7"@,
        8 => "8"@,
        9 => "9"@,
        10 => "a"@,
        11 => "b"@,
        12 => "c"@,
        13 => "d"@,
        14 => "e"@,
        15 => "f"@,
        _ => Seq::empty(),
    }
}

fn hex_digit(n: u8) -> (r: &'static str)
    requires
        n < 16,
    ensures
        r@ == hex_digit_text(n),
{
    match n {
        0 => "0",
        1 => "1",
        2 => "2",
        3 => "3",
        4 => "4",
        5 => "5",
        6 => "6",
        7 => "7",
        8 => "8",
        9 => "9",
        10 => "a",
        11 => "b",
        12 => "c",
        13 => "d",
        14 => "e",
        15 => "f",
        _ => unreached(),
    }
}

/// Two lowercase hexadecimal digits.
pub open spec fn byte_text(b: u8) -> Seq<char> {
    hex_digit_text((b / 16) as u8) + hex_digit_text((b % 16) as u8)
}

/// `#rrggbb`, in lowercase hexadecimal.
pub open spec fn color_text(c: Color) -> Seq<char> {
    "#"@ + byte_text(c.red) + byte_text(c.green) + byte_text(c.blue)
}

pub open spec fn bool_text(b: bool) -> Seq<char> {
    if b {
        "true"@
    } else {
        "false"@
    }
}

/// The attribute that switches an underline style on.
pub open spec fn underline_key(u: UnderlineStyle) -> Seq<char> {
    match u {
        UnderlineStyle::Single => "underline"@,
        UnderlineStyle::Double => "underdouble"@,
        UnderlineStyle::Curly => "undercurl"@,
        UnderlineStyle::Dotted => "underdotted"@,
        UnderlineStyle::Dashed => "underdashed"@,
    }
}

pub open spec fn color_line(key: Seq<char>, c: Option<Color>) -> Seq<char> {
    match c {
        Some(c) => "    "@ + key + " = \""@ + color_text(c) + "\",\n"@,
        None => Seq::empty(),
    }
}

pub open spec fn flag_line(key: Seq<char>, b: Option<bool>) -> Seq<char> {
    match b {
        Some(b) => "    "@ + key + " = "@ + bool_text(b) + ",\n"@,
        None => Seq::empty(),
    }
}

pub open spec fn underline_line(u: Option<UnderlineStyle>) -> Seq<char> {
    match u {
        Some(u) => "    "@ + underline_key(u) + " = true,\n"@,
        None => Seq::empty(),
    }
}

/// The attributes a style sets, one per line in a fixed order; reverse video
/// always comes last.
pub open spec fn style_text(s: Style) -> Seq<char> {
    color_line("fg"@, s.foreground) + color_line("bg"@, s.background) + color_line("sp"@, s.special)
        + flag_line("bold"@, s.bold) + underline_line(s.underline) + flag_line(
        "strikethrough"@,
        s.strikethrough,
    ) + flag_line("italic"@, s.italic) + "    reverse = "@ + bool_text(s.reversed) + ",\n"@
}

pub open spec fn highlight_text(h: Highlight) -> Seq<char> {
    match h {
        Highlight::Value(s) => style_text(s),
        Highlight::Link(target) => "    link = \""@ + target.rendered() + "\",\n"@,
    }
}

/// One table entry of the Lua module.
pub open spec fn entry_text(name: Seq<char>, h: Highlight) -> Seq<char> {
    "  [\""@ + name + "\"] = {\n"@ + highlight_text(h) + "  },\n"@
}

pub open spec fn entries_text(s: Seq<(Seq<char>, Highlight)>) -> Seq<char>
    decreases s.len(),
{
    if s.len() == 0 {
        Seq::empty()
    } else {
        entries_text(s.drop_last()) + entry_text(s.last().0, s.last().1)
    }
}

/// The Lua module for a table: the entries sorted by name, then the support code.
pub open spec fn module_text(entries: Seq<(HighlightName, Highlight)>, support: Seq<char>) -> Seq<char> {
    "local highlights = {\n"@ + entries_text(sort_by_name(named(entries))) + "}\n\n"@ + support
}

fn write_byte(out: &mut String, b: u8)
    ensures
        final(out)@ == old(out)@ + byte_text(b),
{
    let ghost start = out@;
    out.append(hex_digit(b / 16));
    out.append(hex_digit(b % 16));
    assert(out@ =~= start + byte_text(b));
}

fn write_color(out: &mut String, key: &str, c: Option<Color>)
    ensures
        final(out)@ == old(out)@ + color_line(key@, c),
{
    let ghost start = out@;
    match c {
        Some(c) => {
            out.append("    ");
            out.append(key);
            out.append(" = \"#");
            write_byte(out, c.red);
            write_byte(out, c.green);
            write_byte(out, c.blue);
            out.append("\",\n");
            proof {
                reveal_strlit(" = \"#");
                reveal_strlit(" = \"");
                reveal_strlit("#");
            }
            assert(out@ =~= start + color_line(key@, Some(c)));
        },
        None => {
            assert(out@ =~= start + color_line(key@, c));
        },
    }
}

fn write_bool(out: &mut String, b: bool)
    ensures
        final(out)@ == old(out)@ + bool_text(b),
{
    if b {
        out.append("true");
    } else {
        out.append("false");
    }
}

fn write_flag(out: &mut String, key: &str, b: Option<bool>)
    ensures
        final(out)@ == old(out)@ + flag_line(key@, b),
{
    let ghost start = out@;
    match b {
        Some(b) => {
            out.append("    ");
            out.append(key);
            out.append(" = ");
            write_bool(out, b);
            out.append(",\n");
            assert(out@ =~= start + flag_line(key@, Some(b)));
        },
        None => {
            assert(out@ =~= start + flag_line(key@, b));
        },
    }
}

fn write_underline(out: &mut String, u: Option<UnderlineStyle>)
    ensures
        final(out)@ == old(out)@ + underline_line(u),
{
    let ghost start = out@;
    match u {
        Some(u) => {
            out.append("    ");
            let key = match u {
                UnderlineStyle::Single => "underline",
                UnderlineStyle::Double => "underdouble",
                UnderlineStyle::Curly => "undercurl",
                UnderlineStyle::Dotted => "underdotted",
                UnderlineStyle::Dashed => "underdashed",
            };
            out.append(key);
            out.append(" = true,\n");
            assert(out@ =~= start + underline_line(Some(u)));
        },
        None => {
            assert(out@ =~= start + underline_line(u));
        },
    }
}

fn write_style(out: &mut String, s: &Style)
    ensures
        final(out)@ == old(out)@ + style_text(*s),
{
    let ghost start = out@;
    let ghost p1 = color_line("fg"@, s.foreground);
    let ghost p2 = color_line("bg"@, s.background);
    let ghost p3 = color_line("sp"@, s.special);
    let ghost p4 = flag_line("bold"@, s.bold);
    let ghost p5 = underline_line(s.underline);
    let ghost p6 = flag_line("strikethrough"@, s.strikethrough);
    let ghost p7 = flag_line("italic"@, s.italic);
    let ghost p8 = "    reverse = "@;
    let ghost p9 = bool_text(s.reversed);
    let ghost p10 = ",\n"@;
    write_color(out, "fg", s.foreground);
    write_color(out, "bg", s.background);
    proof { lemma_concat_associative(start, p1, p2); }
    write_color(out, "sp", s.special);
    proof { lemma_concat_associative(start, p1 + p2, p3); }
    write_flag(out, "bold", s.bold);
    proof { lemma_concat_associative(start, p1 + p2 + p3, p4); }
    write_underline(out, s.underline);
    proof { lemma_concat_associative(start, p1 + p2 + p3 + p4, p5); }
    write_flag(out, "strikethrough", s.strikethrough);
    proof { lemma_concat_associative(start, p1 + p2 + p3 + p4 + p5, p6); }
    write_flag(out, "italic", s.italic);
    proof { lemma_concat_associative(start, p1 + p2 + p3 + p4 + p5 + p6, p7); }
    out.append("    reverse = ");
    proof { lemma_concat_associative(start, p1 + p2 + p3 + p4 + p5 + p6 + p7, p8); }
    write_bool(out, s.reversed);
    proof { lemma_concat_associative(start, p1 + p2 + p3 + p4 + p5 + p6 + p7 + p8, p9); }
    out.append(",\n");
    proof { lemma_concat_associative(start, p1 + p2 + p3 + p4 + p5 + p6 + p7 + p8 + p9, p10); }
}

fn write_highlight(out: &mut String, h: &Highlight)
    ensures
        final(out)@ == old(out)@ + highlight_text(*h),
{
    let ghost start = out@;
    match h {
        Highlight::Value(s) => write_style(out, s),
        Highlight::Link(target) => {
            out.append("    link = \"");
            let name = target.to_string();
            out.append(name.as_str());
            out.append("\",\n");
            assert(out@ =~= start + highlight_text(*h));
        },
    }
}

/// Appends one table entry.
fn write_entry(out: &mut String, name: &str, h: &Highlight)
    ensures
        final(out)@ == old(out)@ + entry_text(name@, *h),
{
    let ghost start = out@;
    out.append("  [\"");
    out.append(name);
    out.append("\"] = {\n");
    write_highlight(out, h);
    out.append("  },\n");
    assert(out@ =~= start + entry_text(name@, *h));
}

/// The entries of `table` beside their names, sorted as `sort_by_name` sorts them.
fn sorted_entries(table: &Vec<(HighlightName, Highlight)>) -> (r: Vec<NamedHighlight>)
    ensures
        plain(r@) == sort_by_name(named(table@)),
{
    let mut sorted: Vec<NamedHighlight> = Vec::new();
    let mut i: usize = 0;
    assert(named(table@.take(0)) =~= Seq::<(Seq<char>, Highlight)>::empty());
    assert(plain(sorted@) =~= Seq::<(Seq<char>, Highlight)>::empty());
    while i < table.len()
        invariant
            i <= table@.len(),
            plain(sorted@) == sort_by_name(named(table@.take(i as int))),
        decreases table@.len() - i,
    {
        let name = table[i].0.to_string();
        let h = table[i].1;
        insert_named(&mut sorted, (name, h));
        assert(named(table@.take(i + 1)).drop_last() =~= named(table@.take(i as int)));
        assert(named(table@.take(i + 1)).last() == (table@[i as int].0.rendered(), h));
        i += 1;
    }
    assert(table@.take(i as int) =~= table@);
    sorted
}

/// Appends the Lua module for `table`, with `support` after the table.
pub fn write_module(out: &mut String, table: &Vec<(HighlightName, Highlight)>, support: &str)
    ensures
        final(out)@ == old(out)@ + module_text(table@, support@),
{
    let ghost start = out@;
    let sorted = sorted_entries(table);
    let ghost t = plain(sorted@);
    out.append("local highlights = {\n");
    let ghost head = out@;
    let mut k: usize = 0;
    assert(t.take(0) =~= Seq::<(Seq<char>, Highlight)>::empty());
    assert(head =~= head + entries_text(t.take(0)));
    while k < sorted.len()
        invariant
            k <= sorted@.len(),
            t == plain(sorted@),
            out@ == head + entries_text(t.take(k as int)),
        decreases sorted@.len() - k,
    {
        write_entry(out, sorted[k].0.as_str(), &sorted[k].1);
        assert(t.take(k + 1).drop_last() =~= t.take(k as int));
        assert(t[k as int] == (sorted@[k as int].0@, sorted@[k as int].1));
        assert(out@ =~= head + entries_text(t.take(k + 1)));
        k += 1;
    }
    assert(t.take(k as int) =~= t);
    out.append("}\n\n");
    out.append(support);
    assert(out@ =~= start + module_text(table@, support@));
}

} // verus!
