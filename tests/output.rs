use std::collections::HashMap;
use syntinct::{Color, NeovimTheme, Shade, SyntarkTheme, ThematicTheme};

fn marker(c: Color, s: Shade) -> Color {
    match s {
        Shade::Darken(950) => Color::new(c.red / 20, c.green / 20, c.blue / 20),
        _ => Color::new(1, 2, 3),
    }
}

const SUPPORT: &str = "for name, h in pairs(highlights) do\n  vim.api.nvim_set_hl(0, name, h)\nend\n";

fn keys(module: &str) -> Vec<String> {
    module
        .lines()
        .filter_map(|l| l.strip_prefix("  [\"").and_then(|r| r.strip_suffix("\"] = {")))
        .map(String::from)
        .collect()
}

fn links(module: &str) -> HashMap<String, String> {
    let mut out = HashMap::new();
    let mut current = String::new();
    for line in module.lines() {
        if let Some(k) = line.strip_prefix("  [\"").and_then(|r| r.strip_suffix("\"] = {")) {
            current = k.to_string();
        }
        if let Some(t) = line.strip_prefix("    link = \"").and_then(|r| r.strip_suffix("\",")) {
            out.insert(current.clone(), t.to_string());
        }
    }
    out
}

#[test]
fn resolving_twice_gives_the_same_bytes() {
    let a = NeovimTheme::new(&ThematicTheme::dark(), &marker).to_lua_module(SUPPORT);
    let b = NeovimTheme::new(&ThematicTheme::dark(), &marker).to_lua_module(SUPPORT);
    assert_eq!(a, b);
    let c = NeovimTheme::new(&SyntarkTheme::new(&marker), &marker).to_lua_module(SUPPORT);
    let d = NeovimTheme::new(&SyntarkTheme::new(&marker), &marker).to_lua_module(SUPPORT);
    assert_eq!(c, d);
}

#[test]
fn entries_come_sorted_by_name() {
    let module = NeovimTheme::new(&ThematicTheme::light(), &marker).to_lua_module(SUPPORT);
    let names = keys(&module);
    assert_eq!(names.len(), 162);
    for pair in names.windows(2) {
        assert!(pair[0] <= pair[1], "{} before {}", pair[0], pair[1]);
    }
    assert_eq!(names[0], "@lsp.type.class");
    assert_eq!(names[names.len() - 1], "markdownLinkText");
}

#[test]
fn every_link_target_is_a_key() {
    let module = NeovimTheme::new(&ThematicTheme::dark(), &marker).to_lua_module(SUPPORT);
    let names = keys(&module);
    for (from, to) in links(&module) {
        assert!(names.contains(&to), "{from} links to missing {to}");
    }
}

#[test]
fn links_reach_a_style() {
    let module = NeovimTheme::new(&ThematicTheme::dark(), &marker).to_lua_module(SUPPORT);
    let links = links(&module);
    for name in keys(&module) {
        let mut at = name.clone();
        let mut steps = 0;
        while let Some(next) = links.get(&at) {
            at = next.clone();
            steps += 1;
            assert!(steps <= 2, "{name} does not settle");
        }
    }
}

#[test]
fn module_layout() {
    let module = NeovimTheme::new(&ThematicTheme::dark(), &marker).to_lua_module(SUPPORT);
    assert!(module.starts_with("local highlights = {\n"));
    assert!(module.ends_with(&format!("}}\n\n{SUPPORT}")));
    assert!(module.contains("  [\"Normal\"] = {\n    fg = \"#d8d8d8\",\n    bg = \"#181818\",\n    reverse = false,\n  },\n"));
    assert!(module.contains("  [\"EndOfBuffer\"] = {\n    link = \"NonText\",\n  },\n"));
    assert!(module.contains("  [\"Cursor\"] = {\n    reverse = true,\n  },\n"));
    assert!(module.contains(
        "  [\"DiagnosticUnderlineError\"] = {\n    sp = \"#dc143c\",\n    undercurl = true,\n    reverse = false,\n  },\n"
    ));
    assert!(module.contains("  [\"CmpItemKindEnumMember\"] = {\n    link = \"@lsp.type.enumMember\",\n  },\n"));
    assert!(module.contains("  [\"DiagnosticVirtualTextError\"] = {\n    fg = \"#dc143c\",\n    bg = \"#0b0103\",\n"));
}

#[test]
fn write_appends_to_existing_text() {
    let table = NeovimTheme::new(&ThematicTheme::dark(), &marker);
    let mut out = String::from("-- generated\n");
    table.write(&mut out, "");
    assert_eq!(out, format!("-- generated\n{}", table.to_lua_module("")));
}
