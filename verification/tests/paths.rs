use pdmake::paths::{
    extension_of, join, normalize_separators, parent_dir, rfind_char, strip_prefix, with_extension,
};

#[test]
fn normalizes_backslashes() {
    assert_eq!(normalize_separators("a\\b\\c.lua"), "a/b/c.lua");
    assert_eq!(normalize_separators("already/fine.lua"), "already/fine.lua");
    assert_eq!(normalize_separators(""), "");
}

#[test]
fn replaces_extension_preserving_stem_and_directories() {
    assert_eq!(with_extension("a/b/c.plua", "lua"), "a/b/c.lua");
    assert_eq!(with_extension("img.ase", "png"), "img.png");
    assert_eq!(with_extension("sprites/hero.aseprite", "png"), "sprites/hero.png");
    assert_eq!(with_extension("a.b/c", "lua"), "a.b/c.lua");
    assert_eq!(with_extension("noext", "lua"), "noext.lua");
    assert_eq!(with_extension("dir/.hidden", "lua"), "dir/.hidden.lua");
    assert_eq!(with_extension("x.plua", "meta.lua"), "x.meta.lua");
}

#[test]
fn extension_of_final_segment_only() {
    assert_eq!(extension_of("a/b/c.plua"), Some("plua".to_string()));
    assert_eq!(extension_of("a/b.tar.gz"), Some("gz".to_string()));
    assert_eq!(extension_of("a.b/c"), None);
    assert_eq!(extension_of(".gitignore"), None);
    assert_eq!(extension_of("plain"), None);
}

#[test]
fn parent_and_join() {
    assert_eq!(parent_dir("a/b/c.lua"), Some("a/b".to_string()));
    assert_eq!(parent_dir("c.lua"), None);
    assert_eq!(join("target/debug", "a/b.lua"), "target/debug/a/b.lua");
}

#[test]
fn strips_source_root_prefix() {
    assert_eq!(strip_prefix("src/a/b.lua", "src"), Some("a/b.lua".to_string()));
    assert_eq!(strip_prefix("src/a/b.lua", "other"), None);
    assert_eq!(strip_prefix("srcx/a.lua", "src"), None);
    assert_eq!(strip_prefix("src", "src"), None);
    assert_eq!(strip_prefix("anything/at/all", ""), Some("anything/at/all".to_string()));
}

#[test]
fn finds_last_occurrence() {
    assert_eq!(rfind_char("a.b.c", '.'), Some(3));
    assert_eq!(rfind_char("abc", '.'), None);
}
