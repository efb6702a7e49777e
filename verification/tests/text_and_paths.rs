use fischl::paths::{get_full_extension, loader_dll_path, replace_str, saved_archive_name};
use fischl::text::{
    find_char, parse_u64, rfind_char, rfind_path_sep, split_lines, str_contains, str_ends_with,
    str_eq, str_starts_with, to_ascii_lowercase, to_ascii_uppercase, trim, trim_end_matches_char,
    u64_to_decimal,
};

#[test]
fn string_comparisons() {
    assert!(str_eq("abc", "abc"));
    assert!(!str_eq("abc", "abd"));
    assert!(str_contains("hello world", "o w"));
    assert!(!str_contains("hello", "world"));
    assert!(str_contains("anything", ""));
    assert!(str_starts_with("diff_12", "diff_"));
    assert!(!str_starts_with("dif", "diff_"));
    assert!(str_ends_with("game.krzip", ".krzip"));
    assert!(!str_ends_with("zip", ".krzip"));
}

#[test]
fn ascii_case_folding() {
    assert_eq!(to_ascii_lowercase("D41D8CD9-Éx"), "d41d8cd9-Éx");
    assert_eq!(to_ascii_uppercase("genshin_impact"), "GENSHIN_IMPACT");
}

#[test]
fn parsing_numbers_like_str_parse() {
    assert_eq!(parse_u64("33466104"), Some(33466104));
    assert_eq!(parse_u64("+7"), Some(7));
    assert_eq!(parse_u64("0"), Some(0));
    assert_eq!(parse_u64("18446744073709551615"), Some(u64::MAX));
    assert_eq!(parse_u64("18446744073709551616"), None);
    assert_eq!(parse_u64(""), None);
    assert_eq!(parse_u64("+"), None);
    assert_eq!(parse_u64("-1"), None);
    assert_eq!(parse_u64("12a"), None);
    assert_eq!(parse_u64(" 12"), None);
    for s in ["1", "42", "0007", "123456789"] {
        assert_eq!(parse_u64(s), s.parse::<u64>().ok());
    }
}

#[test]
fn decimal_writing_round_trips() {
    assert_eq!(u64_to_decimal(0), "0");
    assert_eq!(u64_to_decimal(1234), "1234");
    assert_eq!(u64_to_decimal(u64::MAX), "18446744073709551615");
    for n in [0u64, 9, 10, 99, 100, 65535, 1 << 40] {
        assert_eq!(parse_u64(&u64_to_decimal(n)), Some(n));
    }
}

#[test]
fn searching_characters() {
    assert_eq!(rfind_path_sep("a/b\\c"), Some(3));
    assert_eq!(rfind_path_sep("abc"), None);
    assert_eq!(rfind_char("a.b.c", '.'), Some(3));
    assert_eq!(find_char("a.b.c", '.'), Some(1));
    assert_eq!(find_char("abc", '.'), None);
}

#[test]
fn trimming() {
    assert_eq!(trim("  a b \t\n"), "a b");
    assert_eq!(trim("\u{3000}x\u{a0}"), "x");
    assert_eq!(trim("   "), "");
    assert_eq!(trim_end_matches_char("https://host///", '/'), "https://host");
}

#[test]
fn splitting_lines_like_str_lines() {
    let text = "one\r\ntwo\n\nthree\r";
    let ours = split_lines(text);
    let std_lines: Vec<String> = text.lines().map(|l| l.to_string()).collect();
    assert_eq!(ours, std_lines);
    assert_eq!(ours, vec!["one", "two", "", "three\r"]);
    assert_eq!(split_lines(""), Vec::<String>::new());
    assert_eq!(split_lines("a\n"), vec!["a"]);
}

#[test]
fn full_extensions() {
    assert_eq!(get_full_extension("dxvk-2.3.tar.gz"), Some("tar.gz"));
    assert_eq!(get_full_extension("/tmp/proton/GE-Proton9.tar.xz"), Some("tar.xz"));
    assert_eq!(get_full_extension("C:\\games\\patch.krzip"), Some("krzip"));
    assert_eq!(get_full_extension("dir.d/archive.7z"), Some("7z"));
    assert_eq!(get_full_extension("dir.d/README"), None);
    assert_eq!(get_full_extension("trailing."), Some(""));
}

#[test]
fn saved_archive_names_keep_the_served_extension() {
    assert_eq!(saved_archive_name("dxvk", "dxvk-2.3.tar.gz"), "dxvk.tar.gz");
    assert_eq!(saved_archive_name("runner", "https://host/GE-Proton9-1.tar.xz"), "runner.tar.xz");
    assert_eq!(saved_archive_name("runner", "wine.zip"), "runner.zip");
}

#[test]
fn replacing_like_str_replace() {
    assert_eq!(replace_str("aaaa", "aa", "b"), "aaaa".replace("aa", "b"));
    assert_eq!(replace_str("x.exe.exe", ".exe", ".dll"), "x.dll.dll");
    assert_eq!(replace_str("none", "zz", "y"), "none");
    assert_eq!(loader_dll_path("/games/xxmi/3dmloader.exe"), "/games/xxmi/3dmloader.dll");
}
