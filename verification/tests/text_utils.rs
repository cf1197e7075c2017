use rustitch::tasks::normalize_passthrough_args;
use rustitch::text::{
    join_strings, join_url_path, parse_u32, push_decimal, split_words, trim_end_matches_char,
    trim_start_matches_char,
};

#[test]
fn split_words_drops_all_white_space() {
    assert_eq!(split_words("chat:read chat:edit"), vec!["chat:read", "chat:edit"]);
    assert_eq!(split_words("  a\t\nb  c "), vec!["a", "b", "c"]);
    assert!(split_words("   ").is_empty());
    assert!(split_words("").is_empty());
    assert_eq!(split_words("x\u{3000}y"), vec!["x", "y"]);
}

#[test]
fn join_puts_separator_between_items() {
    let items = vec![String::from("a"), String::from("b"), String::from("c")];
    assert_eq!(join_strings(&items, " "), "a b c");
    assert_eq!(join_strings(&Vec::new(), " "), "");
    assert_eq!(join_strings(&vec![String::from("x")], ", "), "x");
}

#[test]
fn decimal_rendering() {
    for n in [0u64, 7, 10, 400, 65535, u64::MAX] {
        let mut s = String::from(">");
        push_decimal(&mut s, n);
        assert_eq!(s, format!(">{n}"));
    }
}

#[test]
fn u32_parsing_matches_std() {
    for text in ["0", "799", "+12", "4294967295", "4294967296", "", "+", "-1", "oops", " 1", "007"] {
        assert_eq!(parse_u32(text), text.parse::<u32>().ok(), "input {text:?}");
    }
}

#[test]
fn url_join_trims_slashes() {
    assert_eq!(join_url_path("https://id.twitch.tv/oauth2/", "/token"), "https://id.twitch.tv/oauth2/token");
    assert_eq!(join_url_path("http://x//", "//a/b"), "http://x/a/b");
    assert_eq!(join_url_path("base", "path"), "base/path");
    assert_eq!(trim_end_matches_char("a///", '/'), "a");
    assert_eq!(trim_start_matches_char("///a/", '/'), "a/");
}

#[test]
fn passthrough_args_drop_leading_separator() {
    let args = vec![String::from("--"), String::from("--release")];
    assert_eq!(normalize_passthrough_args(args), vec![String::from("--release")]);
    let args = vec![String::from("-p"), String::from("--")];
    assert_eq!(normalize_passthrough_args(args.clone()), args);
    assert!(normalize_passthrough_args(Vec::new()).is_empty());
}
