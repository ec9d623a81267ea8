use anime_scraper::normalize::{
    absolute_url, anime_record, default_title, episode_number, episode_record, episode_title,
    label_title, record_id,
};
use anime_scraper::number::{decimal, parse_u32};
use anime_scraper::text::{
    after_last, chars_of, first_index, has_name, has_prefix, is_separator, is_space,
    last_segment, replace_char, same_chars, slice_of, string_of, strip_leading, trim,
};

fn cs(s: &str) -> Vec<char> {
    s.chars().collect()
}

#[test]
fn chars_round_trip() {
    assert_eq!(chars_of("héllo"), cs("héllo"));
    assert_eq!(string_of(&cs("héllo")), "héllo");
    assert_eq!(chars_of(""), Vec::<char>::new());
    assert_eq!(slice_of(&cs("abcdef"), 2, 4), cs("cd"));
}

#[test]
fn trim_matches_std() {
    for s in ["", "  ", " a b ", "\t\n x\u{00A0}", "\u{3000}y\u{2003}", "plain"] {
        assert_eq!(string_of(&trim(&cs(s))), s.trim());
    }
    assert!(is_space(' '));
    assert!(is_space('\u{2028}'));
    assert!(!is_space('a'));
    assert!(!is_space('\u{200B}'));
}

#[test]
fn prefix_and_strip() {
    assert!(has_prefix(&cs("https://x"), &cs("https://")));
    assert!(!has_prefix(&cs("http"), &cs("https://")));
    assert!(has_prefix(&cs("abc"), &cs("")));
    assert_eq!(strip_leading(&cs("ababc"), &cs("ab")), cs("c"));
    assert_eq!(strip_leading(&cs("abc"), &cs("")), cs("abc"));
    assert_eq!(strip_leading(&cs("xab"), &cs("ab")), cs("xab"));
}

#[test]
fn indexes_of_characters() {
    assert_eq!(first_index(&cs("a/b/c"), '/'), 1);
    assert_eq!(first_index(&cs("abc"), '/'), 3);
    assert_eq!(after_last(&cs("a/b/c"), '/'), 4);
    assert_eq!(after_last(&cs("abc"), '/'), 0);
    assert_eq!(replace_char(&cs("a*b*c"), '*', '/'), cs("a/b/c"));
}

#[test]
fn last_segment_of_paths() {
    assert_eq!(string_of(&last_segment(&cs("/media/naruto/12"))), "12");
    assert_eq!(string_of(&last_segment(&cs("/media/naruto/12///"))), "12");
    assert_eq!(string_of(&last_segment(&cs("naruto"))), "naruto");
    assert_eq!(string_of(&last_segment(&cs("///"))), "");
    assert_eq!(string_of(&last_segment(&cs(""))), "");
    assert_eq!(record_id("https://animeav1.com/media/one-piece"), "one-piece");
}

#[test]
fn parse_u32_matches_std() {
    for s in [
        "", "+", "0", "7", "07", "+7", "-7", "4294967295", "4294967296", "99999999999999999999",
        "12a", " 7", "7 ", "++7", "٣",
    ] {
        assert_eq!(parse_u32(&cs(s)), s.parse::<u32>().ok(), "input {:?}", s);
    }
}

#[test]
fn decimal_matches_std() {
    for n in [0u32, 1, 9, 10, 11, 99, 100, 12345, 4294967295] {
        assert_eq!(string_of(&decimal(n)), n.to_string());
        assert_eq!(parse_u32(&decimal(n)), Some(n));
    }
}

#[test]
fn absolute_url_keeps_or_builds() {
    assert_eq!(absolute_url("animeav1.com", "/media/x/1"), "https://animeav1.com/media/x/1");
    assert_eq!(absolute_url("animeav1.com", "https://other.tv/a"), "https://other.tv/a");
    assert_eq!(absolute_url("animeav1.com", "http://other.tv/a"), "http://other.tv/a");
    assert_eq!(absolute_url("animeav1.com", ""), "https://animeav1.com");
}

#[test]
fn anime_record_with_fallbacks() {
    let a = anime_record("animeav1.com", "/media/naruto", None, None);
    assert_eq!(a.id, "naruto");
    assert_eq!(a.title, "Untitled");
    assert_eq!(a.typ, "Unknown");
    assert_eq!(a.url, "https://animeav1.com/media/naruto");
    let b = anime_record(
        "animeav1.com",
        "/media/naruto/",
        Some("Naruto".to_string()),
        Some("TV Anime".to_string()),
    );
    assert_eq!(b.id, "naruto");
    assert_eq!(b.title, "Naruto");
    assert_eq!(b.typ, "TV Anime");
}

#[test]
fn episode_number_from_href() {
    assert_eq!(episode_number("/media/naruto/12", Some("99")), 12);
    assert_eq!(episode_number("/media/naruto/12/", None), 12);
}

#[test]
fn episode_number_falls_back_to_label() {
    assert_eq!(episode_number("/media/naruto/special", Some("7")), 7);
    assert_eq!(episode_number("/media/naruto/special", Some("  7\n")), 7);
    assert_eq!(episode_number("/media/naruto/special", Some("seven")), 0);
}

#[test]
fn episode_without_number_is_zero_and_titled_episode() {
    assert_eq!(episode_number("/media/naruto/special", None), 0);
    let e = episode_record("animeav1.com", "/media/naruto/special", None, None).unwrap();
    assert_eq!(e.number, 0);
    assert_eq!(e.title, "Episode");
    assert_eq!(e.id, "special");
}

#[test]
fn title_splits_off_trailing_number() {
    assert_eq!(episode_title(Some("Watch Show Name 7"), 7), "Show Name");
    assert_eq!(string_of(&label_title("  Watch Show Name 07 ", 7)), "Show Name");
}

#[test]
fn title_without_trailing_number_is_kept() {
    assert_eq!(episode_title(Some("Watch Show Name"), 7), "Show Name");
    assert_eq!(episode_title(Some("Watch Show Name 8"), 7), "Show Name 8");
    assert_eq!(episode_title(Some("Show Name 7"), 7), "Show Name");
    assert_eq!(episode_title(Some("Single"), 7), "Single");
}

#[test]
fn title_is_synthesized_when_label_is_missing_or_empty() {
    assert_eq!(episode_title(None, 7), "Episode 7");
    assert_eq!(episode_title(None, 0), "Episode");
    assert_eq!(episode_title(Some("   "), 12), "Episode 12");
    assert_eq!(episode_title(Some("Watch "), 3), "Watch");
    assert_eq!(default_title(4294967295), "Episode 4294967295");
}

#[test]
fn episode_record_needs_a_link() {
    assert!(episode_record("animeav1.com", "", Some("3"), Some("Watch X 3")).is_none());
    let e = episode_record("animeav1.com", "/media/x/3", Some("3"), Some("Watch X 3")).unwrap();
    assert_eq!(e.id, "3");
    assert_eq!(e.number, 3);
    assert_eq!(e.title, "X");
    assert_eq!(e.url, "https://animeav1.com/media/x/3");
}

#[test]
fn names_of_a_class_list() {
    assert!(has_name(&cs("one two three"), &cs("two")));
    assert!(has_name(&cs("one two three"), &cs("three")));
    assert!(has_name(&cs("one"), &cs("one")));
    assert!(!has_name(&cs("one two three"), &cs("tw")));
    assert!(!has_name(&cs("one two three"), &cs("one two")));
    assert!(!has_name(&cs(""), &cs("")));
    assert!(!has_name(&cs("   "), &cs("x")));
    assert!(has_name(&cs("a\u{00A0}b c"), &cs("a\u{00A0}b")));
    assert!(is_separator('\t') && is_separator(' ') && is_separator('\u{0C}'));
    assert!(!is_separator('\u{0B}') && !is_separator('\u{00A0}'));
    assert!(same_chars(&cs("abc"), &cs("abc")));
    assert!(!same_chars(&cs("abc"), &cs("abd")));
    assert!(!same_chars(&cs("abc"), &cs("ab")));
    assert!(same_chars(&cs(""), &cs("")));
}

#[test]
fn white_space_is_what_std_says() {
    let mut code: u32 = 0;
    while code <= 0x10FFFF {
        if let Some(c) = char::from_u32(code) {
            assert_eq!(is_space(c), c.is_whitespace(), "code {:#x}", code);
        }
        code += 1;
    }
}

#[test]
fn segments_hold_no_slash() {
    for s in ["/a/b/c", "a//b//", "https://x.y/z/", "////", "", "no-slash"] {
        let seg = string_of(&last_segment(&cs(s)));
        assert!(!seg.contains('/'));
        assert_eq!(seg.is_empty(), s.chars().all(|c| c == '/'));
    }
}
