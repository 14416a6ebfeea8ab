use mammoth_cli::tags::{collect_tags, has_tag, parse_tags, trimmed_pieces};
use mammoth_cli::text::{chars_of, find_from, split_bounds, str_eq, trim_bounds};

fn strings(items: &[&str]) -> Vec<String> {
    items.iter().map(|s| s.to_string()).collect()
}

#[test]
fn tags_are_split_at_commas() {
    assert_eq!(parse_tags("vue,ts,web"), strings(&["vue", "ts", "web"]));
}

#[test]
fn tags_are_trimmed() {
    assert_eq!(parse_tags("  vue ,\tts\n, web app "), strings(&["vue", "ts", "web app"]));
}

#[test]
fn tags_trim_unicode_whitespace() {
    assert_eq!(parse_tags("\u{a0}vue\u{3000},\u{2003}ts"), strings(&["vue", "ts"]));
}

#[test]
fn empty_segments_are_discarded() {
    assert_eq!(parse_tags(",vue,, ,ts,"), strings(&["vue", "ts"]));
}

#[test]
fn empty_string_has_no_tags() {
    assert_eq!(parse_tags(""), Vec::<String>::new());
    assert_eq!(parse_tags("   "), Vec::<String>::new());
    assert_eq!(parse_tags(",,,"), Vec::<String>::new());
}

#[test]
fn repeated_tags_keep_their_first_place() {
    assert_eq!(parse_tags("b,a,b,c,a"), strings(&["b", "a", "c"]));
    assert_eq!(parse_tags("a, a ,a"), strings(&["a"]));
}

#[test]
fn tags_differ_by_case() {
    assert_eq!(parse_tags("Vue,vue"), strings(&["Vue", "vue"]));
}

#[test]
fn tags_may_hold_any_characters() {
    assert_eq!(parse_tags("日本語, émoji 🎨 ,c++"), strings(&["日本語", "émoji 🎨", "c++"]));
}

#[test]
fn pieces_are_trimmed_and_all_of_them_kept() {
    assert_eq!(trimmed_pieces(" a , ,b,,a "), strings(&["a", "", "b", "", "a"]));
    assert_eq!(trimmed_pieces(""), strings(&[""]));
}

#[test]
fn tags_are_collected_from_trimmed_pieces() {
    assert_eq!(collect_tags(&strings(&["a", "", "b", "", "a"])), strings(&["a", "b"]));
    assert_eq!(collect_tags(&strings(&["", ""])), Vec::<String>::new());
    assert_eq!(collect_tags(&Vec::new()), Vec::<String>::new());
    assert_eq!(collect_tags(&strings(&[" a", "a"])), strings(&[" a", "a"]));
}

#[test]
fn has_tag_compares_whole_strings() {
    let tags = strings(&["vue", "ts"]);
    assert!(has_tag(&tags, "ts"));
    assert!(!has_tag(&tags, "t"));
    assert!(!has_tag(&tags, ""));
    assert!(!has_tag(&Vec::new(), "ts"));
}

#[test]
fn str_eq_agrees_with_equality() {
    assert!(str_eq("", ""));
    assert!(str_eq("abc", "abc"));
    assert!(!str_eq("abc", "abd"));
    assert!(!str_eq("abc", "ab"));
    assert!(!str_eq("é", "e"));
    assert!(str_eq("日本", "日本"));
}

#[test]
fn chars_of_lists_the_characters() {
    assert_eq!(chars_of("aé日"), vec!['a', 'é', '日']);
    assert_eq!(chars_of(""), Vec::<char>::new());
}

#[test]
fn find_from_finds_the_next_separator() {
    let chars: Vec<char> = "ab,cd,".chars().collect();
    assert_eq!(find_from(&chars, 0, ','), 2);
    assert_eq!(find_from(&chars, 2, ','), 2);
    assert_eq!(find_from(&chars, 3, ','), 5);
    assert_eq!(find_from(&chars, 6, ','), 6);
}

#[test]
fn split_bounds_gives_one_piece_more_than_separators() {
    let chars: Vec<char> = "ab,,c".chars().collect();
    assert_eq!(split_bounds(&chars, ','), vec![(0, 2), (3, 3), (4, 5)]);
    assert_eq!(split_bounds(&Vec::new(), ','), vec![(0, 0)]);
    let only: Vec<char> = ",".chars().collect();
    assert_eq!(split_bounds(&only, ','), vec![(0, 0), (1, 1)]);
}

#[test]
fn trim_bounds_leaves_inner_whitespace() {
    let chars: Vec<char> = "  a b  ".chars().collect();
    assert_eq!(trim_bounds(&chars, 0, 7), (2, 5));
    assert_eq!(trim_bounds(&chars, 0, 2), (2, 2));
    assert_eq!(trim_bounds(&chars, 3, 4), (4, 4));
    assert_eq!(trim_bounds(&chars, 2, 5), (2, 5));
}
