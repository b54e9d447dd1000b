use catalog_lib::text::{
    append_chars, append_str, chars_equal, chars_of, has_run, has_suffix, occurs_at_index,
    str_equal, string_of, to_lower_char, to_lowercase,
};

fn chars(s: &str) -> Vec<char> {
    s.chars().collect()
}

#[test]
fn strings_and_characters_convert_both_ways() {
    assert_eq!(chars_of("aé😀"), vec!['a', 'é', '😀']);
    assert_eq!(chars_of(""), Vec::<char>::new());
    assert_eq!(string_of(&vec!['a', 'é', '😀']), "aé😀");
    assert_eq!(string_of(&Vec::new()), "");
    let mut out = chars("ab");
    append_chars(&mut out, &chars("cd"));
    append_str(&mut out, "é!");
    assert_eq!(string_of(&out), "abcdé!");
}

#[test]
fn texts_are_compared_character_by_character() {
    assert!(str_equal("", ""));
    assert!(str_equal("path", "path"));
    assert!(!str_equal("path", "Path"));
    assert!(!str_equal("path", "pat"));
    assert!(!str_equal("pat", "path"));
    assert!(chars_equal(&chars("aé"), &chars("aé")));
    assert!(!chars_equal(&chars("aé"), &chars("ae")));
}

#[test]
fn only_ascii_capitals_are_folded() {
    assert_eq!(to_lower_char('A'), 'a');
    assert_eq!(to_lower_char('Z'), 'z');
    assert_eq!(to_lower_char('a'), 'a');
    assert_eq!(to_lower_char('@'), '@');
    assert_eq!(to_lower_char('['), '[');
    assert_eq!(to_lower_char('É'), 'É');
    assert_eq!(to_lower_char('\u{212a}'), '\u{212a}');
    assert_eq!(string_of(&to_lowercase(&chars("InvColPC.EXE É"))), "invcolpc.exe É");
}

#[test]
fn runs_are_found_where_they_stand() {
    let s = chars("my-invc-build.exe");
    assert!(occurs_at_index(&s, &chars("invc"), 3));
    assert!(!occurs_at_index(&s, &chars("invc"), 2));
    assert!(!occurs_at_index(&s, &chars(".exe"), 14));
    assert!(occurs_at_index(&s, &chars(".exe"), 13));
    assert!(occurs_at_index(&s, &chars(""), 17));
    assert!(!occurs_at_index(&s, &chars(""), 18));
    assert!(has_suffix(&s, &chars(".exe")));
    assert!(has_suffix(&s, &chars("")));
    assert!(has_suffix(&s, &s));
    assert!(!has_suffix(&s, &chars(".ex")));
    assert!(!has_suffix(&chars("exe"), &chars(".exe")));
    assert!(has_run(&s, &chars("invc")));
    assert!(has_run(&s, &chars("my")));
    assert!(has_run(&s, &chars("exe")));
    assert!(has_run(&s, &chars("")));
    assert!(has_run(&chars(""), &chars("")));
    assert!(!has_run(&s, &chars("invcolpc")));
    assert!(!has_run(&chars("inv"), &chars("invc")));
    assert!(has_run(&chars("aab"), &chars("ab")));
}
