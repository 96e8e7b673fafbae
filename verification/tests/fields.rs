use gnu_usage::grapheme::count_graphemes;
use gnu_usage::{tab, Opt, OptArg};

fn opt<'s>(short: Option<char>, long: &'s str, arg: Option<&'s str>, doc: &'s str) -> Opt<'s, ()> {
    Opt {
        key: (),
        long,
        short,
        arg: arg.map(|name| OptArg { optional: false, NAME: name }),
        doc,
    }
}

#[test]
fn tab_appends_spaces() {
    let mut f = String::from("ab");
    tab(3, &mut f);
    assert_eq!(f, "ab   ");
    tab(0, &mut f);
    assert_eq!(f, "ab   ");
    tab(1, &mut f);
    assert_eq!(f, "ab    ");
}

#[test]
fn long_length_counts_name_and_argument() {
    assert_eq!(opt(None, "ascii", None, "").long_length(), 5);
    assert_eq!(opt(Some('S'), "suffix", Some("SUF"), "doc").long_length(), 10);
    assert_eq!(opt(None, "", None, "").long_length(), 0);
    assert_eq!(opt(None, "", Some("X"), "").long_length(), 2);
    assert_eq!(opt(None, "x", Some(""), "").long_length(), 2);
}

#[test]
fn long_length_counts_chars_not_bytes() {
    assert_eq!("größe".len(), 7);
    assert_eq!(opt(None, "größe", None, "").long_length(), 5);
    assert_eq!(opt(None, "größe", Some("MAß"), "").long_length(), 9);
}

#[test]
fn long_length_counts_graphemes_not_chars() {
    assert_eq!("g\u{308}".chars().count(), 2);
    assert_eq!(opt(None, "g\u{308}", None, "").long_length(), 1);
    assert_eq!(opt(None, "e\u{301}le\u{300}ve", None, "").long_length(), 5);
    assert_eq!(opt(None, "ab", Some("e\u{301}\u{323}"), "").long_length(), 2 + 1 + 1);
    assert_eq!(opt(None, "x\u{FE0F}", Some("y\u{200D}"), "").long_length(), 1 + 1 + 1);
    assert_eq!(opt(None, "\u{915}\u{93E}", None, "").long_length(), 1);
    assert_eq!(opt(None, "\u{5E9}\u{5B8}\u{5DC}", None, "").long_length(), 2);
    assert_eq!(opt(None, "\u{301}a", None, "").long_length(), 2);
    assert_eq!(opt(None, "\u{301}", Some("\u{301}\u{302}"), "").long_length(), 1 + 1 + 1);
}

#[test]
fn long_length_is_capped() {
    let exact = "n".repeat(256);
    let over = "n".repeat(257);
    let far = "é".repeat(1000);
    assert_eq!(opt(None, &exact, None, "").long_length(), 256);
    assert_eq!(opt(None, &over, None, "").long_length(), 256);
    assert_eq!(opt(None, &far, None, "").long_length(), 256);
    assert_eq!(opt(None, "ab", Some(&over), "").long_length(), 2 + 1 + 256);
    assert_eq!(opt(None, &far, Some(&far), "").long_length(), 513);
}

#[test]
fn long_length_caps_graphemes_not_chars() {
    let under = "e\u{301}".repeat(255);
    let exact = "e\u{301}".repeat(256);
    let over = "e\u{301}\u{323}".repeat(300);
    assert_eq!(opt(None, &under, None, "").long_length(), 255);
    assert_eq!(opt(None, &exact, None, "").long_length(), 256);
    assert_eq!(opt(None, &over, None, "").long_length(), 256);
    assert_eq!(opt(None, &under, Some(&over), "").long_length(), 255 + 1 + 256);
}

#[test]
fn print_short_with_a_short_name() {
    let mut f = String::from(">");
    opt(Some('a'), "ascii", None, "").print_short("-", &mut f);
    assert_eq!(f, ">-a");
    opt(Some('é'), "", None, "").print_short("+/", &mut f);
    assert_eq!(f, ">-a+/é");
    opt(Some('z'), "", None, "").print_short("", &mut f);
    assert_eq!(f, ">-a+/éz");
}

#[test]
fn print_short_without_a_short_name_pads() {
    let mut f = String::from(">");
    opt(None, "rsyncable", None, "").print_short("-", &mut f);
    assert_eq!(f, ">  ");
    let mut f = String::new();
    opt(None, "rsyncable", None, "").print_short("", &mut f);
    assert_eq!(f, " ");
    let mut f = String::new();
    opt(None, "rsyncable", None, "").print_short("+/é", &mut f);
    assert_eq!(f, "    ");
    let mut f = String::new();
    opt(None, "rsyncable", None, "").print_short("-\u{335}", &mut f);
    assert_eq!(f, "  ");
    let mut f = String::new();
    opt(None, "rsyncable", None, "").print_short("+\u{301}/e\u{301}\u{200D}", &mut f);
    assert_eq!(f, "    ");
}

#[test]
fn absent_short_is_as_wide_as_a_present_one() {
    for prefix in ["", "-", "--", "/é/", "-\u{335}", "e\u{301}\u{323}-"] {
        let mut with = String::new();
        opt(Some('a'), "x", None, "").print_short(prefix, &mut with);
        let mut without = String::new();
        opt(None, "x", None, "").print_short(prefix, &mut without);
        let columns = count_graphemes(prefix, usize::MAX) + 1;
        assert_eq!(count_graphemes(&with, usize::MAX), columns);
        assert_eq!(without.chars().count(), columns);
        assert!(without.chars().all(|c| c == ' '));
    }
}

#[test]
fn comma_needs_both_names() {
    let mut f = String::from(">");
    assert!(opt(Some('a'), "ascii", None, "").print_comma_between_short_and_long(&mut f));
    assert_eq!(f, ">, ");
    assert!(!opt(None, "ascii", None, "doc").print_comma_between_short_and_long(&mut f));
    assert_eq!(f, ">, ");
    assert!(!opt(Some('a'), "", None, "doc").print_comma_between_short_and_long(&mut f));
    assert_eq!(f, ">, ");
    assert!(!opt(None, "", Some("X"), "doc").print_comma_between_short_and_long(&mut f));
    assert_eq!(f, ">, ");
}

#[test]
fn print_long_writes_prefix_name_and_argument() {
    let mut f = String::from(">");
    opt(Some('a'), "ascii", None, "doc").print_long("--", &mut f);
    assert_eq!(f, ">--ascii");
    let mut f = String::new();
    opt(Some('S'), "suffix", Some("SUF"), "").print_long("--", &mut f);
    assert_eq!(f, "--suffix=SUF");
    let mut f = String::new();
    opt(None, "", None, "").print_long("--", &mut f);
    assert_eq!(f, "--");
    let mut f = String::new();
    opt(None, "", Some("N"), "").print_long("", &mut f);
    assert_eq!(f, "=N");
}
