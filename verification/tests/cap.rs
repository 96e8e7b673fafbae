use gnu_usage::{Args, Opt};

fn args<'o, 's>(opts: &'o [Opt<'s, u8>]) -> Args<'o, 's, u8> {
    Args {
        opts,
        prog: "p",
        OPTION: "O",
        Usage: "U",
        Mandatory_arguments_to_long_options_are_mandatory_for_short_options_too_: "M",
        newline: "\n",
        Doc_: "",
        short_opt: "-",
        long_opt: "--",
    }
}

#[test]
fn a_name_at_the_cap_is_still_aligned() {
    let wide = "w".repeat(256);
    let opts = [
        Opt { key: 0, long: &wide, short: None, arg: None, doc: "wide" },
        Opt { key: 1, long: "ab", short: Some('a'), arg: None, doc: "narrow" },
    ];
    let a = args(&opts);
    assert_eq!(a.column_width(), 256);
    let expected = [
        "U: p [O]...\n\n",
        "      --",
        &wide,
        " wide\n",
        "  -a, --ab",
        &" ".repeat(254),
        " narrow\n",
    ]
    .concat();
    assert_eq!(a.usage().to_string(), expected);
}

#[test]
fn a_name_over_the_cap_is_printed_whole_and_measured_at_the_cap() {
    let wide = "w".repeat(300);
    let opts = [
        Opt { key: 0, long: &wide, short: None, arg: None, doc: "wide" },
        Opt { key: 1, long: "ab", short: Some('a'), arg: None, doc: "narrow" },
    ];
    let a = args(&opts);
    assert_eq!(a.column_width(), 256);
    let text = a.usage().to_string();
    let expected = [
        "U: p [O]...\n\n",
        "      --",
        &wide,
        " wide\n",
        "  -a, --ab",
        &" ".repeat(254),
        " narrow\n",
    ]
    .concat();
    assert_eq!(text, expected);
    let lines: Vec<&str> = text.split('\n').collect();
    assert_eq!(lines[2].find("wide"), Some(8 + 300 + 1));
    assert_eq!(lines[3].find("narrow"), Some(8 + 256 + 1));
}

#[test]
fn the_cap_counts_graphemes() {
    let wide = "w\u{302}".repeat(256);
    let opts = [
        Opt { key: 0, long: &wide, short: None, arg: None, doc: "wide" },
        Opt { key: 1, long: "ab", short: Some('a'), arg: None, doc: "narrow" },
    ];
    let a = args(&opts);
    assert_eq!(a.column_width(), 256);
    let expected = [
        "U: p [O]...\n\n",
        "      --",
        &wide,
        " wide\n",
        "  -a, --ab",
        &" ".repeat(254),
        " narrow\n",
    ]
    .concat();
    assert_eq!(a.usage().to_string(), expected);
}
