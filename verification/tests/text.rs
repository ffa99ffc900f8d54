use hn_daily::decimal::decimal_string;
use hn_daily::text::{
    chars_of, clean_content, is_whitespace, join_fragments, normalize_text, plain_text, TextPolicy,
};

#[test]
fn collapse_runs_of_whitespace() {
    assert_eq!(normalize_text("  a \t\n b  ", TextPolicy::Collapse), "a b");
    assert_eq!(normalize_text("one", TextPolicy::Collapse), "one");
    assert_eq!(normalize_text("", TextPolicy::Collapse), "");
    assert_eq!(normalize_text(" \n\t ", TextPolicy::Collapse), "");
    assert_eq!(normalize_text("a\u{a0}b\u{3000}c\u{2003}d", TextPolicy::Collapse), "a b c d");
}

#[test]
fn whitespace_is_what_std_calls_whitespace() {
    let mut n: u32 = 0;
    while n <= 0x10FFFF {
        if let Some(c) = char::from_u32(n) {
            assert_eq!(is_whitespace(c), c.is_whitespace(), "U+{:04X}", n);
        }
        n += 1;
    }
}

#[test]
fn collapse_agrees_with_split_whitespace() {
    let inputs = ["  lead", "trail  ", "a  b   c", "\ta\nb\r\nc ", "x", " ", "héllo  wörld"];
    for s in inputs {
        let expected = s.split_whitespace().collect::<Vec<_>>().join(" ");
        assert_eq!(normalize_text(s, TextPolicy::Collapse), expected);
    }
}

#[test]
fn soft_break_follows_a_long_last_token() {
    let long = "a".repeat(31);
    let exact = "b".repeat(30);
    assert_eq!(normalize_text(&long, TextPolicy::SoftBreak), format!("{} ", long));
    assert_eq!(normalize_text(&exact, TextPolicy::SoftBreak), exact);
    assert_eq!(
        normalize_text(&format!("x  {}   y", long), TextPolicy::SoftBreak),
        format!("x {} y", long)
    );
    assert_eq!(
        normalize_text(&format!("{} {}  ", exact, long), TextPolicy::SoftBreak),
        format!("{} {} ", exact, long)
    );
    assert_eq!(normalize_text(&long, TextPolicy::Collapse), long);
}

#[test]
fn normalization_is_idempotent() {
    let long = "z".repeat(40);
    let inputs = [
        String::from("  a \t b\n\nc  "),
        String::from(""),
        format!("{}   ", long),
        format!(" w {} v ", long),
        String::from("already normal"),
    ];
    for policy in [TextPolicy::Collapse, TextPolicy::SoftBreak] {
        for s in &inputs {
            let once = normalize_text(s, policy);
            let twice = normalize_text(&once, policy);
            assert_eq!(once, twice);
        }
    }
}

#[test]
fn normalization_keeps_the_words() {
    let s = " The  quick\tbrown\n fox ";
    let out = normalize_text(s, TextPolicy::Collapse);
    let before: Vec<&str> = s.split_whitespace().collect();
    let after: Vec<&str> = out.split(' ').collect();
    assert_eq!(before, after);
}

#[test]
fn chars_of_gives_every_character() {
    assert_eq!(chars_of("héy"), vec!['h', 'é', 'y']);
    assert_eq!(chars_of(""), Vec::<char>::new());
}

#[test]
fn fragments_are_joined_with_one_space() {
    assert_eq!(join_fragments(&vec![]), "");
    assert_eq!(join_fragments(&vec![String::from("a")]), "a");
    assert_eq!(
        join_fragments(&vec![String::from("a"), String::from(" b "), String::from("c")]),
        "a  b  c"
    );
}

#[test]
fn plain_text_joins_then_normalizes() {
    let parts = vec![String::from("Hello "), String::from("\n world"), String::from("!")];
    assert_eq!(plain_text(&parts, TextPolicy::Collapse), "Hello world !");
}

#[test]
fn clean_content_reads_the_text_nodes() {
    let html = "<div><p>Hello   <b>big</b></p>\n<p>world</p></div>";
    assert_eq!(clean_content(html, TextPolicy::Collapse), "Hello big world");
    assert_eq!(clean_content("", TextPolicy::Collapse), "");
}

#[test]
fn decimal_numerals() {
    assert_eq!(decimal_string(0), "0");
    assert_eq!(decimal_string(7), "7");
    assert_eq!(decimal_string(10), "10");
    assert_eq!(decimal_string(8863), "8863");
    assert_eq!(decimal_string(u64::MAX), "18446744073709551615");
}
