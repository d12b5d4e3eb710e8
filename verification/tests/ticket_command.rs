use regex::Regex;
use webserver::ticket_command::parse_ticket_command;

fn pattern() -> Regex {
    Regex::new(r"(?s)!ticket\s+(.*?)\s*\+++\s*(.*?)\s*\+++\s*(.*)").unwrap()
}

fn reference_with(re: &Regex, text: &str) -> Option<(String, String, String)> {
    re.captures(text)
        .map(|c| (c[1].to_string(), c[2].to_string(), c[3].to_string()))
}

fn reference(text: &str) -> Option<(String, String, String)> {
    reference_with(&pattern(), text)
}

fn ours(text: &str) -> Option<(String, String, String)> {
    parse_ticket_command(text).map(|c| (c.heading, c.body, c.assignee))
}

#[test]
fn template_example_parses() {
    let text = "!ticket\nYour Heading Here\n+++\nYour detailed description goes here.\nIt can span multiple lines.\n+++\nJohn Doe";
    let c = parse_ticket_command(text).unwrap();
    assert_eq!(c.heading, "Your Heading Here");
    assert_eq!(c.body, "Your detailed description goes here.\nIt can span multiple lines.");
    assert_eq!(c.assignee, "John Doe");
}

#[test]
fn missing_second_separator_does_not_parse() {
    assert!(parse_ticket_command("!ticket heading + body").is_none());
    assert!(parse_ticket_command("!ticket").is_none());
    assert!(parse_ticket_command("").is_none());
    assert!(parse_ticket_command("!ticket+++a+++b").is_none());
}

#[test]
fn one_plus_run_can_serve_as_both_separators() {
    let c = parse_ticket_command("!ticket heading +++ body").unwrap();
    assert_eq!(c.heading, "heading");
    assert_eq!(c.body, "");
    assert_eq!(c.assignee, "body");
}

#[test]
fn single_long_separator_splits_in_two() {
    let c = parse_ticket_command("!ticket h ++++ x").unwrap();
    assert_eq!(c.heading, "h");
    assert_eq!(c.body, "");
    assert_eq!(c.assignee, "x");
}

#[test]
fn assignee_keeps_trailing_white_space() {
    let c = parse_ticket_command("!ticket h\n+++\nb\n+++\n  Jane Roe \n").unwrap();
    assert_eq!(c.assignee, "Jane Roe \n");
}

#[test]
fn leftmost_command_wins() {
    let c = parse_ticket_command("say !ticket a + b + c !ticket d + e + f").unwrap();
    assert_eq!(c.heading, "a");
    assert_eq!(c.body, "b");
    assert_eq!(c.assignee, "c !ticket d + e + f");
}

#[test]
fn agrees_with_the_pattern_on_handpicked_texts() {
    let texts = [
        "!ticket a+b+c",
        "!ticket a +b+ c",
        "!ticket\n\n+++\n\n+++\n\n",
        "!ticket  ++",
        "!ticket  +",
        "!ticket a ++ b",
        "!ticket a +++ b ++ c + d",
        "!ticket\u{a0}x\u{2003}+\u{3000}y\u{85}+z",
        "!ticketx a+b+c !ticket q+r+s",
        "!!ticket a + b + c",
        "!ticket +a+",
        "!ticket a b c + d e f + g h i",
        "xx!ticket\ta\t+\tb\t+\tc",
        "!ticket ä+ö+ü",
    ];
    for t in texts {
        assert_eq!(ours(t), reference(t), "text {:?}", t);
    }
}

#[test]
fn agrees_with_the_pattern_on_generated_texts() {
    let pieces = [
        "!ticket", " ", "\n", "+", "a", "b", "\t", "\u{e4}", "\u{a0}", "\u{2003}", "!", "t",
        "++", "  ", "x y",
    ];
    let mut state: u64 = 0x2545F4914F6CDD1D;
    let mut next = move || {
        state ^= state << 13;
        state ^= state >> 7;
        state ^= state << 17;
        state
    };
    let re = pattern();
    for _ in 0..4000 {
        let len = (next() % 14) as usize;
        let mut text = String::new();
        if next() % 2 == 0 {
            text.push_str("!ticket");
        }
        for _ in 0..len {
            text.push_str(pieces[(next() % pieces.len() as u64) as usize]);
        }
        assert_eq!(ours(&text), reference_with(&re, &text), "text {:?}", text);
    }
}

#[test]
fn template_format_round_trips() {
    for (h, b, a) in [
        ("Printer", "It is on fire.\nSince Monday.", "John Doe"),
        ("", "", ""),
        ("x", "", "Jane +plus"),
        ("\u{e4} heading", "body-with-dashes", ""),
    ] {
        let text = format!("!ticket\n{}\n+++\n{}\n+++\n{}", h, b, a);
        let c = parse_ticket_command(&text).unwrap();
        assert_eq!((c.heading.as_str(), c.body.as_str(), c.assignee.as_str()), (h, b, a));
    }
}

#[test]
fn captured_groups_are_trimmed() {
    for t in ["!ticket  a  +  b  +  c  ", "!ticket\n\tx y\t\n+++\n\n z \n++\n", "!ticket a+++b"] {
        if let Some(c) = parse_ticket_command(t) {
            assert_eq!(c.heading, c.heading.trim());
            assert_eq!(c.body, c.body.trim());
        }
    }
}
