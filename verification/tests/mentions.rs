use nexus_gateway::channels::mentions::{
    count_matched, cut_prefix, has_first_word, is_named, strip_mention, strip_prefix,
};

#[test]
fn prefix_is_stripped_in_any_case() {
    assert_eq!(strip_prefix("nexus status", "nexus"), "status");
    assert_eq!(strip_prefix("NEXUS  status ", "nexus"), "status");
    assert_eq!(strip_prefix("nexus", "NeXuS"), "");
    assert_eq!(strip_prefix("ÉCLAIR hello", "éclair"), "hello");
}

#[test]
fn text_behind_prefix_is_left() {
    for prefix in ["nexus", "NEXUS", "nExUs"] {
        for written in ["nexus", "NEXUS", "NexuS"] {
            for rest in ["", " ", "status", "  pause T-1 \n", " \u{c9}t\u{e9} \u{130}", "\u{3a3}"] {
                let content = format!("{}{}", written, rest);
                assert_eq!(strip_prefix(&content, prefix), rest.trim());
            }
        }
    }
}

#[test]
fn message_without_prefix_stays_as_it_is() {
    assert_eq!(strip_prefix("  hello nexus ", "nexus"), "  hello nexus ");
    assert_eq!(strip_prefix("", "nexus"), "");
    assert_eq!(strip_prefix("nex", "nexus"), "nex");
}

#[test]
fn prefix_need_not_be_a_word() {
    assert_eq!(strip_prefix("nexusstatus", "nexus"), "status");
    assert_eq!(strip_prefix(" hello ", ""), "hello");
}

#[test]
fn only_the_part_that_matches_is_cut() {
    assert_eq!(strip_prefix("\u{130}", "i\u{307}"), "");
    assert_eq!(strip_prefix("\u{130}abc", "i\u{307}"), "abc");
    assert_eq!(strip_prefix("\u{130}\u{130}abc", "i\u{307}\u{130}"), "abc");
    assert_eq!(strip_prefix("i\u{307}abc", "\u{130}"), "abc");
    assert_eq!(strip_prefix("\u{130} abc", "\u{130}"), "abc");
}

#[test]
fn prefix_is_cut_by_given_count() {
    assert_eq!(cut_prefix("AB cd", 2, "ab cd", "ab"), "cd");
    assert_eq!(cut_prefix("AB cd", 2, "xb cd", "ab"), "AB cd");
    assert_eq!(cut_prefix("\u{130}abc", 1, "i\u{307}abc", "i\u{307}"), "abc");
    assert_eq!(cut_prefix("AB", 2, "ab", "ab"), "");
    assert_eq!(cut_prefix("AB", 9, "ab", "ab"), "");
}

#[test]
fn fewest_characters_that_reach_the_length_match() {
    assert_eq!(count_matched(&vec![0, 2, 3, 4, 5], 2), 1);
    assert_eq!(count_matched(&vec![0, 1, 2, 3], 2), 2);
    assert_eq!(count_matched(&vec![0, 1, 2, 3], 0), 0);
    assert_eq!(count_matched(&vec![0, 1], 2), 2);
    assert_eq!(count_matched(&Vec::new(), 0), 0);
}

#[test]
fn mentions_are_stripped() {
    assert_eq!(strip_mention("<@42> hello", "42"), "hello");
    assert_eq!(strip_mention("<@!42> hello", "42"), "hello");
    assert_eq!(strip_mention("hi <@42>, ask <@!42>", "42"), "hi , ask");
    assert_eq!(strip_mention("<@42><@!42>", "42"), "");
    assert_eq!(strip_mention("<@7> hello", "42"), "<@7> hello");
    assert_eq!(strip_mention("  hello\n", "42"), "hello");
    assert_eq!(strip_mention("", "42"), "");
}

#[test]
fn mentions_are_stripped_in_one_pass_per_form() {
    assert_eq!(strip_mention("<@<@42>42>", "42"), "<@42>");
    assert_eq!(strip_mention("<@!<@42>42>", "42"), "");
}

#[test]
fn plain_mention_inside_nickname_mention_goes_first() {
    assert_eq!(strip_mention("<@!>q<@>q<@>", ">q<@"), "<@!>q");
    assert_eq!(strip_mention("q<@>", ">q<@"), "q<@>");
}

#[test]
fn leading_mention_makes_no_difference() {
    for rest in [" status ", "", "<@42> x", "x <@!42>"] {
        let bare = strip_mention(rest, "42");
        assert_eq!(strip_mention(&format!("<@42>{}", rest), "42"), bare);
        assert_eq!(strip_mention(&format!("<@!42>{}", rest), "42"), bare);
    }
}

#[test]
fn name_is_a_word_at_the_start() {
    assert!(is_named("nexus status", "Nexus"));
    assert!(is_named("NEXUS", "nexus"));
    assert!(is_named("nexus\tstatus", "nexus"));
    assert!(!is_named("nexusstatus", "nexus"));
    assert!(!is_named("nexus, status", "nexus"));
    assert!(!is_named("hello nexus", "nexus"));
    assert!(!is_named("", "nexus"));
    assert!(has_first_word("a b", "a"));
    assert!(!has_first_word("a", ""));
    assert!(has_first_word("", ""));
}

#[test]
fn white_space_is_what_unicode_lists() {
    for code in 0u32..=0x10ffff {
        if let Some(c) = char::from_u32(code) {
            let listed = matches!(
                code,
                0x9..=0xd
                    | 0x20
                    | 0x85
                    | 0xa0
                    | 0x1680
                    | 0x2000..=0x200a
                    | 0x2028
                    | 0x2029
                    | 0x202f
                    | 0x205f
                    | 0x3000
            );
            let mut text = String::from("a");
            text.push(c);
            assert_eq!(has_first_word(&text, "a"), listed, "{:x}", code);
        }
    }
}

#[test]
fn stripping_does_what_std_does() {
    for text in ["  <@1> a\u{3000}", "x<@1>y<@!1>z", "<@<@1>1>", "\u{85}q\u{a0}", "<@!!1>", ""] {
        let expected = text.replace("<@1>", "").replace("<@!1>", "").trim().to_string();
        assert_eq!(strip_mention(text, "1"), expected);
    }
}

#[test]
fn case_makes_no_difference() {
    for prefix in ["nexus", "NEXUS", "nExUs"] {
        assert_eq!(strip_prefix("Nexus go", prefix), "go");
        assert!(is_named("nEXUS go", prefix));
    }
    assert_eq!(strip_prefix("i\u{307}x", "i\u{307}"), "x");
    assert_eq!(strip_prefix("i\u{307}x", "\u{130}"), "x");
}
