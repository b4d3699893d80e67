use tagged_pipeline::scripts::{
    collapse_whitespace, cut_splits_character, permission_request, render_evaluation,
    reserve_memory, strip_prefix, trim_and_limit,
};

fn evaluate(expression: &str) -> String {
    let outcome = rhai::Engine::new().eval_expression::<i64>(expression);
    render_evaluation(outcome.map_err(|error| error.to_string()))
}

#[test]
fn trim_and_limit_trims_and_cuts() {
    assert_eq!(trim_and_limit("  hello  ".to_string(), 256), "hello");
    assert_eq!(trim_and_limit("  hello  ".to_string(), 3), "hel");
    assert_eq!(trim_and_limit("hello".to_string(), 5), "hello");
    assert_eq!(trim_and_limit("hello".to_string(), 0), "");
    assert_eq!(trim_and_limit("".to_string(), 0), "");
    assert_eq!(trim_and_limit(" \t\n ".to_string(), 256), "");
    assert_eq!(trim_and_limit("\u{a0}a b\u{3000}".to_string(), 256), "a b");
}

#[test]
fn trim_and_limit_counts_bytes_not_characters() {
    assert_eq!(trim_and_limit("ééé".to_string(), 4), "éé");
    assert_eq!(trim_and_limit("a€b".to_string(), 4), "a€");
    let long: String = "x".repeat(300);
    assert_eq!(trim_and_limit(long, 256), "x".repeat(256));
}

#[test]
fn a_cut_inside_a_character_is_told_apart() {
    assert!(cut_splits_character("ééé", 3));
    assert!(cut_splits_character("a€b", 2));
    assert!(cut_splits_character("a€b", 3));
    assert!(!cut_splits_character("a€b", 4));
    assert!(!cut_splits_character("a€b", 1));
    assert!(!cut_splits_character("a€b", 0));
    assert!(!cut_splits_character("ééé", 6));
    assert!(!cut_splits_character("ééé", 7));
    assert!(!cut_splits_character("  é  ", 2));
    assert!(cut_splits_character("  éé  ", 1));
    for limit in 0..12usize {
        for text in ["", "abc", "a€b😀c", "ééé", " é€ "] {
            let trimmed = text.trim();
            let splits = trimmed.len() > limit && !trimmed.is_char_boundary(limit);
            assert_eq!(cut_splits_character(text, limit), splits);
            if !splits {
                let mut expected = trimmed.to_string();
                if expected.len() > limit {
                    expected.truncate(limit);
                }
                assert_eq!(trim_and_limit(text.to_string(), limit), expected);
            }
        }
    }
}

#[test]
fn strip_prefix_takes_the_tag_away() {
    assert_eq!(strip_prefix("EXPR:1+1".to_string(), "EXPR:"), "1+1");
    assert_eq!(strip_prefix("  EXPR: 1+1 ".to_string(), "EXPR:"), " 1+1 ");
    assert_eq!(strip_prefix("EXPR:".to_string(), "EXPR:"), "");
    assert_eq!(strip_prefix("EXPR:EXPR:1".to_string(), "EXPR:"), "EXPR:1");
}

#[test]
fn strip_prefix_leaves_other_text_as_it_is() {
    assert_eq!(strip_prefix("  1+1 ".to_string(), "EXPR:"), "  1+1 ");
    assert_eq!(strip_prefix("expr:1".to_string(), "EXPR:"), "expr:1");
    assert_eq!(strip_prefix("EXP".to_string(), "EXPR:"), "EXP");
    assert_eq!(strip_prefix("".to_string(), "EXPR:"), "");
    assert_eq!(strip_prefix("  abc".to_string(), ""), "abc");
}

#[test]
fn a_permission_request_produces_no_content() {
    assert_eq!(strip_prefix("CHMOD:/tmp/x".to_string(), "EXPR:"), "");
    assert_eq!(strip_prefix("   CHMOD: /tmp/x ".to_string(), "EXPR:"), "");
    assert_eq!(strip_prefix("CHMOD:".to_string(), "CHMOD:"), "");
    assert_eq!(permission_request("CHMOD:/tmp/x"), Some("/tmp/x".to_string()));
    assert_eq!(permission_request("  CHMOD:  /tmp/x y  "), Some("/tmp/x y".to_string()));
    assert_eq!(permission_request("CHMOD:"), Some(String::new()));
    assert_eq!(permission_request("chmod:/tmp"), None);
    assert_eq!(permission_request("EXPR:CHMOD:/tmp"), None);
    assert_eq!(permission_request(""), None);
}

#[test]
fn white_space_collapses_to_single_spaces() {
    assert_eq!(collapse_whitespace("  2   +   2  ".to_string()), "2 + 2");
    assert_eq!(collapse_whitespace("a\t\n b".to_string()), "a b");
    assert_eq!(collapse_whitespace("a\u{2003}\u{a0}b".to_string()), "a b");
    assert_eq!(collapse_whitespace("".to_string()), "");
    assert_eq!(collapse_whitespace(" \t ".to_string()), "");
    assert_eq!(collapse_whitespace("abc".to_string()), "abc");
    assert_eq!(collapse_whitespace("a b".to_string()), "a b");
    assert_eq!(collapse_whitespace("é  €".to_string()), "é €");
}

#[test]
fn evaluation_outcomes_are_rendered() {
    assert_eq!(render_evaluation(Ok(4)), "4");
    assert_eq!(render_evaluation(Ok(-17)), "-17");
    assert_eq!(render_evaluation(Ok(i64::MIN)), "-9223372036854775808");
    assert_eq!(render_evaluation(Err("Syntax error".to_string())), "Syntax error");
    assert_eq!(render_evaluation(Err(String::new())), "");
}

#[test]
fn evaluated_expressions_are_worded_as_integers() {
    assert_eq!(evaluate("2 + 2"), "4");
    assert_eq!(evaluate("40 + 2"), "42");
    assert_eq!(evaluate("(1 + 2) * 3 - 10"), "-1");
    assert_eq!(evaluate("7 / 2"), "3");
    let collapsed = collapse_whitespace(strip_prefix(
        trim_and_limit("  2   +   2  ".to_string(), 256),
        "EXPR:",
    ));
    assert_eq!(collapsed, "2 + 2");
    assert_eq!(evaluate(&collapsed), "4");
}

#[test]
fn evaluation_errors_come_back_as_text() {
    for expression in ["2 +", "", "1 / 0", "\"text\""] {
        let text = evaluate(expression);
        assert!(!text.is_empty());
        assert!(text.parse::<i64>().is_err());
    }
}

#[test]
fn reservations_are_at_least_what_was_asked() {
    assert!(reserve_memory(100) >= 100);
    assert!(reserve_memory(50) >= 50);
    assert!(reserve_memory(1 << 20) >= 1 << 20);
}
