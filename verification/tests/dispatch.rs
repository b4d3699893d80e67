use tagged_pipeline::handler::{
    cipher_response, classify, count_iterations, divide_hundred, division_response,
    fatal_condition, first_matching_prefix, handle_udp_request, loop_response, module_response,
    plan_request, reservation_response, tag_table, DomainTag, Fault, Step,
};
use tagged_pipeline::scripts::render_evaluation;

fn respond(raw: &str) -> String {
    assert_eq!(fatal_condition(raw, false), None);
    match handle_udp_request(raw, false) {
        Step::Respond(text) => text,
        Step::Evaluate(expression) => {
            let outcome = rhai::Engine::new().eval_expression::<i64>(&expression);
            render_evaluation(outcome.map_err(|error| error.to_string()))
        }
        other => panic!("no response: {:?}", other),
    }
}

fn chars(text: &str) -> Vec<char> {
    text.chars().collect()
}

#[test]
fn loop_counts_its_rounds() {
    assert_eq!(respond("LOOP:5"), "looped=5");
    assert_eq!(respond("LOOP:0"), "looped=0");
    assert_eq!(respond("  LOOP: 12 "), "looped=12");
    assert_eq!(respond("LOOP:+3"), "looped=3");
    assert_eq!(respond("LOOP:1000000"), "looped=1000000");
    assert_eq!(plan_request("LOOP:5", false), Step::Respond("looped=5".to_string()));
}

#[test]
fn loop_beyond_the_counter_counts_nothing() {
    assert_eq!(respond("LOOP:18446744073709551616"), "looped=0");
    assert_eq!(respond("LOOP:18446744073709551617"), "looped=0");
    assert_eq!(respond("LOOP:99999999999999999999999999"), "looped=0");
}

#[test]
fn malformed_loop_counts_are_zero() {
    for raw in ["LOOP:", "LOOP:abc", "LOOP:-1", "LOOP:1 2", "LOOP:5x", "LOOP:   ", "LOOP:1.5"] {
        assert_eq!(respond(raw), "looped=0", "for {:?}", raw);
    }
}

#[test]
fn counting_runs_every_round() {
    assert_eq!(count_iterations(0), 0);
    assert_eq!(count_iterations(5), 5);
    assert_eq!(count_iterations(100000), 100000);
    assert_eq!(loop_response(5), "looped=5");
    assert_eq!(loop_response(0), "looped=0");
}

#[test]
fn division_answers_with_the_quotient() {
    assert_eq!(respond("DIV:7"), "div=14");
    assert_eq!(respond("DIV:100"), "div=1");
    assert_eq!(respond("DIV:101"), "div=0");
    assert_eq!(respond("DIV:1"), "div=100");
    assert_eq!(respond("DIV:-1"), "div=-100");
    assert_eq!(respond("DIV:-3"), "div=-33");
    assert_eq!(respond("DIV:+3"), "div=33");
    assert_eq!(respond(" DIV: 3 "), "div=33");
    assert_eq!(respond("DIV:9223372036854775807"), "div=0");
    assert_eq!(respond("DIV:-9223372036854775808"), "div=0");
}

#[test]
fn quotients_round_towards_zero() {
    for divisor in [1i64, 2, 3, 7, 99, 100, 101, -1, -2, -3, -7, -99, -100, -101, i64::MAX, i64::MIN]
    {
        assert_eq!(divide_hundred(divisor), 100 / divisor);
    }
    assert_eq!(division_response(-33), "div=-33");
    assert_eq!(division_response(0), "div=0");
}

#[test]
fn division_by_zero_is_fatal() {
    assert_eq!(plan_request("DIV:0", false), Step::Abort(Fault::DivisionByZero));
    assert_eq!(plan_request("DIV:-0", true), Step::Abort(Fault::DivisionByZero));
    assert_eq!(plan_request("  DIV:  000  ", false), Step::Abort(Fault::DivisionByZero));
    assert_eq!(fatal_condition("DIV:0", false), Some(Fault::DivisionByZero));
    assert_eq!(fatal_condition("DIV:+0", true), Some(Fault::DivisionByZero));
    assert_eq!(fatal_condition("DIV:1", false), None);
}

#[test]
fn malformed_divisors_are_zero() {
    for raw in ["DIV:", "DIV:zero", "DIV:1 2", "DIV:--1", "DIV:9223372036854775808", "DIV:3x"] {
        assert_eq!(plan_request(raw, false), Step::Abort(Fault::DivisionByZero), "for {:?}", raw);
        assert_eq!(fatal_condition(raw, false), Some(Fault::DivisionByZero), "for {:?}", raw);
    }
}

#[test]
fn allocation_reserves_what_was_asked() {
    assert_eq!(plan_request("ALLOC:100", false), Step::Reserve(100));
    assert_eq!(plan_request("ALLOC:50", false), Step::Reserve(50));
    assert_eq!(plan_request("ALLOC:", false), Step::Reserve(0));
    assert_eq!(plan_request("ALLOC:lots", false), Step::Reserve(0));
    for (raw, asked) in [("ALLOC:100", 100usize), ("ALLOC:50", 50), ("ALLOC:4097", 4097)] {
        let text = respond(raw);
        let capacity: usize = text.strip_prefix("reserved=").unwrap().parse().unwrap();
        assert!(capacity >= asked);
    }
    assert_eq!(respond("ALLOC:0"), "reserved=0");
    assert_eq!(reservation_response(128), "reserved=128");
}

#[test]
fn allocation_beyond_every_vector_is_fatal() {
    let too_much = (isize::MAX as usize + 1).to_string();
    let raw = format!("ALLOC:{}", too_much);
    assert_eq!(plan_request(&raw, false), Step::Abort(Fault::CapacityOverflow));
    assert_eq!(fatal_condition(&raw, false), Some(Fault::CapacityOverflow));
    let most = format!("ALLOC:{}", usize::MAX);
    assert_eq!(fatal_condition(&most, false), Some(Fault::CapacityOverflow));
    let just = format!("ALLOC:{}", isize::MAX);
    assert_eq!(plan_request(&just, false), Step::Reserve(isize::MAX as usize));
    assert_eq!(fatal_condition(&just, false), None);
}

#[test]
fn module_requests_go_to_the_loader() {
    assert_eq!(
        handle_udp_request("WASM: /tmp/module.wasm ", false),
        Step::LoadModule("/tmp/module.wasm".to_string())
    );
    assert_eq!(handle_udp_request("WASM:", false), Step::LoadModule(String::new()));
    assert_eq!(module_response(true), Ok("module_loaded".to_string()));
    assert_eq!(module_response(false), Err("bad module".to_string()));
}

#[test]
fn tokens_go_to_authentication_verbatim() {
    assert_eq!(
        handle_udp_request("AUTH: Bearer a.b.c ", false),
        Step::Authenticate("Bearer a.b.c".to_string())
    );
    assert_eq!(
        handle_udp_request("\t AUTH:tok  en", false),
        Step::Authenticate("tok  en".to_string())
    );
}

#[test]
fn signature_requests_need_the_capability() {
    assert_eq!(handle_udp_request("CMS:anything", true), Step::VerifyCms);
    assert_eq!(plan_request("CMS:1 + 1", false), Step::Evaluate("CMS:1 + 1".to_string()));
    assert_eq!(handle_udp_request("CMS:1 + 1", false), Step::Evaluate("CMS:1 + 1".to_string()));
}

#[test]
fn cipher_requests_go_to_the_cipher() {
    assert_eq!(handle_udp_request("AESGCM:", false), Step::BuildCipher);
    assert_eq!(handle_udp_request("  AESGCM:whatever", true), Step::BuildCipher);
    assert_eq!(cipher_response(Ok("sealed".to_string())), Ok("sealed".to_string()));
    assert_eq!(cipher_response(Err("no key".to_string())), Err("aesgcm failed".to_string()));
}

#[test]
fn tags_are_case_sensitive() {
    assert_eq!(plan_request("loop:5", false), Step::Evaluate("loop:5".to_string()));
    assert_eq!(plan_request("Loop:5", false), Step::Evaluate("Loop:5".to_string()));
    assert_eq!(plan_request("LOOP 5", false), Step::Evaluate("LOOP 5".to_string()));
    assert_eq!(plan_request("xLOOP:5", false), Step::Evaluate("xLOOP:5".to_string()));
}

#[test]
fn untagged_expression_is_evaluated() {
    assert_eq!(plan_request("  2   +   2  ", false), Step::Evaluate("2 + 2".to_string()));
    assert_eq!(handle_udp_request("  2   +   2  ", false), Step::Evaluate("2 + 2".to_string()));
    assert_eq!(respond("  2   +   2  "), "4");
    assert_eq!(plan_request("EXPR: 40 +\t2", false), Step::Evaluate("40 + 2".to_string()));
    assert_eq!(respond("EXPR: 40 + 2"), "42");
    assert_eq!(plan_request("  EXPR:1", true), Step::Evaluate("1".to_string()));
    assert_eq!(plan_request("", false), Step::Evaluate(String::new()));
}

#[test]
fn untagged_payload_is_cut_to_256_bytes() {
    let long = format!("{} + 1", "1".repeat(300));
    assert_eq!(plan_request(&long, false), Step::Evaluate("1".repeat(256)));
    let exact = "7".repeat(256);
    assert_eq!(plan_request(&exact, false), Step::Evaluate(exact.clone()));
    let padded = format!("   {}   ", "7".repeat(256));
    assert_eq!(plan_request(&padded, false), Step::Evaluate("7".repeat(256)));
}

#[test]
fn a_cut_inside_a_character_is_fatal() {
    let raw = format!("{}é", "a".repeat(255));
    assert_eq!(plan_request(&raw, false), Step::Abort(Fault::SplitCharacter));
    assert_eq!(fatal_condition(&raw, false), Some(Fault::SplitCharacter));
    assert_eq!(fatal_condition(&format!("EXPR:{}€", "1".repeat(249)), true), Some(Fault::SplitCharacter));
    let fits = format!("{}é", "a".repeat(254));
    assert_eq!(plan_request(&fits, false), Step::Evaluate(fits.clone()));
    assert_eq!(fatal_condition(&fits, false), None);
    let cut = format!("{}éb", "a".repeat(254));
    assert_eq!(plan_request(&cut, false), Step::Evaluate(fits));
}

#[test]
fn permission_requests_take_the_side_channel() {
    assert_eq!(
        plan_request("CHMOD: /etc/passwd ", false),
        Step::ReadPermission("/etc/passwd".to_string())
    );
    assert_eq!(
        handle_udp_request("  CHMOD:/tmp", true),
        Step::ReadPermission("/tmp".to_string())
    );
    assert_eq!(plan_request("EXPR:CHMOD:/tmp", false), Step::Evaluate("CHMOD:/tmp".to_string()));
}

#[test]
fn payloads_that_are_answered_are_not_fatal() {
    for raw in [
        "", "1 + 1", "LOOP:3", "LOOP:x", "WASM:m", "AUTH:t", "ALLOC:8", "ALLOC:x", "DIV:5",
        "CMS:", "AESGCM:", "EXPR:2", "CHMOD:/tmp", "LOOP:DIV:0", "AUTH:DIV:0",
    ] {
        assert_eq!(fatal_condition(raw, false), None, "for {:?}", raw);
        assert_eq!(fatal_condition(raw, true), None, "for {:?}", raw);
    }
}

#[test]
fn handling_takes_every_step_but_the_reservation_from_the_plan() {
    for raw in ["LOOP:3", "WASM:m", "AUTH:t", "DIV:5", "AESGCM:", "EXPR:2", "CHMOD:/tmp", "x"] {
        for cms_available in [false, true] {
            assert_eq!(handle_udp_request(raw, cms_available), plan_request(raw, cms_available));
        }
    }
    assert_eq!(plan_request("ALLOC:0", false), Step::Reserve(0));
    assert_eq!(handle_udp_request("ALLOC:0", false), Step::Respond("reserved=0".to_string()));
}

#[test]
fn the_tags_are_tried_in_their_listed_order() {
    let table: Vec<String> = tag_table().iter().map(|tag| tag.iter().collect()).collect();
    assert_eq!(table, vec!["LOOP:", "WASM:", "AUTH:", "ALLOC:", "DIV:", "CMS:", "AESGCM:"]);
    let text = chars("  DIV:4");
    assert_eq!(first_matching_prefix(&text, 2, &tag_table()), Some(4));
    assert_eq!(first_matching_prefix(&text, 0, &tag_table()), None);
    assert_eq!(first_matching_prefix(&text, 7, &tag_table()), None);
}

#[test]
fn the_first_listed_of_two_matching_prefixes_wins() {
    let text = chars("ABCDEF");
    let shorter_first = vec![chars("AB"), chars("ABC"), chars("A")];
    assert_eq!(first_matching_prefix(&text, 0, &shorter_first), Some(0));
    let longer_first = vec![chars("ABC"), chars("AB"), chars("A")];
    assert_eq!(first_matching_prefix(&text, 0, &longer_first), Some(0));
    let miss_first = vec![chars("B"), chars("ABCDEFG"), chars("ABC"), chars("AB")];
    assert_eq!(first_matching_prefix(&text, 0, &miss_first), Some(2));
    assert_eq!(first_matching_prefix(&text, 1, &miss_first), Some(0));
    let empty_prefix = vec![chars("x"), chars(""), chars("A")];
    assert_eq!(first_matching_prefix(&text, 0, &empty_prefix), Some(1));
    assert_eq!(first_matching_prefix(&text, 6, &empty_prefix), Some(1));
    assert_eq!(first_matching_prefix(&text, 0, &Vec::new()), None);
}

#[test]
fn every_payload_has_exactly_one_kind() {
    assert_eq!(classify("LOOP:5", false), DomainTag::Loop);
    assert_eq!(classify("WASM:m", false), DomainTag::Wasm);
    assert_eq!(classify("AUTH:t", false), DomainTag::Auth);
    assert_eq!(classify("ALLOC:1", false), DomainTag::Alloc);
    assert_eq!(classify("DIV:1", false), DomainTag::Div);
    assert_eq!(classify("CMS:", true), DomainTag::Cms);
    assert_eq!(classify("CMS:", false), DomainTag::Untagged);
    assert_eq!(classify("AESGCM:", false), DomainTag::AesGcm);
    assert_eq!(classify("EXPR:1", false), DomainTag::Expr);
    assert_eq!(classify("1 + 1", false), DomainTag::Untagged);
    assert_eq!(classify("", true), DomainTag::Untagged);
    assert_eq!(classify("CHMOD:/tmp", true), DomainTag::Untagged);
}

#[test]
fn leading_white_space_does_not_hide_a_tag() {
    assert_eq!(classify("   LOOP:5", false), DomainTag::Loop);
    assert_eq!(classify("\t\n DIV:1", false), DomainTag::Div);
    assert_eq!(classify("\u{a0}\u{2003}AUTH:x", false), DomainTag::Auth);
    assert_eq!(classify(" EXPR:1", false), DomainTag::Expr);
    assert_eq!(classify("LOOP :5", false), DomainTag::Untagged);
    assert_eq!(classify("L OOP:5", false), DomainTag::Untagged);
}

#[test]
fn the_first_tag_of_a_payload_decides() {
    assert_eq!(classify("LOOP:DIV:0", false), DomainTag::Loop);
    assert_eq!(respond("LOOP:DIV:0"), "looped=0");
    assert_eq!(plan_request("DIV:LOOP:5", false), Step::Abort(Fault::DivisionByZero));
    assert_eq!(classify("DIV:LOOP:5", false), DomainTag::Div);
    assert_eq!(
        handle_udp_request("AUTH:WASM:x", false),
        Step::Authenticate("WASM:x".to_string())
    );
    assert_eq!(classify("EXPR:LOOP:5", false), DomainTag::Expr);
}
