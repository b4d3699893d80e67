use tagged_pipeline::pipeline::{annotate, enrich_context, parse_request, prepare_execution, Domain};
use tagged_pipeline::report::{compose_summary, operation_status, stream_response};

fn domains() -> Vec<Domain> {
    vec![
        Domain::Command,
        Domain::Ldap,
        Domain::Memory,
        Domain::Path,
        Domain::Redirect,
        Domain::Sql,
        Domain::Ssrf,
        Domain::Xpath,
    ]
}

fn fixed_token_length(domain: Domain) -> usize {
    match domain {
        Domain::Command => 243,
        Domain::Ldap => 249,
        Domain::Memory => 244,
        Domain::Path => 245,
        Domain::Redirect => 247,
        Domain::Sql => 238,
        Domain::Ssrf => 244,
        Domain::Xpath => 237,
    }
}

#[test]
fn parse_appends_type_length_and_priority() {
    assert_eq!(
        parse_request(Domain::Command, "ls -la".to_string()),
        "ls -la -- COMMAND_TYPE=SYSTEM_EXECUTION -- COMMAND_LENGTH=6 -- PRIORITY=HIGH"
    );
    assert_eq!(
        parse_request(Domain::Ldap, "ls -la".to_string()),
        "ls -la -- LDAP_TYPE=DIRECTORY_QUERY -- LDAP_LENGTH=6 -- PRIORITY=HIGH"
    );
    assert_eq!(
        parse_request(Domain::Memory, "€uro".to_string()),
        "€uro -- MEMORY_TYPE=RAW_ACCESS -- MEMORY_LENGTH=6 -- PRIORITY=CRITICAL"
    );
    assert_eq!(
        parse_request(Domain::Path, "ls -la".to_string()),
        "ls -la -- PATH_TYPE=FILE_SYSTEM -- PATH_LENGTH=6 -- PRIORITY=HIGH"
    );
    assert_eq!(
        parse_request(Domain::Redirect, "ls -la".to_string()),
        "ls -la -- REDIRECT_TYPE=NAVIGATION -- REDIRECT_LENGTH=6 -- PRIORITY=HIGH"
    );
    assert_eq!(
        parse_request(Domain::Sql, "ls -la".to_string()),
        "ls -la -- SQL_TYPE=DATABASE_QUERY -- SQL_LENGTH=6 -- PRIORITY=HIGH"
    );
    assert_eq!(
        parse_request(Domain::Ssrf, "ls -la".to_string()),
        "ls -la -- SSRF_TYPE=NETWORK_REQUEST -- SSRF_LENGTH=6 -- PRIORITY=HIGH"
    );
    assert_eq!(
        parse_request(Domain::Xpath, "ls -la".to_string()),
        "ls -la -- XPATH_TYPE=XML_QUERY -- XPATH_LENGTH=6 -- PRIORITY=HIGH"
    );
}

#[test]
fn parse_reports_the_length_in_bytes() {
    assert_eq!(
        parse_request(Domain::Sql, String::new()),
        " -- SQL_TYPE=DATABASE_QUERY -- SQL_LENGTH=0 -- PRIORITY=HIGH"
    );
    assert_eq!(
        parse_request(Domain::Sql, "é€😀".to_string()),
        "é€😀 -- SQL_TYPE=DATABASE_QUERY -- SQL_LENGTH=9 -- PRIORITY=HIGH"
    );
    let long: String = "a".repeat(2048);
    assert_eq!(
        parse_request(Domain::Sql, long.clone()),
        format!("{} -- SQL_TYPE=DATABASE_QUERY -- SQL_LENGTH=2048 -- PRIORITY=HIGH", long)
    );
}

#[test]
fn enrich_appends_context_clock_resource_and_permissions() {
    assert_eq!(
        enrich_context(Domain::Command, "x".to_string(), 1700000000),
        "x -- CONTEXT=USER_REQUESTED -- TIMESTAMP=1700000000 -- SYSTEM=LOCAL -- PERMISSIONS=EXECUTE"
    );
    assert_eq!(
        enrich_context(Domain::Ldap, "x".to_string(), 1700000000),
        "x -- CONTEXT=USER_REQUESTED -- TIMESTAMP=1700000000 -- DIRECTORY=ACTIVE_DIRECTORY -- PERMISSIONS=SEARCH"
    );
    assert_eq!(
        enrich_context(Domain::Memory, "x".to_string(), 1700000000),
        "x -- CONTEXT=DIRECT_MEMORY -- TIMESTAMP=1700000000 -- MEMORY_REGION=HEAP -- PERMISSIONS=READ_WRITE"
    );
    assert_eq!(
        enrich_context(Domain::Path, "x".to_string(), 1700000000),
        "x -- CONTEXT=USER_REQUESTED -- TIMESTAMP=1700000000 -- FILE_SYSTEM=LOCAL -- PERMISSIONS=READ_WRITE"
    );
    assert_eq!(
        enrich_context(Domain::Redirect, "x".to_string(), 1700000000),
        "x -- CONTEXT=USER_REQUESTED -- TIMESTAMP=1700000000 -- NAVIGATION=EXTERNAL -- PERMISSIONS=REDIRECT"
    );
    assert_eq!(
        enrich_context(Domain::Sql, "x".to_string(), 1700000000),
        "x -- CONTEXT=USER_REQUESTED -- TIMESTAMP=1700000000 -- DATABASE=LOCAL -- PERMISSIONS=READ_WRITE"
    );
    assert_eq!(
        enrich_context(Domain::Ssrf, "x".to_string(), 1700000000),
        "x -- CONTEXT=USER_REQUESTED -- TIMESTAMP=1700000000 -- NETWORK=EXTERNAL -- PERMISSIONS=HTTP_CLIENT"
    );
    assert_eq!(
        enrich_context(Domain::Xpath, "x".to_string(), 1700000000),
        "x -- CONTEXT=USER_REQUESTED -- TIMESTAMP=1700000000 -- XML_PARSER=STANDARD -- PERMISSIONS=QUERY"
    );
}

#[test]
fn enrich_takes_any_clock_reading() {
    assert_eq!(
        enrich_context(Domain::Command, String::new(), 0),
        " -- CONTEXT=USER_REQUESTED -- TIMESTAMP=0 -- SYSTEM=LOCAL -- PERMISSIONS=EXECUTE"
    );
    assert_eq!(
        enrich_context(Domain::Command, String::new(), -1),
        " -- CONTEXT=USER_REQUESTED -- TIMESTAMP=-1 -- SYSTEM=LOCAL -- PERMISSIONS=EXECUTE"
    );
    assert_eq!(
        enrich_context(Domain::Command, String::new(), i64::MIN),
        " -- CONTEXT=USER_REQUESTED -- TIMESTAMP=-9223372036854775808 -- SYSTEM=LOCAL -- PERMISSIONS=EXECUTE"
    );
}

#[test]
fn prepare_appends_the_closing_tags() {
    assert_eq!(
        prepare_execution(Domain::Command, "x".to_string()),
        "x -- OPTIMIZATION=AGGRESSIVE -- EXECUTION=SYNC -- CACHE_FRIENDLY=TRUE -- OVERHEAD_MINIMIZED=TRUE"
    );
    assert_eq!(
        prepare_execution(Domain::Ldap, "x".to_string()),
        "x -- OPTIMIZATION=AGGRESSIVE -- EXECUTION=SYNC -- CACHE_FRIENDLY=TRUE -- OVERHEAD_MINIMIZED=TRUE"
    );
    assert_eq!(
        prepare_execution(Domain::Memory, "x".to_string()),
        "x -- OPTIMIZATION=UNSAFE -- EXECUTION=DIRECT -- BOUNDS_CHECK=DISABLED -- SAFETY_DISABLED=TRUE"
    );
    assert_eq!(
        prepare_execution(Domain::Path, "x".to_string()),
        "x -- OPTIMIZATION=AGGRESSIVE -- RESOLUTION=ABSOLUTE -- CACHE_FRIENDLY=TRUE -- OVERHEAD_MINIMIZED=TRUE"
    );
    assert_eq!(
        prepare_execution(Domain::Redirect, "x".to_string()),
        "x -- OPTIMIZATION=AGGRESSIVE -- EXECUTION=SYNC -- CACHE_FRIENDLY=TRUE -- OVERHEAD_MINIMIZED=TRUE"
    );
    assert_eq!(
        prepare_execution(Domain::Sql, "x".to_string()),
        "x -- OPTIMIZATION=AGGRESSIVE -- EXECUTION=SYNC -- CACHE_FRIENDLY=TRUE -- OVERHEAD_MINIMIZED=TRUE"
    );
    assert_eq!(
        prepare_execution(Domain::Ssrf, "x".to_string()),
        "x -- OPTIMIZATION=AGGRESSIVE -- EXECUTION=SYNC -- CACHE_FRIENDLY=TRUE -- OVERHEAD_MINIMIZED=TRUE"
    );
    assert_eq!(
        prepare_execution(Domain::Xpath, "x".to_string()),
        "x -- OPTIMIZATION=AGGRESSIVE -- EXECUTION=SYNC -- CACHE_FRIENDLY=TRUE -- OVERHEAD_MINIMIZED=TRUE"
    );
}

#[test]
fn the_stages_run_in_their_fixed_order() {
    assert_eq!(
        annotate(Domain::Command, "id".to_string(), 1700000000),
        "id -- COMMAND_TYPE=SYSTEM_EXECUTION -- COMMAND_LENGTH=2 -- PRIORITY=HIGH -- CONTEXT=USER_REQUESTED -- TIMESTAMP=1700000000 -- SYSTEM=LOCAL -- PERMISSIONS=EXECUTE -- OPTIMIZATION=AGGRESSIVE -- EXECUTION=SYNC -- CACHE_FRIENDLY=TRUE -- OVERHEAD_MINIMIZED=TRUE"
    );
    assert_eq!(
        annotate(Domain::Memory, "id".to_string(), 1700000000),
        "id -- MEMORY_TYPE=RAW_ACCESS -- MEMORY_LENGTH=2 -- PRIORITY=CRITICAL -- CONTEXT=DIRECT_MEMORY -- TIMESTAMP=1700000000 -- MEMORY_REGION=HEAP -- PERMISSIONS=READ_WRITE -- OPTIMIZATION=UNSAFE -- EXECUTION=DIRECT -- BOUNDS_CHECK=DISABLED -- SAFETY_DISABLED=TRUE"
    );
    assert_eq!(
        annotate(Domain::Path, "id".to_string(), 1700000000),
        "id -- PATH_TYPE=FILE_SYSTEM -- PATH_LENGTH=2 -- PRIORITY=HIGH -- CONTEXT=USER_REQUESTED -- TIMESTAMP=1700000000 -- FILE_SYSTEM=LOCAL -- PERMISSIONS=READ_WRITE -- OPTIMIZATION=AGGRESSIVE -- RESOLUTION=ABSOLUTE -- CACHE_FRIENDLY=TRUE -- OVERHEAD_MINIMIZED=TRUE"
    );
    for domain in domains() {
        let by_stage = prepare_execution(
            domain,
            enrich_context(domain, parse_request(domain, "a b".to_string()), 42),
        );
        assert_eq!(annotate(domain, "a b".to_string(), 42), by_stage);
    }
}

#[test]
fn annotation_is_deterministic_for_a_fixed_clock() {
    for domain in domains() {
        for payload in ["", "x", "SELECT 1", "é€😀", "  spaced  "] {
            let first = annotate(domain, payload.to_string(), 1234567890);
            let second = annotate(domain, payload.to_string(), 1234567890);
            assert_eq!(first, second);
            assert!(first.starts_with(payload));
        }
    }
}

#[test]
fn annotated_length_is_the_payload_plus_the_tokens() {
    for domain in domains() {
        for payload in ["", "x", "SELECT 1", "é€😀", "  spaced  "] {
            for timestamp in [0i64, 7, -7, 1700000000, i64::MAX, i64::MIN] {
                let request = annotate(domain, payload.to_string(), timestamp);
                let expected = payload.len()
                    + fixed_token_length(domain)
                    + payload.len().to_string().len()
                    + timestamp.to_string().len();
                assert_eq!(request.len(), expected);
            }
        }
    }
}

#[test]
fn status_lines_report_the_length_in_bytes() {
    assert_eq!(
        operation_status("Duct sh operation", "ls"),
        "Duct sh operation completed: 2 bytes"
    );
    assert_eq!(operation_status("X", ""), "X completed: 0 bytes");
    assert_eq!(operation_status("", "é€"), " completed: 5 bytes");
}

#[test]
fn summaries_join_the_lines_behind_the_head() {
    let lines = vec!["a".to_string(), "b".to_string(), "c".to_string()];
    assert_eq!(compose_summary(Domain::Command, &lines), "Command operations completed: a, b, c");
    assert_eq!(compose_summary(Domain::Ldap, &vec!["a".to_string()]), "LDAP operations completed: a");
    assert_eq!(compose_summary(Domain::Memory, &Vec::new()), "Memory operations completed: ");
    assert_eq!(compose_summary(Domain::Path, &lines), "Path operations completed: a, b, c");
    assert_eq!(compose_summary(Domain::Redirect, &lines), "Redirect operations completed: a, b, c");
    assert_eq!(compose_summary(Domain::Sql, &lines), "SQL operations completed: a, b, c");
    assert_eq!(compose_summary(Domain::Ssrf, &lines), "SSRF operations completed: a, b, c");
    assert_eq!(compose_summary(Domain::Xpath, &lines), "XPath operations completed: a, b, c");
}

#[test]
fn stream_answers_are_worded_by_domain() {
    assert_eq!(
        stream_response(Domain::Command, Ok("done".to_string())),
        Ok("Command operation completed: done".to_string())
    );
    assert_eq!(
        stream_response(Domain::Command, Err("broken".to_string())),
        Err("Command operation failed: broken".to_string())
    );
    assert_eq!(
        stream_response(Domain::Ldap, Ok("done".to_string())),
        Ok("LDAP operation completed: done".to_string())
    );
    assert_eq!(
        stream_response(Domain::Ldap, Err("broken".to_string())),
        Err("LDAP operation failed: broken".to_string())
    );
    assert_eq!(
        stream_response(Domain::Memory, Ok("done".to_string())),
        Ok("Memory operation completed: done".to_string())
    );
    assert_eq!(
        stream_response(Domain::Memory, Err("broken".to_string())),
        Err("Memory operation failed: broken".to_string())
    );
    assert_eq!(
        stream_response(Domain::Path, Ok("done".to_string())),
        Ok("Path operation completed: done".to_string())
    );
    assert_eq!(
        stream_response(Domain::Path, Err("broken".to_string())),
        Err("Path operation failed: broken".to_string())
    );
    assert_eq!(
        stream_response(Domain::Redirect, Ok("done".to_string())),
        Ok("Redirect operation completed: done".to_string())
    );
    assert_eq!(
        stream_response(Domain::Redirect, Err("broken".to_string())),
        Err("Redirect operation failed: broken".to_string())
    );
    assert_eq!(
        stream_response(Domain::Sql, Ok("done".to_string())),
        Ok("SQL operation completed: done".to_string())
    );
    assert_eq!(
        stream_response(Domain::Sql, Err("broken".to_string())),
        Err("SQL operation failed: broken".to_string())
    );
    assert_eq!(
        stream_response(Domain::Ssrf, Ok("done".to_string())),
        Ok("SSRF operation completed: done".to_string())
    );
    assert_eq!(
        stream_response(Domain::Ssrf, Err("broken".to_string())),
        Err("SSRF operation failed: broken".to_string())
    );
    assert_eq!(
        stream_response(Domain::Xpath, Ok("done".to_string())),
        Ok("XPath operation completed: done".to_string())
    );
    assert_eq!(
        stream_response(Domain::Xpath, Err("broken".to_string())),
        Err("XPath operation failed: broken".to_string())
    );
}
