use bgutil_ytdlp_pot_provider::base64::{base64_decode, base64_encode_websafe};
use bgutil_ytdlp_pot_provider::error::{CredentialError, Error, ProtocolError};
use bgutil_ytdlp_pot_provider::json::{extract_signal_refs, extract_visitor_data, parse_rpc_body};
use bgutil_ytdlp_pot_provider::request::Challenge;
use bgutil_ytdlp_pot_provider::rpc::{
    accept_interpreter_script, build_challenge_request, build_credential_request,
    build_json_string_array, normalize_interpreter_url, parse_challenge_response,
    parse_credential_response, plan_challenge_retrieval, ChallengePlan, RpcBody, RpcValue,
};

#[test]
fn test_base64_decode_exact() {
    let bytes = base64_decode("cHJvZ3JhbQ==").unwrap();
    assert_eq!(bytes, b"program".to_vec());
    assert_eq!(base64_decode("").unwrap(), Vec::<u8>::new());
    assert_eq!(base64_decode("EjRWeA==").unwrap(), vec![0x12, 0x34, 0x56, 0x78]);
}

#[test]
fn test_base64_decode_rejects_malformed() {
    // wrong length
    assert!(base64_decode("abc").is_err());
    // character outside the alphabet
    assert!(base64_decode("ab!=").is_err());
    // non-canonical padding: the dropped bits are not zero
    assert!(base64_decode("AB==").is_err());
    match base64_decode("ab~=") {
        Err(Error::Protocol(ProtocolError::UnexpectedField { .. })) => {}
        other => panic!("expected a protocol error, got {:?}", other),
    }
}

#[test]
fn test_base64_encode_websafe_exact() {
    assert_eq!(base64_encode_websafe(&vec![0x12, 0x34, 0x56, 0x78]), "EjRWeA");
    assert_eq!(base64_encode_websafe(&Vec::new()), "");
    // the web-safe alphabet uses minus and underscore instead of plus and slash
    assert_eq!(base64_encode_websafe(&vec![0xfb, 0xff]), "-_8");
}

#[test]
fn test_credential_response_empty_array() {
    let r = parse_credential_response(&RpcBody::Items(Vec::new()));
    assert!(matches!(r, Err(Error::Credential(CredentialError::Empty))));
}

#[test]
fn test_credential_response_single_token_defaults() {
    let items = vec![RpcValue::Text("tok".to_string())];
    let c = parse_credential_response(&RpcBody::Items(items)).unwrap();
    assert_eq!(c.integrity_token, "tok");
    assert_eq!(c.estimated_ttl_secs, 3600);
    assert_eq!(c.mint_refresh_threshold_secs, 1800);
    assert_eq!(c.websafe_fallback_token, None);
}

#[test]
fn test_credential_response_full() {
    let items = vec![
        RpcValue::Text("tok".to_string()),
        RpcValue::Number(7200),
        RpcValue::Number(900),
        RpcValue::Text("fallback".to_string()),
    ];
    let c = parse_credential_response(&RpcBody::Items(items)).unwrap();
    assert_eq!(c.integrity_token, "tok");
    assert_eq!(c.estimated_ttl_secs, 7200);
    assert_eq!(c.mint_refresh_threshold_secs, 900);
    assert_eq!(c.websafe_fallback_token, Some("fallback".to_string()));
}

#[test]
fn test_credential_response_not_array() {
    let r = parse_credential_response(&RpcBody::NotArray);
    assert!(matches!(r, Err(Error::Credential(CredentialError::InvalidFormat))));
}

#[test]
fn test_credential_response_bad_token_type() {
    let items = vec![RpcValue::Number(5)];
    let r = parse_credential_response(&RpcBody::Items(items));
    assert!(matches!(r, Err(Error::Credential(CredentialError::InvalidFormat))));
}

#[test]
fn test_challenge_response_insufficient_data() {
    let items = vec![RpcValue::Text("msg".to_string()), RpcValue::Text("js".to_string())];
    let r = parse_challenge_response(&items);
    match r {
        Err(Error::Protocol(ProtocolError::InsufficientData { expected, actual })) => {
            assert_eq!(expected, 5);
            assert_eq!(actual, 2);
        }
        other => panic!("expected insufficient data, got {:?}", other),
    }
    assert!(parse_challenge_response(&Vec::new()).is_err());
}

#[test]
fn test_challenge_response_example() {
    let items = vec![
        RpcValue::Text("msg".to_string()),
        RpcValue::Text("js_src".to_string()),
        RpcValue::Text("hashABC".to_string()),
        RpcValue::Text("cHJvZ3JhbQ==".to_string()),
        RpcValue::Text("GlobalX".to_string()),
    ];
    let c = parse_challenge_response(&items).unwrap();
    assert_eq!(c.global_name, "GlobalX");
    assert_eq!(c.interpreter_hash, "hashABC");
    assert_eq!(c.message_id, Some("msg".to_string()));
    assert_eq!(c.interpreter_javascript.script(), "js_src");
    assert_eq!(c.program, "cHJvZ3JhbQ==");
    assert_eq!(c.client_experiments_state_blob, None);
    // the program blob decodes with the strict decoder
    assert_eq!(c.program_bytes().unwrap(), b"program".to_vec());
    assert_eq!(base64_decode(&c.program).unwrap(), b"program".to_vec());
}

#[test]
fn test_challenge_response_tolerates_absent_blob() {
    let items = vec![
        RpcValue::Null,
        RpcValue::Text("js".to_string()),
        RpcValue::Text("h".to_string()),
        RpcValue::Text("cA==".to_string()),
        RpcValue::Text("G".to_string()),
        RpcValue::Composite,
    ];
    let c = parse_challenge_response(&items).unwrap();
    assert_eq!(c.message_id, None);
    assert_eq!(c.client_experiments_state_blob, None);
}

#[test]
fn test_challenge_response_bad_field() {
    let items = vec![
        RpcValue::Text("msg".to_string()),
        RpcValue::Number(1),
        RpcValue::Text("h".to_string()),
        RpcValue::Text("cA==".to_string()),
        RpcValue::Text("G".to_string()),
    ];
    let r = parse_challenge_response(&items);
    assert!(matches!(r, Err(Error::Protocol(ProtocolError::UnexpectedField { index: 1 }))));
}

#[test]
fn test_normalize_interpreter_url() {
    assert_eq!(normalize_interpreter_url("//host/base.js"), "https://host/base.js");
    assert_eq!(normalize_interpreter_url("https://host/base.js"), "https://host/base.js");
    assert_eq!(normalize_interpreter_url("/x"), "/x");
    assert_eq!(normalize_interpreter_url(""), "");
}

#[test]
fn test_build_json_string_array() {
    assert_eq!(build_json_string_array(&Vec::new()), "[]");
    assert_eq!(build_json_string_array(&vec!["a".to_string()]), "[\"a\"]");
    assert_eq!(
        build_json_string_array(&vec!["key".to_string(), "a\"b\\c".to_string()]),
        "[\"key\",\"a\\\"b\\\\c\"]"
    );
    assert_eq!(build_json_string_array(&vec!["\n".to_string()]), "[\"\\u000a\"]");
}

#[test]
fn test_build_rpc_request_bodies() {
    assert_eq!(build_challenge_request("rk", None), "[\"rk\"]");
    assert_eq!(build_challenge_request("rk", Some("hashABC")), "[\"rk\",\"hashABC\"]");
    assert_eq!(build_credential_request("rk", "resp"), "[\"rk\",\"resp\"]");
}

#[test]
fn test_parse_rpc_body_roundtrip() {
    let body = "[\"tok\",7200,true,null,[1,2]]";
    match parse_rpc_body(body) {
        RpcBody::Items(items) => {
            assert_eq!(items.len(), 5);
            assert!(matches!(&items[0], RpcValue::Text(t) if t == "tok"));
            assert!(matches!(items[1], RpcValue::Number(7200)));
            assert!(matches!(items[2], RpcValue::Flag(true)));
            assert!(matches!(items[3], RpcValue::Null));
            assert!(matches!(items[4], RpcValue::Composite));
        }
        RpcBody::NotArray => panic!("expected an array body"),
    }
    assert!(matches!(parse_rpc_body("{\"a\":1}"), RpcBody::NotArray));
    assert!(matches!(parse_rpc_body("not json"), RpcBody::NotArray));
}

#[test]
fn test_parsed_body_feeds_credential_parser() {
    let body = parse_rpc_body("[\"tok\",7200]");
    let c = parse_credential_response(&body).unwrap();
    assert_eq!(c.integrity_token, "tok");
    assert_eq!(c.estimated_ttl_secs, 7200);
    assert_eq!(c.mint_refresh_threshold_secs, 1800);
}

#[test]
fn test_extract_signal_refs() {
    let body = "{\"webPoSignalOutput\":[\"getMinter\",\"other\"]}";
    assert_eq!(
        extract_signal_refs(body),
        Some(vec!["getMinter".to_string(), "other".to_string()])
    );
    assert_eq!(extract_signal_refs("{\"other\":1}"), None);
    assert_eq!(extract_signal_refs("{\"webPoSignalOutput\":[1]}"), None);
    assert_eq!(extract_signal_refs("plain text"), None);
}

#[test]
fn test_plan_challenge_retrieval() {
    // with a context and the primary endpoint enabled, it is tried first
    let plan = plan_challenge_retrieval(None, true, false);
    assert!(matches!(plan, ChallengePlan::TryPrimaryFirst));
    let plan = plan_challenge_retrieval(Some(Challenge::Text("c".to_string())), true, false);
    assert!(matches!(plan, ChallengePlan::TryPrimaryFirst));

    // otherwise a supplied challenge wins
    let plan = plan_challenge_retrieval(Some(Challenge::Text("c".to_string())), true, true);
    match plan {
        ChallengePlan::UseProvided(Challenge::Text(c)) => assert_eq!(c, "c"),
        other => panic!("expected the supplied challenge, got {:?}", other),
    }

    // and the anonymous endpoint is the last resort
    let plan = plan_challenge_retrieval(None, false, false);
    assert!(matches!(plan, ChallengePlan::UseFallback));
}

#[test]
fn test_accept_interpreter_script() {
    assert_eq!(accept_interpreter_script(true, "var x;".to_string()).unwrap(), "var x;");
    assert!(matches!(
        accept_interpreter_script(false, "var x;".to_string()),
        Err(Error::Challenge { .. })
    ));
    assert!(matches!(
        accept_interpreter_script(true, "".to_string()),
        Err(Error::Challenge { .. })
    ));
}

#[test]
fn test_extract_visitor_data() {
    let body = "{\"responseContext\":{\"visitorData\":\"CgtX\"}}";
    assert_eq!(extract_visitor_data(body), Some("CgtX".to_string()));
    assert_eq!(extract_visitor_data("{\"responseContext\":{}}"), None);
    assert_eq!(extract_visitor_data("{}"), None);
}
