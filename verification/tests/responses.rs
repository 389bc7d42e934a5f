use angstromscd::shape::{read_number, read_optional_text, read_text, read_texts};
use angstromscd::{
    decode_chat_response, decode_literature_result, decode_literature_results, decode_voe_alert,
    decode_voe_alerts, fetch_api_data, get_voe_alerts, parse_body, search_literature,
    send_chat_message, ApiResponse, ChatResponse, LiteratureResult, VoeAlert,
};

fn body(text: &str) -> Result<Vec<u8>, String> {
    Ok(text.as_bytes().to_vec())
}

fn json(text: &str) -> serde_json::Value {
    serde_json::from_str(text).unwrap()
}

fn decode_failure<T>() -> ApiResponse<T> {
    ApiResponse { success: false, data: None, error: Some("error decoding response body".to_string()) }
}

const REFUSED: &str = "error sending request for url (http://localhost:3001/api/chat)";

#[test]
fn transport_failure_becomes_a_failed_envelope() {
    let envelope = send_chat_message(Err(REFUSED.to_string())).unwrap();
    assert!(!envelope.success);
    assert_eq!(envelope.data, None);
    let error = envelope.error.unwrap();
    assert!(!error.is_empty());
    assert_eq!(error, REFUSED);
}

#[test]
fn transport_failure_is_reported_by_every_command() {
    assert_eq!(fetch_api_data(Err(REFUSED.to_string())), Ok(ApiResponse::fail(REFUSED.to_string())));
    assert_eq!(send_chat_message(Err(REFUSED.to_string())), Ok(ApiResponse::fail(REFUSED.to_string())));
    assert_eq!(search_literature(Err(REFUSED.to_string())), Ok(ApiResponse::fail(REFUSED.to_string())));
    assert_eq!(get_voe_alerts(Err(REFUSED.to_string())), Ok(ApiResponse::fail(REFUSED.to_string())));
}

#[test]
fn chat_response_without_citations_is_a_decode_failure() {
    let envelope = send_chat_message(body(r#"{"message":"Hydroxyurea raises HbF."}"#)).unwrap();
    assert!(!envelope.success);
    assert_eq!(envelope.data, None);
    assert_eq!(envelope.error, Some("error decoding response body".to_string()));
}

#[test]
fn chat_response_without_message_is_a_decode_failure() {
    assert_eq!(send_chat_message(body(r#"{"citations":[]}"#)), Ok(decode_failure()));
}

#[test]
fn chat_response_with_wrong_member_kinds_is_a_decode_failure() {
    assert_eq!(send_chat_message(body(r#"{"message":1,"citations":[]}"#)), Ok(decode_failure()));
    assert_eq!(send_chat_message(body(r#"{"message":null,"citations":[]}"#)), Ok(decode_failure()));
    assert_eq!(send_chat_message(body(r#"{"message":"m","citations":"c"}"#)), Ok(decode_failure()));
    assert_eq!(send_chat_message(body(r#"{"message":"m","citations":null}"#)), Ok(decode_failure()));
    assert_eq!(send_chat_message(body(r#"{"message":"m","citations":["a",2]}"#)), Ok(decode_failure()));
    assert_eq!(send_chat_message(body(r#"{"message":"m","citations":{"0":"a"}}"#)), Ok(decode_failure()));
}

#[test]
fn chat_response_that_is_no_object_is_a_decode_failure() {
    assert_eq!(send_chat_message(body(r#""just text""#)), Ok(decode_failure()));
    assert_eq!(send_chat_message(body("null")), Ok(decode_failure()));
    assert_eq!(send_chat_message(body("42")), Ok(decode_failure()));
    assert_eq!(send_chat_message(body("[]")), Ok(decode_failure()));
}

#[test]
fn body_that_is_no_json_is_a_decode_failure() {
    assert_eq!(fetch_api_data(body("<html>502 Bad Gateway</html>")), Ok(decode_failure()));
    assert_eq!(fetch_api_data(body("")), Ok(decode_failure()));
    assert_eq!(fetch_api_data(body(r#"{"a":1} trailing"#)), Ok(decode_failure()));
    assert_eq!(fetch_api_data(Ok(vec![0xff, 0xfe])), Ok(decode_failure()));
    assert_eq!(send_chat_message(body(r#"{"message":"m","citations":["#)), Ok(decode_failure()));
    assert_eq!(search_literature(body("not json")), Ok(decode_failure()));
    assert_eq!(get_voe_alerts(body("not json")), Ok(decode_failure()));
}

#[test]
fn conforming_chat_response_is_a_success() {
    let text = r#"{"message":"Hydroxyurea raises HbF.","citations":["PMID:1","PMID:2"]}"#;
    let envelope = send_chat_message(body(text)).unwrap();
    assert!(envelope.success);
    assert_eq!(envelope.error, None);
    assert_eq!(
        envelope.data,
        Some(ChatResponse {
            message: "Hydroxyurea raises HbF.".to_string(),
            citations: vec!["PMID:1".to_string(), "PMID:2".to_string()],
        })
    );
}

#[test]
fn chat_response_ignores_members_it_does_not_name() {
    let text = r#" { "id": 9, "citations": [], "usage": {"tokens": 12}, "message": "ok" } "#;
    assert_eq!(
        send_chat_message(body(text)),
        Ok(ApiResponse::ok(ChatResponse { message: "ok".to_string(), citations: vec![] }))
    );
}

#[test]
fn chat_response_keeps_escaped_and_non_ascii_text() {
    let text = r#"{"message":"été \"quoted\"\n","citations":["β-globin"]}"#;
    assert_eq!(
        send_chat_message(body(text)),
        Ok(ApiResponse::ok(ChatResponse {
            message: "été \"quoted\"\n".to_string(),
            citations: vec!["β-globin".to_string()],
        }))
    );
}

#[test]
fn generic_fetch_passes_any_json_value_through() {
    let text = r#"{"status":"ok","uptime":12.5,"tags":["a",null,true],"nested":{"n":-3}}"#;
    let envelope = fetch_api_data(body(text)).unwrap();
    assert!(envelope.success);
    assert_eq!(envelope.error, None);
    assert_eq!(envelope.data, Some(json(text)));
}

#[test]
fn generic_fetch_accepts_scalars_and_null() {
    assert_eq!(fetch_api_data(body("null")), Ok(ApiResponse::ok(serde_json::Value::Null)));
    assert_eq!(fetch_api_data(body("true")), Ok(ApiResponse::ok(serde_json::Value::Bool(true))));
    assert_eq!(fetch_api_data(body(" 17 ")), Ok(ApiResponse::ok(json("17"))));
    assert_eq!(fetch_api_data(body(r#""x""#)), Ok(ApiResponse::ok(serde_json::Value::String("x".to_string()))));
    assert_eq!(fetch_api_data(body("[]")), Ok(ApiResponse::ok(json("[]"))));
}

fn hit(n: u32) -> String {
    format!(
        r#"{{"title":"Title {n}","abstract_text":"Abstract {n}","pmid":"{n}","doi":"10.1000/{n}","relevance_score":0.{n}}}"#
    )
}

fn expected_hit(n: u32) -> LiteratureResult {
    LiteratureResult {
        title: format!("Title {n}"),
        abstract_text: format!("Abstract {n}"),
        pmid: Some(format!("{n}")),
        doi: Some(format!("10.1000/{n}")),
        relevance_score: serde_json::from_str(&format!("0.{n}")).unwrap(),
    }
}

#[test]
fn literature_search_returns_five_items_in_order() {
    let text = format!("[{},{},{},{},{}]", hit(5), hit(1), hit(4), hit(2), hit(3));
    let envelope = search_literature(body(&text)).unwrap();
    assert!(envelope.success);
    assert_eq!(envelope.error, None);
    let results = envelope.data.unwrap();
    assert_eq!(results.len(), 5);
    assert_eq!(
        results,
        vec![expected_hit(5), expected_hit(1), expected_hit(4), expected_hit(2), expected_hit(3)]
    );
}

#[test]
fn literature_result_reads_missing_and_null_identifiers_as_absent() {
    let text = r#"[{"title":"T","abstract_text":"A","pmid":null,"relevance_score":1}]"#;
    let results = search_literature(body(text)).unwrap().data.unwrap();
    assert_eq!(
        results,
        vec![LiteratureResult {
            title: "T".to_string(),
            abstract_text: "A".to_string(),
            pmid: None,
            doi: None,
            relevance_score: serde_json::Number::from(1u64),
        }]
    );
}

#[test]
fn literature_result_keeps_the_score_as_sent() {
    let whole = decode_literature_result(&json(r#"{"title":"T","abstract_text":"A","relevance_score":3}"#)).unwrap();
    assert_eq!(whole.relevance_score.as_u64(), Some(3));
    let negative = decode_literature_result(&json(r#"{"title":"T","abstract_text":"A","relevance_score":-2}"#)).unwrap();
    assert_eq!(negative.relevance_score.as_i64(), Some(-2));
    let fraction = decode_literature_result(&json(r#"{"title":"T","abstract_text":"A","relevance_score":0.875}"#)).unwrap();
    assert_eq!(fraction.relevance_score.as_f64(), Some(0.875));
}

#[test]
fn literature_result_with_a_wrong_member_is_refused() {
    assert_eq!(decode_literature_result(&json(r#"{"abstract_text":"A","relevance_score":1}"#)), None);
    assert_eq!(decode_literature_result(&json(r#"{"title":"T","relevance_score":1}"#)), None);
    assert_eq!(decode_literature_result(&json(r#"{"title":"T","abstract_text":"A"}"#)), None);
    assert_eq!(decode_literature_result(&json(r#"{"title":"T","abstract_text":"A","relevance_score":"0.5"}"#)), None);
    assert_eq!(decode_literature_result(&json(r#"{"title":"T","abstract_text":"A","relevance_score":null}"#)), None);
    assert_eq!(decode_literature_result(&json(r#"{"title":"T","abstract_text":"A","pmid":7,"relevance_score":1}"#)), None);
    assert_eq!(decode_literature_result(&json(r#"{"title":"T","abstract_text":"A","doi":[],"relevance_score":1}"#)), None);
    assert_eq!(decode_literature_result(&json(r#"["T","A",null,null,1]"#)), None);
}

#[test]
fn literature_search_fails_as_a_whole_on_one_bad_item() {
    let text = format!(r#"[{},{{"title":"only a title"}},{}]"#, hit(1), hit(2));
    assert_eq!(search_literature(body(&text)), Ok(decode_failure()));
}

#[test]
fn literature_search_needs_an_array() {
    assert_eq!(search_literature(body(&hit(1))), Ok(decode_failure()));
    assert_eq!(search_literature(body("null")), Ok(decode_failure()));
    assert_eq!(search_literature(body(r#"{"results":[]}"#)), Ok(decode_failure()));
}

#[test]
fn literature_search_with_no_hits_is_a_success() {
    assert_eq!(search_literature(body("[]")), Ok(ApiResponse::ok(vec![])));
    assert_eq!(decode_literature_results(&json("[]")), Some(vec![]));
}

#[test]
fn empty_alert_list_is_a_success() {
    let envelope = get_voe_alerts(body("[]")).unwrap();
    assert!(envelope.success);
    assert_eq!(envelope.data, Some(vec![]));
    assert_eq!(envelope.error, None);
}

fn alert(id: &str) -> VoeAlert {
    VoeAlert {
        id: id.to_string(),
        patient_id: format!("patient-{id}"),
        risk_level: "high".to_string(),
        message: "Pain crisis likely".to_string(),
        timestamp: "2024-05-01T08:00:00Z".to_string(),
    }
}

fn alert_json(id: &str) -> String {
    format!(
        r#"{{"id":"{id}","patient_id":"patient-{id}","risk_level":"high","message":"Pain crisis likely","timestamp":"2024-05-01T08:00:00Z"}}"#
    )
}

#[test]
fn alerts_come_back_in_the_order_sent() {
    let text = format!("[{},{},{}]", alert_json("c"), alert_json("a"), alert_json("b"));
    assert_eq!(
        get_voe_alerts(body(&text)),
        Ok(ApiResponse::ok(vec![alert("c"), alert("a"), alert("b")]))
    );
}

#[test]
fn alert_needs_all_five_texts() {
    assert_eq!(decode_voe_alert(&json(&alert_json("x"))), Some(alert("x")));
    for missing in ["id", "patient_id", "risk_level", "message", "timestamp"] {
        let mut value = json(&alert_json("x"));
        value.as_object_mut().unwrap().remove(missing);
        assert_eq!(decode_voe_alert(&value), None);
        value.as_object_mut().unwrap().insert(missing.to_string(), serde_json::Value::Null);
        assert_eq!(decode_voe_alert(&value), None);
    }
}

#[test]
fn alert_list_with_one_bad_item_is_a_decode_failure() {
    let text = format!(r#"[{},{{"id":"only"}}]"#, alert_json("a"));
    assert_eq!(get_voe_alerts(body(&text)), Ok(decode_failure()));
    assert_eq!(decode_voe_alerts(&json(&text)), None);
    assert_eq!(get_voe_alerts(body(r#"{"alerts":[]}"#)), Ok(decode_failure()));
}

#[test]
fn parse_body_accepts_json_text_only() {
    assert_eq!(parse_body(&b"{\"a\":[1,2]}".to_vec()), Some(json(r#"{"a":[1,2]}"#)));
    assert_eq!(parse_body(&b"{\"a\":[1,2]".to_vec()), None);
    assert_eq!(parse_body(&Vec::new()), None);
}

#[test]
fn parse_body_keeps_the_last_of_two_equal_keys() {
    assert_eq!(parse_body(&b"{\"a\":1,\"a\":2}".to_vec()), Some(json(r#"{"a":2}"#)));
}

#[test]
fn read_text_wants_a_string_member_of_an_object() {
    let value = json(r#"{"name":"Ada","age":36,"none":null}"#);
    assert_eq!(read_text(&value, "name"), Some("Ada".to_string()));
    assert_eq!(read_text(&value, "age"), None);
    assert_eq!(read_text(&value, "none"), None);
    assert_eq!(read_text(&value, "missing"), None);
    assert_eq!(read_text(&json(r#""name""#), "name"), None);
    assert_eq!(read_text(&json(r#"["name"]"#), "name"), None);
}

#[test]
fn read_optional_text_tells_absent_from_unfit() {
    let value = json(r#"{"doi":"10.1/x","pmid":null,"year":2020}"#);
    assert_eq!(read_optional_text(&value, "doi"), Some(Some("10.1/x".to_string())));
    assert_eq!(read_optional_text(&value, "pmid"), Some(None));
    assert_eq!(read_optional_text(&value, "missing"), Some(None));
    assert_eq!(read_optional_text(&value, "year"), None);
}

#[test]
fn read_number_wants_a_number_member() {
    let value = json(r#"{"score":0.25,"label":"0.25"}"#);
    assert_eq!(read_number(&value, "score"), serde_json::Number::from_f64(0.25));
    assert_eq!(read_number(&value, "label"), None);
    assert_eq!(read_number(&value, "missing"), None);
}

#[test]
fn read_texts_wants_an_array_of_strings() {
    assert_eq!(read_texts(&json(r#"["a","b",""]"#)), Some(vec!["a".to_string(), "b".to_string(), String::new()]));
    assert_eq!(read_texts(&json("[]")), Some(vec![]));
    assert_eq!(read_texts(&json(r#"["a",1]"#)), None);
    assert_eq!(read_texts(&json(r#"{"0":"a"}"#)), None);
    assert_eq!(read_texts(&json(r#""a""#)), None);
}

#[test]
fn decode_chat_response_reads_a_parsed_value() {
    assert_eq!(
        decode_chat_response(&json(r#"{"message":"m","citations":["c"]}"#)),
        Some(ChatResponse { message: "m".to_string(), citations: vec!["c".to_string()] })
    );
    assert_eq!(decode_chat_response(&json(r#"{"message":"m"}"#)), None);
}
