use ulink_zenoh::attachment::{attributes_field, source_field};
use ulink_zenoh::mesh::{QueryOutcome, QueryTarget, QUERY_TIMEOUT_MS};
use ulink_zenoh::model::{Data, Remote, UAuthority, UPayload, UUri};
use ulink_zenoh::rpc_client::{invoke_method, receive_reply};
use ulink_zenoh::status::RpcMapperError;

fn value_payload(format: i32, bytes: &[u8]) -> UPayload {
    UPayload { length: None, format, data: Some(Data::Value(bytes.to_vec())) }
}

fn unexpected(text: &str) -> RpcMapperError {
    RpcMapperError::UnexpectedError(text.to_string())
}

#[test]
fn invocation_makes_one_query() {
    let query = invoke_method(
        &UUri::default(),
        true,
        None,
        Some("/body.access/1/rpc.UpdateDoor"),
        value_payload(2, &[1, 2, 3]),
        Some(vec![4, 5]),
        Some(vec![6]),
    )
    .ok()
    .unwrap();
    assert_eq!(query.key, "up/body.access/1/rpc.UpdateDoor");
    assert_eq!(query.payload, vec![1, 2, 3]);
    assert_eq!(query.encoding_suffix, "2");
    assert_eq!(attributes_field(&query.attachment), Some(vec![4, 5]));
    assert_eq!(source_field(&query.attachment), Some(vec![6]));
    assert_eq!(query.target, QueryTarget::BestMatching);
    assert_eq!(query.timeout_ms, 2000);
    assert_eq!(QUERY_TIMEOUT_MS, 2000);
}

#[test]
fn invocation_of_the_wildcard_authority_queries_everything() {
    let topic = UUri {
        authority: Some(UAuthority { remote: Some(Remote::Name("*".to_string())) }),
        ..Default::default()
    };
    let query = invoke_method(
        &topic,
        true,
        None,
        Some("//*/body.access/1/rpc.UpdateDoor"),
        value_payload(2, &[1]),
        Some(vec![4]),
        Some(vec![6]),
    )
    .ok()
    .unwrap();
    assert_eq!(query.key, "up/**");
}

#[test]
fn invocation_refuses_an_invalid_address_first() {
    let payload = UPayload { length: None, format: 0, data: None };
    let error = invoke_method(&UUri::default(), false, Some("bad"), None, payload, None, None)
        .err()
        .unwrap();
    assert_eq!(error, unexpected("Wrong UUri"));
}

#[test]
fn invocation_refuses_invalid_attributes() {
    let error = invoke_method(
        &UUri::default(),
        true,
        Some("ValidationError(\"Invalid Type\")"),
        Some("/a/1/rpc.b"),
        value_payload(2, &[1]),
        Some(vec![4]),
        Some(vec![6]),
    )
    .err()
    .unwrap();
    assert_eq!(error, unexpected("Wrong UAttributes ValidationError(\"Invalid Type\")"));
}

#[test]
fn invocation_needs_a_key() {
    let error = invoke_method(
        &UUri::default(),
        true,
        None,
        None,
        value_payload(2, &[1]),
        Some(vec![4]),
        Some(vec![6]),
    )
    .err()
    .unwrap();
    assert_eq!(error, unexpected("Unable to transform to Zenoh key"));
}

#[test]
fn invocation_refuses_a_payload_by_reference() {
    let payload = UPayload { length: Some(1), format: 2, data: Some(Data::Reference(77)) };
    let error = invoke_method(
        &UUri::default(),
        true,
        None,
        Some("/a/1/rpc.b"),
        payload,
        Some(vec![4]),
        Some(vec![6]),
    )
    .err()
    .unwrap();
    assert_eq!(error, RpcMapperError::InvalidPayload("Wrong UPayload".to_string()));
}

#[test]
fn invocation_refuses_a_payload_without_data() {
    let payload = UPayload { length: None, format: 2, data: None };
    let error =
        invoke_method(&UUri::default(), true, None, Some("/a/1/rpc.b"), payload, None, None)
            .err()
            .unwrap();
    assert_eq!(error, RpcMapperError::InvalidPayload("Wrong UPayload".to_string()));
}

#[test]
fn invocation_needs_encoded_attributes() {
    let error = invoke_method(
        &UUri::default(),
        true,
        None,
        Some("/a/1/rpc.b"),
        value_payload(2, &[1]),
        None,
        None,
    )
    .err()
    .unwrap();
    assert_eq!(error, RpcMapperError::ProtobufError("Unable to encode UAttributes".to_string()));
}

#[test]
fn invocation_needs_an_encoded_source() {
    let error = invoke_method(
        &UUri::default(),
        true,
        None,
        Some("/a/1/rpc.b"),
        value_payload(2, &[1]),
        Some(vec![4]),
        None,
    )
    .err()
    .unwrap();
    assert_eq!(error, unexpected("Unable to serialize source UUri"));
}

#[test]
fn reply_becomes_a_payload_with_length_zero() {
    let outcome =
        QueryOutcome::Reply { encoding_suffix: "3".to_string(), payload: vec![9, 8, 7] };
    assert_eq!(
        receive_reply(outcome),
        Ok(UPayload { length: Some(0), format: 3, data: Some(Data::Value(vec![9, 8, 7])) })
    );
}

#[test]
fn reply_format_is_not_held_against_the_known_codes() {
    let outcome = QueryOutcome::Reply { encoding_suffix: "-12345".to_string(), payload: vec![] };
    assert_eq!(
        receive_reply(outcome),
        Ok(UPayload { length: Some(0), format: -12345, data: Some(Data::Value(vec![])) })
    );
}

#[test]
fn reply_with_a_suffix_that_is_no_number_is_refused() {
    for suffix in ["", "json", "3;charset=utf-8", "3 ", "99999999999"] {
        let outcome =
            QueryOutcome::Reply { encoding_suffix: suffix.to_string(), payload: vec![1] };
        assert_eq!(receive_reply(outcome), Err(unexpected("Error while parsing Zenoh encoding")));
    }
}

#[test]
fn query_that_was_not_sent_is_an_error() {
    assert_eq!(
        receive_reply(QueryOutcome::NotSent),
        Err(unexpected("Error while sending Zenoh query"))
    );
}

#[test]
fn query_without_reply_is_an_error() {
    assert_eq!(
        receive_reply(QueryOutcome::NoReply("Disconnected".to_string())),
        Err(unexpected("Error while receiving Zenoh reply: Disconnected"))
    );
}

#[test]
fn error_reply_is_an_error() {
    assert_eq!(
        receive_reply(QueryOutcome::ReplyError("Timeout".to_string())),
        Err(unexpected("Error while parsing Zenoh reply: Timeout"))
    );
}
