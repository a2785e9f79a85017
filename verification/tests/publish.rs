use ulink_zenoh::attachment::{attributes_field, source_field};
use ulink_zenoh::model::{Data, UPayload};
use ulink_zenoh::publish::{put_outcome, send_publish};
use ulink_zenoh::status::UCode;

fn value_payload(format: i32, bytes: &[u8]) -> UPayload {
    UPayload { length: None, format, data: Some(Data::Value(bytes.to_vec())) }
}

#[test]
fn publish_makes_one_put() {
    let put = send_publish(
        "up/body.access/1/door.front_left\\3Door",
        value_payload(3, b"{\"open\":true}"),
        Some(vec![10, 20, 30]),
        Some(vec![1, 2]),
    )
    .ok()
    .unwrap();
    assert_eq!(put.key, "up/body.access/1/door.front_left\\3Door");
    assert_eq!(put.payload, b"{\"open\":true}".to_vec());
    assert_eq!(put.encoding_suffix, "3");
    assert_eq!(attributes_field(&put.attachment), Some(vec![10, 20, 30]));
    assert_eq!(source_field(&put.attachment), Some(vec![1, 2]));
}

#[test]
fn publish_keeps_an_empty_payload_and_an_unknown_format() {
    let put = send_publish("up/a", value_payload(-7, b""), Some(vec![1]), Some(vec![2]))
        .ok()
        .unwrap();
    assert_eq!(put.payload, Vec::<u8>::new());
    assert_eq!(put.encoding_suffix, "-7");
}

#[test]
fn publish_refuses_a_payload_by_reference() {
    let payload = UPayload { length: Some(4), format: 3, data: Some(Data::Reference(0xdead)) };
    let status = send_publish("up/a", payload, Some(vec![1]), Some(vec![2])).err().unwrap();
    assert_eq!(status.code, UCode::InvalidArgument);
    assert_eq!(status.message, "Invalid data");
}

#[test]
fn publish_refuses_a_payload_without_data() {
    let payload = UPayload { length: None, format: 3, data: None };
    let status = send_publish("up/a", payload, Some(vec![1]), Some(vec![2])).err().unwrap();
    assert_eq!(status.code, UCode::InvalidArgument);
    assert_eq!(status.message, "Invalid data");
}

#[test]
fn publish_looks_at_the_payload_first() {
    let payload = UPayload { length: None, format: 3, data: None };
    let status = send_publish("up/a", payload, None, None).err().unwrap();
    assert_eq!(status.message, "Invalid data");
}

#[test]
fn publish_needs_encoded_attributes() {
    let status = send_publish("up/a", value_payload(3, b"x"), None, None).err().unwrap();
    assert_eq!(status.code, UCode::InvalidArgument);
    assert_eq!(status.message, "Unable to encode UAttributes");
}

#[test]
fn publish_needs_an_encoded_topic() {
    let status = send_publish("up/a", value_payload(3, b"x"), Some(vec![1]), None).err().unwrap();
    assert_eq!(status.code, UCode::InvalidArgument);
    assert_eq!(status.message, "Unable to encode topic UUri");
}

#[test]
fn put_that_the_mesh_took_is_a_success() {
    assert_eq!(put_outcome(true), Ok(()));
}

#[test]
fn put_that_the_mesh_refused_is_an_internal_failure() {
    let status = put_outcome(false).unwrap_err();
    assert_eq!(status.code, UCode::Internal);
    assert_eq!(status.message, "Unable to send with Zenoh");
}
