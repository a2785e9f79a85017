use ulink_zenoh::attachment::{outbound_attachment, response_attachment};
use ulink_zenoh::inbound::{inbound_payload, on_sample};
use ulink_zenoh::model::{Data, UAttributes, UEntity, UMessage, UPayload, UUri, Uuid};
use ulink_zenoh::status::UCode;

fn attributes() -> UAttributes {
    UAttributes { id: Some(Uuid { msb: 1, lsb: 2 }), message_type: 1, ..Default::default() }
}

fn source() -> UUri {
    UUri {
        entity: Some(UEntity { name: "body.access".to_string(), ..Default::default() }),
        ..Default::default()
    }
}

fn failure(r: Result<UMessage, ulink_zenoh::status::UStatus>) -> String {
    let status = r.unwrap_err();
    assert_eq!(status.code, UCode::Internal);
    status.message
}

#[test]
fn sample_becomes_a_message_with_the_decoded_source() {
    let attachment = outbound_attachment(&vec![1], &vec![2]);
    let message =
        on_sample(Some(&attachment), Some(attributes()), Some(source()), "3", vec![5, 6]).unwrap();
    assert_eq!(
        message,
        UMessage {
            source: Some(source()),
            attributes: Some(attributes()),
            payload: Some(UPayload {
                length: Some(0),
                format: 3,
                data: Some(Data::Value(vec![5, 6]))
            }),
        }
    );
}

#[test]
fn sample_without_attachment_is_reported() {
    let r = on_sample(None, Some(attributes()), Some(source()), "3", vec![]);
    assert_eq!(failure(r), "Unable to get attachment");
}

#[test]
fn sample_without_attributes_is_reported() {
    let mut builder = zenoh::sample::AttachmentBuilder::new();
    builder.insert("src_uuri", &[2u8][..]);
    let attachment = builder.build();
    let r = on_sample(Some(&attachment), None, Some(source()), "3", vec![]);
    assert_eq!(failure(r), "Unable to get uattributes");
}

#[test]
fn sample_with_undecodable_attributes_is_reported() {
    let attachment = outbound_attachment(&vec![0xff], &vec![2]);
    let r = on_sample(Some(&attachment), None, Some(source()), "3", vec![]);
    assert_eq!(failure(r), "Unable to decode attribute");
}

#[test]
fn undecodable_attributes_come_before_a_missing_source() {
    let attachment = response_attachment(&vec![0xff]);
    let r = on_sample(Some(&attachment), None, None, "x", vec![]);
    assert_eq!(failure(r), "Unable to decode attribute");
}

#[test]
fn sample_without_source_is_reported() {
    let attachment = response_attachment(&vec![1]);
    let r = on_sample(Some(&attachment), Some(attributes()), None, "3", vec![]);
    assert_eq!(failure(r), "Unable to get source_uuri");
}

#[test]
fn sample_with_an_empty_source_blob_has_no_source() {
    let attachment = outbound_attachment(&vec![1], &vec![]);
    let r = on_sample(Some(&attachment), Some(attributes()), Some(UUri::default()), "3", vec![]);
    assert_eq!(failure(r), "Unable to get source_uuri");
}

#[test]
fn sample_with_undecodable_source_is_reported() {
    let attachment = outbound_attachment(&vec![1], &vec![0xff]);
    let r = on_sample(Some(&attachment), Some(attributes()), None, "3", vec![]);
    assert_eq!(failure(r), "Unable to decode source uuri");
}

#[test]
fn sample_with_a_suffix_that_is_no_number_is_reported() {
    let attachment = outbound_attachment(&vec![1], &vec![2]);
    let r = on_sample(Some(&attachment), Some(attributes()), Some(source()), "", vec![]);
    assert_eq!(failure(r), "Unable to get payload encoding");
}

#[test]
fn inbound_payload_takes_the_format_from_the_suffix() {
    assert_eq!(
        inbound_payload("7", vec![1, 2]),
        Ok(UPayload { length: Some(0), format: 7, data: Some(Data::Value(vec![1, 2])) })
    );
    assert_eq!(
        inbound_payload("+8", vec![]),
        Ok(UPayload { length: Some(0), format: 8, data: Some(Data::Value(vec![])) })
    );
    let status = inbound_payload("text/plain", vec![1]).unwrap_err();
    assert_eq!(status.code, UCode::Internal);
    assert_eq!(status.message, "Unable to get payload encoding");
}
