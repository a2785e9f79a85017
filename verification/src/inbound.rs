//! The receive path of a subscription: a sample of the mesh becomes the
//! message that the listener is handed, or the failure that it is told of.

use vstd::prelude::*;
use zenoh::sample::Attachment;
use crate::attachment::{
    attachment_pairs, attributes_field, attributes_key, first_value, source_field, source_key,
};
use crate::codec::lemma_outbound_attachment_reads_back;
use crate::mesh::PutRequest;
use crate::model::{Data, UAttributes, UMessage, UPayload, UUri};
use crate::publish::is_publish_put;
use crate::status::{UCode, UStatus};
use crate::text::{lemma_decimal_round_trip, parse_i32, parse_i32_text};

verus! {

/// The payload of an inbound message: the bytes as they came, in the format
/// that the suffix of the content encoding gives in decimal. The format is
/// not held against the known format codes.
pub fn inbound_payload(encoding_suffix: &str, bytes: Vec<u8>) -> (r: Result<UPayload, UStatus>)
    ensures
        match parse_i32_text(encoding_suffix@) {
            Some(format) => r == Ok::<UPayload, UStatus>(
                UPayload { length: Some(0i32), format, data: Some(Data::Value(bytes)) },
            ),
            None => r matches Err(e) && e.says(
                UCode::Internal,
                "Unable to get payload encoding"@,
            ),
        },
{
    match parse_i32(encoding_suffix) {
        Some(format) => Ok(UPayload::received(format, bytes)),
        None => Err(UStatus::fail_with_code(UCode::Internal, "Unable to get payload encoding")),
    }
}

/// Why a sample yields no message, if it yields none. Each thing that can
/// be missing has a failure of its own; they are looked for in this order:
/// the attachment, the attributes in it, their decoded form, the source
/// address in it, its decoded form, the payload format.
pub open spec fn sample_failure(
    attachment: Option<&Attachment>,
    attributes: Option<UAttributes>,
    source: Option<UUri>,
    encoding_suffix: Seq<char>,
) -> Option<Seq<char>> {
    if attachment is None {
        Some("Unable to get attachment"@)
    } else if first_value(attachment_pairs(*attachment->0), attributes_key()) is None {
        Some("Unable to get uattributes"@)
    } else if attributes is None {
        Some("Unable to decode attribute"@)
    } else if first_value(attachment_pairs(*attachment->0), source_key()) is None {
        Some("Unable to get source_uuri"@)
    } else if source is None {
        Some("Unable to decode source uuri"@)
    } else if parse_i32_text(encoding_suffix) is None {
        Some("Unable to get payload encoding"@)
    } else {
        None
    }
}

/// Makes the message of a sample that a subscription received.
///
/// `attachment` is the attachment of the sample, if it has one;
/// `attributes` and `source` are what decoding the two blobs of the
/// attachment gave, each `None` where there was no blob or decoding failed.
/// The message has the decoded source address, not the address subscribed
/// to. Every failure is internal, and none of them ends the subscription.
pub fn on_sample(
    attachment: Option<&Attachment>,
    attributes: Option<UAttributes>,
    source: Option<UUri>,
    encoding_suffix: &str,
    payload: Vec<u8>,
) -> (r: Result<UMessage, UStatus>)
    ensures
        match sample_failure(attachment, attributes, source, encoding_suffix@) {
            Some(text) => r matches Err(e) && e.says(UCode::Internal, text),
            None => r == Ok::<UMessage, UStatus>(
                UMessage {
                    source: Some(source->0),
                    attributes: Some(attributes->0),
                    payload: Some(
                        UPayload {
                            length: Some(0i32),
                            format: parse_i32_text(encoding_suffix@)->0,
                            data: Some(Data::Value(payload)),
                        },
                    ),
                },
            ),
        },
{
    let Some(attachment) = attachment else {
        return Err(UStatus::fail_with_code(UCode::Internal, "Unable to get attachment"));
    };
    if attributes_field(attachment).is_none() {
        return Err(UStatus::fail_with_code(UCode::Internal, "Unable to get uattributes"));
    }
    let Some(attributes) = attributes else {
        return Err(UStatus::fail_with_code(UCode::Internal, "Unable to decode attribute"));
    };
    if source_field(attachment).is_none() {
        return Err(UStatus::fail_with_code(UCode::Internal, "Unable to get source_uuri"));
    }
    let Some(source) = source else {
        return Err(UStatus::fail_with_code(UCode::Internal, "Unable to decode source uuri"));
    };
    match inbound_payload(encoding_suffix, payload) {
        Ok(payload) => Ok(
            UMessage { source: Some(source), attributes: Some(attributes), payload: Some(payload) },
        ),
        Err(e) => Err(e),
    }
}

/// A published message arrives whole. A sample that carries the attachment
/// and the content-encoding suffix of the put that published a message, and
/// whose two blobs can be decoded, yields a message; its payload has the
/// format of the payload that was published. The one exception is a topic
/// whose wire form is empty: the attachment then gives no source address
/// back.
pub proof fn lemma_put_arrives_as_message(
    put: PutRequest,
    key: Seq<char>,
    payload: UPayload,
    attributes: Seq<u8>,
    topic: Seq<u8>,
    decoded_attributes: UAttributes,
    decoded_source: UUri,
)
    requires
        is_publish_put(put, key, payload, attributes, topic),
        topic.len() > 0,
    ensures
        sample_failure(
            Some(&put.attachment),
            Some(decoded_attributes),
            Some(decoded_source),
            put.encoding_suffix@,
        ) is None,
        parse_i32_text(put.encoding_suffix@) == Some(payload.format),
{
    lemma_outbound_attachment_reads_back(attributes, topic);
    lemma_decimal_round_trip(payload.format);
}

} // verus!
