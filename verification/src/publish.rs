//! The publish path: a fire-and-forget message becomes one put.

use vstd::prelude::*;
use crate::attachment::{
    attachment_pairs, attributes_key, outbound_attachment, readable_pairs, source_key,
};
use crate::mesh::PutRequest;
use crate::model::{Data, UPayload};
use crate::status::{UCode, UStatus};
use crate::text::{decimal_text, i32_to_decimal};
use vstd::string::StringExecFns;

verus! {

/// Why a message cannot be published, if it cannot: the category and the
/// message of the failure. The payload is looked at first, then the encoded
/// attributes, then the encoded topic.
pub open spec fn publish_failure(
    payload: UPayload,
    attributes: Option<Vec<u8>>,
    topic: Option<Vec<u8>>,
) -> Option<(UCode, Seq<char>)> {
    if !payload.is_value() {
        Some((UCode::InvalidArgument, "Invalid data"@))
    } else if attributes is None {
        Some((UCode::InvalidArgument, "Unable to encode UAttributes"@))
    } else if topic is None {
        Some((UCode::InvalidArgument, "Unable to encode topic UUri"@))
    } else {
        None
    }
}

/// Whether `put` is the put that publishes `payload` under `key` with the
/// wire forms `attributes` and `topic`: it carries the payload's bytes, the
/// payload's format code in decimal as suffix of the content encoding, and
/// an attachment with the two wire forms.
pub open spec fn is_publish_put(
    put: PutRequest,
    key: Seq<char>,
    payload: UPayload,
    attributes: Seq<u8>,
    topic: Seq<u8>,
) -> bool {
    &&& put.key@ == key
    &&& put.payload@ == payload.value_bytes()
    &&& put.encoding_suffix@ == decimal_text(payload.format as int)
    &&& attachment_pairs(put.attachment) == readable_pairs(
        seq![(attributes_key(), attributes), (source_key(), topic)],
    )
}

/// Prepares the put that publishes `payload` under `zenoh_key`.
///
/// `attributes` and `topic` are the attributes of the message and its topic
/// address in their wire form, each `None` where it could not be encoded.
/// Only a payload that carries its bytes itself can be published. The put
/// carries those bytes, the payload's format code in decimal as suffix of
/// the content encoding, and an attachment with the two wire forms.
/// Nothing here touches the mesh or any state of the transport.
pub fn send_publish(
    zenoh_key: &str,
    payload: UPayload,
    attributes: Option<Vec<u8>>,
    topic: Option<Vec<u8>>,
) -> (r: Result<PutRequest, UStatus>)
    ensures
        !payload.is_value() ==> r is Err,
        match publish_failure(payload, attributes, topic) {
            Some((code, text)) => r matches Err(e) && e.says(code, text),
            None => r matches Ok(put) && is_publish_put(
                put,
                zenoh_key@,
                payload,
                attributes->0@,
                topic->0@,
            ),
        },
{
    let format = payload.format;
    let Some(Data::Value(bytes)) = payload.data else {
        return Err(UStatus::fail_with_code(UCode::InvalidArgument, "Invalid data"));
    };
    let Some(attributes) = attributes else {
        return Err(
            UStatus::fail_with_code(UCode::InvalidArgument, "Unable to encode UAttributes"),
        );
    };
    let Some(topic) = topic else {
        return Err(
            UStatus::fail_with_code(UCode::InvalidArgument, "Unable to encode topic UUri"),
        );
    };
    Ok(
        PutRequest {
            key: String::from_str(zenoh_key),
            payload: bytes,
            encoding_suffix: i32_to_decimal(format),
            attachment: outbound_attachment(&attributes, &topic),
        },
    )
}

/// What the publisher is told once the mesh has been asked to put: success
/// if the mesh took the put, an internal failure if it did not. Nothing is
/// tried again.
pub fn put_outcome(sent: bool) -> (r: Result<(), UStatus>)
    ensures
        sent ==> r is Ok,
        !sent ==> (r matches Err(e) && e.says(UCode::Internal, "Unable to send with Zenoh"@)),
{
    if sent {
        Ok(())
    } else {
        Err(UStatus::fail_with_code(UCode::Internal, "Unable to send with Zenoh"))
    }
}

} // verus!
