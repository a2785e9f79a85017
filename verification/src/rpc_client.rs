//! The RPC client path: an invocation becomes one query, and the first
//! reply to it becomes the payload handed back.

use vstd::prelude::*;
use crate::attachment::{
    attachment_pairs, attributes_key, outbound_attachment, readable_pairs, source_key,
};
use crate::keymap::{to_zenoh_key_string, zenoh_key};
use crate::mesh::{QueryOutcome, QueryRequest, QueryTarget, QUERY_TIMEOUT_MS};
use crate::model::{Data, UPayload, UUri};
use crate::status::{RpcFault, RpcMapperError};
use crate::text::{
    decimal_text, i32_to_decimal, lemma_decimal_round_trip, parse_i32, parse_i32_text,
};
use vstd::string::StringExecFns;

verus! {

/// Why a method cannot be invoked, if it cannot. What is handed in is
/// looked at in this order: the address, the attributes, the key, the
/// payload, the wire form of the attributes, the wire form of the address.
pub open spec fn invoke_failure(
    topic_valid: bool,
    attributes_fault: Option<Seq<char>>,
    has_long_form: bool,
    payload: UPayload,
    attributes: Option<Vec<u8>>,
    source: Option<Vec<u8>>,
) -> Option<RpcFault> {
    if !topic_valid {
        Some(RpcFault::Unexpected("Wrong UUri"@))
    } else if attributes_fault is Some {
        Some(RpcFault::Unexpected("Wrong UAttributes "@ + attributes_fault->0))
    } else if !has_long_form {
        Some(RpcFault::Unexpected("Unable to transform to Zenoh key"@))
    } else if !payload.is_value() {
        Some(RpcFault::InvalidPayload("Wrong UPayload"@))
    } else if attributes is None {
        Some(RpcFault::Protobuf("Unable to encode UAttributes"@))
    } else if source is None {
        Some(RpcFault::Unexpected("Unable to serialize source UUri"@))
    } else {
        None
    }
}

/// Prepares the query that invokes the method at `topic`.
///
/// `topic_valid` says whether the address passed validation, and
/// `attributes_fault` what the validation of the request attributes found
/// wrong, if anything. `long_form` is the long text form of the address,
/// `attributes` and `source` are the attributes and the address in their
/// wire form; each is `None` where it could not be had.
///
/// The query carries the payload's bytes as its value, an attachment with
/// the two wire forms, asks the best matching queryable alone and waits
/// for 2000 milliseconds.
pub fn invoke_method(
    topic: &UUri,
    topic_valid: bool,
    attributes_fault: Option<&str>,
    long_form: Option<&str>,
    payload: UPayload,
    attributes: Option<Vec<u8>>,
    source: Option<Vec<u8>>,
) -> (r: Result<QueryRequest, RpcMapperError>)
    ensures
        !payload.is_value() ==> r is Err,
        match invoke_failure(
            topic_valid,
            match attributes_fault {
                Some(detail) => Some(detail@),
                None => None,
            },
            long_form is Some,
            payload,
            attributes,
            source,
        ) {
            Some(fault) => r matches Err(e) && e@ == fault,
            None => {
                &&& r matches Ok(query)
                &&& query.key@ == zenoh_key(*topic, long_form->0@)
                &&& query.payload@ == payload.value_bytes()
                &&& query.encoding_suffix@ == decimal_text(payload.format as int)
                &&& attachment_pairs(query.attachment) == readable_pairs(
                    seq![(attributes_key(), attributes->0@), (source_key(), source->0@)],
                )
                &&& query.target == QueryTarget::BestMatching
                &&& query.timeout_ms == 2000
            },
        },
{
    if !topic_valid {
        return Err(RpcMapperError::unexpected("Wrong UUri"));
    }
    if let Some(detail) = attributes_fault {
        return Err(RpcMapperError::unexpected_with("Wrong UAttributes ", detail));
    }
    let Ok(key) = to_zenoh_key_string(topic, long_form) else {
        return Err(RpcMapperError::unexpected("Unable to transform to Zenoh key"));
    };
    let format = payload.format;
    let Some(Data::Value(bytes)) = payload.data else {
        return Err(RpcMapperError::InvalidPayload(String::from_str("Wrong UPayload")));
    };
    let Some(attributes) = attributes else {
        return Err(
            RpcMapperError::ProtobufError(String::from_str("Unable to encode UAttributes")),
        );
    };
    let Some(source) = source else {
        return Err(RpcMapperError::unexpected("Unable to serialize source UUri"));
    };
    Ok(
        QueryRequest {
            key,
            payload: bytes,
            encoding_suffix: i32_to_decimal(format),
            attachment: outbound_attachment(&attributes, &source),
            target: QueryTarget::BestMatching,
            timeout_ms: QUERY_TIMEOUT_MS,
        },
    )
}

/// What the caller of an invocation gets for the way its query went.
pub open spec fn reply_result(outcome: QueryOutcome) -> Result<UPayload, RpcFault> {
    match outcome {
        QueryOutcome::NotSent => Err(RpcFault::Unexpected("Error while sending Zenoh query"@)),
        QueryOutcome::NoReply(detail) => Err(
            RpcFault::Unexpected("Error while receiving Zenoh reply: "@ + detail@),
        ),
        QueryOutcome::Reply { encoding_suffix, payload } => match parse_i32_text(
            encoding_suffix@,
        ) {
            Some(format) => Ok(
                UPayload { length: Some(0i32), format, data: Some(Data::Value(payload)) },
            ),
            None => Err(RpcFault::Unexpected("Error while parsing Zenoh encoding"@)),
        },
        QueryOutcome::ReplyError(detail) => Err(
            RpcFault::Unexpected("Error while parsing Zenoh reply: "@ + detail@),
        ),
    }
}

/// Turns the way a query went into what the caller of the invocation gets.
///
/// Of a reply, the bytes become a payload that carries them as they came,
/// in the format that the suffix of the content encoding gives in decimal;
/// the payload's length field is zero. Every other outcome is an unexpected
/// error, and so is a suffix that is no number.
pub fn receive_reply(outcome: QueryOutcome) -> (r: Result<UPayload, RpcMapperError>)
    ensures
        match reply_result(outcome) {
            Ok(payload) => r == Ok::<UPayload, RpcMapperError>(payload),
            Err(fault) => r matches Err(e) && e@ == fault,
        },
{
    match outcome {
        QueryOutcome::NotSent => Err(RpcMapperError::unexpected("Error while sending Zenoh query")),
        QueryOutcome::NoReply(detail) => Err(
            RpcMapperError::unexpected_with(
                "Error while receiving Zenoh reply: ",
                detail.as_str(),
            ),
        ),
        QueryOutcome::Reply { encoding_suffix, payload } => match parse_i32(
            encoding_suffix.as_str(),
        ) {
            Some(format) => Ok(UPayload::received(format, payload)),
            None => Err(RpcMapperError::unexpected("Error while parsing Zenoh encoding")),
        },
        QueryOutcome::ReplyError(detail) => Err(
            RpcMapperError::unexpected_with("Error while parsing Zenoh reply: ", detail.as_str()),
        ),
    }
}

/// The format of a payload survives the way through the content encoding:
/// a reply whose suffix is the decimal text of a format code becomes a
/// payload of that format, with the bytes of the reply.
pub proof fn lemma_reply_keeps_format(format: i32, suffix: String, bytes: Vec<u8>)
    requires
        suffix@ == decimal_text(format as int),
    ensures
        reply_result(QueryOutcome::Reply { encoding_suffix: suffix, payload: bytes }) == Ok::<
            UPayload,
            RpcFault,
        >(UPayload { length: Some(0i32), format, data: Some(Data::Value(bytes)) }),
{
    lemma_decimal_round_trip(format);
}

} // verus!
