//! The transport itself: the listener registries, the correlation table
//! and the handle counter, and the paths that read and change them.
//!
//! The transport holds three tables. Two map the handle of a registration
//! to what the mesh declared for it: a subscriber for a topic, a queryable
//! for a method. The third, the correlation table, maps the text form of a
//! request id to the query that waits for its response.

use vstd::prelude::*;
use vstd::string::StringExecFns;
use zenoh::sample::Attachment;
use crate::attachment::{
    attachment_pairs, attributes_field, attributes_key, first_value, readable_pairs,
    response_attachment,
};
use crate::codec::{
    lemma_outbound_attachment_reads_back, lemma_reqid_text_injective, reqid_text,
    uuid_to_string,
};
use crate::handle::{allocate_handle, handle_text, next_counter};
use crate::inbound::inbound_payload;
use crate::keymap::zenoh_key;
use crate::mesh::{
    is_key_expr, key_expr_accepts, InboundValue, PutRequest, QueryRequest, ReplyOutcome,
    ReplyRequest,
};
use crate::model::{
    Data, UAttributes, UEntity, UMessage, UMessageType, UPayload, UUri, Uuid,
    UPAYLOAD_FORMAT_UNSPECIFIED,
};
use crate::publish::{is_publish_put, publish_failure, send_publish};
use crate::registry::Registry;
use crate::status::{UCode, UStatus};
use crate::text::{decimal_text, i32_to_decimal, lemma_decimal_round_trip, parse_i32_text};

verus! {

/// A listener of the mesh.
pub struct ZenohListener {}

/// What a registration has settled before the mesh is asked to declare
/// anything: the key to declare under, and the handle that the caller will
/// get.
pub struct Registration {
    pub key: String,
    pub handle: String,
}

/// What `send` asks of the mesh.
pub enum SendRequest<'a, Q> {
    /// Put a published message.
    Put(PutRequest),
    /// Complete the pending query with a reply.
    Reply(ReplyRequest, &'a Q),
}

/// The state of the transport. `S` is what the mesh declares for a
/// subscription, `R` what it declares for a method that is served, and `Q`
/// a query that waits for its response.
pub struct ULinkZenoh<S, R, Q> {
    subscriber_map: Registry<S>,
    queryable_map: Registry<R>,
    query_map: Registry<Q>,
    callback_counter: u64,
}

/// Why a registration is refused before the mesh is asked, if it is: the
/// address did not pass validation, or it has no key.
pub open spec fn registration_failure(topic_valid: bool, has_long_form: bool) -> Option<
    (UCode, Seq<char>),
> {
    if !topic_valid {
        Some((UCode::InvalidArgument, "Invalid topic"@))
    } else if !has_long_form {
        Some((UCode::Internal, "Unable to transform to Zenoh key"@))
    } else {
        None
    }
}

/// Why a listener is not unregistered, if it is not: the address did not
/// pass validation, or the table has no entry under the handle.
pub open spec fn unregistration_failure<T>(
    table: Map<Seq<char>, T>,
    topic_valid: bool,
    handle: Seq<char>,
) -> Option<(UCode, Seq<char>)> {
    if !topic_valid {
        Some((UCode::InvalidArgument, "Invalid topic"@))
    } else if !table.contains_key(handle) {
        Some((UCode::InvalidArgument, "Listener doesn't exist"@))
    } else {
        None
    }
}

/// The table of listeners after an attempt to unregister `handle`: without
/// that entry if the attempt succeeds, unchanged if it fails.
pub open spec fn after_unregistration<T>(
    table: Map<Seq<char>, T>,
    topic_valid: bool,
    handle: Seq<char>,
) -> Map<Seq<char>, T> {
    if unregistration_failure(table, topic_valid, handle) is None {
        table.remove(handle)
    } else {
        table
    }
}

/// Why a query yields no message for the listener, if it yields none. The
/// query is looked at in this order: the attachment, the attributes in it,
/// their decoded form, the payload format where the query carries a value,
/// the request id.
pub open spec fn query_failure(
    attachment: Option<&Attachment>,
    attributes: Option<UAttributes>,
    value: Option<InboundValue>,
) -> Option<Seq<char>> {
    if attachment is None {
        Some("Unable to get attachment"@)
    } else if first_value(attachment_pairs(*attachment->0), attributes_key()) is None {
        Some("Unable to get uattributes"@)
    } else if attributes is None {
        Some("Unable to decode attribute"@)
    } else if value is Some && parse_i32_text(value->0.encoding_suffix@) is None {
        Some("Unable to get payload encoding"@)
    } else if attributes->0.reqid is None {
        Some("The request is without reqid in UAttributes"@)
    } else {
        None
    }
}

/// The payload of the message that a query yields: the bytes of its value
/// in the format that its suffix gives, or no data and no format for a
/// query without a value.
pub open spec fn query_payload(value: Option<InboundValue>) -> UPayload {
    match value {
        Some(value) => UPayload {
            length: Some(0i32),
            format: parse_i32_text(value.encoding_suffix@)->0,
            data: Some(Data::Value(value.payload)),
        },
        None => UPayload { length: Some(0i32), format: UPAYLOAD_FORMAT_UNSPECIFIED, data: None },
    }
}

/// The correlation table with `query` stored for the request `reqid`.
pub open spec fn with_pending<Q>(table: Map<Seq<char>, Q>, reqid: Uuid, query: Q) -> Map<
    Seq<char>,
    Q,
> {
    table.insert(reqid_text(reqid), query)
}

/// The query that waits in the correlation table for the response to the
/// request `reqid`, if there is one.
pub open spec fn pending<Q>(table: Map<Seq<char>, Q>, reqid: Uuid) -> Option<Q> {
    if table.contains_key(reqid_text(reqid)) {
        Some(table[reqid_text(reqid)])
    } else {
        None
    }
}

/// Why a response cannot be sent, if it cannot. What is handed in is
/// looked at in this order: the payload, the wire form of the attributes,
/// the request id that the response refers to, the key, the pending query.
pub open spec fn response_failure<Q>(
    table: Map<Seq<char>, Q>,
    key_accepted: bool,
    payload: UPayload,
    reqid: Option<Uuid>,
    attributes: Option<Vec<u8>>,
) -> Option<(UCode, Seq<char>)> {
    if !payload.is_value() {
        Some((UCode::InvalidArgument, "Invalid data"@))
    } else if attributes is None {
        Some((UCode::InvalidArgument, "Unable to encode UAttributes"@))
    } else if reqid is None {
        Some((UCode::InvalidArgument, "reqid doesn't exist"@))
    } else if !key_accepted {
        Some((UCode::Internal, "Unable to create Zenoh key"@))
    } else if pending(table, reqid->0) is None {
        Some((UCode::Internal, "query doesn't exist"@))
    } else {
        None
    }
}

/// Whether `reply` is the reply that answers with `payload` under `key`
/// with the wire form `attributes`: it carries the payload's bytes, the
/// payload's format code in decimal as suffix of the content encoding, and
/// an attachment with the attributes alone.
pub open spec fn is_response_reply(
    reply: ReplyRequest,
    key: Seq<char>,
    payload: UPayload,
    attributes: Seq<u8>,
) -> bool {
    &&& reply.key@ == key
    &&& reply.payload@ == payload.value_bytes()
    &&& reply.encoding_suffix@ == decimal_text(payload.format as int)
    &&& attachment_pairs(reply.attachment) == readable_pairs(
        seq![(attributes_key(), attributes)],
    )
}

/// Which path a message takes when it is sent: that of a published message
/// or that of a response. Every other kind of message is refused, and so is
/// an address that did not pass validation or has no key.
pub open spec fn send_path(topic_valid: bool, has_long_form: bool, message_type: i32) -> Result<
    UMessageType,
    (UCode, Seq<char>),
> {
    if !topic_valid {
        Err((UCode::InvalidArgument, "Invalid topic"@))
    } else if !has_long_form {
        Err((UCode::Internal, "Unable to transform to Zenoh key"@))
    } else {
        match UMessageType::of_code(message_type) {
            Some(UMessageType::Publish) => Ok(UMessageType::Publish),
            Some(UMessageType::Response) => Ok(UMessageType::Response),
            _ => Err((UCode::InvalidArgument, "Wrong Message type in UAttributes"@)),
        }
    }
}

impl<S, R, Q> ULinkZenoh<S, R, Q> {
    /// The subscribers that are registered, by handle.
    pub closed spec fn subscribers(&self) -> Map<Seq<char>, S> {
        self.subscriber_map@
    }

    /// The queryables that are registered, by handle.
    pub closed spec fn queryables(&self) -> Map<Seq<char>, R> {
        self.queryable_map@
    }

    /// The correlation table: the pending queries, by the text form of
    /// their request id.
    pub closed spec fn pending_queries(&self) -> Map<Seq<char>, Q> {
        self.query_map@
    }

    /// The number that the next handle gets.
    pub closed spec fn counter(&self) -> u64 {
        self.callback_counter
    }

    /// A transport with nothing registered, nothing pending, and the
    /// counter at zero.
    pub fn new() -> (link: Self)
        ensures
            link.subscribers() == Map::<Seq<char>, S>::empty(),
            link.queryables() == Map::<Seq<char>, R>::empty(),
            link.pending_queries() == Map::<Seq<char>, Q>::empty(),
            link.counter() == 0,
    {
        ULinkZenoh {
            subscriber_map: Registry::new(),
            queryable_map: Registry::new(),
            query_map: Registry::new(),
            callback_counter: 0,
        }
    }

    /// The key of the address `uri`, whose long text form is `long_form`.
    pub fn to_zenoh_key_string(uri: &UUri, long_form: Option<&str>) -> (r: Result<String, UStatus>)
        ensures
            match long_form {
                Some(text) => r matches Ok(key) && key@ == zenoh_key(*uri, text@),
                None => r matches Err(e) && e.says(
                    UCode::Internal,
                    "Unable to transform to Zenoh key"@,
                ),
            },
    {
        crate::keymap::to_zenoh_key_string(uri, long_form)
    }

    /// Settles key and handle of a registration: the first step of
    /// registering a listener of either kind. The handle is the key, an
    /// underscore and the counter in hexadecimal; the counter moves on, and
    /// does so even if the mesh later declares nothing.
    fn begin_registration(
        &mut self,
        topic: &UUri,
        topic_valid: bool,
        long_form: Option<&str>,
    ) -> (r: Result<Registration, UStatus>)
        ensures
            final(self).subscribers() == old(self).subscribers(),
            final(self).queryables() == old(self).queryables(),
            final(self).pending_queries() == old(self).pending_queries(),
            match registration_failure(topic_valid, long_form is Some) {
                Some((code, text)) => {
                    &&& r matches Err(e) && e.says(code, text)
                    &&& final(self).counter() == old(self).counter()
                },
                None => {
                    &&& r matches Ok(registration)
                    &&& registration.key@ == zenoh_key(*topic, long_form->0@)
                    &&& registration.handle@ == handle_text(
                        registration.key@,
                        old(self).counter(),
                    )
                    &&& final(self).counter() == next_counter(old(self).counter())
                },
            },
    {
        if !topic_valid {
            return Err(UStatus::fail_with_code(UCode::InvalidArgument, "Invalid topic"));
        }
        let key = crate::keymap::to_zenoh_key_string(topic, long_form)?;
        let handle = allocate_handle(key.as_str(), &mut self.callback_counter);
        Ok(Registration { key, handle })
    }

    /// Begins the registration of a listener for the topic `topic`.
    ///
    /// `topic_valid` says whether the address passed validation, and
    /// `long_form` is its long text form, if it has one. On success the
    /// caller declares a subscriber under the key and reports back with
    /// `subscriber_declared`.
    pub fn register_listener(
        &mut self,
        topic: &UUri,
        topic_valid: bool,
        long_form: Option<&str>,
    ) -> (r: Result<Registration, UStatus>)
        ensures
            final(self).subscribers() == old(self).subscribers(),
            final(self).queryables() == old(self).queryables(),
            final(self).pending_queries() == old(self).pending_queries(),
            match registration_failure(topic_valid, long_form is Some) {
                Some((code, text)) => {
                    &&& r matches Err(e) && e.says(code, text)
                    &&& final(self).counter() == old(self).counter()
                },
                None => {
                    &&& r matches Ok(registration)
                    &&& registration.key@ == zenoh_key(*topic, long_form->0@)
                    &&& registration.handle@ == handle_text(
                        registration.key@,
                        old(self).counter(),
                    )
                    &&& final(self).counter() == next_counter(old(self).counter())
                },
            },
    {
        self.begin_registration(topic, topic_valid, long_form)
    }

    /// Ends the registration of a listener for a topic. With the subscriber
    /// that the mesh declared, the subscriber is kept under the handle and
    /// the handle is returned. With none, nothing is kept.
    pub fn subscriber_declared(&mut self, handle: String, subscriber: Option<S>) -> (r: Result<
        String,
        UStatus,
    >)
        ensures
            final(self).queryables() == old(self).queryables(),
            final(self).pending_queries() == old(self).pending_queries(),
            final(self).counter() == old(self).counter(),
            match subscriber {
                Some(declared) => {
                    &&& r == Ok::<String, UStatus>(handle)
                    &&& final(self).subscribers() == old(self).subscribers().insert(
                        handle@,
                        declared,
                    )
                },
                None => {
                    &&& r matches Err(e) && e.says(
                        UCode::Internal,
                        "Unable to register callback with Zenoh"@,
                    )
                    &&& final(self).subscribers() == old(self).subscribers()
                },
            },
    {
        match subscriber {
            Some(declared) => {
                self.subscriber_map.insert(handle.clone(), declared);
                Ok(handle)
            },
            None => Err(
                UStatus::fail_with_code(UCode::Internal, "Unable to register callback with Zenoh"),
            ),
        }
    }

    /// Unregisters the listener with the handle `listener` from its topic.
    /// The address is only validated; it is not held against the handle.
    pub fn unregister_listener(&mut self, topic_valid: bool, listener: &str) -> (r: Result<
        (),
        UStatus,
    >)
        ensures
            final(self).queryables() == old(self).queryables(),
            final(self).pending_queries() == old(self).pending_queries(),
            final(self).counter() == old(self).counter(),
            final(self).subscribers() == after_unregistration(
                old(self).subscribers(),
                topic_valid,
                listener@,
            ),
            match unregistration_failure(old(self).subscribers(), topic_valid, listener@) {
                Some((code, text)) => r matches Err(e) && e.says(code, text),
                None => r is Ok,
            },
    {
        if !topic_valid {
            return Err(UStatus::fail_with_code(UCode::InvalidArgument, "Invalid topic"));
        }
        match self.subscriber_map.remove(listener) {
            Some(_) => Ok(()),
            None => Err(
                UStatus::fail_with_code(UCode::InvalidArgument, "Listener doesn't exist"),
            ),
        }
    }

    /// Begins the registration of a listener for the method `method`.
    ///
    /// `method_valid` says whether the address passed validation, and
    /// `long_form` is its long text form, if it has one. On success the
    /// caller declares a queryable under the key and reports back with
    /// `queryable_declared`.
    pub fn register_rpc_listener(
        &mut self,
        method: &UUri,
        method_valid: bool,
        long_form: Option<&str>,
    ) -> (r: Result<Registration, UStatus>)
        ensures
            final(self).subscribers() == old(self).subscribers(),
            final(self).queryables() == old(self).queryables(),
            final(self).pending_queries() == old(self).pending_queries(),
            match registration_failure(method_valid, long_form is Some) {
                Some((code, text)) => {
                    &&& r matches Err(e) && e.says(code, text)
                    &&& final(self).counter() == old(self).counter()
                },
                None => {
                    &&& r matches Ok(registration)
                    &&& registration.key@ == zenoh_key(*method, long_form->0@)
                    &&& registration.handle@ == handle_text(
                        registration.key@,
                        old(self).counter(),
                    )
                    &&& final(self).counter() == next_counter(old(self).counter())
                },
            },
    {
        self.begin_registration(method, method_valid, long_form)
    }

    /// Ends the registration of a listener for a method. With the
    /// queryable that the mesh declared, the method becomes active: the
    /// queryable is kept under the handle and the handle is returned. With
    /// none, nothing is kept.
    pub fn queryable_declared(&mut self, handle: String, queryable: Option<R>) -> (r: Result<
        String,
        UStatus,
    >)
        ensures
            final(self).subscribers() == old(self).subscribers(),
            final(self).pending_queries() == old(self).pending_queries(),
            final(self).counter() == old(self).counter(),
            match queryable {
                Some(declared) => {
                    &&& r == Ok::<String, UStatus>(handle)
                    &&& final(self).queryables() == old(self).queryables().insert(
                        handle@,
                        declared,
                    )
                },
                None => {
                    &&& r matches Err(e) && e.says(
                        UCode::Internal,
                        "Unable to register callback with Zenoh"@,
                    )
                    &&& final(self).queryables() == old(self).queryables()
                },
            },
    {
        match queryable {
            Some(declared) => {
                self.queryable_map.insert(handle.clone(), declared);
                Ok(handle)
            },
            None => Err(
                UStatus::fail_with_code(UCode::Internal, "Unable to register callback with Zenoh"),
            ),
        }
    }

    /// Unregisters the listener with the handle `listener` from its method:
    /// the method is no longer served. The address is only validated; it is
    /// not held against the handle.
    pub fn unregister_rpc_listener(&mut self, method_valid: bool, listener: &str) -> (r: Result<
        (),
        UStatus,
    >)
        ensures
            final(self).subscribers() == old(self).subscribers(),
            final(self).pending_queries() == old(self).pending_queries(),
            final(self).counter() == old(self).counter(),
            final(self).queryables() == after_unregistration(
                old(self).queryables(),
                method_valid,
                listener@,
            ),
            match unregistration_failure(old(self).queryables(), method_valid, listener@) {
                Some((code, text)) => r matches Err(e) && e.says(code, text),
                None => r is Ok,
            },
    {
        if !method_valid {
            return Err(UStatus::fail_with_code(UCode::InvalidArgument, "Invalid topic"));
        }
        match self.queryable_map.remove(listener) {
            Some(_) => Ok(()),
            None => Err(
                UStatus::fail_with_code(UCode::InvalidArgument, "Listener doesn't exist"),
            ),
        }
    }

    /// Takes in a query that the queryable of `method` received.
    ///
    /// `attachment` is the attachment of the query, if it has one;
    /// `attributes` is what decoding its attribute blob gave, `None` where
    /// there was no blob or decoding failed; `value` is the value that the
    /// query carries, if any.
    ///
    /// On success the query is kept in the correlation table under its
    /// request id, to be answered later, and the listener gets the message:
    /// its source is the registered method address. On failure the query is
    /// not kept and the listener is told why.
    pub fn on_query(
        &mut self,
        method: UUri,
        attachment: Option<&Attachment>,
        attributes: Option<UAttributes>,
        value: Option<InboundValue>,
        query: Q,
    ) -> (r: Result<UMessage, UStatus>)
        ensures
            final(self).subscribers() == old(self).subscribers(),
            final(self).queryables() == old(self).queryables(),
            final(self).counter() == old(self).counter(),
            match query_failure(attachment, attributes, value) {
                Some(text) => {
                    &&& r matches Err(e) && e.says(UCode::Internal, text)
                    &&& final(self).pending_queries() == old(self).pending_queries()
                },
                None => {
                    &&& r == Ok::<UMessage, UStatus>(
                        UMessage {
                            source: Some(method),
                            attributes: Some(attributes->0),
                            payload: Some(query_payload(value)),
                        },
                    )
                    &&& final(self).pending_queries() == with_pending(
                        old(self).pending_queries(),
                        attributes->0.reqid->0,
                        query,
                    )
                },
            },
    {
        let Some(attachment) = attachment else {
            return Err(UStatus::fail_with_code(UCode::Internal, "Unable to get attachment"));
        };
        if attributes_field(attachment).is_none() {
            return Err(UStatus::fail_with_code(UCode::Internal, "Unable to get uattributes"));
        }
        let Some(attributes) = attributes else {
            return Err(UStatus::fail_with_code(UCode::Internal, "Unable to decode attribute"));
        };
        let payload = match value {
            Some(value) => inbound_payload(value.encoding_suffix.as_str(), value.payload)?,
            None => UPayload::absent(),
        };
        let Some(reqid) = attributes.reqid else {
            return Err(
                UStatus::fail_with_code(
                    UCode::Internal,
                    "The request is without reqid in UAttributes",
                ),
            );
        };
        self.query_map.insert(uuid_to_string(&reqid), query);
        Ok(UMessage { source: Some(method), attributes: Some(attributes), payload: Some(payload) })
    }

    /// Prepares the reply that answers a pending query, given whether the
    /// mesh takes `zenoh_key` as a key expression.
    ///
    /// `reqid` is the request id that the attributes of the response refer
    /// to, and `attributes` their wire form, `None` where they could not be
    /// encoded. The reply goes to the query that the correlation table
    /// holds under the request id; the table stays as it is.
    pub fn plan_response(
        &self,
        key_accepted: bool,
        zenoh_key: &str,
        payload: UPayload,
        reqid: Option<Uuid>,
        attributes: Option<Vec<u8>>,
    ) -> (r: Result<(ReplyRequest, &Q), UStatus>)
        ensures
            !payload.is_value() ==> r is Err,
            match response_failure(
                self.pending_queries(),
                key_accepted,
                payload,
                reqid,
                attributes,
            ) {
                Some((code, text)) => r matches Err(e) && e.says(code, text),
                None => {
                    &&& r matches Ok((reply, query))
                    &&& is_response_reply(reply, zenoh_key@, payload, attributes->0@)
                    &&& Some(*query) == pending(self.pending_queries(), reqid->0)
                },
            },
    {
        let format = payload.format;
        let Some(Data::Value(bytes)) = payload.data else {
            return Err(UStatus::fail_with_code(UCode::InvalidArgument, "Invalid data"));
        };
        let Some(attributes) = attributes else {
            return Err(
                UStatus::fail_with_code(UCode::InvalidArgument, "Unable to encode UAttributes"),
            );
        };
        let Some(reqid) = reqid else {
            return Err(UStatus::fail_with_code(UCode::InvalidArgument, "reqid doesn't exist"));
        };
        if !key_accepted {
            return Err(UStatus::fail_with_code(UCode::Internal, "Unable to create Zenoh key"));
        }
        let correlation = uuid_to_string(&reqid);
        let Some(query) = self.query_map.get(correlation.as_str()) else {
            return Err(UStatus::fail_with_code(UCode::Internal, "query doesn't exist"));
        };
        Ok(
            (
                ReplyRequest {
                    key: String::from_str(zenoh_key),
                    payload: bytes,
                    encoding_suffix: i32_to_decimal(format),
                    attachment: response_attachment(&attributes),
                },
                query,
            ),
        )
    }

    /// Prepares the reply that answers a pending query.
    ///
    /// As `plan_response`, with the one thing settled here that only the
    /// mesh can tell: whether it takes `zenoh_key` as a key expression.
    pub fn send_response(
        &self,
        zenoh_key: &str,
        payload: UPayload,
        reqid: Option<Uuid>,
        attributes: Option<Vec<u8>>,
    ) -> (r: Result<(ReplyRequest, &Q), UStatus>)
        ensures
            !payload.is_value() ==> r is Err,
            match response_failure(
                self.pending_queries(),
                is_key_expr(zenoh_key@),
                payload,
                reqid,
                attributes,
            ) {
                Some((code, text)) => r matches Err(e) && e.says(code, text),
                None => {
                    &&& r matches Ok((reply, query))
                    &&& is_response_reply(reply, zenoh_key@, payload, attributes->0@)
                    &&& Some(*query) == pending(self.pending_queries(), reqid->0)
                },
            },
    {
        let key_accepted = key_expr_accepts(zenoh_key);
        self.plan_response(key_accepted, zenoh_key, payload, reqid, attributes)
    }

    /// Prepares what sending a message asks of the mesh: a put for a
    /// published message, a reply for a response.
    ///
    /// `topic_valid` says whether the address passed validation, and
    /// `long_form` is its long text form, if it has one. `encoded_attributes`
    /// and `encoded_topic` are the attributes and the address in their wire
    /// form, each `None` where it could not be encoded.
    pub fn send(
        &self,
        topic: &UUri,
        topic_valid: bool,
        long_form: Option<&str>,
        payload: UPayload,
        attributes: &UAttributes,
        encoded_attributes: Option<Vec<u8>>,
        encoded_topic: Option<Vec<u8>>,
    ) -> (r: Result<SendRequest<'_, Q>, UStatus>)
        ensures
            !payload.is_value() ==> r is Err,
            match send_path(topic_valid, long_form is Some, attributes.message_type) {
                Err((code, text)) => r matches Err(e) && e.says(code, text),
                Ok(UMessageType::Publish) => match publish_failure(
                    payload,
                    encoded_attributes,
                    encoded_topic,
                ) {
                    Some((code, text)) => r matches Err(e) && e.says(code, text),
                    None => r matches Ok(SendRequest::Put(put)) && is_publish_put(
                        put,
                        zenoh_key(*topic, long_form->0@),
                        payload,
                        encoded_attributes->0@,
                        encoded_topic->0@,
                    ),
                },
                Ok(_) => match response_failure(
                    self.pending_queries(),
                    is_key_expr(zenoh_key(*topic, long_form->0@)),
                    payload,
                    attributes.reqid,
                    encoded_attributes,
                ) {
                    Some((code, text)) => r matches Err(e) && e.says(code, text),
                    None => {
                        &&& r matches Ok(SendRequest::Reply(reply, query))
                        &&& is_response_reply(
                            reply,
                            zenoh_key(*topic, long_form->0@),
                            payload,
                            encoded_attributes->0@,
                        )
                        &&& Some(*query) == pending(
                            self.pending_queries(),
                            attributes.reqid->0,
                        )
                    },
                },
            },
    {
        if !topic_valid {
            return Err(UStatus::fail_with_code(UCode::InvalidArgument, "Invalid topic"));
        }
        let key = crate::keymap::to_zenoh_key_string(topic, long_form)?;
        match UMessageType::from_code(attributes.message_type) {
            Some(UMessageType::Publish) => {
                let put = send_publish(key.as_str(), payload, encoded_attributes, encoded_topic)?;
                Ok(SendRequest::Put(put))
            },
            Some(UMessageType::Response) => {
                let (reply, query) = self.send_response(
                    key.as_str(),
                    payload,
                    attributes.reqid,
                    encoded_attributes,
                )?;
                Ok(SendRequest::Reply(reply, query))
            },
            _ => Err(
                UStatus::fail_with_code(
                    UCode::InvalidArgument,
                    "Wrong Message type in UAttributes",
                ),
            ),
        }
    }

    /// Authentication is not implemented: it fails for every entity.
    pub fn authenticate(&self, _entity: &UEntity) -> (r: Result<(), UStatus>)
        ensures
            r matches Err(e) && e.says(UCode::Unimplemented, "Not implemented"@),
    {
        Err(UStatus::fail_with_code(UCode::Unimplemented, "Not implemented"))
    }
}

/// What the sender of a response is told once the mesh has been asked to
/// reply: success if the mesh took the reply, an internal failure that says
/// which step failed if it did not. Nothing is tried again.
pub fn reply_outcome(outcome: ReplyOutcome) -> (r: Result<(), UStatus>)
    ensures
        match outcome {
            ReplyOutcome::Sent => r is Ok,
            ReplyOutcome::AttachmentRefused => r matches Err(e) && e.says(
                UCode::Internal,
                "Unable to add attachment"@,
            ),
            ReplyOutcome::NotSent => r matches Err(e) && e.says(
                UCode::Internal,
                "Unable to reply with Zenoh"@,
            ),
        },
{
    match outcome {
        ReplyOutcome::Sent => Ok(()),
        ReplyOutcome::AttachmentRefused => Err(
            UStatus::fail_with_code(UCode::Internal, "Unable to add attachment"),
        ),
        ReplyOutcome::NotSent => Err(
            UStatus::fail_with_code(UCode::Internal, "Unable to reply with Zenoh"),
        ),
    }
}

/// A query stored for a request is the query that the response to that
/// request goes to.
pub proof fn lemma_stored_query_is_answered<Q>(table: Map<Seq<char>, Q>, reqid: Uuid, query: Q)
    ensures
        pending(with_pending(table, reqid, query), reqid) == Some(query),
{
}

/// Storing a query for one request changes nothing for any other request:
/// the response to the other request goes where it went before.
pub proof fn lemma_other_requests_keep_their_query<Q>(
    table: Map<Seq<char>, Q>,
    stored: Uuid,
    query: Q,
    other: Uuid,
)
    requires
        stored != other,
    ensures
        pending(with_pending(table, stored, query), other) == pending(table, other),
{
    if reqid_text(stored) == reqid_text(other) {
        lemma_reqid_text_injective(stored, other);
    }
}

/// A response that could be sent but for its request id, to which no query
/// is pending, is refused with "query doesn't exist".
pub proof fn lemma_unknown_request_is_refused<Q>(
    table: Map<Seq<char>, Q>,
    payload: UPayload,
    reqid: Uuid,
    attributes: Vec<u8>,
)
    requires
        payload.is_value(),
        pending(table, reqid) is None,
    ensures
        response_failure(table, true, payload, Some(reqid), Some(attributes)) == Some(
            (UCode::Internal, "query doesn't exist"@),
        ),
{
}

/// A listener can be unregistered once: after it has been unregistered,
/// its handle is refused with "Listener doesn't exist".
pub proof fn lemma_second_unregistration_fails<T>(table: Map<Seq<char>, T>, handle: Seq<char>)
    requires
        unregistration_failure(table, true, handle) is None,
    ensures
        unregistration_failure(after_unregistration(table, true, handle), true, handle) == Some(
            (UCode::InvalidArgument, "Listener doesn't exist"@),
        ),
{
}

/// Unregistering one listener, or failing to, leaves every other listener
/// as it was.
pub proof fn lemma_unregistration_keeps_others<T>(
    table: Map<Seq<char>, T>,
    topic_valid: bool,
    handle: Seq<char>,
    other: Seq<char>,
)
    requires
        handle != other,
    ensures
        after_unregistration(table, topic_valid, handle).contains_key(other) == table.contains_key(
            other,
        ),
        table.contains_key(other) ==> after_unregistration(table, topic_valid, handle)[other]
            == table[other],
{
}

/// A request arrives whole. A query that carries the attachment, the
/// content-encoding suffix and the bytes of the query that an invocation
/// made, and whose attributes can be decoded and hold a request id, is
/// taken in; the payload of its message has the format and the bytes of the
/// payload that was sent.
pub proof fn lemma_request_arrives_as_message(
    request: QueryRequest,
    payload: UPayload,
    attributes: Seq<u8>,
    source: Seq<u8>,
    decoded_attributes: UAttributes,
)
    requires
        payload.is_value(),
        request.payload@ == payload.value_bytes(),
        request.encoding_suffix@ == decimal_text(payload.format as int),
        attachment_pairs(request.attachment) == readable_pairs(
            seq![(attributes_key(), attributes), (crate::attachment::source_key(), source)],
        ),
        decoded_attributes.reqid is Some,
    ensures
        query_failure(
            Some(&request.attachment),
            Some(decoded_attributes),
            Some(
                InboundValue {
                    encoding_suffix: request.encoding_suffix,
                    payload: request.payload,
                },
            ),
        ) is None,
        query_payload(
            Some(
                InboundValue {
                    encoding_suffix: request.encoding_suffix,
                    payload: request.payload,
                },
            ),
        ).format == payload.format,
        query_payload(
            Some(
                InboundValue {
                    encoding_suffix: request.encoding_suffix,
                    payload: request.payload,
                },
            ),
        ).value_bytes() == payload.value_bytes(),
{
    lemma_outbound_attachment_reads_back(attributes, source);
    lemma_decimal_round_trip(payload.format);
}

} // verus!
