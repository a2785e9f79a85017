//! What the transport asks of the mesh, as plain values: a put, a query, a
//! reply. Whoever holds the session carries the request out and reports how
//! it went.

use vstd::prelude::*;
use zenoh::key_expr::KeyExpr;
use zenoh::sample::Attachment;

verus! {

/// How long a query waits for its reply, in milliseconds.
pub const QUERY_TIMEOUT_MS: u64 = 2000;

/// Which of the queryables that match a query are asked.
#[derive(Clone, Copy, Debug, PartialEq, Eq)]
pub enum QueryTarget {
    /// Whichever single queryable matches best.
    BestMatching,
    /// Every matching queryable.
    All,
    /// Every matching queryable that is complete.
    AllComplete,
}

/// A put: the payload under the key, with its content-encoding suffix and
/// the attachment that carries the metadata.
pub struct PutRequest {
    pub key: String,
    pub payload: Vec<u8>,
    pub encoding_suffix: String,
    pub attachment: Attachment,
}

/// A query: the payload as the query's value under the key, the attachment,
/// whom to ask and how long to wait.
pub struct QueryRequest {
    pub key: String,
    pub payload: Vec<u8>,
    pub encoding_suffix: String,
    pub attachment: Attachment,
    pub target: QueryTarget,
    pub timeout_ms: u64,
}

/// A reply to a pending query: the payload under the key, with its
/// content-encoding suffix and the attachment.
pub struct ReplyRequest {
    pub key: String,
    pub payload: Vec<u8>,
    pub encoding_suffix: String,
    pub attachment: Attachment,
}

/// How a query went.
pub enum QueryOutcome {
    /// The mesh did not take the query.
    NotSent,
    /// No reply came: the reply channel closed or the time ran out. The
    /// text says what the channel reported.
    NoReply(String),
    /// The first reply: its content-encoding suffix and its bytes.
    Reply { encoding_suffix: String, payload: Vec<u8> },
    /// The first reply was an error of the mesh. The text describes it.
    ReplyError(String),
}

/// How a reply went.
#[derive(Clone, Copy, Debug, PartialEq, Eq)]
pub enum ReplyOutcome {
    /// The mesh took the reply.
    Sent,
    /// The attachment could not be put on the reply.
    AttachmentRefused,
    /// The mesh did not take the reply.
    NotSent,
}

/// The value that an inbound query carries: its content-encoding suffix and
/// its bytes.
pub struct InboundValue {
    pub encoding_suffix: String,
    pub payload: Vec<u8>,
}

/// Whether the mesh takes `text` as a key expression, which it does for a
/// key expression in canonical form: whether `KeyExpr::new` of `zenoh`
/// accepts it.
pub uninterp spec fn is_key_expr(text: Seq<char>) -> bool;

/// Asks the mesh whether it takes `text` as a key expression.
///
/// Trusted: `KeyExpr::new` on an owned string only examines the text, and
/// accepts or refuses it by its characters alone.
#[verifier::external_body]
pub(crate) fn key_expr_accepts(text: &str) -> (accepted: bool)
    ensures
        accepted == is_key_expr(text@),
{
    KeyExpr::new(text.to_string()).is_ok()
}

} // verus!
