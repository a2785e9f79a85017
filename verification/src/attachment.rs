//! The attachment of the mesh: a list of named byte blobs that travels
//! beside every payload. The envelope's metadata rides in it.

use vstd::prelude::*;
use vstd::string::StringSliceAdditionalSpecFns;
use zenoh::sample::{Attachment, AttachmentBuilder};

verus! {

/// The attachment of the mesh, as `zenoh` defines it. Nothing of its inside
/// is visible here; `attachment_pairs` names what it holds.
#[verifier::external_type_specification]
#[verifier::external_body]
pub struct ExAttachment(Attachment);

/// The builder of attachments, as `zenoh` defines it. `builder_pairs` names
/// what has been written into it.
#[verifier::external_type_specification]
#[verifier::external_body]
pub struct ExAttachmentBuilder(AttachmentBuilder);

/// The pairs of key and value that have been written into a builder, in the
/// order of writing.
pub uninterp spec fn builder_pairs(builder: AttachmentBuilder) -> Seq<(Seq<u8>, Seq<u8>)>;

/// The pairs of key and value that reading an attachment from its start
/// yields, in order.
pub uninterp spec fn attachment_pairs(attachment: Attachment) -> Seq<(Seq<u8>, Seq<u8>)>;

/// What can be read back of the pairs written into a builder: all of them,
/// but for the last one where its value is empty. The reader meets the end
/// of the buffer there before it has taken the empty value, and stops.
pub open spec fn readable_pairs(written: Seq<(Seq<u8>, Seq<u8>)>) -> Seq<(Seq<u8>, Seq<u8>)> {
    if written.len() > 0 && written.last().1.len() == 0 {
        written.drop_last()
    } else {
        written
    }
}

/// The value of the first pair of `pairs` whose key is `key`.
pub open spec fn first_value(pairs: Seq<(Seq<u8>, Seq<u8>)>, key: Seq<u8>) -> Option<Seq<u8>>
    decreases pairs.len(),
{
    if pairs.len() == 0 {
        None
    } else if pairs[0].0 == key {
        Some(pairs[0].1)
    } else {
        first_value(pairs.skip(1), key)
    }
}

/// A builder with nothing written into it.
///
/// Trusted: `AttachmentBuilder::new` starts from an empty buffer.
#[verifier::external_body]
fn builder_new() -> (builder: AttachmentBuilder)
    ensures
        builder_pairs(builder) == Seq::<(Seq<u8>, Seq<u8>)>::empty(),
{
    AttachmentBuilder::new()
}

/// Writes one pair into a builder.
///
/// Trusted: `AttachmentBuilder::insert` appends the key and the value, each
/// behind its length, to what the builder holds, and changes nothing of what
/// was written before. A key that is there already is written once more.
#[verifier::external_body]
fn builder_insert(builder: &mut AttachmentBuilder, key: &[u8], value: &[u8])
    ensures
        builder_pairs(*final(builder)) == builder_pairs(*old(builder)).push((key@, value@)),
{
    builder.insert(key, value);
}

/// Turns a builder into the attachment that holds what was written.
///
/// Trusted: `AttachmentBuilder::build` hands the builder's buffer over as it
/// is, in one piece. Reading it yields the pairs written, in their order,
/// each with its key and value unchanged. Only a last pair with an empty
/// value is not yielded: see `readable_pairs`.
#[verifier::external_body]
fn builder_build(builder: AttachmentBuilder) -> (attachment: Attachment)
    ensures
        attachment_pairs(attachment) == readable_pairs(builder_pairs(builder)),
{
    builder.build()
}

/// Looks a key up in an attachment.
///
/// Trusted: `Attachment::get` reads the pairs from the start and returns
/// the value of the first one whose key equals `key`, byte for byte, or
/// nothing where no pair has that key.
#[verifier::external_body]
fn attachment_get(attachment: &Attachment, key: &[u8]) -> (value: Option<Vec<u8>>)
    ensures
        match value {
            Some(bytes) => first_value(attachment_pairs(*attachment), key@) == Some(bytes@),
            None => first_value(attachment_pairs(*attachment), key@) is None,
        },
{
    attachment.get(&key).map(|slice| slice.to_vec())
}

/// The key under which the encoded attributes of a message travel.
pub open spec fn attributes_key() -> Seq<u8> {
    "uattributes".spec_bytes()
}

/// The key under which the encoded source address of a message travels.
pub open spec fn source_key() -> Seq<u8> {
    "src_uuri".spec_bytes()
}

/// The attachment of a message that is published or sent as a request: the
/// encoded attributes, then the encoded source address.
pub fn outbound_attachment(attributes: &Vec<u8>, source: &Vec<u8>) -> (attachment: Attachment)
    ensures
        attachment_pairs(attachment) == readable_pairs(
            seq![(attributes_key(), attributes@), (source_key(), source@)],
        ),
{
    let mut builder = builder_new();
    builder_insert(&mut builder, "uattributes".as_bytes(), attributes.as_slice());
    builder_insert(&mut builder, "src_uuri".as_bytes(), source.as_slice());
    assert(builder_pairs(builder) == seq![
        (attributes_key(), attributes@),
        (source_key(), source@),
    ]);
    builder_build(builder)
}

/// The attachment of a response: the encoded attributes and nothing else.
pub fn response_attachment(attributes: &Vec<u8>) -> (attachment: Attachment)
    ensures
        attachment_pairs(attachment) == readable_pairs(seq![(attributes_key(), attributes@)]),
{
    let mut builder = builder_new();
    builder_insert(&mut builder, "uattributes".as_bytes(), attributes.as_slice());
    assert(builder_pairs(builder) == seq![(attributes_key(), attributes@)]);
    builder_build(builder)
}

/// The encoded attributes that an attachment carries, if it carries any.
pub fn attributes_field(attachment: &Attachment) -> (value: Option<Vec<u8>>)
    ensures
        match value {
            Some(bytes) => first_value(attachment_pairs(*attachment), attributes_key()) == Some(
                bytes@,
            ),
            None => first_value(attachment_pairs(*attachment), attributes_key()) is None,
        },
{
    attachment_get(attachment, "uattributes".as_bytes())
}

/// The encoded source address that an attachment carries, if it carries
/// one.
pub fn source_field(attachment: &Attachment) -> (value: Option<Vec<u8>>)
    ensures
        match value {
            Some(bytes) => first_value(attachment_pairs(*attachment), source_key()) == Some(
                bytes@,
            ),
            None => first_value(attachment_pairs(*attachment), source_key()) is None,
        },
{
    attachment_get(attachment, "src_uuri".as_bytes())
}

} // verus!
