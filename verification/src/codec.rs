//! The envelope codec: the text form of a request id, under which a pending
//! query is kept, and what the attachment of an outbound message gives back
//! when it is read.

use vstd::prelude::*;
use vstd::string::{is_ascii_spec_bytes, StringSliceAdditionalSpecFns};
use crate::attachment::{attributes_key, first_value, readable_pairs, source_key};
use crate::model::Uuid;
use crate::text::{
    decimal_digits, is_digit, lemma_decimal_digits_denote, lemma_decimal_digits_injective,
    push_decimal, string_of_chars,
};

verus! {

/// The text form of a request id: the high half and the low half, each in
/// decimal, with a colon between them.
pub open spec fn reqid_text(uuid: Uuid) -> Seq<char> {
    decimal_digits(uuid.msb as nat) + seq![':'] + decimal_digits(uuid.lsb as nat)
}

/// The text form of a request id.
pub fn uuid_to_string(uuid: &Uuid) -> (text: String)
    ensures
        text@ == reqid_text(*uuid),
{
    let mut chars: Vec<char> = Vec::new();
    push_decimal(uuid.msb, &mut chars);
    chars.push(':');
    push_decimal(uuid.lsb, &mut chars);
    string_of_chars(&chars)
}

/// Different request ids have different text forms.
pub proof fn lemma_reqid_text_injective(a: Uuid, b: Uuid)
    requires
        reqid_text(a) == reqid_text(b),
    ensures
        a == b,
{
    let high_a = decimal_digits(a.msb as nat);
    let high_b = decimal_digits(b.msb as nat);
    let low_a = decimal_digits(a.lsb as nat);
    let low_b = decimal_digits(b.lsb as nat);
    let text_a = reqid_text(a);
    let text_b = reqid_text(b);
    lemma_decimal_digits_denote(a.msb as nat);
    lemma_decimal_digits_denote(b.msb as nat);
    assert(text_a.len() == high_a.len() + 1 + low_a.len());
    assert(text_b.len() == high_b.len() + 1 + low_b.len());
    if high_a.len() < high_b.len() {
        // the colon of the first text would lie among the digits of the second
        let at = high_a.len() as int;
        assert(text_a[at] == ':');
        assert(text_b[at] == high_b[at]);
        assert(is_digit(high_b[at]));
    } else if high_b.len() < high_a.len() {
        let at = high_b.len() as int;
        assert(text_b[at] == ':');
        assert(text_a[at] == high_a[at]);
        assert(is_digit(high_a[at]));
    } else {
        let colon = high_a.len() as int;
        assert(high_a =~= text_a.subrange(0, colon));
        assert(high_b =~= text_b.subrange(0, colon));
        assert(low_a =~= text_a.subrange(colon + 1, text_a.len() as int));
        assert(low_b =~= text_b.subrange(colon + 1, text_b.len() as int));
        lemma_decimal_digits_injective(a.msb as nat, b.msb as nat);
        lemma_decimal_digits_injective(a.lsb as nat, b.lsb as nat);
    }
}

/// The two keys of the attachment differ, and neither is empty.
pub proof fn lemma_attachment_keys_differ()
    ensures
        attributes_key() != source_key(),
        attributes_key().len() == 11,
        source_key().len() == 8,
{
    reveal_strlit("uattributes");
    reveal_strlit("src_uuri");
    is_ascii_spec_bytes("uattributes");
    is_ascii_spec_bytes("src_uuri");
}

/// What a reader finds in the attachment of a published message or of a
/// request: the encoded attributes as they were written, and the encoded
/// source address as it was written unless that is empty. An empty source
/// address is not found at all.
pub proof fn lemma_outbound_attachment_reads_back(attributes: Seq<u8>, source: Seq<u8>)
    ensures
        first_value(
            readable_pairs(seq![(attributes_key(), attributes), (source_key(), source)]),
            attributes_key(),
        ) == Some(attributes),
        first_value(
            readable_pairs(seq![(attributes_key(), attributes), (source_key(), source)]),
            source_key(),
        ) == (if source.len() > 0 {
            Some(source)
        } else {
            None
        }),
{
    lemma_attachment_keys_differ();
    reveal_with_fuel(first_value, 3);
    let written = seq![(attributes_key(), attributes), (source_key(), source)];
    let read = readable_pairs(written);
    if source.len() > 0 {
        assert(read == written);
        assert(read.skip(1) =~= seq![(source_key(), source)]);
        assert(read.skip(1).skip(1) =~= Seq::<(Seq<u8>, Seq<u8>)>::empty());
    } else {
        assert(read =~= seq![(attributes_key(), attributes)]);
        assert(read.skip(1) =~= Seq::<(Seq<u8>, Seq<u8>)>::empty());
    }
}

/// What a reader finds in the attachment of a response: the encoded
/// attributes as they were written unless they are empty, and no source
/// address.
pub proof fn lemma_response_attachment_reads_back(attributes: Seq<u8>)
    ensures
        first_value(readable_pairs(seq![(attributes_key(), attributes)]), attributes_key()) == (
        if attributes.len() > 0 {
            Some(attributes)
        } else {
            None
        }),
        first_value(readable_pairs(seq![(attributes_key(), attributes)]), source_key()) is None,
{
    lemma_attachment_keys_differ();
    reveal_with_fuel(first_value, 2);
    let written = seq![(attributes_key(), attributes)];
    let read = readable_pairs(written);
    if attributes.len() > 0 {
        assert(read == written);
        assert(read.skip(1) =~= Seq::<(Seq<u8>, Seq<u8>)>::empty());
    } else {
        assert(read =~= Seq::<(Seq<u8>, Seq<u8>)>::empty());
    }
}

} // verus!
