//! Listener handles: the text that a registration returns and that the
//! matching unregistration has to present, and the counter that keeps two
//! handles for one key apart.

use vstd::prelude::*;
use crate::text::{
    chars_of, hex_digits, is_hex_digit, lemma_hex_digits_denote, lemma_hex_digits_injective,
    push_hex, string_of_chars,
};

verus! {

/// The handle of the registration with the number `counter` under the key
/// `key`: the key, an underscore, and the number in upper-case hexadecimal.
pub open spec fn handle_text(key: Seq<char>, counter: u64) -> Seq<char> {
    key + seq!['_'] + hex_digits(counter as nat)
}

/// The number that follows `counter`: one more, and zero after the largest.
pub open spec fn next_counter(counter: u64) -> u64 {
    if counter == u64::MAX {
        0
    } else {
        (counter + 1) as u64
    }
}

/// The counter after `steps` handles have been given out from `start` on.
pub open spec fn counter_after(start: u64, steps: nat) -> u64 {
    ((start as nat + steps) % 0x1_0000_0000_0000_0000) as u64
}

/// The handle for `key` with the number `counter`.
pub fn make_handle(key: &str, counter: u64) -> (handle: String)
    ensures
        handle@ == handle_text(key@, counter),
{
    let mut chars = chars_of(key);
    chars.push('_');
    push_hex(counter, &mut chars);
    string_of_chars(&chars)
}

/// Gives out the handle for `key` with the current number of `counter`, and
/// moves the counter on.
pub fn allocate_handle(key: &str, counter: &mut u64) -> (handle: String)
    ensures
        handle@ == handle_text(key@, *old(counter)),
        *final(counter) == next_counter(*old(counter)),
{
    let handle = make_handle(key, *counter);
    *counter = counter.wrapping_add(1);
    handle
}

/// A handle tells both its key and its number: two handles are equal only
/// if they were made for the same key with the same number.
pub proof fn lemma_handle_text_injective(key_a: Seq<char>, a: u64, key_b: Seq<char>, b: u64)
    requires
        handle_text(key_a, a) == handle_text(key_b, b),
    ensures
        key_a == key_b,
        a == b,
{
    let hex_a = hex_digits(a as nat);
    let hex_b = hex_digits(b as nat);
    let text_a = handle_text(key_a, a);
    let text_b = handle_text(key_b, b);
    lemma_hex_digits_denote(a as nat);
    lemma_hex_digits_denote(b as nat);
    assert(text_a.len() == key_a.len() + 1 + hex_a.len());
    assert(text_b.len() == key_b.len() + 1 + hex_b.len());
    if hex_a.len() < hex_b.len() {
        // the underscore of the first handle would lie among the digits of the second
        let at = key_a.len() as int;
        assert(text_a[at] == '_');
        assert(text_b[at] == hex_b[at - key_b.len() - 1]);
        assert(is_hex_digit(hex_b[at - key_b.len() - 1]));
    } else if hex_b.len() < hex_a.len() {
        let at = key_b.len() as int;
        assert(text_b[at] == '_');
        assert(text_a[at] == hex_a[at - key_a.len() - 1]);
        assert(is_hex_digit(hex_a[at - key_a.len() - 1]));
    } else {
        assert(key_a.len() == key_b.len());
        assert(key_a =~= text_a.subrange(0, key_a.len() as int));
        assert(key_b =~= text_b.subrange(0, key_b.len() as int));
        assert(hex_a =~= text_a.subrange(key_a.len() as int + 1, text_a.len() as int));
        assert(hex_b =~= text_b.subrange(key_b.len() as int + 1, text_b.len() as int));
        lemma_hex_digits_injective(a as nat, b as nat);
    }
}

/// Handles given out one after the other for the same key differ from each
/// other, as long as fewer than 2^64 of them are given out.
pub proof fn lemma_successive_handles_distinct(key: Seq<char>, start: u64, i: nat, j: nat)
    requires
        i < j < 0x1_0000_0000_0000_0000,
    ensures
        handle_text(key, counter_after(start, i)) != handle_text(key, counter_after(start, j)),
{
    let a = counter_after(start, i);
    let b = counter_after(start, j);
    assert(a != b) by {
        let m = 0x1_0000_0000_0000_0000int;
        let x = start as int + i as int;
        let y = start as int + j as int;
        assert(0 < y - x < m);
        if x % m == y % m {
            vstd::arithmetic::div_mod::lemma_fundamental_div_mod(x, m);
            vstd::arithmetic::div_mod::lemma_fundamental_div_mod(y, m);
            assert(y - x == m * (y / m) - m * (x / m));
            assert(y - x == m * ((y / m) - (x / m))) by (nonlinear_arith)
                requires
                    y - x == m * (y / m) - m * (x / m),
            ;
            let q = (y / m) - (x / m);
            assert(false) by (nonlinear_arith)
                requires
                    0 < m * q < m,
                    m > 0,
            ;
        }
    }
    if handle_text(key, a) == handle_text(key, b) {
        lemma_handle_text_injective(key, a, key, b);
    }
}

/// Giving out one handle moves the counter on by one step.
pub proof fn lemma_next_counter_is_one_step(start: u64, steps: nat)
    ensures
        next_counter(counter_after(start, steps)) == counter_after(start, steps + 1),
        counter_after(start, 0) == start,
{
    let m = 0x1_0000_0000_0000_0000int;
    let x = start as int + steps as int;
    vstd::arithmetic::div_mod::lemma_fundamental_div_mod(x, m);
    vstd::arithmetic::div_mod::lemma_fundamental_div_mod(x + 1, m);
    vstd::arithmetic::div_mod::lemma_mod_bound(x, m);
    vstd::arithmetic::div_mod::lemma_mod_bound(x + 1, m);
    if x % m == m - 1 {
        vstd::arithmetic::div_mod::lemma_fundamental_div_mod_converse(x + 1, m, x / m + 1, 0);
    } else {
        vstd::arithmetic::div_mod::lemma_fundamental_div_mod_converse(
            x + 1,
            m,
            x / m,
            x % m + 1,
        );
    }
    vstd::arithmetic::div_mod::lemma_small_mod(start as nat, m as nat);
}

} // verus!
