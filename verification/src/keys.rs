use vstd::prelude::*;
use vstd::string::{StrSliceExecFns, StringExecFns};
use crate::package::string_push;
use crate::text::{free_of, segment, segment_end};

verus! {

/// Key of the index from entity ids to entity keys.
pub const ENTITIES: &'static str = "entities";

/// Key of the counter that hands out entity ids.
pub const ENTITIES_LEN: &'static str = "entities:len";

/// The character of one decimal digit.
pub open spec fn digit_char(d: nat) -> char
    recommends
        d < 10,
{
    (48 + d) as u8 as char
}

/// A natural number in decimal, without leading zeros.
pub open spec fn decimal_nat(n: nat) -> Seq<char>
    decreases n,
{
    if n < 10 {
        seq![digit_char(n)]
    } else {
        decimal_nat(n / 10).push(digit_char(n % 10))
    }
}

/// An integer in decimal, with a minus sign where it is negative.
pub open spec fn decimal(n: int) -> Seq<char> {
    if n < 0 {
        seq!['-'] + decimal_nat((-n) as nat)
    } else {
        decimal_nat(n as nat)
    }
}

/// The key under which the components of entity `id` are listed.
pub open spec fn entity_key_of(id: int) -> Seq<char> {
    "entities:"@ + decimal(id)
}

/// The key of the hash that holds the components of type `typ`.
pub open spec fn component_key_of(typ: Seq<char>) -> Seq<char> {
    "cdata:"@ + typ
}

/// The key of the counter that belongs to `key`.
pub open spec fn counter_key_of(key: Seq<char>) -> Seq<char> {
    key + ":len"@
}

/// The reference to component number `digest` of type `typ`.
pub open spec fn component_ref_of(typ: Seq<char>, digest: int) -> Seq<char> {
    typ + ":"@ + decimal(digest)
}

/// Appends a natural number in decimal.
fn push_decimal_nat(out: &mut String, n: u64)
    ensures
        final(out)@ == old(out)@ + decimal_nat(n as nat),
    decreases n,
{
    if n >= 10 {
        push_decimal_nat(out, n / 10);
    }
    let digit: u8 = 48 + (n % 10) as u8;
    string_push(out, digit as char);
    proof {
        if n >= 10 {
            assert(final(out)@ =~= old(out)@ + decimal_nat(n as nat));
        } else {
            assert(final(out)@ =~= old(out)@ + decimal_nat(n as nat));
        }
    }
}

/// Appends an integer in decimal.
pub fn push_decimal(out: &mut String, n: isize)
    ensures
        final(out)@ == old(out)@ + decimal(n as int),
{
    if n < 0 {
        string_push(out, '-');
        let magnitude: u64 = (-(n as i128)) as u64;
        push_decimal_nat(out, magnitude);
        proof {
            assert(final(out)@ =~= old(out)@ + decimal(n as int));
        }
    } else {
        push_decimal_nat(out, n as u64);
    }
}

/// The key under which the components of entity `id` are listed.
pub fn entity_key(id: isize) -> (res: String)
    ensures
        res@ == entity_key_of(id as int),
{
    let mut key: String = "entities:".to_owned();
    push_decimal(&mut key, id);
    key
}

/// The key of the hash that holds the components of type `typ`.
pub fn component_key(typ: &str) -> (res: String)
    ensures
        res@ == component_key_of(typ@),
{
    let mut key: String = "cdata:".to_owned();
    key.append(typ);
    key
}

/// The key of the counter that belongs to `key`.
pub fn counter_key(key: &str) -> (res: String)
    ensures
        res@ == counter_key_of(key@),
{
    let mut counter: String = key.to_owned();
    counter.append(":len");
    counter
}

/// The reference to component number `digest` of type `typ`.
pub fn component_ref(typ: &str, digest: isize) -> (res: String)
    ensures
        res@ == component_ref_of(typ@, digest as int),
{
    let mut reference: String = typ.to_owned();
    reference.append(":");
    push_decimal(&mut reference, digest);
    reference
}

/// Splits a component reference into its type and its digest: what stands
/// before the first colon, and what stands between it and the next colon or
/// the end. A reference without a colon has neither.
pub fn split_component_ref(id: &str) -> (res: Option<(String, String)>)
    ensures
        match res {
            Some((typ, digest)) => {
                let first = typ@.len() as int;
                let second = first + 1 + digest@.len();
                &&& segment(id@, ':', 0, first)
                &&& first < id@.len()
                &&& segment(id@, ':', first + 1, second)
                &&& typ@ == id@.subrange(0, first)
                &&& digest@ == id@.subrange(first + 1, second)
            },
            None => free_of(id@, ':', 0, id@.len() as int),
        },
{
    let len: usize = id.unicode_len();
    let first: usize = segment_end(id, ':', 0);
    if first >= len {
        return None;
    }
    let second: usize = segment_end(id, ':', first + 1);
    let typ: String = id.substring_char(0, first).to_owned();
    let digest: String = id.substring_char(first + 1, second).to_owned();
    Some((typ, digest))
}

} // verus!
