use vstd::prelude::*;

verus! {

/// 256 to the power `n`: the number of values that `n` bytes can hold.
pub open spec fn pow256(n: nat) -> nat
    decreases n,
{
    if n == 0 {
        1
    } else {
        256 * pow256((n - 1) as nat)
    }
}

/// The number that `bytes` spell in big-endian order: the first byte weighs most.
pub open spec fn be_value(bytes: Seq<u8>) -> nat
    decreases bytes.len(),
{
    if bytes.len() == 0 {
        0
    } else {
        be_value(bytes.drop_last()) * 256 + bytes.last() as nat
    }
}

/// The two's-complement reading of `bytes` in big-endian order.
pub open spec fn be_signed(bytes: Seq<u8>) -> int {
    if 2 * be_value(bytes) >= pow256(bytes.len()) {
        be_value(bytes) - pow256(bytes.len())
    } else {
        be_value(bytes) as int
    }
}

/// The `width` big-endian bytes of `v`, its high part cut off where it does not fit.
pub open spec fn be_bytes(v: nat, width: nat) -> Seq<u8>
    decreases width,
{
    if width == 0 {
        Seq::empty()
    } else {
        be_bytes(v / 256, (width - 1) as nat).push((v % 256) as u8)
    }
}

/// The powers of 256 that the widths of the machine's integers need.
pub proof fn lemma_pow256_values()
    ensures
        pow256(0) == 1,
        pow256(1) == 0x100,
        pow256(2) == 0x1_0000,
        pow256(3) == 0x100_0000,
        pow256(4) == 0x1_0000_0000,
        pow256(8) == 0x1_0000_0000_0000_0000,
{
    reveal_with_fuel(pow256, 9);
}

/// A big-endian number of `n` bytes is below `256^n`.
pub proof fn lemma_be_value_bound(bytes: Seq<u8>)
    ensures
        be_value(bytes) < pow256(bytes.len()),
    decreases bytes.len(),
{
    if bytes.len() > 0 {
        lemma_be_value_bound(bytes.drop_last());
    }
}

/// A number written in `width` bytes takes `width` bytes.
pub proof fn lemma_be_bytes_len(v: nat, width: nat)
    ensures
        be_bytes(v, width).len() == width,
    decreases width,
{
    if width > 0 {
        lemma_be_bytes_len(v / 256, (width - 1) as nat);
    }
}

/// Reading back the bytes of a number that fits gives the number.
pub proof fn lemma_be_value_of_bytes(v: nat, width: nat)
    requires
        v < pow256(width),
    ensures
        be_value(be_bytes(v, width)) == v,
    decreases width,
{
    if width > 0 {
        let rest = be_bytes(v / 256, (width - 1) as nat);
        lemma_be_value_of_bytes(v / 256, (width - 1) as nat);
        assert(be_bytes(v, width).drop_last() =~= rest);
    }
}

/// Folds at most eight bytes into the number they spell.
pub fn be_fold(bytes: &[u8]) -> (res: u64)
    requires
        bytes@.len() <= 8,
    ensures
        res == be_value(bytes@),
{
    let mut acc: u64 = 0;
    let mut i: usize = 0;
    while i < bytes.len()
        invariant
            i <= bytes@.len() <= 8,
            acc == be_value(bytes@.take(i as int)),
        decreases bytes@.len() - i,
    {
        proof {
            lemma_be_value_bound(bytes@.take(i as int));
            lemma_pow256_values();
            reveal_with_fuel(pow256, 9);
            assert(bytes@.take(i + 1).drop_last() =~= bytes@.take(i as int));
        }
        acc = acc * 256 + bytes[i] as u64;
        i = i + 1;
    }
    proof {
        assert(bytes@.take(i as int) =~= bytes@);
    }
    acc
}

/// Appends the four big-endian bytes of `v`.
pub fn put_u32(buf: &mut Vec<u8>, v: u32)
    ensures
        final(buf)@ == old(buf)@ + be_bytes(v as nat, 4),
{
    let b0: u8 = (v / 0x100_0000) as u8;
    let b1: u8 = (v / 0x1_0000 % 256) as u8;
    let b2: u8 = (v / 0x100 % 256) as u8;
    let b3: u8 = (v % 256) as u8;
    buf.push(b0);
    buf.push(b1);
    buf.push(b2);
    buf.push(b3);
    proof {
        reveal_with_fuel(be_bytes, 5);
        let n = v as nat;
        assert(n / 256 / 256 == n / 0x1_0000);
        assert(n / 256 / 256 / 256 == n / 0x100_0000);
        assert(be_bytes(n, 4) =~= seq![b0, b1, b2, b3]);
        assert(final(buf)@ =~= old(buf)@ + be_bytes(n, 4));
    }
}

/// The four big-endian bytes of each character of `text`, one group after
/// the other.
pub open spec fn chars_bytes(text: Seq<char>) -> Seq<u8>
    decreases text.len(),
{
    if text.len() == 0 {
        Seq::empty()
    } else {
        chars_bytes(text.drop_last()) + be_bytes(text.last() as nat, 4)
    }
}

/// Appends the code point of `c` in four big-endian bytes.
pub fn put_char(buf: &mut Vec<u8>, c: char)
    ensures
        final(buf)@ == old(buf)@ + be_bytes(c as nat, 4),
        final(buf)@ == old(buf)@ + chars_bytes(seq![c]),
{
    put_u32(buf, c as u32);
    proof {
        assert(seq![c].drop_last() =~= Seq::<char>::empty());
        assert(chars_bytes(seq![c]) =~= be_bytes(c as nat, 4)) by {
            reveal_with_fuel(chars_bytes, 2);
        }
    }
}

/// The groups of `chars_bytes` are four bytes each.
pub proof fn lemma_chars_bytes_len(text: Seq<char>)
    ensures
        chars_bytes(text).len() == 4 * text.len(),
    decreases text.len(),
{
    if text.len() > 0 {
        lemma_chars_bytes_len(text.drop_last());
        lemma_be_bytes_len(text.last() as nat, 4);
    }
}

/// The `i`-th group of `chars_bytes` holds the `i`-th character.
pub proof fn lemma_chars_bytes_group(text: Seq<char>, i: int)
    requires
        0 <= i < text.len(),
    ensures
        chars_bytes(text).subrange(4 * i, 4 * i + 4) == be_bytes(text[i] as nat, 4),
    decreases text.len(),
{
    let head = text.drop_last();
    lemma_chars_bytes_len(head);
    lemma_be_bytes_len(text.last() as nat, 4);
    if i == text.len() - 1 {
        assert(chars_bytes(text).subrange(4 * i, 4 * i + 4) =~= be_bytes(text[i] as nat, 4));
    } else {
        lemma_chars_bytes_group(head, i);
        assert(chars_bytes(text).subrange(4 * i, 4 * i + 4) =~= chars_bytes(head).subrange(
            4 * i,
            4 * i + 4,
        ));
    }
}

} // verus!
