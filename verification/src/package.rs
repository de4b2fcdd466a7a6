use vstd::prelude::*;
use vstd::layout::layout_of_primitives;
use vstd::utf8::{char_is_scalar, char_u32_cast};
use crate::endian::{
    be_bytes, be_fold, be_signed, be_value, chars_bytes, lemma_be_bytes_len, lemma_be_value_bound,
    lemma_be_value_of_bytes, lemma_chars_bytes_group, lemma_chars_bytes_len, lemma_pow256_values,
    pow256,
};
use crate::errors::PCSError;

verus! {

/// The offset of the next byte to read in a payload. Only the reads of a
/// package move it, and it never goes onto the wire.
#[derive(Debug, Clone, Copy)]
pub struct Cursor {
    at: usize,
}

impl View for Cursor {
    type V = nat;

    closed spec fn view(&self) -> nat {
        self.at as nat
    }
}

/// A named envelope around a binary payload, with a cursor for reading the
/// payload field by field.
#[derive(Debug, Clone)]
pub struct Package {
    /// The routing key: one per kind of message.
    pub name: String,
    /// The payload, opaque to the envelope.
    pub value: Vec<u8>,
    /// Where the next read starts.
    pub index: Cursor,
}

/// What a package is, mathematically.
pub struct PackageView {
    pub name: Seq<char>,
    pub value: Seq<u8>,
    pub cursor: nat,
}

impl PackageView {
    /// The cursor stands inside the payload or at its end.
    pub open spec fn wf(self) -> bool {
        self.cursor <= self.value.len()
    }

    /// `n` more bytes can be read.
    pub open spec fn can_read(self, n: nat) -> bool {
        self.cursor + n <= self.value.len()
    }

    /// The next `n` bytes.
    pub open spec fn field(self, n: nat) -> Seq<u8>
        recommends
            self.can_read(n),
    {
        self.value.subrange(self.cursor as int, (self.cursor + n) as int)
    }

    /// The bytes from the cursor to the end of the payload.
    pub open spec fn unread(self) -> Seq<u8> {
        if self.wf() {
            self.value.skip(self.cursor as int)
        } else {
            Seq::empty()
        }
    }

    /// The same package with the cursor `n` bytes further on.
    pub open spec fn advance(self, n: nat) -> PackageView {
        PackageView { name: self.name, value: self.value, cursor: self.cursor + n }
    }

    /// A read that found too few bytes: it reports so and changes nothing.
    pub open spec fn refuses(self, n: nat, after: PackageView, e: PCSError) -> bool {
        &&& !self.can_read(n)
        &&& e == PCSError::OutOfBounds
        &&& after == self
    }

    /// A read of `n` bytes that went through: `bytes` are the field, and the
    /// cursor stands behind it.
    pub open spec fn yields(self, n: nat, after: PackageView, bytes: Seq<u8>) -> bool {
        &&& self.can_read(n)
        &&& bytes == self.field(n)
        &&& after == self.advance(n)
    }
}

/// Whether `v` is a Unicode scalar value: a code point that is no surrogate.
pub open spec fn is_scalar_value(v: nat) -> bool {
    v < 0xD800 || (0xE000 <= v <= 0x10FFFF)
}

/// The number of bytes in a machine word.
pub open spec fn word_bytes() -> nat {
    (usize::BITS / 8) as nat
}

/// The `i`-th group of four bytes in `bytes`, read as a big-endian number.
pub open spec fn codepoint_at(bytes: Seq<u8>, i: int) -> nat {
    be_value(bytes.subrange(4 * i, 4 * i + 4))
}

/// The first `n` groups of four bytes all hold Unicode scalar values.
pub open spec fn codepoints_valid(bytes: Seq<u8>, n: nat) -> bool {
    forall|i: int| 0 <= i < n ==> is_scalar_value(#[trigger] codepoint_at(bytes, i))
}

/// What reading `n` characters of four bytes each from `bytes` gives. The
/// characters are taken one after the other, so the first group that cannot
/// be read decides the error.
pub open spec fn decode_chars(bytes: Seq<u8>, n: nat) -> Result<Seq<char>, PCSError> {
    let whole = bytes.len() / 4;
    let tried = if n <= whole { n } else { whole };
    if !codepoints_valid(bytes, tried) {
        Err(PCSError::InvalidCodepoint)
    } else if n > whole {
        Err(PCSError::OutOfBounds)
    } else {
        Ok(Seq::new(n, |i: int| codepoint_at(bytes, i) as char))
    }
}

/// `char::from_u32` of std: the character with code point `v` where `v` is a
/// Unicode scalar value, and nothing for a surrogate or a number above 0x10FFFF.
#[verifier::external_body]
fn char_from_u32(v: u32) -> (res: Option<char>)
    ensures
        res == if is_scalar_value(v as nat) {
            Some(v as char)
        } else {
            None
        },
{
    char::from_u32(v)
}

/// `String::push` of std: appends one character.
#[verifier::external_body]
pub(crate) fn string_push(s: &mut String, c: char)
    ensures
        final(s)@ == old(s)@.push(c),
{
    s.push(c)
}

impl View for Package {
    type V = PackageView;

    open spec fn view(&self) -> PackageView {
        PackageView { name: self.name@, value: self.value@, cursor: self.index@ }
    }
}

impl Package {
    /// The cursor stands inside the payload or at its end.
    pub open spec fn wf(&self) -> bool {
        self@.wf()
    }

    /// Builds an envelope from a routing key and a payload. The cursor starts
    /// at the first byte.
    pub fn new(name: &str, value: Vec<u8>) -> (p: Package)
        ensures
            p@ == (PackageView { name: name@, value: value@, cursor: 0 }),
            p.wf(),
    {
        Package { name: name.to_owned(), value, index: Cursor { at: 0 } }
    }

    /// The routing key.
    pub fn name(&self) -> (res: &str)
        ensures
            res@ == self@.name,
    {
        self.name.as_str()
    }

    /// The whole payload, read or not.
    pub fn value(&self) -> (res: &[u8])
        ensures
            res@ == self@.value,
    {
        self.value.as_slice()
    }

    /// The offset of the next byte to read.
    pub fn cursor(&self) -> (c: usize)
        ensures
            c == self@.cursor,
    {
        self.index.at
    }

    /// How many bytes are left to read.
    pub fn remaining(&self) -> (n: usize)
        ensures
            self.wf() ==> n == self@.value.len() - self@.cursor,
            !self.wf() ==> n == 0,
            forall|k: nat| self@.can_read(k) <==> (self.wf() && k <= n),
    {
        if self.index.at <= self.value.len() {
            self.value.len() - self.index.at
        } else {
            0
        }
    }

    /// Reads the next `length` bytes.
    pub fn get_var_length(&mut self, length: usize) -> (res: Result<Vec<u8>, PCSError>)
        ensures
            match res {
                Ok(bytes) => old(self)@.yields(length as nat, final(self)@, bytes@),
                Err(e) => old(self)@.refuses(length as nat, final(self)@, e),
            },
    {
        if self.index.at > self.value.len() || length > self.value.len() - self.index.at {
            return Err(PCSError::OutOfBounds);
        }
        let start: usize = self.index.at;
        let end: usize = start + length;
        let mut out: Vec<u8> = Vec::with_capacity(length);
        let mut i: usize = start;
        while i < end
            invariant
                start <= i <= end <= self.value@.len(),
                out@ == self.value@.subrange(start as int, i as int),
            decreases end - i,
        {
            out.push(self.value[i]);
            i = i + 1;
            proof {
                assert(out@ =~= self.value@.subrange(start as int, i as int));
            }
        }
        self.index.at = end;
        Ok(out)
    }

    /// Reads the next `N` bytes.
    pub fn get_cons_length<const N: usize>(&mut self) -> (res: Result<[u8; N], PCSError>)
        ensures
            match res {
                Ok(bytes) => old(self)@.yields(N as nat, final(self)@, bytes@),
                Err(e) => old(self)@.refuses(N as nat, final(self)@, e),
            },
    {
        if self.index.at > self.value.len() || N > self.value.len() - self.index.at {
            return Err(PCSError::OutOfBounds);
        }
        let start: usize = self.index.at;
        let mut out: [u8; N] = vstd::array::array_fill_for_copy_types(0u8);
        let mut i: usize = 0;
        while i < N
            invariant
                i <= N,
                start + N <= self.value.len(),
                out@.len() == N,
                forall|j: int| 0 <= j < i ==> out@[j] == self.value@[start + j],
            decreases N - i,
        {
            out[i] = self.value[start + i];
            i = i + 1;
        }
        proof {
            assert(out@ =~= self.value@.subrange(start as int, start + N));
        }
        self.index.at = start + N;
        Ok(out)
    }

    /// Reads one byte.
    pub fn get_u8(&mut self) -> (res: Result<u8, PCSError>)
        ensures
            match res {
                Ok(v) => old(self)@.can_read(1) && v == old(self)@.value[old(self)@.cursor as int]
                    && v == be_value(old(self)@.field(1)) && final(self)@ == old(self)@.advance(1),
                Err(e) => old(self)@.refuses(1, final(self)@, e),
            },
    {
        let bytes: [u8; 1] = self.get_cons_length::<1>()?;
        proof {
            reveal_with_fuel(be_value, 2);
            assert(bytes@.drop_last().len() == 0);
        }
        Ok(bytes[0])
    }

    /// Reads four bytes as a big-endian unsigned number.
    pub fn get_u32(&mut self) -> (res: Result<u32, PCSError>)
        ensures
            match res {
                Ok(v) => old(self)@.can_read(4) && v == be_value(old(self)@.field(4))
                    && final(self)@ == old(self)@.advance(4),
                Err(e) => old(self)@.refuses(4, final(self)@, e),
            },
    {
        let bytes: [u8; 4] = self.get_cons_length::<4>()?;
        let wide: u64 = be_fold(bytes.as_slice());
        proof {
            lemma_be_value_bound(bytes@);
            lemma_pow256_values();
        }
        Ok(wide as u32)
    }

    /// Reads eight bytes as a big-endian unsigned number.
    pub fn get_u64(&mut self) -> (res: Result<u64, PCSError>)
        ensures
            match res {
                Ok(v) => old(self)@.can_read(8) && v == be_value(old(self)@.field(8))
                    && final(self)@ == old(self)@.advance(8),
                Err(e) => old(self)@.refuses(8, final(self)@, e),
            },
    {
        let bytes: [u8; 8] = self.get_cons_length::<8>()?;
        Ok(be_fold(bytes.as_slice()))
    }

    /// Reads one machine word as a big-endian unsigned number.
    pub fn get_usize(&mut self) -> (res: Result<usize, PCSError>)
        ensures
            match res {
                Ok(v) => old(self)@.can_read(word_bytes()) && v == be_value(
                    old(self)@.field(word_bytes()),
                ) && final(self)@ == old(self)@.advance(word_bytes()),
                Err(e) => old(self)@.refuses(word_bytes(), final(self)@, e),
            },
    {
        broadcast use layout_of_primitives;

        let width: usize = core::mem::size_of::<usize>();
        assert(width == word_bytes());
        let bytes: Vec<u8> = self.get_var_length(width)?;
        let wide: u64 = be_fold(bytes.as_slice());
        proof {
            lemma_be_value_bound(bytes@);
            lemma_pow256_values();
        }
        Ok(wide as usize)
    }

    /// Reads four bytes as a big-endian number in two's complement.
    pub fn get_i32(&mut self) -> (res: Result<i32, PCSError>)
        ensures
            match res {
                Ok(v) => old(self)@.can_read(4) && v == be_signed(old(self)@.field(4))
                    && final(self)@ == old(self)@.advance(4),
                Err(e) => old(self)@.refuses(4, final(self)@, e),
            },
    {
        let bytes: [u8; 4] = self.get_cons_length::<4>()?;
        let wide: u64 = be_fold(bytes.as_slice());
        proof {
            lemma_be_value_bound(bytes@);
            lemma_pow256_values();
        }
        if wide >= 0x8000_0000 {
            Ok((wide as i64 - 0x1_0000_0000) as i32)
        } else {
            Ok(wide as i32)
        }
    }

    /// Reads eight bytes as a big-endian number in two's complement.
    pub fn get_i64(&mut self) -> (res: Result<i64, PCSError>)
        ensures
            match res {
                Ok(v) => old(self)@.can_read(8) && v == be_signed(old(self)@.field(8))
                    && final(self)@ == old(self)@.advance(8),
                Err(e) => old(self)@.refuses(8, final(self)@, e),
            },
    {
        let bytes: [u8; 8] = self.get_cons_length::<8>()?;
        let wide: u64 = be_fold(bytes.as_slice());
        proof {
            lemma_be_value_bound(bytes@);
            lemma_pow256_values();
        }
        if wide >= 0x8000_0000_0000_0000 {
            Ok((wide - 0x8000_0000_0000_0000) as i64 + i64::MIN)
        } else {
            Ok(wide as i64)
        }
    }

    /// Reads one machine word as a big-endian number in two's complement.
    pub fn get_isize(&mut self) -> (res: Result<isize, PCSError>)
        ensures
            match res {
                Ok(v) => old(self)@.can_read(word_bytes()) && v == be_signed(
                    old(self)@.field(word_bytes()),
                ) && final(self)@ == old(self)@.advance(word_bytes()),
                Err(e) => old(self)@.refuses(word_bytes(), final(self)@, e),
            },
    {
        broadcast use layout_of_primitives;

        let width: usize = core::mem::size_of::<usize>();
        assert(width == word_bytes());
        let bytes: Vec<u8> = self.get_var_length(width)?;
        let wide: u64 = be_fold(bytes.as_slice());
        proof {
            lemma_be_value_bound(bytes@);
            lemma_pow256_values();
        }
        if width == 4 {
            if wide >= 0x8000_0000 {
                Ok((wide as i64 - 0x1_0000_0000) as isize)
            } else {
                Ok(wide as isize)
            }
        } else {
            if wide >= 0x8000_0000_0000_0000 {
                Ok(((wide - 0x8000_0000_0000_0000) as i64 + i64::MIN) as isize)
            } else {
                Ok(wide as isize)
            }
        }
    }

    /// Reads four bytes as a big-endian code point and gives its character.
    /// Nothing is consumed where the read fails.
    pub fn get_char(&mut self) -> (res: Result<char, PCSError>)
        ensures
            match res {
                Ok(c) => old(self)@.can_read(4) && c == be_value(old(self)@.field(4)) as char
                    && is_scalar_value(be_value(old(self)@.field(4))) && final(self)@ == old(
                    self,
                )@.advance(4),
                Err(e) => final(self)@ == old(self)@ && if old(self)@.can_read(4) {
                    e == PCSError::InvalidCodepoint && !is_scalar_value(
                        be_value(old(self)@.field(4)),
                    )
                } else {
                    e == PCSError::OutOfBounds
                },
            },
    {
        let start: usize = self.index.at;
        let code: u32 = self.get_u32()?;
        match char_from_u32(code) {
            Some(c) => Ok(c),
            None => {
                self.index.at = start;
                Err(PCSError::InvalidCodepoint)
            },
        }
    }

    /// Reads `length` characters, each of them four bytes wide whatever its
    /// width in UTF-8. Nothing is consumed where the read fails.
    pub fn get_str(&mut self, length: usize) -> (res: Result<String, PCSError>)
        ensures
            match res {
                Ok(text) => decode_chars(old(self)@.unread(), length as nat) == Ok::<
                    Seq<char>,
                    PCSError,
                >(text@) && final(self)@ == old(self)@.advance(4 * length as nat),
                Err(e) => decode_chars(old(self)@.unread(), length as nat) == Err::<
                    Seq<char>,
                    PCSError,
                >(e) && final(self)@ == old(self)@,
            },
    {
        let start: usize = self.index.at;
        let mut text: String = String::new();
        let ghost rest: Seq<u8> = self@.unread();
        let mut i: usize = 0;
        while i < length
            invariant
                i <= length,
                self@.name == old(self)@.name,
                self@.value == old(self)@.value,
                start == old(self)@.cursor,
                rest == old(self)@.unread(),
                old(self).wf() ==> self@.cursor == start + 4 * i && self.wf(),
                !old(self).wf() ==> self@ == old(self)@ && i == 0,
                old(self).wf() ==> codepoints_valid(rest, i as nat),
                text@.len() == i,
                forall|j: int| 0 <= j < i ==> text@[j] == codepoint_at(rest, j) as char,
            decreases length - i,
        {
            let ghost before = self@;
            match self.get_char() {
                Ok(c) => {
                    proof {
                        assert(before.field(4) =~= rest.subrange(4 * i, 4 * i + 4));
                    }
                    string_push(&mut text, c);
                },
                Err(e) => {
                    proof {
                        let whole = rest.len() / 4;
                        if before.can_read(4) {
                            assert(before.field(4) =~= rest.subrange(4 * i, 4 * i + 4));
                            assert(i < whole);
                            assert(!is_scalar_value(codepoint_at(rest, i as int)));
                        } else {
                            assert(i as nat == whole);
                        }
                    }
                    self.index.at = start;
                    return Err(e);
                },
            }
            i = i + 1;
        }
        proof {
            assert(length <= rest.len() / 4);
            assert(text@ =~= Seq::new(length as nat, |k: int| codepoint_at(rest, k) as char));
        }
        Ok(text)
    }

    /// Removes the last byte of the payload and returns it, wherever the cursor
    /// stands. This shortens the payload; it is no read. A cursor that stood
    /// behind the new end moves back to it.
    pub fn pop(&mut self) -> (res: Option<u8>)
        ensures
            res == if old(self)@.value.len() > 0 {
                Some(old(self)@.value.last())
            } else {
                None
            },
            final(self)@.value == if old(self)@.value.len() > 0 {
                old(self)@.value.drop_last()
            } else {
                old(self)@.value
            },
            final(self)@.name == old(self)@.name,
            final(self)@.cursor == if old(self)@.cursor <= final(self)@.value.len() {
                old(self)@.cursor
            } else {
                final(self)@.value.len()
            },
            final(self).wf(),
    {
        let last: Option<u8> = self.value.pop();
        if self.index.at > self.value.len() {
            self.index.at = self.value.len();
        }
        last
    }
}

/// The fields laid end to end, in their order.
pub open spec fn joined(fields: Seq<Seq<u8>>) -> Seq<u8>
    decreases fields.len(),
{
    if fields.len() == 0 {
        Seq::empty()
    } else {
        joined(fields.drop_last()) + fields.last()
    }
}

/// A package whose payload is `fields` laid end to end, with the cursor
/// behind the first `read` of them.
pub open spec fn after_fields(name: Seq<char>, fields: Seq<Seq<u8>>, read: int) -> PackageView {
    PackageView { name, value: joined(fields), cursor: joined(fields.take(read)).len() }
}

/// The first `k` fields laid end to end are the start of all of them laid
/// end to end.
proof fn lemma_joined_prefix(fields: Seq<Seq<u8>>, k: int)
    requires
        0 <= k <= fields.len(),
    ensures
        joined(fields.take(k)).len() <= joined(fields).len(),
        joined(fields).subrange(0, joined(fields.take(k)).len() as int) == joined(fields.take(k)),
    decreases fields.len(),
{
    if k == fields.len() {
        assert(fields.take(k) =~= fields);
        assert(joined(fields).subrange(0, joined(fields).len() as int) =~= joined(fields));
    } else {
        let head = fields.drop_last();
        lemma_joined_prefix(head, k);
        assert(head.take(k) =~= fields.take(k));
        assert(joined(fields).subrange(0, joined(fields.take(k)).len() as int) =~= joined(
            head,
        ).subrange(0, joined(fields.take(k)).len() as int));
    }
}

/// Fields that were laid end to end come back in the same order, each as it
/// was written: with the cursor behind the first `i` fields, a read of the
/// width of field `i` gives that field and leaves the cursor behind it. Once
/// all fields are read the cursor stands at the end, and a read of `extra`
/// bytes, one or more, is refused.
pub proof fn lemma_sequential_reads(name: Seq<char>, fields: Seq<Seq<u8>>, i: int, extra: nat)
    requires
        0 <= i < fields.len(),
        extra >= 1,
    ensures
        after_fields(name, fields, i).yields(
            fields[i].len(),
            after_fields(name, fields, i + 1),
            fields[i],
        ),
        after_fields(name, fields, 0).cursor == 0,
        after_fields(name, fields, fields.len() as int).cursor == joined(fields).len(),
        after_fields(name, fields, fields.len() as int).refuses(
            extra,
            after_fields(name, fields, fields.len() as int),
            PCSError::OutOfBounds,
        ),
{
    let payload = joined(fields);
    let before = joined(fields.take(i));
    let with_it = joined(fields.take(i + 1));
    lemma_joined_prefix(fields, i);
    lemma_joined_prefix(fields, i + 1);
    assert(fields.take(i + 1).drop_last() =~= fields.take(i));
    assert(with_it == before + fields[i]);
    assert(payload.subrange(before.len() as int, with_it.len() as int) =~= with_it.subrange(
        before.len() as int,
        with_it.len() as int,
    ));
    assert(with_it.subrange(before.len() as int, with_it.len() as int) =~= fields[i]);
    assert(fields.take(fields.len() as int) =~= fields);
    assert(fields.take(0) =~= Seq::<Seq<u8>>::empty());
}

/// A number that was written in `width` big-endian bytes and fits them is the
/// number that a read of those bytes gives.
pub proof fn lemma_number_round_trip(name: Seq<char>, v: nat, width: nat)
    requires
        v < pow256(width),
    ensures
        ({
            let start = PackageView { name, value: be_bytes(v, width), cursor: 0 };
            &&& start.can_read(width)
            &&& be_value(start.field(width)) == v
        }),
{
    lemma_be_bytes_len(v, width);
    lemma_be_value_of_bytes(v, width);
    assert(be_bytes(v, width).subrange(0, width as int) =~= be_bytes(v, width));
}

/// Text that was written with four big-endian bytes for each character is
/// read back as it was, whatever the characters' width in UTF-8.
pub proof fn lemma_chars_round_trip(text: Seq<char>)
    ensures
        chars_bytes(text).len() == 4 * text.len(),
        decode_chars(chars_bytes(text), text.len()) == Ok::<Seq<char>, PCSError>(text),
{
    let bytes = chars_bytes(text);
    lemma_chars_bytes_len(text);
    lemma_pow256_values();
    assert forall|i: int| 0 <= i < text.len() implies is_scalar_value(
        #[trigger] codepoint_at(bytes, i),
    ) && codepoint_at(bytes, i) as char == text[i] by {
        lemma_chars_bytes_group(text, i);
        char_is_scalar(text[i]);
        char_u32_cast(text[i], text[i] as u32);
        lemma_be_value_of_bytes(text[i] as nat, 4);
    }
    assert(Seq::new(text.len(), |i: int| codepoint_at(bytes, i) as char) =~= text);
}

/// The view of a package shows the fields that are open to every reader: its
/// name is the `name` field and its payload is the `value` field.
pub proof fn lemma_view_of_fields(package: Package)
    ensures
        package@.name == package.name@,
        package@.value == package.value@,
        package@.cursor == package.index@,
{
}

} // verus!
