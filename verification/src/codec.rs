use vstd::prelude::*;
use vstd::utf8::encode_utf8;
use crate::errors::PCSError;
use crate::package::{Package, PackageView};

verus! {

/// The error that rkyv reports when it cannot archive a value or cannot
/// accept a buffer.
#[verifier::external_type_specification]
#[verifier::external_body]
pub struct ExFailure(rkyv::rancor::Failure);

/// rkyv's byte buffer whose start is aligned to `ALIGNMENT` bytes.
#[verifier::external_type_specification]
#[verifier::external_body]
pub struct ExAlignedVec<const ALIGNMENT: usize>(rkyv::util::AlignedVec<ALIGNMENT>);

/// The largest sum of the name's length in UTF-8 and the payload's length that
/// an envelope may have. Below it every offset inside the wire form fits the
/// 32-bit relative pointers of the archive format.
pub const MAX_BODY: usize = 0x3FFF_FFFF;

/// The longest wire form that is read: what an aligned buffer can hold on a
/// machine with 32-bit addresses.
pub const MAX_WIRE: usize = 0x7FFF_FFF0;

/// The bytes that an aligned buffer holds.
pub uninterp spec fn aligned_content(buffer: rkyv::util::AlignedVec<16>) -> Seq<u8>;

/// The bytes that rkyv's `to_bytes` gives for the pair of a name and a payload.
pub uninterp spec fn archived_envelope(name: Seq<char>, value: Seq<u8>) -> Seq<u8>;

/// The name and the payload that rkyv's `access` finds in a 16-aligned buffer
/// that holds `bytes`, or nothing where it rejects them.
pub uninterp spec fn accessed_envelope(bytes: Seq<u8>) -> Option<(Seq<char>, Seq<u8>)>;

/// The size of a name and a payload together is within what the wire form
/// can address.
pub open spec fn fits_wire(name: Seq<char>, value: Seq<u8>) -> bool {
    encode_utf8(name).len() + value.len() <= MAX_BODY
}

/// What decoding `bytes` gives: a fresh package with the name and payload
/// found in them and the cursor at the start, or a decoding error.
pub open spec fn decoded(bytes: Seq<u8>) -> Result<PackageView, PCSError> {
    if bytes.len() > MAX_WIRE {
        Err(PCSError::DecodingError)
    } else {
        match accessed_envelope(bytes) {
            Some((name, value)) => Ok(PackageView { name, value, cursor: 0 }),
            None => Err(PCSError::DecodingError),
        }
    }
}

/// A package as it is after a journey over the wire: its name and payload,
/// with the cursor back at the start.
pub open spec fn rewound(package: PackageView) -> PackageView {
    PackageView { name: package.name, value: package.value, cursor: 0 }
}

/// `after` is `before` with the wire form of `sent` behind it, and that wire
/// form reads back as `sent` with the cursor at the start.
pub open spec fn appended(before: Seq<u8>, after: Seq<u8>, sent: PackageView) -> bool {
    &&& after == before + archived_envelope(sent.name, sent.value)
    &&& decoded(archived_envelope(sent.name, sent.value)) == Ok::<PackageView, PCSError>(
        rewound(sent),
    )
}

/// What a write of `sent` to a buffer comes to. A package that fits the wire
/// form is written: the result is `Ok` and the buffer has grown by exactly
/// its envelope. One that does not fit is refused with `EncodingError`, and
/// the buffer stays as it was.
pub open spec fn written(
    before: Seq<u8>,
    after: Seq<u8>,
    sent: PackageView,
    res: Result<(), PCSError>,
) -> bool {
    if fits_wire(sent.name, sent.value) {
        res is Ok && appended(before, after, sent)
    } else {
        res == Err::<(), PCSError>(PCSError::EncodingError) && after == before
    }
}

/// `rkyv::to_bytes` on the pair `(name, value)`, with `Failure` as its error.
/// Claimed of it, for a name and a payload within the size bound: it
/// succeeds, since the archiver refuses a string only beyond that bound and
/// its buffer takes every write; the bytes depend on the name and the payload
/// alone and are no longer than `MAX_WIRE`, being the name, the payload, up
/// to three bytes of padding and sixteen bytes of root; and `rkyv::access`
/// reads the same name and payload back out of them. The size bound also
/// keeps rkyv's relative pointers from overflowing, where it would panic.
#[verifier::external_body]
fn archive_envelope(name: &str, value: &[u8]) -> (res: Result<Vec<u8>, rkyv::rancor::Failure>)
    requires
        fits_wire(name@, value@),
    ensures
        res is Ok,
        res matches Ok(bytes) ==> bytes@ == archived_envelope(name@, value@),
        res matches Ok(bytes) ==> bytes@.len() <= MAX_WIRE,
        res matches Ok(bytes) ==> accessed_envelope(bytes@) == Some((name@, value@)),
{
    let pair: (String, Vec<u8>) = (name.to_owned(), value.to_vec());
    let bytes = rkyv::to_bytes::<rkyv::rancor::Failure>(&pair)?;
    Ok(bytes.to_vec())
}

/// `AlignedVec::extend_from_slice` of rkyv on a new buffer: the buffer holds a
/// copy of `bytes`. The bound keeps the buffer below its largest capacity,
/// beyond which it would panic.
#[verifier::external_body]
fn aligned_copy(bytes: &[u8]) -> (res: rkyv::util::AlignedVec<16>)
    requires
        bytes@.len() <= MAX_WIRE,
    ensures
        aligned_content(res) == bytes@,
{
    let mut buffer: rkyv::util::AlignedVec<16> = rkyv::util::AlignedVec::new();
    buffer.extend_from_slice(bytes);
    buffer
}

/// `rkyv::access` on an aligned buffer, read as the archive of a pair of a
/// string and a byte vector, with `Failure` as its error. Claimed of it:
/// whether the buffer is accepted, and the name and payload found in it,
/// depend on the bytes alone. What is handed out borrows from the buffer.
#[verifier::external_body]
fn access_envelope<'a>(buffer: &'a rkyv::util::AlignedVec<16>) -> (res: Result<
    (&'a str, &'a [u8]),
    rkyv::rancor::Failure,
>)
    ensures
        match res {
            Ok(pair) => accessed_envelope(aligned_content(*buffer)) == Some((pair.0@, pair.1@)),
            Err(_) => accessed_envelope(aligned_content(*buffer)) is None,
        },
{
    let archived = rkyv::access::<
        rkyv::tuple::ArchivedTuple2<rkyv::string::ArchivedString, rkyv::vec::ArchivedVec<u8>>,
        rkyv::rancor::Failure,
    >(buffer.as_slice())?;
    Ok((archived.0.as_str(), archived.1.as_slice()))
}

/// A checked, read-only view of an envelope inside the buffer that holds its
/// wire form. It borrows the name and the payload from the buffer: nothing
/// is copied until a package is asked for.
#[derive(Debug, Clone, Copy)]
pub struct ArchivedPackageView<'a> {
    pub name: &'a str,
    pub value: &'a [u8],
}

impl<'a> ArchivedPackageView<'a> {
    /// The package that this view shows, if it were copied out.
    pub open spec fn shown(self) -> PackageView {
        PackageView { name: self.name@, value: self.value@, cursor: 0 }
    }

    /// Copies the name and the payload out into a package of its own, with
    /// the cursor at the start.
    pub fn to_package(&self) -> (res: Package)
        ensures
            res@ == self.shown(),
    {
        Package::new(self.name, vstd::slice::slice_to_vec(self.value))
    }
}

/// What the archiver's answer means to the caller: its bytes, or an encoding
/// error. Bytes too long to be read again count as an error too.
pub fn wire_outcome(archived: Result<Vec<u8>, rkyv::rancor::Failure>) -> (res: Result<
    Vec<u8>,
    PCSError,
>)
    ensures
        match archived {
            Ok(bytes) if bytes@.len() <= MAX_WIRE => res == Ok::<Vec<u8>, PCSError>(bytes),
            _ => res == Err::<Vec<u8>, PCSError>(PCSError::EncodingError),
        },
{
    match archived {
        Ok(bytes) => if bytes.len() <= MAX_WIRE {
            Ok(bytes)
        } else {
            Err(PCSError::EncodingError)
        },
        Err(_) => Err(PCSError::EncodingError),
    }
}

/// What the reader's answer means to the caller: a view of the name and the
/// payload that were found, or a decoding error.
pub fn view_outcome<'a>(accessed: Result<(&'a str, &'a [u8]), rkyv::rancor::Failure>) -> (res:
    Result<ArchivedPackageView<'a>, PCSError>)
    ensures
        match accessed {
            Ok(pair) => res is Ok && res.unwrap().name == pair.0 && res.unwrap().value == pair.1,
            Err(_) => res is Err && res.unwrap_err() == PCSError::DecodingError,
        },
{
    match accessed {
        Ok(pair) => Ok(ArchivedPackageView { name: pair.0, value: pair.1 }),
        Err(_) => Err(PCSError::DecodingError),
    }
}

/// Copies wire bytes into an aligned buffer, for a view to be taken of them.
/// Bytes longer than `MAX_WIRE` are refused.
pub fn aligned_buffer(bytes: &[u8]) -> (res: Result<rkyv::util::AlignedVec<16>, PCSError>)
    ensures
        match res {
            Ok(buffer) => bytes@.len() <= MAX_WIRE && aligned_content(buffer) == bytes@,
            Err(e) => bytes@.len() > MAX_WIRE && e == PCSError::DecodingError,
        },
{
    if bytes.len() > MAX_WIRE {
        Err(PCSError::DecodingError)
    } else {
        Ok(aligned_copy(bytes))
    }
}

/// A view of the envelope in `buffer` that copies neither its name nor its
/// payload. The buffer is checked as a whole before anything of it is shown.
pub fn archived_view<'a>(buffer: &'a rkyv::util::AlignedVec<16>) -> (res: Result<
    ArchivedPackageView<'a>,
    PCSError,
>)
    ensures
        match res {
            Ok(view) => accessed_envelope(aligned_content(*buffer)) == Some(
                (view.name@, view.value@),
            ),
            Err(e) => e == PCSError::DecodingError && accessed_envelope(aligned_content(*buffer))
                is None,
        },
{
    view_outcome(access_envelope(buffer))
}

/// The wire form of a package: one contiguous buffer that holds its name and
/// payload. The cursor is not part of it. Every package that fits the wire
/// form has one; no other has.
pub fn to_wire_bytes(package: &Package) -> (res: Result<Vec<u8>, PCSError>)
    ensures
        res is Ok <==> fits_wire(package@.name, package@.value),
        match res {
            Ok(bytes) => bytes@ == archived_envelope(package@.name, package@.value) && decoded(
                bytes@,
            ) == Ok::<PackageView, PCSError>(rewound(package@)),
            Err(e) => e == PCSError::EncodingError,
        },
{
    let name: &str = package.name();
    let value: &[u8] = package.value();
    let name_len: usize = name.as_bytes().len();
    if name_len > MAX_BODY || value.len() > MAX_BODY - name_len {
        return Err(PCSError::EncodingError);
    }
    wire_outcome(archive_envelope(name, value))
}

/// Reads a package out of its wire form. The bytes are checked as a whole
/// before anything of them is handed out.
pub fn from_wire_bytes(bytes: &[u8]) -> (res: Result<Package, PCSError>)
    ensures
        match res {
            Ok(package) => decoded(bytes@) == Ok::<PackageView, PCSError>(package@),
            Err(e) => decoded(bytes@) == Err::<PackageView, PCSError>(e),
        },
{
    let buffer = aligned_buffer(bytes)?;
    let view = archived_view(&buffer)?;
    Ok(view.to_package())
}

/// Appends the wire form of `package` to `writer`. Either all of it is
/// written or nothing.
pub fn write(writer: &mut Vec<u8>, package: Package) -> (res: Result<(), PCSError>)
    ensures
        written(old(writer)@, final(writer)@, package@, res),
{
    let mut bytes: Vec<u8> = to_wire_bytes(&package)?;
    writer.append(&mut bytes);
    Ok(())
}

/// Reads one package from all of `reader`: the envelope ends where the input
/// ends.
pub fn read(reader: &[u8]) -> (res: Result<Package, PCSError>)
    ensures
        match res {
            Ok(package) => decoded(reader@) == Ok::<PackageView, PCSError>(package@),
            Err(e) => decoded(reader@) == Err::<PackageView, PCSError>(e),
        },
{
    from_wire_bytes(reader)
}

/// Sends a package through its wire form and back, as a peer would get it:
/// the same name and payload, with the cursor at the start.
pub fn loopback(package: &Package) -> (res: Result<Package, PCSError>)
    ensures
        res is Ok <==> fits_wire(package@.name, package@.value),
        match res {
            Ok(copy) => copy@ == rewound(package@),
            Err(e) => e == PCSError::EncodingError,
        },
{
    let bytes: Vec<u8> = to_wire_bytes(package)?;
    match from_wire_bytes(bytes.as_slice()) {
        Ok(copy) => Ok(copy),
        Err(_) => Err(PCSError::EncodingError),
    }
}

} // verus!
