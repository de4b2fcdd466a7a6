use steamengine_communication::codec::{
    aligned_buffer, archived_view, from_wire_bytes, loopback, read, to_wire_bytes, wire_outcome,
    MAX_BODY, MAX_WIRE,
};
use steamengine_communication::defaults::LegiblePackage;
use steamengine_communication::errors::PCSError;
use steamengine_communication::framing::{ReadPackageImpl, ToPackage, WritePackageImpl};
use steamengine_communication::package::Package;

#[test]
fn wire_round_trip_keeps_name_and_value() {
    let package = Package::new("update.player.transform", vec![1, 2, 3, 4, 5]);
    let bytes = to_wire_bytes(&package).unwrap();
    let back = from_wire_bytes(&bytes).unwrap();
    assert_eq!(back.name, "update.player.transform");
    assert_eq!(back.value, vec![1, 2, 3, 4, 5]);
    assert_eq!(back.cursor(), 0);
}

#[test]
fn wire_round_trip_of_empty_name_and_payload() {
    let package = Package::new("", Vec::new());
    let bytes = to_wire_bytes(&package).unwrap();
    let back = from_wire_bytes(&bytes).unwrap();
    assert_eq!(back.name, "");
    assert!(back.value.is_empty());
}

#[test]
fn wire_round_trip_of_a_name_beyond_ascii() {
    let package = Package::new("caf\u{e9}.\u{5b57}", vec![0, 255, 128]);
    let bytes = to_wire_bytes(&package).unwrap();
    let back = from_wire_bytes(&bytes).unwrap();
    assert_eq!(back.name, "caf\u{e9}.\u{5b57}");
    assert_eq!(back.value, vec![0, 255, 128]);
}

#[test]
fn wire_round_trip_of_a_large_payload() {
    let mut payload: Vec<u8> = Vec::new();
    for i in 0..70_000u32 {
        payload.push((i % 251) as u8);
    }
    let package = Package::new("view.render", payload.clone());
    let bytes = to_wire_bytes(&package).unwrap();
    let back = from_wire_bytes(&bytes).unwrap();
    assert_eq!(back.name, "view.render");
    assert_eq!(back.value, payload);
}

#[test]
fn the_cursor_does_not_travel() {
    let mut package = Package::new("test.legible", vec![1, 2, 3, 4]);
    assert_eq!(package.get_u8(), Ok(1));
    assert_eq!(package.cursor(), 1);
    let bytes = to_wire_bytes(&package).unwrap();
    let fresh = to_wire_bytes(&Package::new("test.legible", vec![1, 2, 3, 4])).unwrap();
    assert_eq!(bytes, fresh);
    let back = from_wire_bytes(&bytes).unwrap();
    assert_eq!(back.cursor(), 0);
    assert_eq!(back.value, vec![1, 2, 3, 4]);
}

#[test]
fn wire_form_of_a_legible_package() {
    let package = Package::new("test.legible", b"VAA".to_vec());
    let bytes = to_wire_bytes(&package).unwrap();
    let mut expected: Vec<u8> = Vec::new();
    expected.extend_from_slice(b"test.legible");
    expected.extend_from_slice(b"VAA");
    expected.push(0);
    expected.extend_from_slice(&[0x8C, 0, 0, 0, 0xF0, 0xFF, 0xFF, 0xFF]);
    expected.extend_from_slice(&[0xF4, 0xFF, 0xFF, 0xFF, 3, 0, 0, 0]);
    assert_eq!(bytes, expected);
}

#[test]
fn wire_form_of_a_short_name_is_inline() {
    let package = Package::new("ab", vec![9]);
    let bytes = to_wire_bytes(&package).unwrap();
    let mut expected: Vec<u8> = vec![9, 0, 0, 0];
    expected.extend_from_slice(&[b'a', b'b', 0xFF, 0xFF, 0xFF, 0xFF, 0xFF, 0xFF]);
    expected.extend_from_slice(&[0xF4, 0xFF, 0xFF, 0xFF, 1, 0, 0, 0]);
    assert_eq!(bytes, expected);
}

#[test]
fn legible_package_through_a_buffer() {
    let package = Package::new("test.legible", b"VAA".to_vec());
    let mut buffer: Vec<u8> = Vec::new();
    steamengine_communication::codec::write(&mut buffer, package).unwrap();
    let back = read(&buffer).unwrap();
    assert_eq!(back.name, "test.legible");
    assert_eq!(back.value, b"VAA".to_vec());
}

#[test]
fn legible_package_through_the_framing_traits() {
    let mut buffer: Vec<u8> = Vec::new();
    buffer.write_package(LegiblePackage::from_str("VAA")).unwrap();
    let mut reader: &[u8] = &buffer;
    let back = reader.read_package().unwrap();
    assert_eq!(back.name, "test.legible");
    assert_eq!(back.value, b"VAA".to_vec());
    assert!(reader.is_empty());
}

#[test]
fn raw_package_through_the_framing_traits() {
    let mut buffer: Vec<u8> = Vec::new();
    let package = LegiblePackage::from_str("broadcast").to_package();
    buffer.write_raw_package(package).unwrap();
    let direct = to_wire_bytes(&Package::new("test.legible", b"broadcast".to_vec())).unwrap();
    assert_eq!(buffer, direct);
}

#[test]
fn a_second_read_finds_the_stream_at_its_end() {
    let mut buffer: Vec<u8> = Vec::new();
    buffer.write_raw_package(Package::new("update.player.exit", Vec::new())).unwrap();
    let mut reader: &[u8] = &buffer;
    assert!(reader.read_package().is_ok());
    assert_eq!(reader.read_package().unwrap_err(), PCSError::DecodingError);
}

#[test]
fn write_appends_to_what_is_there() {
    let mut buffer: Vec<u8> = vec![7, 7];
    steamengine_communication::codec::write(&mut buffer, Package::new("ab", vec![9])).unwrap();
    assert_eq!(&buffer[..2], &[7, 7]);
    let wire = to_wire_bytes(&Package::new("ab", vec![9])).unwrap();
    assert_eq!(&buffer[2..], &wire[..]);
}

#[test]
fn truncated_wire_bytes_are_rejected() {
    let package = Package::new("test.legible", b"VAA".to_vec());
    let bytes = to_wire_bytes(&package).unwrap();
    let cut = &bytes[..bytes.len() - 5];
    assert_eq!(from_wire_bytes(cut).unwrap_err(), PCSError::DecodingError);
}

#[test]
fn garbage_is_rejected() {
    let garbage: Vec<u8> = vec![0xAB; 64];
    assert_eq!(from_wire_bytes(&garbage).unwrap_err(), PCSError::DecodingError);
    assert_eq!(read(b"ping\n").unwrap_err(), PCSError::DecodingError);
}

#[test]
fn a_name_that_is_no_utf8_is_rejected() {
    let mut bytes = to_wire_bytes(&Package::new("test.legible", b"VAA".to_vec())).unwrap();
    bytes[0] = 0xFF;
    assert_eq!(from_wire_bytes(&bytes).unwrap_err(), PCSError::DecodingError);
}

#[test]
fn empty_input_is_rejected() {
    assert_eq!(read(&[]).unwrap_err(), PCSError::DecodingError);
}

#[test]
fn error_messages() {
    assert_eq!(PCSError::IOError.message(), "IOError");
    assert_eq!(PCSError::OutOfBounds.message(), "read past the end of the payload");
    assert_eq!(PCSError::InvalidCodepoint.message(), "not a Unicode scalar value");
    assert_eq!(PCSError::EncodingError.message(), "package could not be encoded");
    assert_eq!(PCSError::DecodingError.message(), "package corrupt or incomplete");
    assert_eq!(PCSError::WouldBlock.message(), "no package is waiting");
    assert_eq!(PCSError::Closed.message(), "the channel is closed");
}

#[test]
fn a_view_borrows_name_and_value_from_the_buffer() {
    let bytes = to_wire_bytes(&Package::new("test.legible", b"VAA".to_vec())).unwrap();
    let buffer = aligned_buffer(&bytes).unwrap();
    let view = archived_view(&buffer).unwrap();
    assert_eq!(view.name, "test.legible");
    assert_eq!(view.value, b"VAA");
    let start = buffer.as_slice().as_ptr() as usize;
    let end = start + buffer.len();
    let name_at = view.name.as_ptr() as usize;
    let value_at = view.value.as_ptr() as usize;
    assert!(start <= name_at && name_at < end);
    assert!(start <= value_at && value_at < end);
    let package = view.to_package();
    assert_eq!(package.name, "test.legible");
    assert_eq!(package.value, b"VAA".to_vec());
    assert_eq!(package.cursor(), 0);
}

#[test]
fn a_view_of_garbage_is_refused() {
    let buffer = aligned_buffer(&[1, 2, 3, 4, 5, 6, 7]).unwrap();
    assert_eq!(archived_view(&buffer).unwrap_err(), PCSError::DecodingError);
    let empty = aligned_buffer(&[]).unwrap();
    assert_eq!(archived_view(&empty).unwrap_err(), PCSError::DecodingError);
}

#[test]
fn an_aligned_buffer_holds_a_copy() {
    let buffer = aligned_buffer(&[9, 8, 7]).unwrap();
    assert_eq!(buffer.as_slice(), &[9, 8, 7]);
    assert_eq!(buffer.as_slice().as_ptr() as usize % 16, 0);
}

#[test]
fn a_pointer_out_of_the_buffer_is_refused() {
    let mut bytes = to_wire_bytes(&Package::new("test.legible", b"VAA".to_vec())).unwrap();
    let len = bytes.len();
    bytes[len - 8] = 0x00;
    bytes[len - 7] = 0x10;
    bytes[len - 6] = 0x00;
    bytes[len - 5] = 0x00;
    assert_eq!(from_wire_bytes(&bytes).unwrap_err(), PCSError::DecodingError);
}

#[test]
fn limits_of_the_wire_form() {
    assert_eq!(MAX_BODY, 0x3FFF_FFFF);
    assert_eq!(MAX_WIRE, 0x7FFF_FFF0);
    assert_eq!(wire_outcome(Ok(vec![1, 2, 3])), Ok(vec![1, 2, 3]));
}

#[test]
fn a_package_comes_back_from_a_loopback_rewound() {
    let mut package = Package::new("change.range", vec![5, 6, 7, 8]);
    assert_eq!(package.get_u8(), Ok(5));
    let copy = loopback(&package).unwrap();
    assert_eq!(copy.name, "change.range");
    assert_eq!(copy.value, vec![5, 6, 7, 8]);
    assert_eq!(copy.cursor(), 0);
    assert_eq!(package.cursor(), 1);
}

#[test]
fn a_body_beyond_the_limit_is_refused() {
    let package = Package::new("x", vec![0u8; MAX_BODY]);
    assert_eq!(to_wire_bytes(&package).unwrap_err(), PCSError::EncodingError);
    assert_eq!(loopback(&package).unwrap_err(), PCSError::EncodingError);
    let mut buffer: Vec<u8> = vec![1, 2, 3];
    assert_eq!(
        steamengine_communication::codec::write(&mut buffer, package).unwrap_err(),
        PCSError::EncodingError
    );
    assert_eq!(buffer, vec![1, 2, 3]);
}
