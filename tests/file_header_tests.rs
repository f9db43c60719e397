use vhdx_inspector::error::VhdxError;
use vhdx_inspector::file_header::read_file_header;

fn identifier(creator: &str) -> Vec<u8> {
    let mut b = vec![0u8; 8 + 512];
    b[0..8].copy_from_slice(b"vhdxfile");
    let units: Vec<u8> = creator.encode_utf16().flat_map(|u| u.to_le_bytes()).collect();
    b[8..8 + units.len()].copy_from_slice(&units);
    b
}

#[test]
fn creator_is_decoded() {
    let h = read_file_header(&identifier("Microsoft Windows 10.0")).unwrap();
    assert!(h.creator.starts_with("Microsoft Windows 10.0"));
    assert_eq!(h.creator.chars().count(), 256);
}

#[test]
fn file_signature_is_checked() {
    let mut b = identifier("x");
    b[0] = b'V';
    assert_eq!(read_file_header(&b).unwrap_err(), VhdxError::MalformedSignature);
    assert_eq!(read_file_header(&identifier("x")[..100]).unwrap_err(), VhdxError::IoFailure);
}
