use geyser_plugin_explorer::signature::{is_signature_empty, Signature};

#[test]
fn sentinel_signature_is_empty() {
    assert!(is_signature_empty(&Signature::default()));
    assert!(is_signature_empty(&Signature { bytes: [0u8; 64] }));
}

#[test]
fn signature_with_one_set_byte_is_not_empty() {
    let mut bytes = [0u8; 64];
    bytes[63] = 1;
    assert!(!is_signature_empty(&Signature { bytes }));
    let mut bytes = [0u8; 64];
    bytes[0] = 0x80;
    assert!(!is_signature_empty(&Signature { bytes }));
}
