use trillium_grpc::{Code, Codec, Prost};

#[test]
fn prost_codec_suffix() {
    assert_eq!(<Prost as Codec<Vec<u8>>>::content_type_suffix(), "proto");
}

#[test]
fn prost_codec_encode_empty() {
    let value: Vec<u8> = Vec::new();
    let encoded = <Prost as Codec<Vec<u8>>>::encode(&value).unwrap();
    assert!(encoded.is_empty());
}

#[test]
fn prost_codec_decode_empty() {
    let decoded: Vec<u8> = <Prost as Codec<Vec<u8>>>::decode(&[]).unwrap();
    assert!(decoded.is_empty());
}

#[test]
fn prost_codec_decode_garbage_is_invalid_argument() {
    // 0xFF is not a valid prost tag: high continuation bit, never terminates.
    let err = <Prost as Codec<Vec<u8>>>::decode(&[0xFF, 0xFF, 0xFF, 0xFF]).unwrap_err();
    assert_eq!(err.code, Code::InvalidArgument);
}

#[test]
fn long_values_have_a_two_byte_length_and_come_back() {
    let value = vec![7u8; 300];
    let encoded = <Prost as Codec<Vec<u8>>>::encode(&value).unwrap();
    assert_eq!(&encoded[..3], &[0x0A, 0xAC, 0x02]);
    assert_eq!(&encoded[3..], &value[..]);
    assert_eq!(<Prost as Codec<Vec<u8>>>::decode(&encoded).unwrap(), value);
}

#[test]
fn decode_errors_name_the_codec() {
    let err = <Prost as Codec<Vec<u8>>>::decode(&[0x0A, 0x05, 1]).unwrap_err();
    assert_eq!(err.code, Code::InvalidArgument);
    assert!(err.message.starts_with("prost decode failed: "));
}
