use cybercook::crypto::pkcs7_pad;
use cybercook::crypto::pkcs7_unpad;
use cybercook::encoding::Base64Decoder;
use cybercook::encoding::Base64Encoder;
use cybercook::errors::ProcessError;
use cybercook::input::Argument;
use cybercook::input::InputType;

fn arg(value: &str, input_type: InputType) -> Argument {
    Argument { value: value.to_string(), input_type }
}

#[test]
fn base64_encode_hello() {
    let encoder = Base64Encoder { id: 0 };
    let out = encoder.process(b"hello").unwrap();
    assert_eq!(out, b"aGVsbG8=".to_vec());
}

#[test]
fn base64_decode_hello() {
    let decoder = Base64Decoder { id: 0 };
    let out = decoder.process(b"aGVsbG8=").unwrap();
    assert_eq!(out, b"hello".to_vec());
}

#[test]
fn base64_round_trip_various_buffers() {
    let encoder = Base64Encoder { id: 0 };
    let decoder = Base64Decoder { id: 1 };
    let cases: Vec<Vec<u8>> = vec![
        vec![],
        vec![0],
        vec![255],
        vec![1, 2],
        vec![1, 2, 3],
        vec![1, 2, 3, 4],
        b"The quick brown fox jumps over the lazy dog".to_vec(),
        (0u8..=255).collect(),
    ];
    for b in cases {
        let encoded = encoder.process(&b).unwrap();
        let decoded = decoder.process(&encoded).unwrap();
        assert_eq!(decoded, b);
    }
}

#[test]
fn base64_encode_length_is_padded() {
    let encoder = Base64Encoder { id: 0 };
    assert_eq!(encoder.process(b"").unwrap().len(), 0);
    assert_eq!(encoder.process(b"a").unwrap().len(), 4);
    assert_eq!(encoder.process(b"ab").unwrap().len(), 4);
    assert_eq!(encoder.process(b"abc").unwrap().len(), 4);
    assert_eq!(encoder.process(b"abcd").unwrap().len(), 8);
}

#[test]
fn base64_decode_rejects_invalid_characters() {
    let decoder = Base64Decoder { id: 0 };
    assert_eq!(decoder.process(b"!!!!"), Err(ProcessError::DecodeError));
}

#[test]
fn base64_decode_rejects_missing_padding() {
    let decoder = Base64Decoder { id: 0 };
    assert_eq!(decoder.process(b"aGVsbG8"), Err(ProcessError::DecodeError));
}

#[test]
fn argument_text_to_bytes() {
    let a = arg("hello", InputType::Text);
    assert_eq!(a.try_to_vec().unwrap(), b"hello".to_vec());
}

#[test]
fn argument_hex_to_bytes() {
    let a = arg("48656c6c6f", InputType::Hex);
    assert_eq!(a.try_to_vec().unwrap(), b"Hello".to_vec());
    let upper = arg("48656C6C6F", InputType::Hex);
    assert_eq!(upper.try_to_vec().unwrap(), b"Hello".to_vec());
}

#[test]
fn argument_hex_rejects_bad_digits_and_odd_length() {
    assert_eq!(
        arg("zz", InputType::Hex).try_to_vec(),
        Err(ProcessError::DecodeError)
    );
    assert_eq!(
        arg("abc", InputType::Hex).try_to_vec(),
        Err(ProcessError::DecodeError)
    );
}

#[test]
fn argument_base64_to_bytes() {
    let a = arg("aGVsbG8=", InputType::Base64);
    assert_eq!(a.try_to_vec().unwrap(), b"hello".to_vec());
    assert_eq!(
        arg("aGVsbG8", InputType::Base64).try_to_vec(),
        Err(ProcessError::DecodeError)
    );
}

#[test]
fn argument_default_is_empty_text() {
    let a = Argument::default();
    assert_eq!(a.value, String::new());
    assert_eq!(a.input_type, InputType::Text);
    assert_eq!(a.try_to_vec().unwrap(), Vec::<u8>::new());
}

#[test]
fn argument_try_to_str_round_trips_text() {
    let a = arg("hi there", InputType::Text);
    assert_eq!(a.try_to_str().unwrap(), "hi there".to_string());
}

#[test]
fn argument_try_to_str_decodes_hex_utf8() {
    let a = arg("68690d0a", InputType::Hex);
    assert_eq!(a.try_to_str().unwrap(), "hi\r\n".to_string());
}

#[test]
fn argument_try_to_str_rejects_invalid_utf8() {
    let a = arg("ff", InputType::Hex);
    assert_eq!(a.try_to_str(), Err(ProcessError::DecodeError));
}

#[test]
fn input_type_labels() {
    assert_eq!(InputType::Text.label(), "Text");
    assert_eq!(InputType::Hex.label(), "Hex");
    assert_eq!(InputType::Base64.label(), "Base64");
}

#[test]
fn pkcs7_pad_full_block_when_aligned() {
    let out = pkcs7_pad(b"YELLOW SUBMARINE", 16).unwrap();
    let mut expected = b"YELLOW SUBMARINE".to_vec();
    expected.extend(vec![16u8; 16]);
    assert_eq!(out, expected);
}

#[test]
fn pkcs7_pad_partial_block() {
    let out = pkcs7_pad(b"abc", 8).unwrap();
    assert_eq!(out, vec![b'a', b'b', b'c', 5, 5, 5, 5, 5]);
}

#[test]
fn pkcs7_unpad_inverts_pad() {
    let padded = pkcs7_pad(b"hello world", 16).unwrap();
    assert_eq!(pkcs7_unpad(&padded).unwrap(), b"hello world".to_vec());
}

#[test]
fn pkcs7_unpad_rejects_overlong_padding() {
    assert_eq!(pkcs7_unpad(&[1, 2, 9]), Err(ProcessError::PaddingError));
}

#[test]
fn pkcs7_unpad_zero_keeps_input() {
    assert_eq!(pkcs7_unpad(&[1, 2, 0]).unwrap(), vec![1, 2, 0]);
}

#[test]
fn error_messages() {
    assert_eq!(ProcessError::DecodeError.message(), "Decode error");
    assert_eq!(ProcessError::InvalidArgument.message(), "Invalid argument");
    assert_eq!(
        ProcessError::InvalidKeyOrIvLength.message(),
        "Invalid key or iv length"
    );
    assert_eq!(ProcessError::UnsupportedMode.message(), "Unsupported mode");
    assert_eq!(ProcessError::PaddingError.message(), "Padding error");
    assert_eq!(
        ProcessError::UnsupportedMode.message_bytes(),
        b"Unsupported mode".to_vec()
    );
}
