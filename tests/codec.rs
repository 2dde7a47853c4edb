use flow_engine::codec::{decode_script, encode_script, EngineError};

#[test]
fn decodes_base64_text() {
    assert_eq!(decode_script("aGk="), Ok("hi".to_string()));
    assert_eq!(decode_script(""), Ok("".to_string()));
}

#[test]
fn encodes_to_base64_text() {
    assert_eq!(encode_script("hi"), "aGk=".to_string());
    assert_eq!(encode_script("A -->|success| B"), "QSAtLT58c3VjY2Vzc3wgQg==".to_string());
}

#[test]
fn invalid_base64_is_rejected() {
    assert_eq!(decode_script("not base64!"), Err(EngineError::InvalidBase64));
    assert_eq!(decode_script("aGk"), Err(EngineError::InvalidBase64));
}

#[test]
fn invalid_utf8_is_rejected() {
    // "/w==" is the single byte 0xFF.
    assert_eq!(decode_script("/w=="), Err(EngineError::InvalidUtf8));
}

#[test]
fn encoding_then_decoding_gives_the_text_back() {
    let texts = [
        "",
        "A[\"name: head, type: control\"] -->|success| B[\"name: end, type: control\"]",
        "步驟 é ü 🐼",
    ];
    for text in texts.iter() {
        assert_eq!(decode_script(&encode_script(text)), Ok(text.to_string()));
    }
}
