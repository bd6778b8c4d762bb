use base64::Engine;
use screech::encoding::{fits_base64, is_base64_of};
use screech::response::{
    char_is_lower_hex, char_is_of_timestamp, has_request_id_form, has_timestamp_form,
    take_recording, take_screenshot, ApiResponse, RequestStamp,
};

fn stamp() -> RequestStamp {
    RequestStamp { id: "id-1".to_string(), timestamp: "2024-01-01T00:00:00+00:00".to_string() }
}

fn encoded(bytes: &[u8]) -> String {
    let (_, body) = take_screenshot(stamp(), "https://example.com".to_string(), bytes);
    body.data.unwrap().image_data
}

#[test]
fn images_are_handed_out_in_standard_base64() {
    assert_eq!(encoded(b""), "");
    assert_eq!(encoded(b"f"), "Zg==");
    assert_eq!(encoded(b"fo"), "Zm8=");
    assert_eq!(encoded(b"foo"), "Zm9v");
    assert_eq!(encoded(b"foob"), "Zm9vYg==");
    assert_eq!(encoded(b"fooba"), "Zm9vYmE=");
    assert_eq!(encoded(b"foobar"), "Zm9vYmFy");
    assert_eq!(encoded(b"hello"), "aGVsbG8=");
    assert_eq!(encoded(&[0xfb, 0xff, 0xfe]), "+//+");
    assert_eq!(encoded(&[0, 0, 0]), "AAAA");
    assert_eq!(encoded(&[255]), "/w==");
}

#[test]
fn base64_has_four_symbols_for_three_bytes() {
    for len in 0..50usize {
        let bytes: Vec<u8> = (0..len).map(|i| (i * 37 % 256) as u8).collect();
        let text = encoded(&bytes);
        assert_eq!(text.len(), 4 * ((len + 2) / 3));
        assert_eq!(base64::engine::general_purpose::STANDARD.decode(&text).unwrap(), bytes);
    }
}

#[test]
fn a_screenshot_answer_carries_stamp_address_and_image() {
    let png = [0x89u8, b'P', b'N', b'G', 0x0d, 0x0a, 0x1a, 0x0a];
    let (status, body) = take_screenshot(stamp(), "https://example.com".to_string(), &png);
    assert_eq!(status, 200);
    assert!(body.success);
    assert_eq!(body.error, None);
    let data = body.data.unwrap();
    assert_eq!(data.id, "id-1");
    assert_eq!(data.url, "https://example.com");
    assert_eq!(data.timestamp, "2024-01-01T00:00:00+00:00");
    assert_eq!(data.image_data, "iVBORw0KGgo=");
}

#[test]
fn a_recording_answer_carries_stamp_address_duration_and_video() {
    let (status, body) = take_recording(stamp(), "https://example.com".to_string(), 12, b"mp4!");
    assert_eq!(status, 200);
    assert!(body.success);
    assert_eq!(body.error, None);
    let data = body.data.unwrap();
    assert_eq!(data.id, "id-1");
    assert_eq!(data.url, "https://example.com");
    assert_eq!(data.duration, 12);
    assert_eq!(data.timestamp, "2024-01-01T00:00:00+00:00");
    assert_eq!(data.video_data, "bXA0IQ==");
}

#[test]
fn an_ok_body_holds_its_data_and_no_error() {
    let body = ApiResponse::ok(7u8);
    assert_eq!(body, ApiResponse { success: true, data: Some(7u8), error: None });
}

#[test]
fn a_stamp_has_a_hyphenated_identifier_and_a_time() {
    let stamp = RequestStamp::issue();
    assert_eq!(stamp.id.len(), 36);
    for (i, c) in stamp.id.chars().enumerate() {
        if i == 8 || i == 13 || i == 18 || i == 23 {
            assert_eq!(c, '-');
        } else {
            assert!(c.is_ascii_digit() || ('a'..='f').contains(&c));
        }
    }
    assert!(uuid::Uuid::parse_str(&stamp.id).is_ok());
    assert!(chrono::DateTime::parse_from_rfc3339(&stamp.timestamp).is_ok());
    let second = RequestStamp::issue();
    assert_ne!(stamp.id, second.id);
}

#[test]
fn what_the_encoder_writes_is_the_base64_form() {
    for len in 0..200usize {
        let bytes: Vec<u8> = (0..len).map(|i| (i * 151 + len * 7) as u8).collect();
        assert!(is_base64_of(&encoded(&bytes), &bytes));
    }
    let every: Vec<u8> = (0..=255u8).collect();
    assert!(is_base64_of(&encoded(&every), &every));
}

#[test]
fn is_base64_of_tells_the_form_from_others() {
    assert!(is_base64_of("", b""));
    assert!(is_base64_of("Zg==", b"f"));
    assert!(is_base64_of("Zm8=", b"fo"));
    assert!(is_base64_of("Zm9v", b"foo"));
    assert!(is_base64_of("Zm9vYg==", b"foob"));
    assert!(!is_base64_of("Zg=", b"f"));
    assert!(!is_base64_of("Zg", b"f"));
    assert!(!is_base64_of("Zg===", b"f"));
    assert!(!is_base64_of("Zh==", b"f"));
    assert!(!is_base64_of("Zm9w", b"foo"));
    assert!(!is_base64_of("Zm9vZm9v", b"foo"));
    assert!(!is_base64_of("Zm9v", b"foofoo"));
    assert!(!is_base64_of("", b"f"));
    assert!(!is_base64_of("Zg==", b""));
    assert!(!is_base64_of("foo", b"foo"));
}

#[test]
fn a_fresh_identifier_has_the_form_of_one() {
    for _ in 0..20 {
        assert!(has_request_id_form(&RequestStamp::issue().id));
    }
}

#[test]
fn has_request_id_form_tells_the_form_from_others() {
    assert!(has_request_id_form("123e4567-e89b-42d3-a456-426614174000"));
    assert!(has_request_id_form("00000000-0000-0000-0000-000000000000"));
    assert!(!has_request_id_form(""));
    assert!(!has_request_id_form("123e4567-e89b-42d3-a456-42661417400"));
    assert!(!has_request_id_form("123e4567-e89b-42d3-a456-4266141740000"));
    assert!(!has_request_id_form("123E4567-E89B-42D3-A456-426614174000"));
    assert!(!has_request_id_form("123e4567e-89b-42d3-a456-426614174000"));
    assert!(!has_request_id_form("123e4567-e89b-42d3-a456_426614174000"));
    assert!(!has_request_id_form("123e4567-e89b-42d3-a456-42661417400g"));
    assert!(!has_request_id_form("123e4567-e89b-42d3-a456-42661417400\u{e9}"));
    assert!(char_is_lower_hex('0') && char_is_lower_hex('9'));
    assert!(char_is_lower_hex('a') && char_is_lower_hex('f'));
    assert!(!char_is_lower_hex('g') && !char_is_lower_hex('A') && !char_is_lower_hex('-'));
}

#[test]
fn a_fresh_timestamp_has_the_form_of_one() {
    for _ in 0..20 {
        let stamp = RequestStamp::issue();
        assert!(has_timestamp_form(&stamp.timestamp));
        assert!(stamp.timestamp.ends_with("+00:00"));
        assert!(stamp.timestamp.len() >= 25);
    }
}

#[test]
fn what_chrono_writes_for_universal_time_has_the_form() {
    let seconds = [0i64, 1, 951_782_400, 1_700_000_000, 253_402_300_799, 253_402_300_800];
    let nanos = [0u32, 1, 1_000, 1_000_000, 123_456_789, 999_999_999];
    for s in seconds {
        for n in nanos {
            let time = chrono::DateTime::from_timestamp(s, n).unwrap();
            assert!(has_timestamp_form(&time.to_rfc3339()));
        }
    }
}

#[test]
fn has_timestamp_form_tells_the_form_from_others() {
    assert!(has_timestamp_form("2024-01-01T00:00:00+00:00"));
    assert!(has_timestamp_form("2024-01-01T00:00:00.123456789+00:00"));
    assert!(has_timestamp_form("+10000-01-01T00:00:00+00:00"));
    assert!(!has_timestamp_form(""));
    assert!(!has_timestamp_form("+00:00"));
    assert!(!has_timestamp_form("2024-01-01T00:00:00Z"));
    assert!(!has_timestamp_form("2024-01-01T00:00:00+01:00"));
    assert!(!has_timestamp_form("2024-01-01T00:00:00-00:00"));
    assert!(!has_timestamp_form("2024-01-01T00:00:0+00:00"));
    assert!(!has_timestamp_form("2024-01-01 00:00:00+00:00"));
    assert!(!has_timestamp_form("2024-01-01T00:00:00+00:00 "));
    assert!(!has_timestamp_form("2024-01-01t00:00:00+00:00"));
    for c in ['0', '9', '-', '+', ':', '.', 'T'] {
        assert!(char_is_of_timestamp(c));
    }
    for c in ['Z', 't', ' ', 'a', '/', ','] {
        assert!(!char_is_of_timestamp(c));
    }
}

#[test]
fn fits_base64_draws_the_line_at_three_quarters_of_memory() {
    let most = isize::MAX as usize;
    assert!(fits_base64(0));
    assert!(fits_base64(1 << 20));
    assert!(fits_base64(most / 4 * 3));
    assert!(!fits_base64(most / 4 * 3 + 1));
    assert!(!fits_base64(most));
    assert!(!fits_base64(usize::MAX));
    for len in [0usize, 1, 2, 3, 4, 1000, most / 4 * 3 - 1, most / 4 * 3] {
        assert_eq!(
            fits_base64(len),
            base64::encoded_len(len, true).map_or(false, |n| n <= most)
        );
    }
}
