use atra::data::{peek_bom_of, Decoded, RawData};
use atra::decoding::{after_chunk, decode_by_bom, decode_in_memory, decode_with_candidates, decoding_candidates, encodings_for_charset_params, encodings_for_labels, encodings_for_meta_charsets, keep_utf8_over_guess, skip_big_file, ChunkOutcome, DecodingError};

#[test]
fn raw_data_reports_what_it_holds() {
    let none = RawData::from_option(None);
    assert!(matches!(none, RawData::NoData));
    assert!(!none.can_read());
    assert_eq!(none.size(), Some(0));
    assert_eq!(none.peek_bom(), Some([0, 0, 0]));
    let memory = RawData::from_option(Some(vec![0xEF, 0xBB, 0xBF, b'a']));
    assert!(memory.can_read());
    assert_eq!(memory.size(), Some(4));
    assert_eq!(memory.peek_bom(), Some([0xEF, 0xBB, 0xBF]));
    assert_eq!(memory.as_in_memory().map(|v| v.len()), Some(4));
    let file = RawData::from_external("big.dat".to_string());
    assert!(file.can_read());
    assert_eq!(file.size(), None);
    assert_eq!(file.peek_bom(), None);
    assert!(file.as_in_memory().is_none());
}

#[test]
fn the_bom_window_is_padded_with_zeros() {
    assert_eq!(peek_bom_of(&[1]), [1, 0, 0]);
    assert_eq!(peek_bom_of(&[]), [0, 0, 0]);
    assert_eq!(peek_bom_of(&[1, 2, 3, 4]), [1, 2, 3]);
}

#[test]
fn decoding_follows_the_byte_order_mark() {
    let utf8 = decode_by_bom(&[0xEF, 0xBB, 0xBF, b'h', b'i'], None);
    assert_eq!(utf8.as_in_memory().map(|s| s.as_str()), Some("hi"));
    assert_eq!(utf8.encoding().map(|e| e.as_str()), Some("UTF-8"));
    let utf16 = decode_by_bom(&[0xFF, 0xFE, b'h', 0, b'i', 0], None);
    assert_eq!(utf16.as_in_memory().map(|s| s.as_str()), Some("hi"));
    assert_eq!(utf16.encoding().map(|e| e.as_str()), Some("UTF-16LE"));
    let plain = decode_by_bom(b"plain ascii", Some("example.de"));
    assert_eq!(plain.as_in_memory().map(|s| s.as_str()), Some("plain ascii"));
    assert!(!plain.had_errors());
}

#[test]
fn candidates_are_tried_in_order() {
    let candidates = encodings_for_labels(&vec!["utf-8".to_string(), "no such label".to_string(), "latin1".to_string()]);
    assert_eq!(candidates, vec!["UTF-8".to_string(), "windows-1252".to_string()]);
    let decoded = decode_with_candidates(&[0xE4], &candidates).unwrap();
    assert_eq!(decoded.as_in_memory().map(|s| s.as_str()), Some("ä"));
    assert_eq!(decoded.encoding().map(|e| e.as_str()), Some("windows-1252"));
    assert!(decode_with_candidates(&[0xE4], &encodings_for_labels(&vec!["utf-8".to_string()])).is_none());
    let fallback = decode_in_memory(b"abc", &vec![], None);
    assert_eq!(fallback.as_in_memory().map(|s| s.as_str()), Some("abc"));
}

#[test]
fn decoding_decisions() {
    assert!(skip_big_file(Some(10), 11));
    assert!(!skip_big_file(Some(10), 10));
    assert!(!skip_big_file(None, u64::MAX));
    assert!(keep_utf8_over_guess(true, false));
    assert!(!keep_utf8_over_guess(true, true));
    assert!(!keep_utf8_over_guess(false, false));
    assert!(matches!(after_chunk(ChunkOutcome::InputEmpty), Err(DecodingError::DecodingFileFailed)));
    assert!(matches!(after_chunk(ChunkOutcome::OutputFull), Err(DecodingError::OutOfMemory)));
    assert!(matches!(after_chunk(ChunkOutcome::Malformed), Ok(true)));
}

#[test]
fn mapping_touches_only_text_in_memory() {
    let decoded = Decoded::new_in_memory("abc".to_string(), "UTF-8".to_string(), true);
    let mapped = decoded.map_in_memory(|s| s.to_uppercase());
    assert_eq!(mapped.as_in_memory().map(|s| s.as_str()), Some("ABC"));
    assert_eq!(mapped.encoding().map(|e| e.as_str()), Some("UTF-8"));
    assert!(mapped.had_errors());
    let off = Decoded::new_off_memory("file.txt".to_string(), "UTF-8".to_string(), false);
    let mapped_off = off.map_in_memory(|s| s.to_uppercase());
    assert!(mapped_off.as_in_memory().is_none());
    assert_eq!(mapped_off.encoding().map(|e| e.as_str()), Some("UTF-8"));
    assert!(matches!(Decoded::NotDecoded.map_in_memory(|s| s), Decoded::NotDecoded));
}

fn strings(values: &[&str]) -> Vec<String> {
    values.iter().map(|v| v.to_string()).collect()
}

#[test]
fn charset_parameters_name_the_first_candidates() {
    assert_eq!(encodings_for_charset_params(None), None);
    assert_eq!(encodings_for_charset_params(Some(&vec![])), None);
    assert_eq!(encodings_for_charset_params(Some(&strings(&["unknown"]))), Some(vec![]));
    assert_eq!(encodings_for_charset_params(Some(&strings(&["ISO-8859-1", "utf8"]))), Some(strings(&["windows-1252", "UTF-8"])));
}

#[test]
fn meta_charsets_count_only_where_all_are_usable() {
    assert_eq!(encodings_for_meta_charsets(&strings(&["utf-8", "shift_jis"])), Some(strings(&["UTF-8", "Shift_JIS"])));
    assert_eq!(encodings_for_meta_charsets(&strings(&["utf-8", "iso-2022-kr"])), None);
    assert_eq!(encodings_for_meta_charsets(&strings(&["utf-8", "no such charset"])), None);
    assert_eq!(encodings_for_meta_charsets(&vec![]), Some(vec![]));
}

#[test]
fn candidates_put_the_media_type_first() {
    let params = strings(&["latin1"]);
    let meta = strings(&["utf-8"]);
    assert_eq!(decoding_candidates(Some(&params), true, Some(&meta)), strings(&["windows-1252", "UTF-8"]));
    assert_eq!(decoding_candidates(Some(&params), false, Some(&meta)), strings(&["windows-1252"]));
    assert_eq!(decoding_candidates(None, true, Some(&strings(&["utf-8", "replacement"]))), Vec::<String>::new());
    assert_eq!(decoding_candidates(None, true, None), Vec::<String>::new());
}

#[test]
fn guessing_takes_only_the_last_label_of_the_suffix() {
    let latin = [b'c', b'a', b'f', 0xE9, b' ', b'a', b'u', b' ', b'l', b'a', b'i', b't'];
    for domain in [Some("www.bbc.co.uk"), Some("WWW.BBC.CO.UK"), Some("example.com"), None] {
        let decoded = decode_by_bom(&latin, domain);
        assert!(decoded.as_in_memory().is_some());
        assert!(decoded.encoding().is_some());
    }
    let ascii = decode_by_bom(b"only ascii here", Some("www.bbc.co.uk"));
    assert_eq!(ascii.encoding().map(|e| e.as_str()), Some("UTF-8"));
    assert_eq!(ascii.as_in_memory().map(|s| s.as_str()), Some("only ascii here"));
}
