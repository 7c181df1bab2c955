use atra::fetching::{
    strict_redirect, text_ends_with, RedirectDecision, eq_ignore_ascii_case,
    is_html_type, parse_content_length, plan_download, redirect_target, streamed_body,
    ContentLengthError, DownloadPlan,
};

#[test]
fn content_lengths_are_read_like_unsigned_numbers() {
    assert_eq!(parse_content_length("123"), Ok(123));
    assert_eq!(parse_content_length("+7"), Ok(7));
    assert_eq!(parse_content_length("0"), Ok(0));
    assert_eq!(parse_content_length("18446744073709551615"), Ok(u64::MAX));
    assert_eq!(parse_content_length(""), Err(ContentLengthError::Empty));
    assert_eq!(parse_content_length("+"), Err(ContentLengthError::InvalidDigit));
    assert_eq!(parse_content_length("-"), Err(ContentLengthError::InvalidDigit));
    assert_eq!(parse_content_length("-5"), Err(ContentLengthError::InvalidDigit));
    assert_eq!(parse_content_length("12a"), Err(ContentLengthError::InvalidDigit));
    assert_eq!(parse_content_length(" 12"), Err(ContentLengthError::InvalidDigit));
    assert_eq!(parse_content_length("18446744073709551616"), Err(ContentLengthError::PosOverflow));
    assert_eq!(parse_content_length("99999999999999999999x"), Err(ContentLengthError::PosOverflow));
}

#[test]
fn the_parser_agrees_with_the_standard_library() {
    for text in ["", "+", "-", "42", "+42", "-42", "4 2", "007", "18446744073709551615", "18446744073709551616", "ab", "+-1"] {
        let expected = match text.parse::<u64>() {
            Ok(v) => Ok(v),
            Err(e) => Err(match e.kind() {
                std::num::IntErrorKind::Empty => ContentLengthError::Empty,
                std::num::IntErrorKind::PosOverflow => ContentLengthError::PosOverflow,
                _ => ContentLengthError::InvalidDigit,
            }),
        };
        assert_eq!(parse_content_length(text), expected, "for {text:?}");
    }
}

#[test]
fn redirects_are_noticed() {
    assert_eq!(redirect_target("https://a.de/", "https://a.de/"), None);
    assert_eq!(redirect_target("https://a.de/", "https://b.de/"), Some("https://b.de/".to_string()));
}

#[test]
fn html_types_are_found_in_any_case() {
    assert!(is_html_type("text/html"));
    assert!(is_html_type("Text/HTML; charset=utf-8"));
    assert!(is_html_type("application/xhtml, text/html"));
    assert!(!is_html_type("text/plain"));
    assert!(!is_html_type("text/htm"));
    assert!(!is_html_type(""));
}

#[test]
fn known_lengths_decide_the_download() {
    assert_eq!(
        plan_download(Some(50), None, Some(100), 10, None),
        DownloadPlan { can_download: true, in_memory: false }
    );
    assert_eq!(
        plan_download(Some(500), None, Some(100), 1000, None),
        DownloadPlan { can_download: false, in_memory: true }
    );
    assert_eq!(
        plan_download(None, Some("8"), None, 10, Some("text/plain")),
        DownloadPlan { can_download: true, in_memory: true }
    );
}

#[test]
fn unknown_lengths_keep_html_in_memory() {
    assert_eq!(
        plan_download(None, None, Some(1), 10, Some("text/html")),
        DownloadPlan { can_download: true, in_memory: true }
    );
    assert_eq!(
        plan_download(None, Some("abc"), None, 10, Some("image/png")),
        DownloadPlan { can_download: true, in_memory: false }
    );
    assert_eq!(
        plan_download(None, Some("99999999999999999999"), None, 10, Some("text/html")),
        DownloadPlan { can_download: false, in_memory: true }
    );
}

#[test]
fn streamed_bodies_come_back_into_memory_when_small() {
    let small = streamed_body(10, 10, 100);
    assert!(small.read_into_memory && !small.defect);
    let big = streamed_body(1000, 999, 100);
    assert!(!big.read_into_memory && big.defect);
}

#[test]
fn the_strict_policy_follows_redirects_on_the_seed_host() {
    assert!(text_ends_with("shop.ebay.de", "ebay.de"));
    assert!(!text_ends_with("ebay.de", "shop.ebay.de"));
    assert!(text_ends_with("x", ""));
    assert_eq!(strict_redirect(false, false, false, "a.de", "b.de", true, 9, 5, true, 9, true), RedirectDecision::Follow);
    assert_eq!(strict_redirect(true, true, false, "a.com", "a.de", false, 9, 5, true, 9, true), RedirectDecision::Follow);
    assert_eq!(strict_redirect(false, false, true, "shop.b.de", "b.de", false, 9, 5, true, 9, true), RedirectDecision::Follow);
    assert_eq!(strict_redirect(false, false, false, "c.de", "b.de", false, 6, 5, true, 0, true), RedirectDecision::TooManyRedirects);
    assert_eq!(strict_redirect(false, false, false, "c.de", "b.de", false, 1, 5, true, 1, true), RedirectDecision::FollowInitial);
    assert_eq!(strict_redirect(false, false, false, "c.de", "b.de", false, 1, 5, true, 1, false), RedirectDecision::Stop);
    assert_eq!(strict_redirect(false, false, false, "c.de", "b.de", false, 1, 5, false, 0, true), RedirectDecision::Stop);
}

#[test]
fn texts_compare_ignoring_ascii_case() {
    assert!(eq_ignore_ascii_case("Trace", "tRACE"));
    assert!(!eq_ignore_ascii_case("Trace", "Traces"));
    assert!(eq_ignore_ascii_case("", ""));
}

#[test]
fn no_room_in_memory_keeps_bodies_of_known_length_out() {
    assert!(!plan_download(Some(1), None, None, 0, None).in_memory);
    assert!(!plan_download(None, Some("10"), None, 0, Some("text/html")).in_memory);
    assert!(plan_download(None, None, None, 0, Some("text/html")).in_memory);
}
