use podcore::mediators::common::{log_body_sample, thread_name, BodySample};

#[test]
fn test_log_body_sample() {
    // Not much of a test, but we're just making sure that no errors are thrown
    log_body_sample(200, &b"Short string".to_vec());
    log_body_sample(
        200,
        &br#"
            Lorem ipsum dolor sit amet, consectetur adipiscing elit, sed do eiusmod tempor
            incididunt ut labore et dolore magna aliqua. Ut enim ad minim veniam, quis nostrud
            exercitation ullamco laboris nisi ut aliquip ex ea commodo consequat. Duis aute irure
            dolor in reprehenderit in voluptate velit esse cillum dolore eu fugiat nulla pariatur.
            Excepteur sint occaecat cupidatat non proident, sunt in culpa qui officia deserunt
            mollit anim id est laborum.
"#
        .to_vec(),
    );
}

#[test]
fn test_thread_name() {
    assert_eq!("thread_000".to_string(), thread_name(0));
    assert_eq!("thread_999".to_string(), thread_name(999));
    assert_eq!("thread_1000".to_string(), thread_name(1000));
}

#[test]
fn test_thread_name_pads_to_three_digits() {
    assert_eq!("thread_007", thread_name(7));
    assert_eq!("thread_042", thread_name(42));
    assert_eq!("thread_100", thread_name(100));
    assert_eq!("thread_4294967295", thread_name(u32::MAX));
}

#[test]
fn test_log_body_sample_short_body() {
    let sample = log_body_sample(200, b"Short string");
    assert_eq!(
        BodySample {
            status: "200 OK".to_string(),
            body_length: 12,
            body: "Short string...".to_string(),
        },
        sample
    );
}

#[test]
fn test_log_body_sample_empty_body() {
    let sample = log_body_sample(404, b"");
    assert_eq!("404 Not Found", sample.status);
    assert_eq!(0, sample.body_length);
    assert_eq!("...", sample.body);
}

#[test]
fn test_log_body_sample_removes_line_feeds() {
    let sample = log_body_sample(200, b"\none\ntwo\n\nthree\n");
    assert_eq!("onetwothree...", sample.body);
    assert_eq!(16, sample.body_length);
}

#[test]
fn test_log_body_sample_takes_two_hundred_bytes() {
    let body = vec![b'a'; 201];
    let sample = log_body_sample(200, &body);
    assert_eq!(201, sample.body_length);
    assert_eq!(format!("{}...", "a".repeat(200)), sample.body);

    let body = vec![b'b'; 200];
    let sample = log_body_sample(200, &body);
    assert_eq!(200, sample.body_length);
    assert_eq!(format!("{}...", "b".repeat(200)), sample.body);
}

#[test]
fn test_log_body_sample_replaces_invalid_utf8() {
    let sample = log_body_sample(500, &[b'o', b'k', 0xff, b'!']);
    assert_eq!("ok\u{fffd}!...", sample.body);
    assert_eq!("500 Internal Server Error", sample.status);
}

#[test]
fn test_log_body_sample_cuts_inside_a_character() {
    // 199 bytes and then a character of two bytes: the sample ends inside it.
    let mut body = vec![b'x'; 199];
    body.extend_from_slice("é".as_bytes());
    let sample = log_body_sample(200, &body);
    assert_eq!(201, sample.body_length);
    assert_eq!(format!("{}\u{fffd}...", "x".repeat(199)), sample.body);
}

#[test]
fn test_log_body_sample_status_without_a_reason() {
    assert_eq!("299 <unknown status code>", log_body_sample(299, b"").status);
}

#[test]
fn test_log_body_sample_status_out_of_range() {
    assert_eq!("99", log_body_sample(99, b"").status);
    assert_eq!("1000", log_body_sample(1000, b"").status);
    assert_eq!("0", log_body_sample(0, b"").status);
}

#[test]
fn test_body_sample_new() {
    let sample = BodySample::new(Some("200 OK".to_string()), 200, 3, "a\nb");
    assert_eq!("200 OK", sample.status);
    assert_eq!(3, sample.body_length);
    assert_eq!("ab...", sample.body);

    let sample = BodySample::new(None, 42, 0, "");
    assert_eq!("42", sample.status);
    assert_eq!("...", sample.body);
}
