use relay_tap::error_classifier::{
    classify_lowered, classify_stream_error, classify_text, ErrorKind,
};

#[test]
fn test_classify_timeout_error() {
    // "timed out" is two words and not the word "timeout": what is left to
    // go by is the connection.
    let error = "Connection timed out after 30s";
    let (error_type, message, i18n_key) = classify_stream_error(&error);
    assert_eq!(error_type, "connection_error");
    assert!(message.contains("Connection failed"));
    assert_eq!(i18n_key, "errors.stream.connection_error");

    // With the word itself the timeout comes first, connection or not.
    let error = "Connection timeout after 30s";
    let (error_type, message, i18n_key) = classify_stream_error(&error);
    assert_eq!(error_type, "timeout_error");
    assert!(message.contains("timeout"));
    assert_eq!(i18n_key, "errors.stream.timeout_error");
}

#[test]
fn test_error_message_format() {
    let error = "error trying to connect: dns error: failed to lookup address information";

    let (error_type, message, i18n_key) = classify_stream_error(&error);

    assert!(
        error_type == "timeout_error"
            || error_type == "connection_error"
            || error_type == "decode_error"
            || error_type == "stream_error"
            || error_type == "unknown_error"
    );
    assert!(!message.is_empty());
    assert!(i18n_key.starts_with("errors.stream."));
}

#[test]
fn test_i18n_keys_format() {
    let test_cases = vec![
        ("timeout_error", "errors.stream.timeout_error"),
        ("connection_error", "errors.stream.connection_error"),
        ("decode_error", "errors.stream.decode_error"),
        ("stream_error", "errors.stream.stream_error"),
        ("unknown_error", "errors.stream.unknown_error"),
    ];

    for (expected_type, expected_key) in test_cases {
        assert_eq!(format!("errors.stream.{}", expected_type), expected_key);
    }
}

#[test]
fn dns_failure_is_a_connection_error() {
    let error = "error trying to connect: dns error: failed to lookup address information";
    let (error_type, message, i18n_key) = classify_stream_error(&error);
    assert_eq!(error_type, "connection_error");
    assert_eq!(message, "Connection failed, please check your network or proxy settings");
    assert_eq!(i18n_key, "errors.stream.connection_error");
}

#[test]
fn every_kind_has_its_words() {
    assert_eq!(classify_lowered("operation timeout"), ErrorKind::Timeout);
    assert_eq!(classify_lowered("deadline has elapsed"), ErrorKind::Timeout);
    assert_eq!(classify_lowered("connection reset by peer"), ErrorKind::Connection);
    assert_eq!(classify_lowered("tcp connect error"), ErrorKind::Connection);
    assert_eq!(classify_lowered("dns lookup failed"), ErrorKind::Connection);
    assert_eq!(classify_lowered("decode error"), ErrorKind::Decode);
    // "decoding" does not hold the word "decode"
    assert_eq!(classify_lowered("error decoding response"), ErrorKind::Unknown);
    assert_eq!(classify_lowered("error decoding response body"), ErrorKind::Stream);
    assert_eq!(classify_lowered("could not decode frame"), ErrorKind::Decode);
    assert_eq!(classify_lowered("failed to parse chunk"), ErrorKind::Decode);
    assert_eq!(classify_lowered("stream closed"), ErrorKind::Stream);
    assert_eq!(classify_lowered("unexpected end of body"), ErrorKind::Stream);
    assert_eq!(classify_lowered("something else"), ErrorKind::Unknown);
    assert_eq!(classify_lowered(""), ErrorKind::Unknown);
}

#[test]
fn precedence_is_timeout_connection_decode_stream() {
    assert_eq!(classify_lowered("connection timeout"), ErrorKind::Timeout);
    assert_eq!(classify_lowered("body stream parse dns deadline"), ErrorKind::Timeout);
    assert_eq!(classify_lowered("decode failed after connect"), ErrorKind::Connection);
    assert_eq!(classify_lowered("stream body could not be decoded: parse"), ErrorKind::Decode);
    assert_eq!(classify_lowered("decode stream"), ErrorKind::Decode);
    assert_eq!(classify_lowered("body of the stream"), ErrorKind::Stream);
}

#[test]
fn a_word_at_either_end_or_alone_is_found() {
    assert_eq!(classify_lowered("dns"), ErrorKind::Connection);
    assert_eq!(classify_lowered("xdns"), ErrorKind::Connection);
    assert_eq!(classify_lowered("dnsx"), ErrorKind::Connection);
    assert_eq!(classify_lowered("dn"), ErrorKind::Unknown);
    assert_eq!(classify_lowered("d n s"), ErrorKind::Unknown);
    assert_eq!(classify_lowered("bod"), ErrorKind::Unknown);
}

#[test]
fn text_is_lower_cased_before_the_search() {
    assert_eq!(classify_text("Request TIMEOUT"), ErrorKind::Timeout);
    assert_eq!(classify_text("DNS failure"), ErrorKind::Connection);
    assert_eq!(classify_text("Decode Error"), ErrorKind::Decode);
    assert_eq!(classify_text("BODY"), ErrorKind::Stream);
    // without the lower-casing the search would find nothing here
    assert_eq!(classify_lowered("Request TIMEOUT"), ErrorKind::Unknown);
    let (error_type, _, _) = classify_stream_error(&"Stream Closed");
    assert_eq!(error_type, "stream_error");
}

#[test]
fn classification_takes_any_displayable_failure() {
    let failure = std::io::Error::new(std::io::ErrorKind::Other, "Deadline exceeded");
    let (error_type, message, i18n_key) = classify_stream_error(&failure);
    assert_eq!(error_type, "timeout_error");
    assert_eq!(message, "Request timeout, please check your network connection");
    assert_eq!(i18n_key, "errors.stream.timeout_error");
    // the failure is still there, as it was
    assert_eq!(failure.to_string(), "Deadline exceeded");
    let number = 404;
    let (error_type, message, i18n_key) = classify_stream_error(&number);
    assert_eq!(error_type, "unknown_error");
    assert_eq!(message, "Unknown error occurred");
    assert_eq!(i18n_key, "errors.stream.unknown_error");
}

#[test]
fn tags_messages_and_keys_of_every_kind() {
    let kinds = vec![
        (
            ErrorKind::Timeout,
            "timeout_error",
            "Request timeout, please check your network connection",
        ),
        (
            ErrorKind::Connection,
            "connection_error",
            "Connection failed, please check your network or proxy settings",
        ),
        (
            ErrorKind::Decode,
            "decode_error",
            "Network unstable, data transmission interrupted. Try: 1) Check network 2) Switch proxy 3) Retry",
        ),
        (ErrorKind::Stream, "stream_error", "Stream transmission error, please retry later"),
        (ErrorKind::Unknown, "unknown_error", "Unknown error occurred"),
    ];
    for (kind, tag, message) in kinds {
        assert_eq!(kind.tag(), tag);
        assert_eq!(kind.message(), message);
        assert_eq!(kind.localization_key(), format!("errors.stream.{}", tag));
    }
}

#[test]
fn key_matches_the_kind_that_is_returned() {
    let texts = vec![
        "timeout",
        "connection refused",
        "parse error",
        "stream ended",
        "???",
        "",
        "Connection timed out",
    ];
    for text in texts {
        let (error_type, _, i18n_key) = classify_stream_error(&text);
        assert_eq!(i18n_key, format!("errors.stream.{}", error_type));
    }
}
