use yt_mcp::attachment::{
    accept_chunk, admit_content_length, decode_base64, into_content, plan_attachment_bytes,
    refuse_redirect, strip_data_uri, validate_attachment_url, AttachmentBytes, UploadSource,
    WriteError, MAX_ATTACHMENT_BYTES,
};

/// YouTrack returns `base64Content` as a data URI, and a model may send
/// either shape when uploading. The prefix is cut in both cases.
#[test]
fn strip_data_uri_handles_both_shapes() {
    assert_eq!(strip_data_uri("aGk="), "aGk=");
    assert_eq!(strip_data_uri("data:text/plain;base64,aGk="), "aGk=");
    assert_eq!(strip_data_uri("data:image/png;base64,iVBOR"), "iVBOR");
    // A data URI that is not base64 is not ours: returned as it is.
    assert_eq!(strip_data_uri("data:text/plain,hi"), "data:text/plain,hi");
}

#[test]
fn decode_base64_accepts_whitespace_and_data_uri() {
    // Line breaks inside base64 come from YouTrack and from models alike.
    assert_eq!(decode_base64("aG\nVsbG8=", 64).expect("ok"), b"hello");
    assert_eq!(decode_base64("data:text/plain;base64,aGVsbG8=", 64).expect("ok"), b"hello");
}

#[test]
fn decode_base64_rejects_garbage_and_oversize() {
    let err = decode_base64("не base64!!", 64).expect_err("must fail");
    assert!(matches!(err, WriteError::BadBase64(_)), "got {err:?}");

    // "aGVsbG8=" is 5 bytes; a limit of 4 refuses it.
    let err = decode_base64("aGVsbG8=", 4).expect_err("must fail");
    assert!(matches!(err, WriteError::AttachmentTooLarge { size: 5, limit: 4 }), "got {err:?}");
}

/// The scheme is checked apart from the download, so it can be tested
/// without TLS.
#[test]
fn validate_attachment_url_accepts_only_https() {
    assert!(validate_attachment_url("https://example.com/a.pdf").is_ok());

    let err = validate_attachment_url("http://example.com/a.pdf").expect_err("must fail");
    assert!(matches!(err, WriteError::BadUrl(_)), "got {err:?}");
    assert!(err.message().contains("https"), "the message must explain why");

    assert!(validate_attachment_url("file:///etc/passwd").is_err());
    assert!(validate_attachment_url("не url").is_err());
}

#[test]
fn the_scheme_refusal_names_the_url_and_the_scheme() {
    let err = validate_attachment_url("http://example.com/a.pdf").expect_err("must fail");
    assert_eq!(
        err,
        WriteError::BadUrl(
            "http://example.com/a.pdf: scheme must be https, got 'http'".to_owned()
        )
    );
    assert_eq!(
        err.message(),
        "attachment url rejected: http://example.com/a.pdf: scheme must be https, got 'http'"
    );
}

#[test]
fn strip_data_uri_cuts_at_the_first_marker_only() {
    assert_eq!(strip_data_uri("data:a;base64,b;base64,c"), "b;base64,c");
    assert_eq!(strip_data_uri("xdata:a;base64,b"), "xdata:a;base64,b");
    assert_eq!(strip_data_uri("data:;base64,"), "");
}

#[test]
fn write_error_messages_read_as_the_model_sees_them() {
    let e = WriteError::AttachmentTooLarge { size: 11534336, limit: 10485760 };
    assert_eq!(e.message(), "attachment too large: 11534336 bytes, limit is 10485760");
    let e = WriteError::ProjectNotFound("NOPE".to_owned(), "DEMO, BSA".to_owned());
    assert_eq!(e.message(), "project 'NOPE' not found; available: DEMO, BSA");
    assert_eq!(WriteError::BadBase64("x".to_owned()).message(), "bad base64 content: x");
    assert_eq!(WriteError::Fetch("boom".to_owned()).message(), "fetching attachment url: boom");
    assert_eq!(WriteError::Youtrack("404".to_owned()).message(), "404");
}

#[test]
fn a_redirect_is_refused_with_its_status() {
    assert!(refuse_redirect(false, "200 OK").is_ok());
    let err = refuse_redirect(true, "302 Found").expect_err("must refuse");
    assert_eq!(
        err,
        WriteError::BadUrl(
            "server answered with a redirect (302 Found); redirects are not followed".to_owned()
        )
    );
}

#[test]
fn an_announced_length_over_the_limit_is_refused_before_reading() {
    assert!(admit_content_length(None, 4).is_ok());
    assert!(admit_content_length(Some(4), 4).is_ok());
    assert_eq!(
        admit_content_length(Some(11), 4),
        Err(WriteError::AttachmentTooLarge { size: 11, limit: 4 })
    );
}

/// The count of bytes read holds the limit even when the announced length
/// lied or was missing.
#[test]
fn chunks_are_counted_against_the_limit() {
    let mut bytes = Vec::new();
    assert!(accept_chunk(&mut bytes, b"he", 4).is_ok());
    assert!(accept_chunk(&mut bytes, b"ll", 4).is_ok());
    assert_eq!(bytes, b"hell");
    assert_eq!(
        accept_chunk(&mut bytes, b"o world", 4),
        Err(WriteError::AttachmentTooLarge { size: 11, limit: 4 })
    );
    assert_eq!(bytes, b"hell", "a refused chunk is not kept");
}

#[test]
fn into_content_decodes_the_normalized_payload() {
    let c = into_content(
        Some("hi.txt".to_owned()),
        Some("text/plain".to_owned()),
        Some(5),
        Some("data:text/plain;base64,aGVs\nbG8=".to_owned()),
    )
    .expect("ok");
    assert_eq!(c.bytes, b"hello");
    assert_eq!(c.base64, "aGVsbG8=", "base64 without the prefix, for an image block");
    assert_eq!(c.name, "hi.txt");
    assert_eq!(c.mime_type.as_deref(), Some("text/plain"));
    assert_eq!(c.size, Some(5));

    let c = into_content(None, None, None, Some("aGVsbG8=".to_owned())).expect("ok");
    assert_eq!(c.name, "");
}

#[test]
fn into_content_refuses_a_missing_payload() {
    let err = into_content(Some("x".to_owned()), None, None, None).expect_err("must fail");
    assert_eq!(err, WriteError::BadBase64("YouTrack returned no base64Content".to_owned()));
    assert!(err.message().contains("base64Content"));
}

#[test]
fn upload_bytes_come_from_the_chosen_channel() {
    match plan_attachment_bytes(UploadSource::Base64("aGVsbG8=".to_owned())) {
        Ok(AttachmentBytes::Ready(bytes)) => assert_eq!(bytes, b"hello"),
        other => panic!("unexpected {other:?}"),
    }
    match plan_attachment_bytes(UploadSource::Url("https://example.com/a.pdf".to_owned())) {
        Ok(AttachmentBytes::Download(url)) => assert_eq!(url.text, "https://example.com/a.pdf"),
        other => panic!("unexpected {other:?}"),
    }
    let err = plan_attachment_bytes(UploadSource::Url("http://example.com/a".to_owned()))
        .expect_err("must fail");
    assert!(err.message().contains("https"), "got {err:?}");
    assert_eq!(MAX_ATTACHMENT_BYTES, 10 * 1024 * 1024);
}

#[test]
fn the_accepted_url_is_the_one_parsed_from_the_text() {
    let url = validate_attachment_url("HTTPS://Example.COM/a b.pdf").expect("ok");
    assert_eq!(url.text, "https://example.com/a%20b.pdf");
    assert_eq!(url.scheme, "https");
    let other = validate_attachment_url("https://example.org/x").expect("ok");
    assert_eq!(other.text, "https://example.org/x");
}

#[test]
fn an_unparsable_url_is_refused_with_the_parser_text() {
    let err = validate_attachment_url("не url").expect_err("must fail");
    assert_eq!(err, WriteError::BadUrl("не url: relative URL without a base".to_owned()));
}

#[test]
fn bad_base64_carries_the_decoder_text() {
    match decode_base64("aGVs!G8=", 64) {
        Err(WriteError::BadBase64(m)) => assert!(m.starts_with("Invalid symbol 33"), "got {m}"),
        other => panic!("unexpected {other:?}"),
    }
}
