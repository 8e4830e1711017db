use yt_mcp::attachment::{AttachmentContent, UploadSource};
use yt_mcp::reading::{
    content_block, plan_read, upload_source, ReadBlock, ReadPlan, MAX_READ_IMAGE_BYTES,
    MAX_READ_TEXT_BYTES,
};

#[test]
fn textual_mimes_are_read_as_text() {
    for mime in [
        "text/plain",
        "text/markdown",
        "text/csv; charset=utf-8",
        "application/json",
        "application/xml",
        "application/vnd.api+json",
        "image/svg+xml",
    ] {
        assert!(
            matches!(plan_read(Some(mime), Some(100)), Ok(ReadPlan::Text)),
            "{mime} must be read as text"
        );
    }
}

#[test]
fn images_are_returned_as_an_image_block() {
    assert!(matches!(plan_read(Some("image/png"), Some(100)), Ok(ReadPlan::Image)));
    assert!(matches!(plan_read(Some("IMAGE/JPEG"), Some(100)), Ok(ReadPlan::Image)));
}

/// A binary is refused on purpose: base64 of a PDF would burn the context on
/// data the model cannot read anyway.
#[test]
fn binaries_are_refused_with_a_useful_message() {
    let err = plan_read(Some("application/pdf"), Some(4096)).expect_err("must refuse");
    assert!(err.contains("application/pdf"), "{err}");
    assert!(err.contains("4096"), "{err}");

    // An unknown mime type is the same refusal, not a panic.
    assert!(plan_read(None, None).is_err());
}

#[test]
fn oversize_is_refused_before_downloading() {
    let err =
        plan_read(Some("text/plain"), Some(MAX_READ_TEXT_BYTES + 1)).expect_err("must refuse");
    assert!(err.contains("too large"), "{err}");

    let err =
        plan_read(Some("image/png"), Some(MAX_READ_IMAGE_BYTES + 1)).expect_err("must refuse");
    assert!(err.contains("too large"), "{err}");

    // Exactly at the limit is still fine.
    assert!(plan_read(Some("text/plain"), Some(MAX_READ_TEXT_BYTES)).is_ok());
}

/// The size in the metadata may be missing, and then the plan was made with
/// no real limit. `content_block` checks the bytes that arrived.
#[test]
fn content_block_rechecks_the_downloaded_size_against_the_chosen_plan() {
    let content = AttachmentContent {
        name: "x.txt".to_owned(),
        mime_type: Some("text/plain".to_owned()),
        size: None,
        bytes: vec![0u8; (MAX_READ_TEXT_BYTES + 1) as usize],
        base64: String::new(),
    };
    let err = content_block(content, ReadPlan::Text).expect_err("must refuse");
    assert!(err.contains("limit"), "{err}");

    let content = AttachmentContent {
        name: "y.png".to_owned(),
        mime_type: Some("image/png".to_owned()),
        size: None,
        bytes: vec![0u8; (MAX_READ_IMAGE_BYTES + 1) as usize],
        base64: String::new(),
    };
    let err = content_block(content, ReadPlan::Image).expect_err("must refuse");
    assert!(err.contains("limit"), "{err}");

    // Within the limit the block is built.
    let content = AttachmentContent {
        name: "z.txt".to_owned(),
        mime_type: Some("text/plain".to_owned()),
        size: None,
        bytes: b"hello".to_vec(),
        base64: String::new(),
    };
    assert!(content_block(content, ReadPlan::Text).is_ok());
}

#[test]
fn refusal_messages_name_size_and_limit() {
    assert_eq!(
        plan_read(Some("text/plain"), Some(262145)),
        Err("text attachment too large: 262145 bytes, limit is 262144".to_owned())
    );
    assert_eq!(
        plan_read(Some("image/png"), Some(5242881)),
        Err("image attachment too large: 5242881 bytes, limit is 5242880".to_owned())
    );
    assert_eq!(
        plan_read(Some(" Application/PDF ; q=1"), Some(-3)),
        Err("cannot read 'application/pdf' (-3 bytes) as text or an image — ask the user to \
             open it in YouTrack instead"
            .to_owned())
    );
    assert_eq!(
        plan_read(None, None),
        Err("cannot read 'application/octet-stream' (0 bytes) as text or an image — ask the \
             user to open it in YouTrack instead"
            .to_owned())
    );
    assert_eq!(plan_read(Some("application/yaml"), Some(1)), Ok(ReadPlan::Text));
    assert_eq!(plan_read(Some("application/x-foo+yaml"), None), Ok(ReadPlan::Text));
}

#[test]
fn content_blocks_carry_text_or_the_image_payload() {
    let content = AttachmentContent {
        name: "a.txt".to_owned(),
        mime_type: None,
        size: None,
        bytes: b"caf\xc3\xa9 \xff".to_vec(),
        base64: String::new(),
    };
    match content_block(content, ReadPlan::Text) {
        Ok(ReadBlock::Text(t)) => assert_eq!(t, "café \u{FFFD}"),
        other => panic!("unexpected {other:?}"),
    }
    let content = AttachmentContent {
        name: "a.png".to_owned(),
        mime_type: None,
        size: None,
        bytes: vec![1, 2, 3],
        base64: "AQID".to_owned(),
    };
    match content_block(content, ReadPlan::Image) {
        Ok(ReadBlock::Image { data, mime_type }) => {
            assert_eq!(data, "AQID");
            assert_eq!(mime_type, "application/octet-stream");
        }
        other => panic!("unexpected {other:?}"),
    }
    let content = AttachmentContent {
        name: "b.txt".to_owned(),
        mime_type: None,
        size: None,
        bytes: vec![0u8; 262145],
        base64: String::new(),
    };
    assert_eq!(
        content_block(content, ReadPlan::Text).expect_err("must refuse"),
        "attachment is 262145 bytes, limit is 262144"
    );
}

#[test]
fn exactly_one_upload_channel_is_accepted() {
    assert_eq!(
        upload_source(Some("a".to_owned()), Some("b".to_owned())).expect_err("both"),
        "give either 'content_base64' or 'url', not both"
    );
    assert_eq!(
        upload_source(None, None).expect_err("none"),
        "give the file as 'content_base64' or as an https 'url'"
    );
    assert!(matches!(upload_source(Some("a".to_owned()), None), Ok(UploadSource::Base64(s)) if s == "a"));
    assert!(matches!(upload_source(None, Some("u".to_owned())), Ok(UploadSource::Url(s)) if s == "u"));
}

#[test]
fn mime_parameters_do_not_change_the_decision() {
    assert_eq!(plan_read(Some("text/csv; charset=utf-8"), Some(10)), plan_read(Some("text/csv"), Some(10)));
    assert_eq!(plan_read(Some("IMAGE/PNG; q=1"), Some(10)), Ok(ReadPlan::Image));
    assert_eq!(
        plan_read(Some("text/plain; charset=utf-8"), Some(262145)),
        plan_read(Some("text/plain"), Some(262145)),
    );
}
