//! How an attachment is handed to the model: decided on mime type and size
//! before its content is downloaded, and checked again on the bytes that
//! arrived. Also the choice of exactly one channel for new attachment bytes.
use vstd::prelude::*;
use crate::attachment::{AttachmentContent, UploadSource};
use crate::text::{
    chars_of, decimal, ends_with, find, first_index, lemma_first_index, has_prefix, has_suffix, lowercase,
    push_signed_decimal, same_chars, signed_decimal, slice, starts_with, to_lower, trim, trim_bounds,
};
use crate::attachment::string_from_chars;

verus! {

broadcast use vstd::string::group_string_axioms;

/// Largest text attachment handed to the model: what it will really read.
pub const MAX_READ_TEXT_BYTES: i64 = 262144;

/// Largest image attachment handed to the model: what fits in its context
/// as an image.
pub const MAX_READ_IMAGE_BYTES: i64 = 5242880;

/// How the content of an attachment is handed out.
#[derive(Debug, Clone, Copy, PartialEq, Eq)]
pub enum ReadPlan {
    Text,
    Image,
}

/// The mime type without its parameters (`text/csv; charset=utf-8` is
/// `text/csv`), lowercased; a missing type reads as
/// `application/octet-stream`.
pub open spec fn mime_essence(mime: Option<&str>) -> Seq<char> {
    let full = lowercase(
        match mime {
            Some(m) => m@,
            None => "application/octet-stream"@,
        },
    );
    let head = match first_index(full, seq![';']) {
        Some(i) => full.take(i),
        None => full,
    };
    trim(head)
}

/// Mime types read as text.
pub open spec fn is_textual(m: Seq<char>) -> bool {
    ||| has_prefix(m, "text/"@)
    ||| m == "application/json"@
    ||| m == "application/xml"@
    ||| m == "application/yaml"@
    ||| has_suffix(m, "+json"@)
    ||| has_suffix(m, "+xml"@)
    ||| has_suffix(m, "+yaml"@)
}

/// Mime types read as an image.
pub open spec fn is_image(m: Seq<char>) -> bool {
    has_prefix(m, "image/"@)
}

/// The size a decision goes by: a missing size counts as 0.
pub open spec fn known_size(size: Option<i64>) -> int {
    match size {
        Some(s) => s as int,
        None => 0,
    }
}

/// The decision on reading an attachment, with the message for the model
/// when it is refused.
pub open spec fn read_decision(mime: Option<&str>, size: Option<i64>) -> Result<ReadPlan, Seq<char>> {
    let m = mime_essence(mime);
    let s = known_size(size);
    if is_textual(m) {
        if s > MAX_READ_TEXT_BYTES {
            Err(
                "text attachment too large: "@ + signed_decimal(s) + " bytes, limit is "@ + decimal(
                    MAX_READ_TEXT_BYTES as nat,
                ),
            )
        } else {
            Ok(ReadPlan::Text)
        }
    } else if is_image(m) {
        if s > MAX_READ_IMAGE_BYTES {
            Err(
                "image attachment too large: "@ + signed_decimal(s) + " bytes, limit is "@
                    + decimal(MAX_READ_IMAGE_BYTES as nat),
            )
        } else {
            Ok(ReadPlan::Image)
        }
    } else {
        Err(
            "cannot read '"@ + m + "' ("@ + signed_decimal(s)
                + " bytes) as text or an image — ask the user to open it in YouTrack instead"@,
        )
    }
}

/// A plan to read an attachment is only made within the limit of that plan:
/// a text plan for at most [`MAX_READ_TEXT_BYTES`], an image plan for at
/// most [`MAX_READ_IMAGE_BYTES`] (a missing size counting as 0), and only
/// for a textual or an image mime type.
pub proof fn lemma_plans_respect_their_limits(mime: Option<&str>, size: Option<i64>)
    ensures
        read_decision(mime, size) == Ok::<ReadPlan, Seq<char>>(ReadPlan::Text) ==> known_size(size)
            <= MAX_READ_TEXT_BYTES && is_textual(mime_essence(mime)),
        read_decision(mime, size) == Ok::<ReadPlan, Seq<char>>(ReadPlan::Image) ==> known_size(size)
            <= MAX_READ_IMAGE_BYTES && is_image(mime_essence(mime)),
{
}

/// How the decision falls for every mime type and size: a textual type
/// within [`MAX_READ_TEXT_BYTES`] is read as text and above it refused; an
/// image type that is not textual is read as an image within
/// [`MAX_READ_IMAGE_BYTES`] (5 MiB, not the text limit) and refused above
/// it; any other type is refused whatever its size. A missing size counts
/// as 0.
pub proof fn lemma_decision_by_kind_and_size(mime: Option<&str>, size: Option<i64>)
    ensures
        is_textual(mime_essence(mime)) && known_size(size) <= 262144 ==> read_decision(mime, size)
            == Ok::<ReadPlan, Seq<char>>(ReadPlan::Text),
        is_textual(mime_essence(mime)) && known_size(size) > 262144 ==> read_decision(
            mime,
            size,
        ) is Err,
        !is_textual(mime_essence(mime)) && is_image(mime_essence(mime)) && known_size(size)
            <= 5242880 ==> read_decision(mime, size) == Ok::<ReadPlan, Seq<char>>(ReadPlan::Image),
        !is_textual(mime_essence(mime)) && is_image(mime_essence(mime)) && known_size(size)
            > 5242880 ==> read_decision(mime, size) is Err,
        !is_textual(mime_essence(mime)) && !is_image(mime_essence(mime)) ==> read_decision(
            mime,
            size,
        ) is Err,
{
}

/// The decision reads the mime type only through its essence: two mime
/// types with the same essence (say one with a `; charset=...` parameter
/// and one without) get the same decision for the same size.
pub proof fn lemma_decision_reads_only_the_essence(
    mime_a: Option<&str>,
    mime_b: Option<&str>,
    size: Option<i64>,
)
    requires
        mime_essence(mime_a) == mime_essence(mime_b),
    ensures
        read_decision(mime_a, size) == read_decision(mime_b, size),
{
}

/// Decides, from mime type and size alone, whether an attachment is read as
/// text, as an image, or refused — before any of its content is downloaded.
/// A refusal is a message the model can act on.
pub fn plan_read(mime: Option<&str>, size: Option<i64>) -> (r: Result<ReadPlan, String>)
    ensures
        match read_decision(mime, size) {
            Ok(p) => r == Ok::<ReadPlan, String>(p),
            Err(m) => r matches Err(e) && e@ == m,
        },
{
    let full = match mime {
        Some(m) => to_lower(m),
        None => to_lower("application/octet-stream"),
    };
    let lower = chars_of(full.as_str());
    let semi = vec![';'];
    assert(semi@ == seq![';']);
    proof {
        lemma_first_index(lower@, semi@);
    }
    let head: Vec<char> = match find(&lower, &semi) {
        Some(i) => prefix(&lower, i),
        None => prefix(&lower, lower.len()),
    };
    assert(lower@.take(lower@.len() as int) == lower@);
    let (a, b) = trim_bounds(&head);
    let essence = slice(&head, a, b);
    let ghost m = essence@;
    assert(m == mime_essence(mime));
    let s: i64 = match size {
        Some(s) => s,
        None => 0,
    };
    let textual = starts_with(&essence, "text/") || same_chars(&essence, "application/json")
        || same_chars(&essence, "application/xml") || same_chars(&essence, "application/yaml")
        || ends_with(&essence, "+json") || ends_with(&essence, "+xml") || ends_with(
        &essence,
        "+yaml",
    );
    if textual {
        if s > MAX_READ_TEXT_BYTES {
            let mut msg = "text attachment too large: ".to_owned();
            push_signed_decimal(&mut msg, s);
            msg.append(" bytes, limit is ");
            push_signed_decimal(&mut msg, MAX_READ_TEXT_BYTES);
            return Err(msg);
        }
        return Ok(ReadPlan::Text);
    }
    if starts_with(&essence, "image/") {
        if s > MAX_READ_IMAGE_BYTES {
            let mut msg = "image attachment too large: ".to_owned();
            push_signed_decimal(&mut msg, s);
            msg.append(" bytes, limit is ");
            push_signed_decimal(&mut msg, MAX_READ_IMAGE_BYTES);
            return Err(msg);
        }
        return Ok(ReadPlan::Image);
    }
    let mut msg = "cannot read '".to_owned();
    msg.append(string_from_chars(&essence).as_str());
    msg.append("' (");
    push_signed_decimal(&mut msg, s);
    msg.append(" bytes) as text or an image — ask the user to open it in YouTrack instead");
    Err(msg)
}

/// The first `n` characters.
fn prefix(v: &Vec<char>, n: usize) -> (r: Vec<char>)
    requires
        n <= v@.len(),
    ensures
        r@ == v@.take(n as int),
{
    slice(v, 0, n)
}

/// What `String::from_utf8_lossy` makes of bytes: the text they encode,
/// with each invalid sequence replaced by U+FFFD.
pub uninterp spec fn utf8_lossy(bytes: Seq<u8>) -> Seq<char>;

/// Calls `String::from_utf8_lossy`; the result is [`utf8_lossy`] of the
/// bytes.
#[verifier::external_body]
fn from_utf8_lossy(bytes: &Vec<u8>) -> (r: String)
    ensures
        r@ == utf8_lossy(bytes@),
{
    String::from_utf8_lossy(bytes).into_owned()
}

/// An attachment as it is handed to the model: text, or an image given as
/// base64 with its mime type.
#[derive(Debug)]
pub enum ReadBlock {
    Text(String),
    Image { data: String, mime_type: String },
}

/// The limit of a plan.
pub open spec fn plan_limit(plan: ReadPlan) -> i64 {
    match plan {
        ReadPlan::Text => MAX_READ_TEXT_BYTES,
        ReadPlan::Image => MAX_READ_IMAGE_BYTES,
    }
}

/// Builds what the model receives, re-checking the limit of the plan on the
/// bytes that really arrived: the size the plan was made from may have been
/// missing.
pub fn content_block(content: AttachmentContent, plan: ReadPlan) -> (r: Result<ReadBlock, String>)
    ensures
        content.bytes@.len() > plan_limit(plan) ==> (r matches Err(e) && e@ == "attachment is "@
            + decimal(content.bytes@.len()) + " bytes, limit is "@ + signed_decimal(
            plan_limit(plan) as int,
        )),
        content.bytes@.len() <= plan_limit(plan) ==> (match plan {
            ReadPlan::Text => r matches Ok(ReadBlock::Text(t)) && t@ == utf8_lossy(content.bytes@),
            ReadPlan::Image => r matches Ok(ReadBlock::Image { data, mime_type }) && data@
                == content.base64@ && mime_type@ == (match content.mime_type {
                Some(m) => m@,
                None => "application/octet-stream"@,
            }),
        }),
{
    let limit = match plan {
        ReadPlan::Text => MAX_READ_TEXT_BYTES,
        ReadPlan::Image => MAX_READ_IMAGE_BYTES,
    };
    let n = content.bytes.len();
    if n as u64 > limit as u64 {
        let mut msg = "attachment is ".to_owned();
        crate::text::push_decimal(&mut msg, n as u64);
        msg.append(" bytes, limit is ");
        push_signed_decimal(&mut msg, limit);
        return Err(msg);
    }
    match plan {
        ReadPlan::Text => Ok(ReadBlock::Text(from_utf8_lossy(&content.bytes))),
        ReadPlan::Image => {
            let mime_type = match content.mime_type {
                Some(m) => m,
                None => "application/octet-stream".to_owned(),
            };
            Ok(ReadBlock::Image { data: content.base64, mime_type })
        },
    }
}

/// Chooses the one channel the bytes of a new attachment come from: exactly
/// one of base64 content and url must be given.
pub fn upload_source(content_base64: Option<String>, url: Option<String>) -> (r: Result<
    UploadSource,
    String,
>)
    ensures
        match (content_base64, url) {
            (Some(_), Some(_)) => r matches Err(e) && e@
                == "give either 'content_base64' or 'url', not both"@,
            (None, None) => r matches Err(e) && e@
                == "give the file as 'content_base64' or as an https 'url'"@,
            (Some(b), None) => r matches Ok(UploadSource::Base64(s)) && s == b,
            (None, Some(u)) => r matches Ok(UploadSource::Url(s)) && s == u,
        },
{
    match (content_base64, url) {
        (Some(_), Some(_)) => Err("give either 'content_base64' or 'url', not both".to_owned()),
        (None, None) => Err("give the file as 'content_base64' or as an https 'url'".to_owned()),
        (Some(raw), None) => Ok(UploadSource::Base64(raw)),
        (None, Some(raw)) => Ok(UploadSource::Url(raw)),
    }
}

} // verus!
