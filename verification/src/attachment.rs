//! Attachment payloads: data-URI stripping, base64 decoding under a size
//! limit, the https-only rule for download urls, the size checks applied
//! while a download streams in, and assembling the content that was read.
use vstd::prelude::*;
use crate::text::{
    chars_of, decimal, find_after, find_from, has_prefix, is_white_space, lemma_find_from, push_decimal,
    same_chars, starts_with, white_space,
};

verus! {

broadcast use vstd::string::group_string_axioms;

/// Ceiling on one attachment: for `content_base64`, for a download by url,
/// and as a guard when decoding what YouTrack returned.
pub const MAX_ATTACHMENT_BYTES: usize = 10485760;

/// Errors of the writing operations. `ProjectNotFound`, `AttachmentTooLarge`,
/// `BadBase64` and `BadUrl` are detected here; `Youtrack` and `Fetch` carry
/// the text of an error that came back from YouTrack or from a download.
#[derive(Debug, PartialEq, Eq)]
pub enum WriteError {
    ProjectNotFound(String, String),
    Youtrack(String),
    AttachmentTooLarge { size: u64, limit: usize },
    BadBase64(String),
    BadUrl(String),
    Fetch(String),
}

/// The message of an error, as it is shown to the model.
pub open spec fn write_error_text(e: WriteError) -> Seq<char> {
    match e {
        WriteError::ProjectNotFound(name, available) => "project '"@ + name@ + "' not found; available: "@
            + available@,
        WriteError::Youtrack(text) => text@,
        WriteError::AttachmentTooLarge { size, limit } => "attachment too large: "@ + decimal(
            size as nat,
        ) + " bytes, limit is "@ + decimal(limit as nat),
        WriteError::BadBase64(text) => "bad base64 content: "@ + text@,
        WriteError::BadUrl(text) => "attachment url rejected: "@ + text@,
        WriteError::Fetch(text) => "fetching attachment url: "@ + text@,
    }
}

impl WriteError {
    /// The message of this error.
    pub fn message(&self) -> (r: String)
        ensures
            r@ == write_error_text(*self),
    {
        match self {
            WriteError::ProjectNotFound(name, available) => {
                let mut r = "project '".to_owned();
                r.append(name.as_str());
                r.append("' not found; available: ");
                r.append(available.as_str());
                r
            },
            WriteError::Youtrack(text) => text.clone(),
            WriteError::AttachmentTooLarge { size, limit } => {
                let mut r = "attachment too large: ".to_owned();
                push_decimal(&mut r, *size);
                r.append(" bytes, limit is ");
                push_decimal(&mut r, *limit as u64);
                r
            },
            WriteError::BadBase64(text) => {
                let mut r = "bad base64 content: ".to_owned();
                r.append(text.as_str());
                r
            },
            WriteError::BadUrl(text) => {
                let mut r = "attachment url rejected: ".to_owned();
                r.append(text.as_str());
                r
            },
            WriteError::Fetch(text) => {
                let mut r = "fetching attachment url: ".to_owned();
                r.append(text.as_str());
                r
            },
        }
    }
}

/// The payload of a `data:<mime>;base64,<payload>` value; anything else is
/// returned as it is.
pub open spec fn data_uri_payload(raw: Seq<char>) -> Seq<char> {
    if has_prefix(raw, "data:"@) {
        match find_from(raw, ";base64,"@, "data:"@.len() as int) {
            Some(i) => raw.subrange(i + ";base64,"@.len(), raw.len() as int),
            None => raw,
        }
    } else {
        raw
    }
}

/// Stripping only ever cuts a prefix: the payload is the tail of the raw
/// text, and a text without the `data:` shape is left whole.
pub proof fn lemma_payload_is_a_tail(raw: Seq<char>)
    ensures
        data_uri_payload(raw).len() <= raw.len(),
        data_uri_payload(raw) == raw.subrange(
            raw.len() - data_uri_payload(raw).len(),
            raw.len() as int,
        ),
        !has_prefix(raw, "data:"@) ==> data_uri_payload(raw) == raw,
{
    lemma_find_from(raw, ";base64,"@, "data:"@.len() as int);
    assert(raw.subrange(0, raw.len() as int) =~= raw);
}

/// Cuts the `data:<mime>;base64,` prefix that YouTrack puts in front of
/// `base64Content` and that a model may copy along with the payload.
pub fn strip_data_uri(raw: &str) -> (r: &str)
    ensures
        r@ == data_uri_payload(raw@),
{
    proof {
        reveal_strlit("data:");
        reveal_strlit(";base64,");
    }
    let v = chars_of(raw);
    if !starts_with(&v, "data:") {
        return raw;
    }
    let marker = chars_of(";base64,");
    assert(marker@.len() == 8);
    let n = v.len();
    match find_after(&v, &marker, 5) {
        Some(i) => raw.substring_char(i + 8, n),
        None => raw,
    }
}

/// `s` with every whitespace character removed: what
/// `split_whitespace().collect::<String>()` builds.
pub open spec fn without_white_space(s: Seq<char>) -> Seq<char> {
    s.filter(|c: char| !is_white_space(c))
}

/// Whitespace removal leaves no whitespace behind and keeps everything
/// else: no character of the result is whitespace (spaces, tabs, carriage
/// returns and line breaks among them), every other character of `s` is
/// kept, and a whitespace character inserted anywhere changes nothing.
pub proof fn lemma_white_space_removed(s: Seq<char>, a: Seq<char>, b: Seq<char>, c: char)
    ensures
        forall|k: int|
            0 <= k < without_white_space(s).len() ==> !is_white_space(
                #[trigger] without_white_space(s)[k],
            ),
        forall|k: int|
            0 <= k < s.len() && !is_white_space(s[k]) ==> #[trigger] without_white_space(
                s,
            ).contains(s[k]),
        is_white_space(' ') && is_white_space('\t') && is_white_space('\r') && is_white_space('\n'),
        is_white_space(c) ==> without_white_space(a + seq![c] + b) == without_white_space(a + b),
{
    let pred = |ch: char| !is_white_space(ch);
    assert forall|k: int| 0 <= k < without_white_space(s).len() implies !is_white_space(
        #[trigger] without_white_space(s)[k],
    ) by {
        s.lemma_filter_pred(pred, k);
    }
    assert forall|k: int| 0 <= k < s.len() && !is_white_space(s[k]) implies #[trigger] without_white_space(
        s,
    ).contains(s[k]) by {
        s.lemma_filter_contains(pred, k);
    }
    if is_white_space(c) {
        let one = seq![c];
        Seq::filter_distributes_over_add(a + one, b, pred);
        Seq::filter_distributes_over_add(a, one, pred);
        Seq::filter_distributes_over_add(a, b, pred);
        reveal_with_fuel(Seq::filter, 2);
        assert(one.drop_last() =~= Seq::<char>::empty());
        assert(one.filter(pred) =~= Seq::<char>::empty());
        assert(a.filter(pred) + one.filter(pred) =~= a.filter(pred));
    }
}

/// The text handed to the base64 decoder holds no whitespace.
pub proof fn lemma_decoded_text_has_no_white_space(raw: Seq<char>)
    ensures
        forall|k: int|
            0 <= k < normalized_payload(raw).len() ==> !is_white_space(
                #[trigger] normalized_payload(raw)[k],
            ),
{
    let p = data_uri_payload(raw);
    lemma_white_space_removed(p, Seq::empty(), Seq::empty(), ' ');
}

/// Builds a `String` from characters (`FromIterator<char>`).
#[verifier::external_body]
pub fn string_from_chars(v: &Vec<char>) -> (r: String)
    ensures
        r@ == v@,
{
    v.iter().collect()
}

/// Removes every whitespace character.
pub fn remove_white_space(s: &str) -> (r: String)
    ensures
        r@ == without_white_space(s@),
{
    let v = chars_of(s);
    let mut out: Vec<char> = Vec::new();
    let n = v.len();
    let mut i: usize = 0;
    while i < n
        invariant
            i <= n,
            n == v@.len(),
            v@ == s@,
            out@ == without_white_space(v@.take(i as int)),
        decreases n - i,
    {
        let c = v[i];
        proof {
            assert(v@.take(i + 1).drop_last() == v@.take(i as int));
            reveal_with_fuel(Seq::filter, 1);
        }
        if !white_space(c) {
            out.push(c);
        }
        i = i + 1;
    }
    assert(v@.take(n as int) == v@);
    string_from_chars(&out)
}

/// The text of a payload that is decoded: data-URI prefix cut, whitespace
/// removed (both YouTrack and models insert line breaks).
pub open spec fn normalized_payload(raw: Seq<char>) -> Seq<char> {
    without_white_space(data_uri_payload(raw))
}

/// What the standard base64 engine (`base64::engine::general_purpose::STANDARD`)
/// makes of a text: the decoded bytes, or the text of the `DecodeError` it
/// refuses the text with.
pub uninterp spec fn base64_standard_decoding(text: Seq<char>) -> Result<Seq<u8>, Seq<char>>;

/// Calls `Engine::decode` of the standard base64 engine; a refusal is handed
/// back as the text of its `DecodeError`. The result is
/// [`base64_standard_decoding`] of the text.
#[verifier::external_body]
fn decode_standard(text: &str) -> (r: Result<Vec<u8>, String>)
    ensures
        match r {
            Ok(b) => base64_standard_decoding(text@) == Ok::<Seq<u8>, Seq<char>>(b@),
            Err(e) => base64_standard_decoding(text@) == Err::<Seq<u8>, Seq<char>>(e@),
        },
{
    base64::Engine::decode(&base64::engine::general_purpose::STANDARD, text).map_err(|e| e.to_string())
}

/// What `decode_base64(raw, limit)` yields, when it succeeds.
pub open spec fn decoded_within(raw: Seq<char>, limit: nat) -> Option<Seq<u8>> {
    match base64_standard_decoding(normalized_payload(raw)) {
        Ok(b) => if b.len() <= limit { Some(b) } else { None },
        Err(_) => None,
    }
}

/// The error with which `decode_base64(raw, MAX_ATTACHMENT_BYTES)` refuses
/// `raw`: `BadBase64` with the decoder's text when the text is not base64,
/// `AttachmentTooLarge` with the decoded size when it is over the limit.
pub open spec fn decode_refusal(raw: Seq<char>, e: WriteError) -> bool {
    match base64_standard_decoding(normalized_payload(raw)) {
        Err(t) => e matches WriteError::BadBase64(m) && m@ == t,
        Ok(b) => e == WriteError::AttachmentTooLarge {
            size: b.len() as u64,
            limit: MAX_ATTACHMENT_BYTES,
        },
    }
}

/// Decodes base64 under a size limit. A `data:` prefix and any whitespace
/// are tolerated.
pub fn decode_base64(raw: &str, limit: usize) -> (r: Result<Vec<u8>, WriteError>)
    ensures
        match base64_standard_decoding(normalized_payload(raw@)) {
            Err(t) => r matches Err(WriteError::BadBase64(m)) && m@ == t,
            Ok(b) => if b.len() <= limit {
                r matches Ok(v) && v@ == b
            } else {
                r == Err::<Vec<u8>, WriteError>(
                    WriteError::AttachmentTooLarge { size: b.len() as u64, limit },
                )
            },
        },
        r matches Ok(v) ==> v@.len() <= limit && decoded_within(raw@, limit as nat) == Some(v@),
{
    let payload = remove_white_space(strip_data_uri(raw));
    let bytes = match decode_standard(payload.as_str()) {
        Ok(b) => b,
        Err(e) => return Err(WriteError::BadBase64(e)),
    };
    if bytes.len() > limit {
        return Err(WriteError::AttachmentTooLarge { size: bytes.len() as u64, limit });
    }
    Ok(bytes)
}

/// What `url::Url::parse` makes of a text, taken as plain values: for a url
/// it accepts, its serialization (`Url::as_str`) and its scheme
/// (`Url::scheme`); for a text it refuses, the text of the `ParseError`.
pub uninterp spec fn url_parse(raw: Seq<char>) -> Result<(Seq<char>, Seq<char>), Seq<char>>;

/// A url that parsed: its serialization, which names the same url when it is
/// parsed again, and its scheme.
#[derive(Debug)]
pub struct ParsedUrl {
    pub text: String,
    pub scheme: String,
}

/// Calls `url::Url::parse` and hands the url back as its serialization and
/// its scheme, a refusal as the text of its `ParseError`. The result is
/// [`url_parse`] of the text.
#[verifier::external_body]
fn parse_url(raw: &str) -> (r: Result<ParsedUrl, String>)
    ensures
        match r {
            Ok(p) => url_parse(raw@) == Ok::<(Seq<char>, Seq<char>), Seq<char>>((p.text@, p.scheme@)),
            Err(e) => url_parse(raw@) == Err::<(Seq<char>, Seq<char>), Seq<char>>(e@),
        },
{
    match url::Url::parse(raw) {
        Ok(url) => Ok(ParsedUrl { text: url.as_str().to_owned(), scheme: url.scheme().to_owned() }),
        Err(e) => Err(e.to_string()),
    }
}

/// Parses an attachment download url and accepts only `https`: the url that
/// is handed back is the one parsed from `raw`. No network access; which host
/// it names is not checked.
pub fn validate_attachment_url(raw: &str) -> (r: Result<ParsedUrl, WriteError>)
    ensures
        match url_parse(raw@) {
            Ok((text, scheme)) => if scheme == "https"@ {
                r matches Ok(p) && p.text@ == text && p.scheme@ == scheme
            } else {
                r matches Err(WriteError::BadUrl(m)) && m@ == raw@ + ": scheme must be https, got '"@
                    + scheme + "'"@
            },
            Err(t) => r matches Err(WriteError::BadUrl(m)) && m@ == raw@ + ": "@ + t,
        },
{
    let parsed = match parse_url(raw) {
        Ok(p) => p,
        Err(e) => {
            let mut msg = raw.to_owned();
            msg.append(": ");
            msg.append(e.as_str());
            return Err(WriteError::BadUrl(msg));
        },
    };
    if !same_chars(&chars_of(parsed.scheme.as_str()), "https") {
        let mut msg = raw.to_owned();
        msg.append(": scheme must be https, got '");
        msg.append(parsed.scheme.as_str());
        msg.append("'");
        return Err(WriteError::BadUrl(msg));
    }
    Ok(parsed)
}

/// Where the bytes of a new attachment come from. Exactly one channel per
/// call.
#[derive(Debug)]
pub enum UploadSource {
    Base64(String),
    Url(String),
}

/// The bytes of a new attachment, or the url they are still to be
/// downloaded from.
#[derive(Debug)]
pub enum AttachmentBytes {
    Ready(Vec<u8>),
    Download(ParsedUrl),
}

/// The first step of getting the bytes of a new attachment: base64 content
/// is decoded under [`MAX_ATTACHMENT_BYTES`]; a url is checked against the
/// https-only rule, and the download itself is left to the caller.
pub fn plan_attachment_bytes(source: UploadSource) -> (r: Result<AttachmentBytes, WriteError>)
    ensures
        match source {
            UploadSource::Base64(raw) => match decoded_within(raw@, MAX_ATTACHMENT_BYTES as nat) {
                Some(b) => r matches Ok(AttachmentBytes::Ready(v)) && v@ == b,
                None => r matches Err(e) && decode_refusal(raw@, e),
            },
            UploadSource::Url(raw) => match url_parse(raw@) {
                Ok((text, scheme)) => if scheme == "https"@ {
                    r matches Ok(AttachmentBytes::Download(p)) && p.text@ == text && p.scheme@ == scheme
                } else {
                    r matches Err(WriteError::BadUrl(m)) && m@ == raw@
                        + ": scheme must be https, got '"@ + scheme + "'"@
                },
                Err(t) => r matches Err(WriteError::BadUrl(m)) && m@ == raw@ + ": "@ + t,
            },
        },
{
    match source {
        UploadSource::Base64(raw) => match decode_base64(raw.as_str(), MAX_ATTACHMENT_BYTES) {
            Ok(bytes) => Ok(AttachmentBytes::Ready(bytes)),
            Err(e) => Err(e),
        },
        UploadSource::Url(raw) => match validate_attachment_url(raw.as_str()) {
            Ok(url) => Ok(AttachmentBytes::Download(url)),
            Err(e) => Err(e),
        },
    }
}

/// Refuses an answer that is a redirect: a download never follows one, so a
/// redirect would otherwise end as an empty "successful" file.
pub fn refuse_redirect(is_redirect: bool, status: &str) -> (r: Result<(), WriteError>)
    ensures
        !is_redirect ==> r is Ok,
        is_redirect ==> (r matches Err(WriteError::BadUrl(m)) && m@
            == "server answered with a redirect ("@ + status@ + "); redirects are not followed"@),
{
    if is_redirect {
        let mut m = "server answered with a redirect (".to_owned();
        m.append(status);
        m.append("); redirects are not followed");
        Err(WriteError::BadUrl(m))
    } else {
        Ok(())
    }
}

/// Refuses a download whose announced `Content-Length` is over the limit,
/// before any of its body is read.
pub fn admit_content_length(length: Option<u64>, limit: usize) -> (r: Result<(), WriteError>)
    ensures
        match length {
            Some(n) => if n > limit {
                r == Err::<(), WriteError>(WriteError::AttachmentTooLarge { size: n, limit })
            } else {
                r is Ok
            },
            None => r is Ok,
        },
{
    match length {
        Some(n) => if n > limit as u64 {
            Err(WriteError::AttachmentTooLarge { size: n, limit })
        } else {
            Ok(())
        },
        None => Ok(()),
    }
}

/// Adds one chunk of a download to the bytes read so far, or refuses it when
/// the total would pass the limit. The announced length may lie or be
/// missing, so this count is what holds the limit.
pub fn accept_chunk(bytes: &mut Vec<u8>, chunk: &[u8], limit: usize) -> (r: Result<(), WriteError>)
    requires
        old(bytes)@.len() <= limit,
        old(bytes)@.len() + chunk@.len() <= usize::MAX,
    ensures
        final(bytes)@.len() <= limit,
        if old(bytes)@.len() + chunk@.len() > limit {
            &&& r == Err::<(), WriteError>(
                WriteError::AttachmentTooLarge {
                    size: (old(bytes)@.len() + chunk@.len()) as u64,
                    limit,
                },
            )
            &&& final(bytes)@ == old(bytes)@
        } else {
            r is Ok && final(bytes)@ == old(bytes)@ + chunk@
        },
{
    let have = bytes.len();
    if chunk.len() > limit - have {
        return Err(WriteError::AttachmentTooLarge { size: (have + chunk.len()) as u64, limit });
    }
    let ghost before = bytes@;
    let n = chunk.len();
    let mut i: usize = 0;
    while i < n
        invariant
            i <= n,
            n == chunk@.len(),
            bytes@ == before + chunk@.take(i as int),
        decreases n - i,
    {
        bytes.push(chunk[i]);
        assert(chunk@.take(i + 1) == chunk@.take(i as int).push(chunk@[i as int]));
        i = i + 1;
    }
    assert(chunk@.take(n as int) == chunk@);
    Ok(())
}

/// The content of an attachment, decoded. `bytes` serves text output and
/// `base64` an image block; both describe the same payload.
#[derive(Debug)]
pub struct AttachmentContent {
    pub name: String,
    pub mime_type: Option<String>,
    pub size: Option<i64>,
    pub bytes: Vec<u8>,
    pub base64: String,
}

/// Assembles the content of an attachment read from YouTrack. A missing
/// `base64Content` is a refusal to hand the file out, not an empty file.
/// The payload is normalized once, and `bytes` are decoded from exactly the
/// `base64` that is returned.
pub fn into_content(
    name: Option<String>,
    mime_type: Option<String>,
    size: Option<i64>,
    base64_content: Option<String>,
) -> (r: Result<AttachmentContent, WriteError>)
    ensures
        match base64_content {
            None => r matches Err(WriteError::BadBase64(m)) && m@
                == "YouTrack returned no base64Content"@,
            Some(raw) => match decoded_within(
                normalized_payload(raw@),
                MAX_ATTACHMENT_BYTES as nat,
            ) {
                Some(b) => r matches Ok(c) && {
                    &&& c.bytes@ == b
                    &&& c.base64@ == normalized_payload(raw@)
                    &&& c.name@ == (match name {
                        Some(n) => n@,
                        None => Seq::<char>::empty(),
                    })
                    &&& c.mime_type == mime_type
                    &&& c.size == size
                },
                None => r matches Err(e) && decode_refusal(normalized_payload(raw@), e),
            },
        },
{
    let raw = match base64_content {
        Some(raw) => raw,
        None => return Err(WriteError::BadBase64("YouTrack returned no base64Content".to_owned())),
    };
    let base64 = remove_white_space(strip_data_uri(raw.as_str()));
    let bytes = match decode_base64(base64.as_str(), MAX_ATTACHMENT_BYTES) {
        Ok(b) => b,
        Err(e) => return Err(e),
    };
    let name = match name {
        Some(n) => n,
        None => String::new(),
    };
    Ok(AttachmentContent { name, mime_type, size, bytes, base64 })
}

} // verus!
