//! The GRSAI image provider: model routing, request bodies, reference-image
//! handling, and the reading of its generate and result replies.

use vstd::prelude::*;
use vstd::utf8::{decode_utf8, encode_utf8, valid_utf8};
use crate::json::{
    deref_opt, entries_get, find_key, get_opt, json_as_str, json_get, opt_first, opt_get, opt_str,
    str_opt, JsonValue,
};
use crate::provider::{
    opt_view, result_view, AIError, AIErrorView, GenerateRequest, PollView, ProviderTaskHandle,
    ProviderTaskPollResult, ProviderTaskSubmission, SubmissionView,
};
use crate::text::{
    concat2, concat3, decimal, ends_with, push_char, push_decimal, lowercase, owned, split_once_char, split_once_spec, starts_with, str_eq, string_from_range,
    strip_all_prefixes, to_chars, to_lowercase, trim, trim_start_matches, trim_ws,
};

verus! {

/// The value of one hexadecimal digit byte.
pub open spec fn hex_value(b: u8) -> Option<u8> {
    if 48 <= b <= 57 {
        Some((b - 48) as u8)
    } else if 65 <= b <= 70 {
        Some((b - 55) as u8)
    } else if 97 <= b <= 102 {
        Some((b - 87) as u8)
    } else {
        None
    }
}

/// Percent-decoding of bytes: each `%` followed by two hex digits becomes the byte
/// they spell; every other byte, `+` included, stays as it is.
pub open spec fn percent_decode(b: Seq<u8>) -> Seq<u8>
    decreases b.len(),
{
    if b.len() == 0 {
        seq![]
    } else if b[0] == 37 && b.len() >= 3 && hex_value(b[1]) is Some && hex_value(b[2]) is Some {
        seq![(hex_value(b[1]).unwrap() * 16 + hex_value(b[2]).unwrap()) as u8] + percent_decode(
            b.skip(3),
        )
    } else {
        seq![b[0]] + percent_decode(b.skip(1))
    }
}

/// What `urlencoding::decode` gives for a text: its percent-decoded UTF-8 bytes
/// read back as text, or nothing where those bytes are not UTF-8.
pub open spec fn url_decoded(raw: Seq<char>) -> Option<Seq<char>> {
    let bytes = percent_decode(encode_utf8(raw));
    if valid_utf8(bytes) {
        Some(decode_utf8(bytes))
    } else {
        None
    }
}

/// `urlencoding::decode`: percent-decodes the UTF-8 bytes of `raw` and reads the
/// result as UTF-8; `None` where the decoded bytes are not valid UTF-8.
#[verifier::external_body]
fn url_decode(raw: &str) -> (r: Option<String>)
    ensures
        opt_view(r) == url_decoded(raw@),
{
    match urlencoding::decode(raw) {
        Ok(text) => Some(text.into_owned()),
        Err(_) => None,
    }
}

/// A decoded file-URL path of the form `/C:...` loses its leading slash.
pub open spec fn drive_path_normalized(d: Seq<char>) -> Seq<char> {
    if d.len() >= 3 && d[0] == '/' && (d[1] as u32) < 0x80 && d[2] == ':' {
        d.drop_first()
    } else {
        d
    }
}

/// The local path that a `file://` reference names.
pub open spec fn file_url_path(value: Seq<char>) -> Seq<char> {
    let raw = strip_all_prefixes(value, "file://"@);
    let decoded = match url_decoded(raw) {
        Some(d) => d,
        None => raw,
    };
    drive_path_normalized(decoded)
}

/// Drops the slash before a drive letter in a decoded file-URL path (`/C:/x` becomes `C:/x`).
pub fn normalize_drive_path(decoded: &str) -> (r: String)
    ensures
        r@ == drive_path_normalized(decoded@),
{
    let v = to_chars(decoded);
    if v.len() >= 3 && v[0] == '/' && (v[1] as u32) < 0x80 && v[2] == ':' {
        let r = string_from_range(&v, 1, v.len());
        assert(decoded@.drop_first() =~= v@.subrange(1, v@.len() as int));
        r
    } else {
        string_from_range(&v, 0, v.len())
    }
}

/// Turns a `file://` URL into a local path: strips every leading `file://`,
/// percent-decodes what remains (keeping it as is where decoding fails), and
/// drops the slash before a drive letter.
pub fn decode_file_url_path(value: &str) -> (r: String)
    ensures
        r@ == file_url_path(value@),
{
    proof {
        reveal_strlit("file://");
    }
    let raw = trim_start_matches(value, "file://");
    let decoded = match url_decode(raw.as_str()) {
        Some(d) => d,
        None => raw,
    };
    normalize_drive_path(decoded.as_str())
}

/// A character of the base64 alphabet or its padding.
pub open spec fn is_base64_char(c: char) -> bool {
    ||| 'a' <= c <= 'z'
    ||| 'A' <= c <= 'Z'
    ||| '0' <= c <= '9'
    ||| c == '+'
    ||| c == '/'
    ||| c == '='
}

/// The text is long enough and made only of base64 characters.
pub open spec fn looks_like_base64(t: Seq<char>) -> bool {
    t.len() > 256 && forall|i: int| 0 <= i < t.len() ==> is_base64_char(#[trigger] t[i])
}

/// Whether every character of `t` is a base64 character and there are more than 256.
pub fn is_likely_base64(t: &str) -> (r: bool)
    ensures
        r == looks_like_base64(t@),
{
    let v = to_chars(t);
    if v.len() <= 256 {
        return false;
    }
    let mut i: usize = 0;
    while i < v.len()
        invariant
            v@ == t@,
            i <= v.len(),
            forall|j: int| 0 <= j < i ==> is_base64_char(#[trigger] t@[j]),
        decreases v.len() - i,
    {
        let c = v[i];
        let ok = ('a' <= c && c <= 'z') || ('A' <= c && c <= 'Z') || ('0' <= c && c <= '9') || c
            == '+' || c == '/' || c == '=';
        if !ok {
            assert(!is_base64_char(t@[i as int]));
            return false;
        }
        i = i + 1;
    }
    true
}

/// How a reference image is sent to GRSAI.
pub enum ReferenceSource {
    /// Nothing to send (the source is blank).
    Skip,
    /// Sent as this text: an HTTP URL, or base64 data.
    Inline(String),
    /// Read from this local file, then compressed and base64-encoded.
    LocalFile(String),
}

/// The abstract form of a [`ReferenceSource`].
pub enum ReferenceSourceView {
    Skip,
    Inline(Seq<char>),
    LocalFile(Seq<char>),
}

impl View for ReferenceSource {
    type V = ReferenceSourceView;

    open spec fn view(&self) -> ReferenceSourceView {
        match self {
            ReferenceSource::Skip => ReferenceSourceView::Skip,
            ReferenceSource::Inline(s) => ReferenceSourceView::Inline(s@),
            ReferenceSource::LocalFile(p) => ReferenceSourceView::LocalFile(p@),
        }
    }
}

/// The base64 payload of a `data:...;base64,<payload>` URL with a non-empty payload.
pub open spec fn data_url_payload(t: Seq<char>) -> Option<Seq<char>> {
    match split_once_spec(t, ',') {
        Some(parts) => if "data:"@.is_prefix_of(parts.0) && ";base64"@.is_suffix_of(parts.0)
            && parts.1.len() > 0 {
            Some(parts.1)
        } else {
            None
        },
        None => None,
    }
}

/// How a reference image source is to be sent.
pub open spec fn reference_source(source: Seq<char>) -> ReferenceSourceView {
    let t = trim_ws(source);
    if t.len() == 0 {
        ReferenceSourceView::Skip
    } else if "http://"@.is_prefix_of(t) || "https://"@.is_prefix_of(t) {
        ReferenceSourceView::Inline(t)
    } else if data_url_payload(t) is Some {
        ReferenceSourceView::Inline(data_url_payload(t).unwrap())
    } else if looks_like_base64(t) {
        ReferenceSourceView::Inline(t)
    } else if "file://"@.is_prefix_of(t) {
        ReferenceSourceView::LocalFile(file_url_path(t))
    } else {
        ReferenceSourceView::LocalFile(t)
    }
}

/// Decides how a reference image is sent: blank sources are skipped, HTTP(S) URLs
/// and base64 data go as they are (a base64 data URL as its payload), and
/// anything else names a local file (a `file://` URL by its decoded path).
pub fn classify_reference(source: &str) -> (r: ReferenceSource)
    ensures
        r@ == reference_source(source@),
{
    proof {
        reveal_strlit("http://");
        reveal_strlit("https://");
        reveal_strlit("data:");
        reveal_strlit(";base64");
        reveal_strlit("file://");
    }
    let trimmed = trim(source);
    let t = trimmed.as_str();
    if t.is_empty() {
        return ReferenceSource::Skip;
    }
    if starts_with(t, "http://") || starts_with(t, "https://") {
        return ReferenceSource::Inline(trimmed);
    }
    if let Some(parts) = split_once_char(t, ',') {
        let (meta, payload) = parts;
        if starts_with(meta.as_str(), "data:") && ends_with(meta.as_str(), ";base64")
            && !payload.as_str().is_empty() {
            return ReferenceSource::Inline(payload);
        }
    }
    if is_likely_base64(t) {
        return ReferenceSource::Inline(trimmed);
    }
    if starts_with(t, "file://") {
        ReferenceSource::LocalFile(decode_file_url_path(t))
    } else {
        ReferenceSource::LocalFile(trimmed)
    }
}

/// The model name after its first `/`, or the whole name where it has none.
pub open spec fn bare_model(model: Seq<char>) -> Seq<char> {
    match split_once_spec(model, '/') {
        Some(parts) => parts.1,
        None => model,
    }
}

/// The model is one of the gpt-image-2 family.
pub open spec fn is_gpt_image_2(model: Seq<char>) -> bool {
    bare_model(model) == "gpt-image-2"@ || bare_model(model) == "gpt-image-2-vip"@
}

/// The bare model name (after an optional `provider/` prefix), as an owned string.
pub fn strip_provider_prefix(model: &str) -> (r: String)
    ensures
        r@ == bare_model(model@),
{
    match split_once_char(model, '/') {
        Some(parts) => parts.1,
        None => owned(model),
    }
}

/// Whether the model, with or without a `provider/` prefix, is `gpt-image-2` or `gpt-image-2-vip`.
pub fn is_gpt_image_2_model(model: &str) -> (r: bool)
    ensures
        r == is_gpt_image_2(model@),
{
    let bare = strip_provider_prefix(model);
    str_eq(bare.as_str(), "gpt-image-2") || str_eq(bare.as_str(), "gpt-image-2-vip")
}

} // verus!

verus! {

/// The gpt-image-2-vip pixel sizes, one row per aspect ratio and resolution:
/// `(a, b, k, w, h)` gives the aspect ratio `a:b` at resolution `k`K the size
/// `w`x`h`. Row `i` for `0 <= i < 43`; the rows of one ratio stand together, by
/// rising resolution.
pub open spec fn vip_row(i: int) -> (u32, u32, u32, u32, u32) {
    if i == 0 {
        (1, 1, 1, 1024, 1024)
    } else if i == 1 {
        (1, 1, 2, 2048, 2048)
    } else if i == 2 {
        (1, 1, 4, 2880, 2880)
    } else if i == 3 {
        (16, 9, 1, 1280, 720)
    } else if i == 4 {
        (16, 9, 2, 2048, 1152)
    } else if i == 5 {
        (16, 9, 4, 3840, 2160)
    } else if i == 6 {
        (9, 16, 1, 720, 1280)
    } else if i == 7 {
        (9, 16, 2, 1152, 2048)
    } else if i == 8 {
        (9, 16, 4, 2160, 3840)
    } else if i == 9 {
        (4, 3, 1, 1152, 864)
    } else if i == 10 {
        (4, 3, 2, 2304, 1728)
    } else if i == 11 {
        (4, 3, 4, 3264, 2448)
    } else if i == 12 {
        (3, 4, 1, 864, 1152)
    } else if i == 13 {
        (3, 4, 2, 1728, 2304)
    } else if i == 14 {
        (3, 4, 4, 2448, 3264)
    } else if i == 15 {
        (3, 2, 1, 1536, 1024)
    } else if i == 16 {
        (3, 2, 2, 2048, 1360)
    } else if i == 17 {
        (3, 2, 4, 3504, 2336)
    } else if i == 18 {
        (2, 3, 1, 1024, 1536)
    } else if i == 19 {
        (2, 3, 2, 1360, 2048)
    } else if i == 20 {
        (2, 3, 4, 2336, 3504)
    } else if i == 21 {
        (5, 4, 1, 1120, 896)
    } else if i == 22 {
        (5, 4, 2, 2240, 1792)
    } else if i == 23 {
        (5, 4, 4, 3200, 2560)
    } else if i == 24 {
        (4, 5, 1, 896, 1120)
    } else if i == 25 {
        (4, 5, 2, 1792, 2240)
    } else if i == 26 {
        (4, 5, 4, 2560, 3200)
    } else if i == 27 {
        (21, 9, 1, 1456, 624)
    } else if i == 28 {
        (21, 9, 2, 2912, 1248)
    } else if i == 29 {
        (21, 9, 4, 3840, 1648)
    } else if i == 30 {
        (9, 21, 1, 624, 1456)
    } else if i == 31 {
        (9, 21, 2, 1248, 2912)
    } else if i == 32 {
        (9, 21, 4, 1648, 3840)
    } else if i == 33 {
        (1, 3, 1, 688, 2048)
    } else if i == 34 {
        (1, 3, 2, 1280, 3840)
    } else if i == 35 {
        (3, 1, 1, 2048, 688)
    } else if i == 36 {
        (3, 1, 2, 3840, 1280)
    } else if i == 37 {
        (2, 1, 1, 1536, 768)
    } else if i == 38 {
        (2, 1, 2, 3072, 1536)
    } else if i == 39 {
        (2, 1, 4, 3840, 1920)
    } else if i == 40 {
        (1, 2, 1, 768, 1536)
    } else if i == 41 {
        (1, 2, 2, 1536, 3072)
    } else {
        (1, 2, 4, 1920, 3840)
    }
}

/// The number of rows of the gpt-image-2-vip table.
pub open spec fn vip_row_count() -> int {
    43
}

/// An aspect ratio as text: `a:b`.
pub open spec fn ratio_text(a: nat, b: nat) -> Seq<char> {
    decimal(a) + seq![':'] + decimal(b)
}

/// A resolution as text: `kK`.
pub open spec fn resolution_text(k: nat) -> Seq<char> {
    decimal(k) + seq!['K']
}

/// A pixel size as text: `wxh`.
pub open spec fn dims_text(w: nat, h: nat) -> Seq<char> {
    decimal(w) + seq!['x'] + decimal(h)
}

/// Row `i` of the table as text: aspect ratio, resolution, pixel size.
pub open spec fn vip_text_row(i: int) -> (Seq<char>, Seq<char>, Seq<char>) {
    let r = vip_row(i);
    (ratio_text(r.0 as nat, r.1 as nat), resolution_text(r.2 as nat), dims_text(r.3 as nat, r.4 as nat))
}

/// The pixel size of the first row at or after `from` for this aspect ratio and
/// resolution.
pub open spec fn vip_lookup(aspect_ratio: Seq<char>, size: Seq<char>, from: int) -> Option<Seq<char>>
    decreases vip_row_count() - from,
{
    if from < 0 || from >= vip_row_count() {
        None
    } else if vip_text_row(from).0 == aspect_ratio && vip_text_row(from).1 == size {
        Some(vip_text_row(from).2)
    } else {
        vip_lookup(aspect_ratio, size, from + 1)
    }
}

/// The gpt-image-2-vip pixel size for an aspect ratio and resolution, where the table has one.
pub open spec fn vip_dimensions(aspect_ratio: Seq<char>, size: Seq<char>) -> Option<Seq<char>> {
    vip_lookup(aspect_ratio, size, 0)
}

/// The error text for a combination that the table lacks.
pub open spec fn unsupported_vip_message(aspect_ratio: Seq<char>, size: Seq<char>) -> Seq<char> {
    "Unsupported aspect ratio / resolution combination for gpt-image-2-vip: "@ + aspect_ratio + " "@
        + size
}

fn vip_rows() -> (rows: Vec<(u32, u32, u32, u32, u32)>)
    ensures
        rows@.len() == vip_row_count(),
        forall|i: int| 0 <= i < rows@.len() ==> #[trigger] rows@[i] == vip_row(i),
{
    let rows = vec![
        (1, 1, 1, 1024, 1024),
        (1, 1, 2, 2048, 2048),
        (1, 1, 4, 2880, 2880),
        (16, 9, 1, 1280, 720),
        (16, 9, 2, 2048, 1152),
        (16, 9, 4, 3840, 2160),
        (9, 16, 1, 720, 1280),
        (9, 16, 2, 1152, 2048),
        (9, 16, 4, 2160, 3840),
        (4, 3, 1, 1152, 864),
        (4, 3, 2, 2304, 1728),
        (4, 3, 4, 3264, 2448),
        (3, 4, 1, 864, 1152),
        (3, 4, 2, 1728, 2304),
        (3, 4, 4, 2448, 3264),
        (3, 2, 1, 1536, 1024),
        (3, 2, 2, 2048, 1360),
        (3, 2, 4, 3504, 2336),
        (2, 3, 1, 1024, 1536),
        (2, 3, 2, 1360, 2048),
        (2, 3, 4, 2336, 3504),
        (5, 4, 1, 1120, 896),
        (5, 4, 2, 2240, 1792),
        (5, 4, 4, 3200, 2560),
        (4, 5, 1, 896, 1120),
        (4, 5, 2, 1792, 2240),
        (4, 5, 4, 2560, 3200),
        (21, 9, 1, 1456, 624),
        (21, 9, 2, 2912, 1248),
        (21, 9, 4, 3840, 1648),
        (9, 21, 1, 624, 1456),
        (9, 21, 2, 1248, 2912),
        (9, 21, 4, 1648, 3840),
        (1, 3, 1, 688, 2048),
        (1, 3, 2, 1280, 3840),
        (3, 1, 1, 2048, 688),
        (3, 1, 2, 3840, 1280),
        (2, 1, 1, 1536, 768),
        (2, 1, 2, 3072, 1536),
        (2, 1, 4, 3840, 1920),
        (1, 2, 1, 768, 1536),
        (1, 2, 2, 1536, 3072),
        (1, 2, 4, 1920, 3840),
    ];
    rows
}

/// `a:b` as a string.
fn ratio_string(a: u32, b: u32) -> (r: String)
    ensures
        r@ == ratio_text(a as nat, b as nat),
{
    let mut r = String::new();
    push_decimal(&mut r, a as u64);
    push_char(&mut r, ':');
    push_decimal(&mut r, b as u64);
    r
}

/// `kK` as a string.
fn resolution_string(k: u32) -> (r: String)
    ensures
        r@ == resolution_text(k as nat),
{
    let mut r = String::new();
    push_decimal(&mut r, k as u64);
    push_char(&mut r, 'K');
    r
}

/// `wxh` as a string.
fn dims_string(w: u32, h: u32) -> (r: String)
    ensures
        r@ == dims_text(w as nat, h as nat),
{
    let mut r = String::new();
    push_decimal(&mut r, w as u64);
    push_char(&mut r, 'x');
    push_decimal(&mut r, h as u64);
    r
}

/// The gpt-image-2-vip pixel size (`"WxH"`) for an aspect ratio and a resolution
/// (`1K`, `2K`, `4K`), or `InvalidRequest` naming the combination that has none.
pub fn resolve_gpt_image_2_vip_dimensions(aspect_ratio: &str, size: &str) -> (r: Result<String, AIError>)
    ensures
        match vip_dimensions(aspect_ratio@, size@) {
            Some(d) => result_view(r) == Ok::<Seq<char>, AIErrorView>(d),
            None => result_view(r) == Err::<Seq<char>, AIErrorView>(
                AIErrorView::InvalidRequest(unsupported_vip_message(aspect_ratio@, size@)),
            ),
        },
{
    let rows = vip_rows();
    let mut i: usize = 0;
    while i < rows.len()
        invariant
            rows@.len() == vip_row_count(),
            forall|k: int| 0 <= k < rows@.len() ==> #[trigger] rows@[k] == vip_row(k),
            i <= rows.len(),
            vip_dimensions(aspect_ratio@, size@) == vip_lookup(aspect_ratio@, size@, i as int),
        decreases rows.len() - i,
    {
        let row = rows[i];
        let ratio = ratio_string(row.0, row.1);
        let resolution = resolution_string(row.2);
        if str_eq(ratio.as_str(), aspect_ratio) && str_eq(resolution.as_str(), size) {
            return Ok(dims_string(row.3, row.4));
        }
        i = i + 1;
    }
    let mut message = concat3(
        "Unsupported aspect ratio / resolution combination for gpt-image-2-vip: ",
        aspect_ratio,
        " ",
    );
    message.append(size);
    Err(AIError::InvalidRequest(message))
}

} // verus!

verus! {

/// Where GRSAI is reached unless configured otherwise.
pub open spec fn default_base_url() -> Seq<char> {
    "https://grsai.dakka.com.cn"@
}

/// The GRSAI provider's own state: the API key once set, and the service's base URL.
pub struct GrsaiProvider {
    pub api_key: Option<String>,
    pub base_url: String,
}

/// A pro variant as the user wrote it, normalized: trimmed and lower-cased, kept
/// where it names `nano-banana-pro` or one of its `nano-banana-pro-` variants,
/// else `nano-banana-pro`.
pub open spec fn pro_variant(input: Seq<char>) -> Seq<char> {
    lowercased_pro_variant(lowercase(trim_ws(input)))
}

/// A lower-cased pro variant: kept where it names `nano-banana-pro` or one of its
/// `nano-banana-pro-` variants, else `nano-banana-pro`.
pub open spec fn lowercased_pro_variant(t: Seq<char>) -> Seq<char> {
    if t == "nano-banana-pro"@ || "nano-banana-pro-"@.is_prefix_of(t) {
        t
    } else {
        "nano-banana-pro"@
    }
}

/// The `grsai_pro_model` text among a request's extra parameters.
pub open spec fn pro_model_param(request: GenerateRequest) -> Option<Seq<char>> {
    match request.extra_params {
        Some(params) => match find_key(params@, "grsai_pro_model"@, 0) {
            Some(i) => json_as_str(params@[i].1),
            None => None,
        },
        None => None,
    }
}

/// The model that a request is sent with.
pub open spec fn normalized_model(request: GenerateRequest) -> Seq<char> {
    let requested = bare_model(request.model@);
    if requested == "gpt-image-2"@ || requested == "gpt-image-2-vip"@ {
        requested
    } else if requested == "nano-banana-2"@ {
        requested
    } else if requested == "nano-banana-pro"@ || "nano-banana-pro-"@.is_prefix_of(requested) {
        match pro_model_param(request) {
            Some(p) => pro_variant(p),
            None => requested,
        }
    } else {
        "nano-banana-pro"@
    }
}

/// The URL of a finished image in a GRSAI reply: `results[0].url`.
pub open spec fn result_url(payload: JsonValue) -> Option<Seq<char>> {
    opt_str(opt_get(opt_first(json_get(payload, "results"@)), "url"@))
}

/// The text of member `key` where it is a string.
pub open spec fn str_member(payload: JsonValue, key: Seq<char>) -> Option<Seq<char>> {
    opt_str(json_get(payload, key))
}

/// How one result reply reads.
pub open spec fn poll_outcome(payload: JsonValue) -> Result<PollView, AIErrorView> {
    match result_url(payload) {
        Some(url) => Ok(PollView::Succeeded(url)),
        None => match str_member(payload, "status"@) {
            None => Ok(PollView::Running),
            Some(status) => if status == "running"@ {
                Ok(PollView::Running)
            } else if status == "violation"@ {
                Ok(
                    PollView::Failed(
                        match str_member(payload, "error"@) {
                            Some(e) => e,
                            None => "content violation"@,
                        },
                    ),
                )
            } else if status == "failed"@ {
                Ok(
                    PollView::Failed(
                        match str_member(payload, "error"@) {
                            Some(e) => if e.len() > 0 {
                                e
                            } else {
                                "unknown failure"@
                            },
                            None => "unknown failure"@,
                        },
                    ),
                )
            } else {
                Err(AIErrorView::Provider("GRSAI unexpected task status: "@ + status))
            },
        },
    }
}

/// How a generate reply reads: a finished image, a queued task, or an error.
pub open spec fn submission_outcome(payload: JsonValue) -> Result<SubmissionView, AIErrorView> {
    match result_url(payload) {
        Some(url) => Ok(SubmissionView::Succeeded(url)),
        None => match str_member(payload, "id"@) {
            Some(id) => Ok(SubmissionView::Queued(id, None)),
            None => Err(AIErrorView::Provider("GRSAI response missing task id"@)),
        },
    }
}

/// The models that `supports_model` accepts without a `grsai/` prefix check.
pub open spec fn supported_models() -> Seq<Seq<char>> {
    seq![
        "nano-banana-2"@,
        "nano-banana-pro"@,
        "nano-banana-pro-vt"@,
        "nano-banana-pro-cl"@,
        "nano-banana-pro-vip"@,
        "nano-banana-pro-4k-vip"@,
        "grsai/nano-banana-pro"@,
        "gpt-image-2"@,
        "gpt-image-2-vip"@,
        "grsai/gpt-image-2"@,
        "grsai/gpt-image-2-vip"@,
    ]
}

/// The models the provider lists.
pub open spec fn listed_models() -> Seq<Seq<char>> {
    seq![
        "grsai/nano-banana-2"@,
        "grsai/nano-banana-pro"@,
        "grsai/gpt-image-2"@,
        "grsai/gpt-image-2-vip"@,
    ]
}

/// Whether the provider takes requests for this model.
pub open spec fn supports(model: Seq<char>) -> bool {
    "grsai/"@.is_prefix_of(model) || supported_models().contains(model)
}

fn supported_model_names() -> (r: Vec<&'static str>)
    ensures
        r@.len() == supported_models().len(),
        forall|i: int| 0 <= i < r@.len() ==> (#[trigger] r@[i])@ == supported_models()[i],
{
    vec![
        "nano-banana-2",
        "nano-banana-pro",
        "nano-banana-pro-vt",
        "nano-banana-pro-cl",
        "nano-banana-pro-vip",
        "nano-banana-pro-4k-vip",
        "grsai/nano-banana-pro",
        "gpt-image-2",
        "gpt-image-2-vip",
        "grsai/gpt-image-2",
        "grsai/gpt-image-2-vip",
    ]
}

/// The provider after its API key is set.
pub open spec fn with_api_key(p: GrsaiProvider, api_key: String) -> GrsaiProvider {
    GrsaiProvider { api_key: Some(api_key), base_url: p.base_url }
}

/// The `Authorization` header a provider sends: the bearer of its API key.
pub open spec fn authorization_of(p: GrsaiProvider) -> Result<Seq<char>, AIErrorView> {
    match p.api_key {
        Some(k) => Ok("Bearer "@ + k@),
        None => Err(AIErrorView::InvalidRequest("API key not set"@)),
    }
}

/// The views of a list of strings.
pub open spec fn views(v: Seq<String>) -> Seq<Seq<char>> {
    v.map_values(|s: String| s@)
}

impl GrsaiProvider {
    /// A provider with no API key, talking to the default GRSAI service.
    pub fn new() -> (r: Self)
        ensures
            r.api_key is None,
            r.base_url@ == default_base_url(),
    {
        GrsaiProvider { api_key: None, base_url: owned("https://grsai.dakka.com.cn") }
    }

    /// The provider's registry name.
    pub fn name(&self) -> (r: &'static str)
        ensures
            r@ == "grsai"@,
    {
        "grsai"
    }

    /// Queued GRSAI tasks can be polled again later.
    pub fn supports_task_resume(&self) -> (r: bool)
        ensures
            r,
    {
        true
    }

    /// Stores the API key that later requests authenticate with.
    pub fn set_api_key(&mut self, api_key: String)
        ensures
            *final(self) == with_api_key(*old(self), api_key),
    {
        self.api_key = Some(api_key);
    }

    /// The `Authorization` header value, or `InvalidRequest("API key not set")`.
    pub fn authorization(&self) -> (r: Result<String, AIError>)
        ensures
            result_view(r) == authorization_of(*self),
    {
        match &self.api_key {
            Some(k) => Ok(concat2("Bearer ", k.as_str())),
            None => Err(AIError::InvalidRequest(owned("API key not set"))),
        }
    }

    /// The URL that generate requests are posted to.
    pub fn generate_endpoint(&self) -> (r: String)
        ensures
            r@ == self.base_url@ + "/v1/api/generate"@,
    {
        concat2(self.base_url.as_str(), "/v1/api/generate")
    }

    /// The URL that task results are fetched from (with the task id as `id` query parameter).
    pub fn result_endpoint(&self) -> (r: String)
        ensures
            r@ == self.base_url@ + "/v1/api/result"@,
    {
        concat2(self.base_url.as_str(), "/v1/api/result")
    }

    /// Whether the provider takes requests for `model`: any `grsai/` model, and the
    /// listed GRSAI model names.
    pub fn supports_model(&self, model: &str) -> (r: bool)
        ensures
            r == supports(model@),
    {
        proof {
            reveal_strlit("grsai/");
        }
        if starts_with(model, "grsai/") {
            return true;
        }
        let names = supported_model_names();
        let mut i: usize = 0;
        while i < names.len()
            invariant
                names@.len() == supported_models().len(),
                forall|k: int| 0 <= k < names@.len() ==> (#[trigger] names@[k])@ == supported_models()[k],
                i <= names.len(),
                forall|k: int| 0 <= k < i ==> supported_models()[k] != model@,
            decreases names.len() - i,
        {
            if str_eq(names[i], model) {
                assert(supported_models()[i as int] == model@);
                return true;
            }
            i = i + 1;
        }
        false
    }

    /// The models that the provider offers.
    pub fn list_models(&self) -> (r: Vec<String>)
        ensures
            views(r@) == listed_models(),
    {
        let mut r: Vec<String> = Vec::new();
        r.push(owned("grsai/nano-banana-2"));
        r.push(owned("grsai/nano-banana-pro"));
        r.push(owned("grsai/gpt-image-2"));
        r.push(owned("grsai/gpt-image-2-vip"));
        assert(views(r@) =~= listed_models());
        r
    }

    /// A pro variant as the user wrote it, normalized (see [`pro_variant`]).
    pub fn normalize_pro_variant(input: &str) -> (r: String)
        ensures
            r@ == pro_variant(input@),
    {
        let trimmed = trim(input);
        let t = to_lowercase(trimmed.as_str());
        Self::pro_variant_from_lowercased(t)
    }

    /// The pro variant for text already trimmed and lower-cased (see
    /// [`lowercased_pro_variant`]).
    pub fn pro_variant_from_lowercased(t: String) -> (r: String)
        ensures
            r@ == lowercased_pro_variant(t@),
    {
        if str_eq(t.as_str(), "nano-banana-pro") || starts_with(t.as_str(), "nano-banana-pro-") {
            return t;
        }
        owned("nano-banana-pro")
    }

    /// The model that a request is sent with: gpt-image-2 models and
    /// `nano-banana-2` as requested, pro models as the `grsai_pro_model` parameter
    /// names them (normalized), everything else as `nano-banana-pro`.
    pub fn normalize_requested_model(&self, request: &GenerateRequest) -> (r: String)
        ensures
            r@ == normalized_model(*request),
    {
        let requested = strip_provider_prefix(request.model.as_str());
        let rq = requested.as_str();
        if str_eq(rq, "gpt-image-2") || str_eq(rq, "gpt-image-2-vip") {
            return requested;
        }
        if str_eq(rq, "nano-banana-2") {
            return requested;
        }
        if str_eq(rq, "nano-banana-pro") || starts_with(rq, "nano-banana-pro-") {
            let param = match &request.extra_params {
                Some(params) => str_opt(entries_get(params, "grsai_pro_model")),
                None => None,
            };
            return match param {
                Some(p) => Self::normalize_pro_variant(p),
                None => requested,
            };
        }
        owned("nano-banana-pro")
    }

    /// The URL of a finished image in a reply: `results[0].url`, where it is a string.
    pub fn extract_result_url(payload: &JsonValue) -> (r: Option<String>)
        ensures
            opt_view(r) == result_url(*payload),
    {
        let url = str_opt(get_opt(first_opt(payload.get("results")), "url"));
        match url {
            Some(u) => Some(owned(u)),
            None => None,
        }
    }
}

impl Default for GrsaiProvider {
    /// The same as [`GrsaiProvider::new`].
    fn default() -> (r: Self)
        ensures
            r.api_key is None,
            r.base_url@ == default_base_url(),
    {
        Self::new()
    }
}

/// `as_array().first()` on an optional value.
fn first_opt<'a>(v: Option<&'a JsonValue>) -> (r: Option<&'a JsonValue>)
    ensures
        deref_opt(r) == opt_first(deref_opt(v)),
{
    match v {
        Some(x) => x.first_element(),
        None => None,
    }
}

/// The text of member `key`, where it is a string.
fn member_str<'a>(payload: &'a JsonValue, key: &str) -> (r: Option<&'a str>)
    ensures
        match r {
            Some(s) => str_member(*payload, key@) == Some(s@),
            None => str_member(*payload, key@) is None,
        },
{
    str_opt(payload.get(key))
}

/// Reads one result reply: a result URL means success; otherwise the `status`
/// decides (`running` or none: still running; `violation`: failed, by the `error`
/// text or "content violation"; `failed`: failed, by a non-empty `error` text or
/// "unknown failure"); any other status is a provider error.
pub fn interpret_poll_payload(payload: &JsonValue) -> (r: Result<ProviderTaskPollResult, AIError>)
    ensures
        result_view(r) == poll_outcome(*payload),
{
    if let Some(url) = GrsaiProvider::extract_result_url(payload) {
        return Ok(ProviderTaskPollResult::Succeeded(url));
    }
    match member_str(payload, "status") {
        None => Ok(ProviderTaskPollResult::Running),
        Some(status) => {
            if str_eq(status, "running") {
                Ok(ProviderTaskPollResult::Running)
            } else if str_eq(status, "violation") {
                let reason = match member_str(payload, "error") {
                    Some(e) => owned(e),
                    None => owned("content violation"),
                };
                Ok(ProviderTaskPollResult::Failed(reason))
            } else if str_eq(status, "failed") {
                let reason = match member_str(payload, "error") {
                    Some(e) => if e.is_empty() {
                        owned("unknown failure")
                    } else {
                        owned(e)
                    },
                    None => owned("unknown failure"),
                };
                Ok(ProviderTaskPollResult::Failed(reason))
            } else {
                Err(AIError::Provider(concat2("GRSAI unexpected task status: ", status)))
            }
        },
    }
}

/// Reads a generate reply: a result URL means the image is ready; otherwise the
/// `id` names a queued task; without either the reply is a provider error.
pub fn submission_from_generate_response(payload: &JsonValue) -> (r: Result<ProviderTaskSubmission, AIError>)
    ensures
        result_view(r) == submission_outcome(*payload),
{
    if let Some(url) = GrsaiProvider::extract_result_url(payload) {
        return Ok(ProviderTaskSubmission::Succeeded(url));
    }
    match member_str(payload, "id") {
        Some(id) => Ok(ProviderTaskSubmission::Queued(ProviderTaskHandle { task_id: owned(id), metadata: None })),
        None => Err(AIError::Provider(owned("GRSAI response missing task id"))),
    }
}

} // verus!

verus! {

/// The body of a GRSAI generate request (sent as camelCase JSON, absent options omitted).
pub struct GrsaiGenerateRequestBody {
    pub model: String,
    pub prompt: String,
    pub images: Option<Vec<String>>,
    pub aspect_ratio: String,
    pub reply_type: String,
    pub image_size: Option<String>,
}

/// The aspect ratio and image size fields of a generate request.
pub struct GenerateSizing {
    pub aspect_ratio: String,
    pub image_size: Option<String>,
}

/// The sizing a model is sent with: gpt-image-2-vip takes its pixel size from the
/// table (an error where the table has none), other models the requested ratio;
/// only models outside the gpt-image-2 family send an image size.
pub open spec fn sizing_outcome(request: GenerateRequest, model: Seq<char>) -> Result<
    (Seq<char>, Option<Seq<char>>),
    AIErrorView,
> {
    let image_size = if is_gpt_image_2(model) {
        None
    } else {
        Some(request.size@)
    };
    if model == "gpt-image-2-vip"@ {
        match vip_dimensions(request.aspect_ratio@, request.size@) {
            Some(d) => Ok((d, image_size)),
            None => Err(
                AIErrorView::InvalidRequest(
                    unsupported_vip_message(request.aspect_ratio@, request.size@),
                ),
            ),
        }
    } else {
        Ok((request.aspect_ratio@, image_size))
    }
}

/// A sizing read by its views.
pub open spec fn sizing_view(s: GenerateSizing) -> (Seq<char>, Option<Seq<char>>) {
    (s.aspect_ratio@, opt_view(s.image_size))
}

/// Decides the aspect ratio and image size fields for `model`.
pub fn resolve_generate_sizing(request: &GenerateRequest, model: &str) -> (r: Result<GenerateSizing, AIError>)
    ensures
        match r {
            Ok(s) => sizing_outcome(*request, model@) == Ok::<_, AIErrorView>(sizing_view(s)),
            Err(e) => sizing_outcome(*request, model@) == Err::<(Seq<char>, Option<Seq<char>>), _>(e@),
        },
{
    let is_gpt = is_gpt_image_2_model(model);
    let is_gpt_vip = str_eq(model, "gpt-image-2-vip");
    let image_size = if is_gpt {
        None
    } else {
        Some(request.size.clone())
    };
    if is_gpt_vip {
        match resolve_gpt_image_2_vip_dimensions(request.aspect_ratio.as_str(), request.size.as_str()) {
            Ok(d) => Ok(GenerateSizing { aspect_ratio: d, image_size }),
            Err(e) => Err(e),
        }
    } else {
        Ok(GenerateSizing { aspect_ratio: request.aspect_ratio.clone(), image_size })
    }
}

/// The texts of the references that could be encoded, in order.
pub open spec fn encoded_images(e: Seq<Option<String>>) -> Seq<Seq<char>>
    decreases e.len(),
{
    if e.len() == 0 {
        seq![]
    } else {
        let rest = encoded_images(e.drop_last());
        match e.last() {
            Some(s) => rest.push(s@),
            None => rest,
        }
    }
}

/// The `images` field: the encoded references, left out where there are none.
pub open spec fn images_field(request: GenerateRequest, encoded: Seq<Option<String>>) -> Option<Seq<Seq<char>>> {
    match request.reference_images {
        Some(_) => if encoded_images(encoded).len() > 0 {
            Some(encoded_images(encoded))
        } else {
            None
        },
        None => None,
    }
}

/// The request names at least one reference image.
pub open spec fn has_references(request: GenerateRequest) -> bool {
    match request.reference_images {
        Some(v) => v@.len() > 0,
        None => false,
    }
}

/// The number of references a request names.
pub open spec fn reference_count(request: GenerateRequest) -> nat {
    match request.reference_images {
        Some(v) => v@.len(),
        None => 0,
    }
}

/// An optional list of strings read by its views.
pub open spec fn opt_views(o: Option<Vec<String>>) -> Option<Seq<Seq<char>>> {
    match o {
        Some(v) => Some(views(v@)),
        None => None,
    }
}

/// The texts of the encoded references, in order.
pub fn collect_encoded(encoded: Vec<Option<String>>) -> (r: Vec<String>)
    ensures
        views(r@) == encoded_images(encoded@),
{
    let mut out: Vec<String> = Vec::new();
    let mut rest = encoded;
    let ghost all = rest@;
    let mut i: usize = 0;
    let n = rest.len();
    let mut taken: Vec<Option<String>> = Vec::new();
    while taken.len() < n
        invariant
            n == all.len(),
            taken@ + rest@ == all,
            views(out@) == encoded_images(taken@),
        decreases n - taken.len(),
    {
        let item = rest.remove(0);
        let ghost before = taken@;
        match &item {
            Some(s) => out.push(s.clone()),
            None => {},
        }
        taken.push(item);
        assert(taken@.drop_last() =~= before);
        assert(views(out@) =~= encoded_images(taken@));
        assert(taken@ + rest@ =~= all);
    }
    assert(taken@ =~= all);
    out
}

/// Assembles a generate request body. The references have been encoded one by one
/// (`None` where one could not be); where the request names references and none
/// could be encoded the request is refused.
pub fn build_generate_body(
    request: &GenerateRequest,
    model: String,
    sizing: GenerateSizing,
    encoded: Vec<Option<String>>,
) -> (r: Result<GrsaiGenerateRequestBody, AIError>)
    requires
        encoded@.len() == reference_count(*request),
    ensures
        has_references(*request) && images_field(*request, encoded@) is None ==> (r matches Err(e)
            && e@ == AIErrorView::InvalidRequest(
            "Reference images are present but none could be encoded for GRSAI"@,
        )),
        !(has_references(*request) && images_field(*request, encoded@) is None) ==> (r matches Ok(
            body,
        ) && body.model@ == model@ && body.prompt@ == request.prompt@ && opt_views(body.images)
            == images_field(*request, encoded@) && body.aspect_ratio@ == sizing.aspect_ratio@
            && body.reply_type@ == "json"@ && opt_view(body.image_size) == opt_view(
            sizing.image_size,
        )),
{
    let images = match &request.reference_images {
        Some(_) => {
            let collected = collect_encoded(encoded);
            if collected.len() > 0 {
                Some(collected)
            } else {
                None
            }
        },
        None => None,
    };
    let has_refs = match &request.reference_images {
        Some(v) => v.len() > 0,
        None => false,
    };
    if has_refs && images.is_none() {
        return Err(
            AIError::InvalidRequest(
                owned("Reference images are present but none could be encoded for GRSAI"),
            ),
        );
    }
    Ok(
        GrsaiGenerateRequestBody {
            model,
            prompt: request.prompt.clone(),
            images,
            aspect_ratio: sizing.aspect_ratio,
            reply_type: owned("json"),
            image_size: sizing.image_size,
        },
    )
}

/// The error for a generate request that the service answered with a failure status.
pub fn generate_request_failed(status: &str, body: &str) -> (r: AIError)
    ensures
        r@ == AIErrorView::Provider("GRSAI generate request failed "@ + status@ + ": "@ + body@),
{
    let mut m = concat3("GRSAI generate request failed ", status, ": ");
    m.append(body);
    AIError::Provider(m)
}

/// The error for a result request that the service answered with a failure status.
pub fn result_request_failed(status: &str, body: &str) -> (r: AIError)
    ensures
        r@ == AIErrorView::Provider("GRSAI result request failed "@ + status@ + ": "@ + body@),
{
    let mut m = concat3("GRSAI result request failed ", status, ": ");
    m.append(body);
    AIError::Provider(m)
}

/// Milliseconds between two polls of a running task.
pub fn poll_interval_ms() -> (r: u64)
    ensures
        r == 2000,
{
    2000
}

/// What the polling loop does after one poll.
pub enum PollAction {
    /// Wait one interval and poll again.
    WaitAndRetry,
    /// Stop with this outcome.
    Finish(Result<String, AIError>),
}

/// The abstract form of a [`PollAction`].
pub enum PollActionView {
    WaitAndRetry,
    Finish(Result<Seq<char>, AIErrorView>),
}

impl View for PollAction {
    type V = PollActionView;

    open spec fn view(&self) -> PollActionView {
        match self {
            PollAction::WaitAndRetry => PollActionView::WaitAndRetry,
            PollAction::Finish(r) => PollActionView::Finish(result_view(*r)),
        }
    }
}

/// The step the polling loop takes on a poll outcome: keep waiting while the task
/// runs, return the URL once it succeeded, and stop with the error otherwise
/// (a failed task as `TaskFailed`).
pub open spec fn poll_step(outcome: Result<PollView, AIErrorView>) -> PollActionView {
    match outcome {
        Ok(PollView::Running) => PollActionView::WaitAndRetry,
        Ok(PollView::Succeeded(url)) => PollActionView::Finish(Ok(url)),
        Ok(PollView::SucceededWithMeta(url, _)) => PollActionView::Finish(Ok(url)),
        Ok(PollView::Failed(m)) => PollActionView::Finish(Err(AIErrorView::TaskFailed(m))),
        Err(e) => PollActionView::Finish(Err(e)),
    }
}

/// Decides the polling loop's next step from one poll outcome.
pub fn next_poll_action(outcome: Result<ProviderTaskPollResult, AIError>) -> (r: PollAction)
    ensures
        r@ == poll_step(result_view(outcome)),
{
    match outcome {
        Ok(ProviderTaskPollResult::Running) => PollAction::WaitAndRetry,
        Ok(ProviderTaskPollResult::Succeeded(url)) => PollAction::Finish(Ok(url)),
        Ok(ProviderTaskPollResult::SucceededWithMeta { url, seed: _ }) => PollAction::Finish(Ok(url)),
        Ok(ProviderTaskPollResult::Failed(m)) => PollAction::Finish(Err(AIError::TaskFailed(m))),
        Err(e) => PollAction::Finish(Err(e)),
    }
}

/// What a blocking generation does with the generate reply.
pub enum GenerateStep {
    /// The image is ready at this URL.
    Done(String),
    /// The task with this id is polled until it settles.
    Poll(String),
}

/// The abstract form of a [`GenerateStep`].
pub enum GenerateStepView {
    Done(Seq<char>),
    Poll(Seq<char>),
}

impl View for GenerateStep {
    type V = GenerateStepView;

    open spec fn view(&self) -> GenerateStepView {
        match self {
            GenerateStep::Done(u) => GenerateStepView::Done(u@),
            GenerateStep::Poll(t) => GenerateStepView::Poll(t@),
        }
    }
}

/// The step a blocking generation takes on the generate reply: a result URL is
/// returned at once, a task id is polled, and a reply with neither is the error
/// that [`submission_outcome`] gives.
pub open spec fn generate_step_for(payload: JsonValue) -> Result<GenerateStepView, AIErrorView> {
    match submission_outcome(payload) {
        Ok(SubmissionView::Succeeded(url)) => Ok(GenerateStepView::Done(url)),
        Ok(SubmissionView::Queued(id, _)) => Ok(GenerateStepView::Poll(id)),
        Err(e) => Err(e),
    }
}

/// Decides, from the generate reply, whether a blocking generation is done or
/// must poll its task.
pub fn generate_step(payload: &JsonValue) -> (r: Result<GenerateStep, AIError>)
    ensures
        result_view(r) == generate_step_for(*payload),
{
    match submission_from_generate_response(payload) {
        Ok(ProviderTaskSubmission::Succeeded(url)) => Ok(GenerateStep::Done(url)),
        Ok(ProviderTaskSubmission::Queued(handle)) => Ok(GenerateStep::Poll(handle.task_id)),
        Err(e) => Err(e),
    }
}

} // verus!
