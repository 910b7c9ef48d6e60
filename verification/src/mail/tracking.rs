//! Open tracking of outbound mail: tracking ids, integration URLs, the hidden
//! tracking pixel, HTML bodies, and the reading of open-status answers.
use vstd::prelude::*;
use crate::json::{json_value_error, json_value_error_of};
use crate::text::{
    concat2, concat3, is_blank, opt_str, opt_string, owned, replace_seq, replace_str,
    seq_contains, starts_with_seq, starts_with_str, str_is_empty, string_of, contains_str,
    trim_end_char, trim_end_char_seq, trim_seq, trim_str, u64_to_decimal, decimal_seq,
};

verus! {

/// Settings of the remote email-read integration.
#[derive(Debug, Clone)]
pub struct MailEmailReadIntegrationConfig {
    pub enabled: bool,
    /// Base URL of the service.
    pub api_base: String,
    /// Path template of the tracking pixel (`{{base}}`, `{{email}}`, `{{mailId}}`).
    pub pixel_path_template: String,
    /// Path template of the open-status query.
    pub query_path_template: String,
    /// Script that parses the service's answer.
    pub parse_script: String,
}

// ---------------------------------------------------------------------------
// Tracking ids

/// Whether `c` is a lowercase hexadecimal digit.
pub open spec fn is_lower_hex(c: char) -> bool {
    ('0' <= c && c <= '9') || ('a' <= c && c <= 'f')
}

/// `uuid::Uuid::new_v4().simple().to_string()`: a random version-4 UUID in
/// the simple format, which the crate documents as 32 lowercase hexadecimal
/// digits. Which digits come out is left open.
#[verifier::external_body]
fn uuid_v4_simple() -> (r: String)
    ensures
        r@.len() == 32,
        forall|i: int| 0 <= i < 32 ==> is_lower_hex(#[trigger] r@[i]),
{
    uuid::Uuid::new_v4().simple().to_string()
}

/// A fresh tracking id: 32 hexadecimal digits.
pub fn make_tracking_id() -> (r: String)
    ensures
        r@.len() == 32,
        forall|i: int| 0 <= i < 32 ==> is_lower_hex(#[trigger] r@[i]),
{
    uuid_v4_simple()
}

// ---------------------------------------------------------------------------
// URLs

/// Bytes kept as they are by the URL encoding: ASCII letters, digits and `-_.~`.
pub open spec fn unreserved(b: u8) -> bool {
    (65 <= b <= 90) || (97 <= b <= 122) || (48 <= b <= 57) || b == 45 || b == 95 || b == 46 || b == 126
}

/// The uppercase hexadecimal digit of `d` (below 16).
pub open spec fn hex_upper(d: u8) -> char {
    if d < 10 {
        (48 + d) as char
    } else {
        (55 + d) as char
    }
}

/// The encoding of one byte: itself when unreserved, else `%` and two
/// uppercase hexadecimal digits.
pub open spec fn encode_byte(b: u8) -> Seq<char> {
    if unreserved(b) {
        seq![b as char]
    } else {
        seq!['%', hex_upper(b / 16), hex_upper(b % 16)]
    }
}

/// Percent-encoding of bytes, byte by byte.
pub open spec fn url_encode_bytes(bytes: Seq<u8>) -> Seq<char>
    decreases bytes.len(),
{
    if bytes.len() == 0 {
        Seq::empty()
    } else {
        url_encode_bytes(bytes.drop_last()) + encode_byte(bytes.last())
    }
}

/// Percent-encoding of the UTF-8 bytes of a string.
pub open spec fn url_encode_spec(value: Seq<char>) -> Seq<char> {
    url_encode_bytes(vstd::utf8::encode_utf8(value))
}

fn hex_digit(d: u8) -> (c: char)
    requires
        d < 16,
    ensures
        c == hex_upper(d),
{
    if d < 10 {
        (48 + d) as char
    } else {
        (55 + d) as char
    }
}

/// Percent-encodes the UTF-8 bytes of `value` (unreserved bytes kept).
pub fn url_encode(value: &str) -> (r: String)
    ensures
        r@ == url_encode_spec(value@),
{
    let bytes = value.as_bytes();
    let ghost b = bytes@;
    assert(b == vstd::utf8::encode_utf8(value@));
    let mut out: Vec<char> = Vec::new();
    let mut k: usize = 0;
    while k < bytes.len()
        invariant
            k <= bytes@.len(),
            b == bytes@,
            out@ == url_encode_bytes(b.take(k as int)),
        decreases bytes.len() - k,
    {
        let x: u8 = bytes[k];
        let ghost before = out@;
        if (65 <= x && x <= 90) || (97 <= x && x <= 122) || (48 <= x && x <= 57) || x == 45 || x == 95 || x == 46
            || x == 126 {
            out.push(x as char);
        } else {
            out.push('%');
            out.push(hex_digit(x / 16));
            out.push(hex_digit(x % 16));
        }
        proof {
            assert(b.take(k as int + 1).drop_last() =~= b.take(k as int));
            assert(out@ =~= before + encode_byte(x));
        }
        k = k + 1;
    }
    assert(b.take(bytes.len() as int) =~= b);
    string_of(&out)
}

/// The integration is on: enabled with a base URL that is not blank.
pub open spec fn integration_on(config: MailEmailReadIntegrationConfig) -> bool {
    config.enabled && trim_seq(config.api_base@).len() > 0
}

/// Whether remote open tracking is on.
pub fn integration_enabled(config: &MailEmailReadIntegrationConfig) -> (b: bool)
    ensures
        b == integration_on(*config),
{
    config.enabled && !is_blank(config.api_base.as_str())
}

/// The base URL: trimmed, without trailing slashes.
pub open spec fn base_url(config: MailEmailReadIntegrationConfig) -> Seq<char> {
    trim_end_char_seq(trim_seq(config.api_base@), '/')
}

/// The integration URL of a path template: `{{base}}`, `{{email}}` and
/// `{{mailId}}` replaced (the last two percent-encoded); an absolute result is
/// kept, otherwise the base is put in front (with a `/` between).
pub open spec fn integration_url(
    config: MailEmailReadIntegrationConfig,
    template: Seq<char>,
    recipient_email: Seq<char>,
    tracking_id: Seq<char>,
) -> Seq<char> {
    let base = base_url(config);
    let path = replace_seq(
        replace_seq(replace_seq(template, "{{base}}"@, base), "{{email}}"@, url_encode_spec(recipient_email)),
        "{{mailId}}"@,
        url_encode_spec(tracking_id),
    );
    if starts_with_seq(path, "http://"@) || starts_with_seq(path, "https://"@) {
        path
    } else if starts_with_seq(path, "/"@) {
        base + path
    } else {
        base + "/"@ + path
    }
}

/// Builds the absolute URL of a path template (see [`integration_url`]).
pub fn build_integration_url(
    config: &MailEmailReadIntegrationConfig,
    path_template: &str,
    recipient_email: &str,
    tracking_id: &str,
) -> (r: String)
    ensures
        r@ == integration_url(*config, path_template@, recipient_email@, tracking_id@),
{
    proof {
        reveal_strlit("{{base}}");
        reveal_strlit("{{email}}");
        reveal_strlit("{{mailId}}");
    }
    let trimmed = trim_str(config.api_base.as_str());
    let base = trim_end_char(trimmed.as_str(), '/');
    let p1 = replace_str(path_template, "{{base}}", base.as_str());
    let email = url_encode(recipient_email);
    let p2 = replace_str(p1.as_str(), "{{email}}", email.as_str());
    let id = url_encode(tracking_id);
    let path = replace_str(p2.as_str(), "{{mailId}}", id.as_str());
    if starts_with_str(path.as_str(), "http://") || starts_with_str(path.as_str(), "https://") {
        path
    } else if starts_with_str(path.as_str(), "/") {
        concat2(base.as_str(), path.as_str())
    } else {
        concat3(base.as_str(), "/", path.as_str())
    }
}

// ---------------------------------------------------------------------------
// HTML

/// The hidden 1×1 image that loads `src`.
pub open spec fn pixel_tag(src: Seq<char>) -> Seq<char> {
    "<img src=\""@ + src
        + "\" width=\"1\" height=\"1\" alt=\"\" style=\"display:none;width:1px;height:1px;border:0;opacity:0\" />"@
}

/// The HTML with the tracking pixel: unchanged when the integration is off or
/// the tracking id is empty; else the pixel goes before each `</body>` and
/// `</BODY>` when the HTML has either, and at the end otherwise (a closing tag
/// in mixed case, such as `</Body>`, gets the pixel at the end).
pub open spec fn with_pixel(
    config: MailEmailReadIntegrationConfig,
    html: Seq<char>,
    tracking_id: Seq<char>,
    recipient_email: Seq<char>,
) -> Seq<char> {
    if !integration_on(config) || tracking_id.len() == 0 {
        html
    } else {
        let pixel = pixel_tag(integration_url(config, config.pixel_path_template@, recipient_email, tracking_id));
        if seq_contains(html, "</body>"@) || seq_contains(html, "</BODY>"@) {
            replace_seq(replace_seq(html, "</body>"@, pixel + "</body>"@), "</BODY>"@, pixel + "</BODY>"@)
        } else {
            html + pixel
        }
    }
}

/// Appends the hidden tracking pixel (see [`with_pixel`]).
pub fn append_open_tracking_pixel(
    config: &MailEmailReadIntegrationConfig,
    html: &str,
    tracking_id: &str,
    recipient_email: &str,
) -> (r: String)
    ensures
        r@ == with_pixel(*config, html@, tracking_id@, recipient_email@),
{
    if !integration_enabled(config) {
        return owned(html);
    }
    if str_is_empty(tracking_id) {
        return owned(html);
    }
    proof {
        reveal_strlit("</body>");
        reveal_strlit("</BODY>");
    }
    let src = build_integration_url(config, config.pixel_path_template.as_str(), recipient_email, tracking_id);
    let pixel = concat3(
        "<img src=\"",
        src.as_str(),
        "\" width=\"1\" height=\"1\" alt=\"\" style=\"display:none;width:1px;height:1px;border:0;opacity:0\" />",
    );
    if contains_str(html, "</body>") || contains_str(html, "</BODY>") {
        let lower_close = concat2(pixel.as_str(), "</body>");
        let upper_close = concat2(pixel.as_str(), "</BODY>");
        let first = replace_str(html, "</body>", lower_close.as_str());
        replace_str(first.as_str(), "</BODY>", upper_close.as_str())
    } else {
        concat2(html, pixel.as_str())
    }
}

/// Plain text as HTML: `&`, `<` and `>` escaped, in a pre-wrapped `div`.
pub open spec fn text_html(text: Seq<char>) -> Seq<char> {
    let escaped = replace_seq(replace_seq(replace_seq(text, "&"@, "&amp;"@), "<"@, "&lt;"@), ">"@, "&gt;"@);
    "<html><body><div style=\"white-space:pre-wrap;\">"@ + escaped + "</div></body></html>"@
}

/// Wraps plain text as HTML (see [`text_html`]).
pub fn text_to_html(text: &str) -> (r: String)
    ensures
        r@ == text_html(text@),
{
    proof {
        reveal_strlit("&");
        reveal_strlit("<");
        reveal_strlit(">");
    }
    let a = replace_str(text, "&", "&amp;");
    let b = replace_str(a.as_str(), "<", "&lt;");
    let c = replace_str(b.as_str(), ">", "&gt;");
    concat3("<html><body><div style=\"white-space:pre-wrap;\">", c.as_str(), "</div></body></html>")
}

/// The outbound HTML: the trimmed HTML body when one is given and not blank,
/// else the text body as HTML; `None` when that is blank.
pub open spec fn outbound_html(body_text: Seq<char>, body_html: Option<Seq<char>>) -> Option<Seq<char>> {
    let html = match body_html {
        Some(h) => if trim_seq(h).len() > 0 {
            trim_seq(h)
        } else {
            text_html(body_text)
        },
        None => text_html(body_text),
    };
    if trim_seq(html).len() == 0 {
        None
    } else {
        Some(html)
    }
}

/// The HTML to send over SMTP (see [`outbound_html`]).
pub fn prepare_outbound_html(body_text: &str, body_html: Option<&str>) -> (r: Option<String>)
    ensures
        opt_string(r) == outbound_html(body_text@, opt_str(body_html)),
{
    let html = match body_html {
        Some(h) => {
            let t = trim_str(h);
            if str_is_empty(t.as_str()) {
                text_to_html(body_text)
            } else {
                t
            }
        },
        None => text_to_html(body_text),
    };
    if is_blank(html.as_str()) {
        None
    } else {
        Some(html)
    }
}

/// The HTML to send over SMTP with the tracking pixel.
pub fn prepare_tracked_html(
    config: &MailEmailReadIntegrationConfig,
    body_text: &str,
    body_html: Option<&str>,
    tracking_id: &str,
    recipient_email: &str,
) -> (r: Option<String>)
    ensures
        match outbound_html(body_text@, opt_str(body_html)) {
            Some(h) => r matches Some(s) && s@ == with_pixel(*config, h, tracking_id@, recipient_email@),
            None => r is None,
        },
{
    let base_html = match prepare_outbound_html(body_text, body_html) {
        Some(h) => h,
        None => return None,
    };
    Some(append_open_tracking_pixel(config, base_html.as_str(), tracking_id, recipient_email))
}

// ---------------------------------------------------------------------------
// Open status

/// The URL of the open-status query, `None` when the integration is off or
/// the (trimmed) recipient or tracking id is empty.
pub open spec fn open_status_query(
    config: MailEmailReadIntegrationConfig,
    recipient_email: Seq<char>,
    tracking_id: Seq<char>,
) -> Option<Seq<char>> {
    if !integration_on(config) || trim_seq(recipient_email).len() == 0 || trim_seq(tracking_id).len() == 0 {
        None
    } else {
        Some(integration_url(config, config.query_path_template@, trim_seq(recipient_email), trim_seq(tracking_id)))
    }
}

/// The URL to ask for the recipient's open events (see [`open_status_query`]).
pub fn open_status_url(config: &MailEmailReadIntegrationConfig, recipient_email: &str, tracking_id: &str) -> (r:
    Option<String>)
    ensures
        opt_string(r) == open_status_query(*config, recipient_email@, tracking_id@),
{
    if !integration_enabled(config) {
        return None;
    }
    let recipient = trim_str(recipient_email);
    let tracking = trim_str(tracking_id);
    if str_is_empty(recipient.as_str()) || str_is_empty(tracking.as_str()) {
        return None;
    }
    Some(build_integration_url(config, config.query_path_template.as_str(), recipient.as_str(), tracking.as_str()))
}

/// The URL of a probe, or why it cannot be made.
pub open spec fn probe_query(
    config: MailEmailReadIntegrationConfig,
    recipient_email: Seq<char>,
    tracking_id: Seq<char>,
) -> Result<Seq<char>, Seq<char>> {
    if !integration_on(config) {
        Err("mail.integration.disabled"@)
    } else if trim_seq(recipient_email).len() == 0 || trim_seq(tracking_id).len() == 0 {
        Err("mail.integration.probe_params_invalid"@)
    } else {
        Ok(integration_url(config, config.query_path_template@, trim_seq(recipient_email), trim_seq(tracking_id)))
    }
}

/// The value of a string result.
pub open spec fn result_view(r: Result<String, String>) -> Result<Seq<char>, Seq<char>> {
    match r {
        Ok(s) => Ok(s@),
        Err(e) => Err(e@),
    }
}

/// The URL to probe, or why the probe cannot be made (see [`probe_query`]).
pub fn probe_url(config: &MailEmailReadIntegrationConfig, recipient_email: &str, tracking_id: &str) -> (r: Result<
    String,
    String,
>)
    ensures
        result_view(r) == probe_query(*config, recipient_email@, tracking_id@),
{
    if !integration_enabled(config) {
        return Err(owned("mail.integration.disabled"));
    }
    let recipient = trim_str(recipient_email);
    let tracking = trim_str(tracking_id);
    if str_is_empty(recipient.as_str()) || str_is_empty(tracking.as_str()) {
        return Err(owned("mail.integration.probe_params_invalid"));
    }
    Ok(build_integration_url(config, config.query_path_template.as_str(), recipient.as_str(), tracking.as_str()))
}

/// The verdict on a probe's HTTP answer: a failed status reports it with the
/// body; an empty body, or one that is not JSON once trimmed, is refused;
/// else the body is returned.
pub open spec fn probe_answer(success: bool, status: u16, body: Seq<char>) -> Result<Seq<char>, Seq<char>> {
    if !success {
        Err("mail.integration.http_"@ + decimal_seq(status as nat) + ": "@ + body)
    } else if trim_seq(body).len() == 0 {
        Err("mail.integration.empty_response"@)
    } else {
        match json_value_error(trim_seq(body)) {
            Some(e) => Err("mail.integration.invalid_json: "@ + e),
            None => Ok(body),
        }
    }
}

/// Judges a probe's HTTP answer (see [`probe_answer`]).
pub fn probe_verdict(success: bool, status: u16, body: String) -> (r: Result<String, String>)
    ensures
        result_view(r) == probe_answer(success, status, body@),
{
    if !success {
        let head = concat3("mail.integration.http_", u64_to_decimal(status as u64).as_str(), ": ");
        return Err(concat2(head.as_str(), body.as_str()));
    }
    let trimmed = trim_str(body.as_str());
    if str_is_empty(trimmed.as_str()) {
        return Err(owned("mail.integration.empty_response"));
    }
    match json_value_error_of(trimmed.as_str()) {
        Some(e) => Err(concat2("mail.integration.invalid_json: ", e.as_str())),
        None => Ok(body),
    }
}

/// An open event of the answer: the string values of its candidate
/// timestamp fields (`None` where the field is missing or not a string).
#[derive(Debug, Clone)]
pub struct OpenRecord {
    pub opened_at: Option<String>,
    pub open_time: Option<String>,
    pub timestamp: Option<String>,
    pub time: Option<String>,
    pub created_at: Option<String>,
}

/// The first candidate (in field order) that is not blank, trimmed.
pub open spec fn open_timestamp(r: OpenRecord) -> Option<Seq<char>> {
    let c = seq![r.opened_at, r.open_time, r.timestamp, r.time, r.created_at];
    first_text(c)
}

/// The first present and non-blank text, trimmed.
pub open spec fn first_text(c: Seq<Option<String>>) -> Option<Seq<char>>
    decreases c.len(),
{
    if c.len() == 0 {
        None
    } else {
        match c[0] {
            Some(s) => if trim_seq(s@).len() > 0 {
                Some(trim_seq(s@))
            } else {
                first_text(c.drop_first())
            },
            None => first_text(c.drop_first()),
        }
    }
}

/// The open status of an answer whose `items` array holds the given events
/// (`None`: no such array): the first event's timestamp and the number of
/// events, or nothing and 0 when there are none.
pub open spec fn open_status(items: Option<Seq<OpenRecord>>) -> (Option<Seq<char>>, int) {
    match items {
        None => (None, 0),
        Some(v) => if v.len() == 0 {
            (None, 0)
        } else {
            (open_timestamp(v[0]), v.len() as int)
        },
    }
}

fn candidate(o: &Option<String>) -> (r: Option<String>)
    ensures
        match *o {
            Some(s) => if trim_seq(s@).len() > 0 {
                opt_string(r) == Some(trim_seq(s@))
            } else {
                r is None
            },
            None => r is None,
        },
{
    match o {
        Some(s) => {
            let t = trim_str(s.as_str());
            if str_is_empty(t.as_str()) {
                None
            } else {
                Some(t)
            }
        },
        None => None,
    }
}

/// The event's timestamp (see [`open_timestamp`]).
fn extract_open_timestamp(item: &OpenRecord) -> (r: Option<String>)
    ensures
        opt_string(r) == open_timestamp(*item),
{
    let ghost c = seq![item.opened_at, item.open_time, item.timestamp, item.time, item.created_at];
    proof {
        reveal_with_fuel(first_text, 6);
        assert(c.drop_first() =~= seq![item.open_time, item.timestamp, item.time, item.created_at]);
        assert(c.drop_first().drop_first() =~= seq![item.timestamp, item.time, item.created_at]);
        assert(c.drop_first().drop_first().drop_first() =~= seq![item.time, item.created_at]);
        assert(c.drop_first().drop_first().drop_first().drop_first() =~= seq![item.created_at]);
        assert(c.drop_first().drop_first().drop_first().drop_first().drop_first() =~= Seq::<Option<String>>::empty());
    }
    let a = candidate(&item.opened_at);
    if a.is_some() {
        return a;
    }
    let b = candidate(&item.open_time);
    if b.is_some() {
        return b;
    }
    let t = candidate(&item.timestamp);
    if t.is_some() {
        return t;
    }
    let u = candidate(&item.time);
    if u.is_some() {
        return u;
    }
    candidate(&item.created_at)
}

/// Reads an open-status answer (see [`open_status`]).
pub fn parse_open_payload(items: Option<Vec<OpenRecord>>) -> (r: Option<(Option<String>, i64)>)
    requires
        items matches Some(v) ==> v@.len() <= i64::MAX,
    ensures
        r matches Some(p) && opt_string(p.0) == open_status(match items {
            Some(v) => Some(v@),
            None => None,
        }).0 && p.1 == open_status(match items {
            Some(v) => Some(v@),
            None => None,
        }).1,
{
    match items {
        None => Some((None, 0)),
        Some(v) => {
            if v.len() == 0 {
                Some((None, 0))
            } else {
                let count = v.len() as i64;
                Some((extract_open_timestamp(&v[0]), count))
            }
        },
    }
}


/// A character that may stand in a percent-encoded string: an unreserved
/// ASCII character, `%`, or an uppercase hexadecimal digit.
pub open spec fn url_safe_char(c: char) -> bool {
    ('A' <= c && c <= 'Z') || ('a' <= c && c <= 'z') || ('0' <= c && c <= '9') || c == '-' || c == '_' || c == '.'
        || c == '~' || c == '%'
}

/// Percent-encoding yields only URL-safe characters, whatever the input.
pub proof fn lemma_url_encode_safe(bytes: Seq<u8>)
    ensures
        forall|i: int| 0 <= i < url_encode_bytes(bytes).len() ==> url_safe_char(#[trigger] url_encode_bytes(bytes)[i]),
    decreases bytes.len(),
{
    if bytes.len() > 0 {
        lemma_url_encode_safe(bytes.drop_last());
        let prev = url_encode_bytes(bytes.drop_last());
        let b = bytes.last();
        let e = encode_byte(b);
        let r = url_encode_bytes(bytes);
        assert(r == prev + e);
        assert forall|i: int| 0 <= i < e.len() implies url_safe_char(#[trigger] e[i]) by {
            if unreserved(b) {
                assert(e[i] == b as char);
            } else {
                assert(b / 16 < 16 && b % 16 < 16);
            }
        }
        assert forall|i: int| 0 <= i < r.len() implies url_safe_char(#[trigger] r[i]) by {
            if i < prev.len() {
                assert(r[i] == prev[i]);
            } else {
                assert(r[i] == e[i - prev.len()]);
            }
        }
    }
}

} // verus!
