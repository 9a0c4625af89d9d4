//! Access to result downloads: the reCAPTCHA response in a download request,
//! its reuse quota, the verification request sent to Google, and the path of
//! the file served.
use vstd::prelude::*;
use crate::report::opt_text;
use crate::text::{push_str, replace_all, same_text, string_from};

verus! {

/// The placeholder for a parameter that is missing or unreadable.
pub const UNKNOWN: &'static str = "_unknown_";

/// Calls `std::str::from_utf8`. Claimed: `Some` exactly when the bytes are valid
/// UTF-8, holding the characters they encode.
#[verifier::external_body]
pub(crate) fn utf8_text(bytes: &[u8]) -> (r: Option<String>)
    ensures
        r is Some <==> vstd::utf8::valid_utf8(bytes@),
        r matches Some(s) ==> s@ == vstd::utf8::decode_utf8(bytes@),
{
    match std::str::from_utf8(bytes) {
        Ok(s) => Some(s.to_string()),
        Err(_) => None,
    }
}

/// The text of Google's answer to a verification request, when it is valid UTF-8.
pub fn captcha_reply_text(body: &[u8]) -> (r: Option<String>)
    ensures
        r is Some <==> vstd::utf8::valid_utf8(body@),
        r matches Some(s) ==> s@ == vstd::utf8::decode_utf8(body@),
{
    utf8_text(body)
}

/// The characters of the UTF-8 bytes, or `_unknown_` when they are not valid UTF-8.
pub open spec fn text_or_unknown(bytes: Seq<u8>) -> Seq<char> {
    if vstd::utf8::valid_utf8(bytes) {
        vstd::utf8::decode_utf8(bytes)
    } else {
        UNKNOWN@
    }
}

/// The reCAPTCHA response in the body of a download request: what follows the
/// first 21 bytes, read as UTF-8 (`_unknown_` if it is not), with the form field
/// name `&g-recaptcha-response=` removed; `_unknown_` for a body of 21 bytes or less.
pub open spec fn recaptcha_response_of(data: Seq<u8>) -> Seq<char> {
    if data.len() > 21 {
        crate::text::replaced(
            text_or_unknown(data.subrange(21, data.len() as int)),
            "&g-recaptcha-response="@,
            Seq::empty(),
        )
    } else {
        UNKNOWN@
    }
}

/// The reCAPTCHA response in the body of a download request.
pub fn recaptcha_response(data: &[u8]) -> (r: String)
    ensures
        r@ == recaptcha_response_of(data@),
{
    if data.len() > 21 {
        let (_, tail) = data.split_at(21);
        let text = match utf8_text(tail) {
            Some(t) => t,
            None => string_from(UNKNOWN),
        };
        proof {
            reveal_strlit("&g-recaptcha-response=");
        }
        let r = replace_all(text.as_str(), "&g-recaptcha-response=", "");
        proof {
            assert(""@ =~= Seq::<char>::empty()) by {
                reveal_strlit("");
            }
        }
        r
    } else {
        string_from(UNKNOWN)
    }
}

/// What a download does with the reuse quota stored for its reCAPTCHA response.
pub enum QuotaStep {
    /// The download is allowed; the quota left is stored, or removed when `None`.
    Grant { remaining: Option<usize> },
    /// No quota is left: the response is checked with Google.
    AskRemote,
}

/// The step a stored quota selects.
pub open spec fn quota_step(quota: usize) -> QuotaStep {
    if quota == 0 {
        QuotaStep::AskRemote
    } else if quota == 1 {
        QuotaStep::Grant { remaining: None }
    } else {
        QuotaStep::Grant { remaining: Some((quota - 1) as usize) }
    }
}

/// The quota stored after a step that grants a download (a removed quota reads as 0).
pub open spec fn quota_after(step: QuotaStep) -> int {
    match step {
        QuotaStep::Grant { remaining: Some(n) } => n as int,
        _ => 0,
    }
}

/// Downloads a stored quota allows: a quota above one is decremented, a quota of
/// one is removed, and without quota the response goes to Google.
pub fn captcha_quota_step(quota: usize) -> (r: QuotaStep)
    ensures
        r == quota_step(quota),
{
    if quota == 0 {
        QuotaStep::AskRemote
    } else if quota == 1 {
        QuotaStep::Grant { remaining: None }
    } else {
        QuotaStep::Grant { remaining: Some(quota - 1) }
    }
}

/// The number of further downloads a response checked with Google allows.
pub open spec fn reuse_quota() -> usize {
    19
}

/// Whether Google's answer allows the download, and the reuse quota then stored.
pub open spec fn remote_outcome(success: Option<bool>) -> (bool, Option<usize>) {
    if success == Some(true) {
        (true, Some(reuse_quota()))
    } else {
        (false, None)
    }
}

/// What Google's answer decides: whether the download is allowed and, if so,
/// the reuse quota to store (19 further downloads). An answer that could not be
/// read counts as a refusal.
pub fn captcha_remote_outcome(success: Option<bool>) -> (r: (bool, Option<usize>))
    ensures
        r == remote_outcome(success),
{
    match success {
        Some(true) => (true, Some(19)),
        _ => (false, None),
    }
}

/// Where a refused download is sent: to the page that expires the captcha when a
/// response was given, to the front page otherwise.
pub fn denied_redirect(response: &str) -> (r: &'static str)
    ensures
        r@ == (if response@ != UNKNOWN@ {
            "/expire_captcha"@
        } else {
            "/"@
        }),
{
    if !same_text(response, UNKNOWN) {
        "/expire_captcha"
    } else {
        "/"
    }
}

/// The address of Google's verification service with the secret and the response.
pub fn captcha_verification_url(captcha_secret: &str, response: &str) -> (r: String)
    ensures
        r@ == "https://www.google.com/recaptcha/api/siteverify?secret="@ + captcha_secret@
            + "&response="@ + response@,
{
    let mut url = string_from("https://www.google.com/recaptcha/api/siteverify?secret=");
    push_str(&mut url, captcha_secret);
    push_str(&mut url, "&response=");
    push_str(&mut url, response);
    url
}

/// What `{:?}` writes for a string: the string quoted, with its special
/// characters escaped.
pub uninterp spec fn debug_repr(s: Seq<char>) -> Seq<char>;

/// Calls `format!("{:?}", s)`, the `Debug` form of a string slice. Claimed: the
/// result depends on `s` alone (it is named, not described).
#[verifier::external_body]
pub(crate) fn debug_text(s: &str) -> (r: String)
    ensures
        r@ == debug_repr(s@),
{
    format!("{:?}", s)
}

/// The JSON body of a verification request, given the texts that stand for
/// the secret and the response.
pub fn verification_body_text(secret_text: &str, response_text: &str) -> (r: String)
    ensures
        r@ == "{\"secret\":\""@ + secret_text@ + "\",\"response\":\""@ + response_text@ + "\"}"@,
{
    let mut body = string_from("{\"secret\":\"");
    push_str(&mut body, secret_text);
    push_str(&mut body, "\",\"response\":\"");
    push_str(&mut body, response_text);
    push_str(&mut body, "\"}");
    body
}

/// The JSON body of the verification request, with the secret and the response
/// in their `Debug` form inside the quotes.
pub fn captcha_verification_body(captcha_secret: &str, response: &str) -> (r: String)
    ensures
        r@ == "{\"secret\":\""@ + debug_repr(captcha_secret@) + "\",\"response\":\""@ + debug_repr(
            response@,
        ) + "\"}"@,
{
    let s = debug_text(captcha_secret);
    let r = debug_text(response);
    verification_body_text(s.as_str(), r.as_str())
}

/// The pattern of the last path segment of an entry.
pub const STRIP_NAME_PATTERN: &'static str = r"/[^/]+$";

/// What `Regex::replace` gives for a pattern, a haystack and a replacement:
/// `None` when the pattern does not compile.
pub uninterp spec fn regex_replacement(
    pattern: Seq<char>,
    haystack: Seq<char>,
    replacement: Seq<char>,
) -> Option<Seq<char>>;

/// Where the last `/` of `s` stands, or -1 when it has none.
pub open spec fn last_slash(s: Seq<char>) -> int
    decreases s.len(),
{
    if s.len() == 0 {
        -1
    } else if s.last() == '/' {
        s.len() - 1
    } else {
        last_slash(s.drop_last())
    }
}

/// `s` without its last path segment: everything before its last `/`, when
/// something follows that `/`; `s` itself when it has no `/` or ends with one.
pub open spec fn without_last_segment(s: Seq<char>) -> Seq<char> {
    let i = last_slash(s);
    if 0 <= i < s.len() - 1 {
        s.take(i)
    } else {
        s
    }
}

/// Calls `regex::Regex::new(pattern)` and, when it compiles, `Regex::replace`
/// on the haystack, which replaces the leftmost match. Claimed: the result
/// depends on the three strings alone (it is named); and for the pattern
/// `/[^/]+$` with an empty replacement it is stated: that pattern compiles, and
/// a `/` followed by one or more characters other than `/` up to the end of the
/// haystack can only start at the last `/`, with something after it, so the
/// haystack loses its last `/` and what follows, or stays as it is.
#[verifier::external_body]
fn regex_replace(pattern: &str, haystack: &str, replacement: &str) -> (r: Option<String>)
    ensures
        opt_text(r) == regex_replacement(pattern@, haystack@, replacement@),
        pattern@ == STRIP_NAME_PATTERN@ && replacement@ == Seq::<char>::empty() ==> opt_text(r)
            == Some(without_last_segment(haystack@)),
{
    match regex::Regex::new(pattern) {
        Ok(re) => Some(re.replace(haystack, replacement).into_owned()),
        Err(_) => None,
    }
}

/// The path of a service's result archive, from the directory of its entry.
pub fn result_archive_path(entry_dir: &str, service_name: &str) -> (r: String)
    ensures
        r@ == entry_dir@ + "/"@ + service_name@ + ".zip"@,
{
    let mut p = string_from(entry_dir);
    push_str(&mut p, "/");
    push_str(&mut p, service_name);
    push_str(&mut p, ".zip");
    p
}

/// The file a download of an entry serves: the entry itself for the `import`
/// service, otherwise the service's archive beside it, in the directory that
/// removing the entry's last path segment leaves.
pub fn entry_zip_path(service_name: &str, entry: &str) -> (r: String)
    ensures
        service_name@ == "import"@ ==> r@ == entry@,
        service_name@ != "import"@ ==> r@ == without_last_segment(entry@) + "/"@ + service_name@
            + ".zip"@,
{
    if same_text(service_name, "import") {
        string_from(entry)
    } else {
        proof {
            assert(""@ =~= Seq::<char>::empty()) by {
                reveal_strlit("");
            }
        }
        match regex_replace(STRIP_NAME_PATTERN, entry, "") {
            Some(dir) => result_archive_path(dir.as_str(), service_name),
            None => {
                proof {
                    assert(false);
                }
                string_from(entry)
            },
        }
    }
}

/// Each download with a stored quota uses one of it: a quota of `q > 0` grants
/// the download and leaves `q - 1`; only an exhausted quota asks Google.
pub proof fn law_quota_counts_down(quota: usize)
    ensures
        quota > 0 ==> quota_step(quota) is Grant && quota_after(quota_step(quota)) == quota - 1,
        quota == 0 ==> quota_step(quota) is AskRemote,
{
}

/// Google's answer allows a download only when it reports success: a refusal,
/// or an answer that could not be read, denies it and stores no quota.
pub proof fn law_unconfirmed_response_denied(success: Option<bool>)
    requires
        success != Some(true),
    ensures
        remote_outcome(success) == (false, None::<usize>),
{
}

/// The downloads a stored quota admits, one step after another, before a
/// response has to be checked with Google again.
pub open spec fn downloads_on_quota(quota: usize) -> nat
    decreases quota,
{
    if quota_step(quota) is AskRemote {
        0
    } else {
        1 + downloads_on_quota(quota_after(quota_step(quota)) as usize)
    }
}

/// A stored quota of `q` admits exactly `q` downloads before Google is asked
/// again; so a response that Google accepts admits 20 downloads in all: the
/// one checked and the 19 of its reuse quota.
pub proof fn law_verified_response_admits_twenty(quota: usize)
    ensures
        downloads_on_quota(quota) == quota,
        remote_outcome(Some(true)) == (true, Some(reuse_quota())),
        1 + downloads_on_quota(reuse_quota()) == 20,
{
    lemma_downloads_on_quota(quota);
    lemma_downloads_on_quota(reuse_quota());
}

proof fn lemma_downloads_on_quota(quota: usize)
    ensures
        downloads_on_quota(quota) == quota,
    decreases quota,
{
    if quota > 0 {
        lemma_downloads_on_quota((quota - 1) as usize);
    }
}

} // verus!
