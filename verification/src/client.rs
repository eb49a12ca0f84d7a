//! The decisions around one API call: the URL it goes to, and what an answer
//! means before its body is read as JSON.

use vstd::prelude::*;
use crate::config::Config;
use crate::error::DdError;
use crate::text::{append_text, text_of};

verus! {

/// The URL of an API path under a base URL.
pub fn url_of(base_url: &str, path: &str) -> (r: String)
    ensures
        r@ == base_url@ + path@,
{
    let mut u = text_of(base_url);
    append_text(&mut u, path);
    u
}

/// What an answer is before its body is read: an error status (400 and up)
/// is an API error holding the body; an empty body reads as JSON null; any
/// other body is JSON text to read.
pub open spec fn answer_of(status: u16, body: Seq<char>) -> Result<Option<Seq<char>>, (u16, Seq<char>)> {
    if status >= 400 {
        Err((status, body))
    } else if body.len() == 0 {
        Ok(None)
    } else {
        Ok(Some(body))
    }
}

/// What an answer with `status` and `body` is before its body is read as JSON:
/// `None` for an empty body (JSON null), the body otherwise, or the API error.
pub fn read_answer(status: u16, body: String) -> (r: Result<Option<String>, DdError>)
    ensures
        match r {
            Ok(Some(b)) => answer_of(status, body@) == Ok::<Option<Seq<char>>, (u16, Seq<char>)>(Some(b@)),
            Ok(None) => answer_of(status, body@) == Ok::<Option<Seq<char>>, (u16, Seq<char>)>(None),
            Err(e) => e matches DdError::Api { status: s, body: b }
                && answer_of(status, body@) == Err::<Option<Seq<char>>, (u16, Seq<char>)>((s, b@)),
        },
{
    if status >= 400 {
        return Err(DdError::Api { status, body });
    }
    let cs = crate::text::chars_of(body.as_str());
    if cs.len() == 0 {
        Ok(None)
    } else {
        Ok(Some(body))
    }
}

/// A character that a header value may hold: a tab, or anything from a space up
/// except DEL. (Bytes of multi-byte characters are all 128 or more, so every
/// non-ASCII character is allowed.)
pub open spec fn header_char(c: char) -> bool {
    c == '\t' || (c as u32 >= 32 && c as u32 != 127)
}

/// Whether a text can be a header value.
pub open spec fn header_text(s: Seq<char>) -> bool {
    forall|i: int| 0 <= i < s.len() ==> header_char(#[trigger] s[i])
}

/// `reqwest::header::HeaderValue::from_str` (http's `HeaderValue`): accepts the
/// text exactly when every byte is a tab or at least 32 and not 127; the error
/// displays as "failed to parse header value".
#[verifier::external_body]
fn header_value_ok(s: &str) -> (r: Result<(), String>)
    ensures
        r is Ok <==> header_text(s@),
        r matches Err(e) ==> e@ == "failed to parse header value"@,
{
    match reqwest::header::HeaderValue::from_str(s) {
        Ok(_) => Ok(()),
        Err(e) => Err(e.to_string()),
    }
}

/// What the credential check of the client answers for the two keys: the
/// refusal of the API key first, then that of the APP key, or nothing.
pub open spec fn credentials_refusal(api_key: Seq<char>, app_key: Seq<char>) -> Option<Seq<char>> {
    if !header_text(api_key) {
        Some("Invalid API key header value: failed to parse header value"@)
    } else if !header_text(app_key) {
        Some("Invalid APP key header value: failed to parse header value"@)
    } else {
        None
    }
}

/// Checks that both keys can be sent as header values, the API key first; a
/// refused key is an API error with status 0.
pub fn check_credentials(config: &Config) -> (r: Result<(), DdError>)
    ensures
        r is Ok <==> credentials_refusal(config.api_key@, config.app_key@) is None,
        r matches Err(e) ==> (e matches DdError::Api { status, body } && status == 0
            && credentials_refusal(config.api_key@, config.app_key@) == Some(body@)),
{
    match header_value_ok(config.api_key.as_str()) {
        Ok(()) => {},
        Err(e) => {
            let mut body = text_of("Invalid API key header value: ");
            append_text(&mut body, e.as_str());
            proof {
                reveal_strlit("Invalid API key header value: ");
                reveal_strlit("failed to parse header value");
                reveal_strlit("Invalid API key header value: failed to parse header value");
                assert(body@ =~= "Invalid API key header value: failed to parse header value"@);
            }
            return Err(DdError::Api { status: 0, body });
        },
    }
    match header_value_ok(config.app_key.as_str()) {
        Ok(()) => Ok(()),
        Err(e) => {
            let mut body = text_of("Invalid APP key header value: ");
            append_text(&mut body, e.as_str());
            proof {
                reveal_strlit("Invalid APP key header value: ");
                reveal_strlit("failed to parse header value");
                reveal_strlit("Invalid APP key header value: failed to parse header value");
                assert(body@ =~= "Invalid APP key header value: failed to parse header value"@);
            }
            Err(DdError::Api { status: 0, body })
        },
    }
}

} // verus!
