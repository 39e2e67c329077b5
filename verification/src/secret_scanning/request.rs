//! The parts of a report request that come before its content: the headers that name
//! the signing key and carry the signature, and the errors that refuse the request.

use vstd::prelude::*;
use crate::errors::{bad_request, is_custom, AppError, BoxedAppError, BAD_REQUEST};
use crate::text::{decimal, str_debug_text};
use crate::secret_scanning::cache::SignatureError;
use crate::text::{ascii_chars, ascii_to_string};

verus! {

/// The `Debug` text of `http::header::ToStrError`, the error of a header value that is
/// not visible ASCII.
pub const TO_STR_ERROR: &'static str = "ToStrError { _priv: () }";

pub const REQUEST_SIGNATURE_ERROR: &'static str = "failed to verify request signature: ";

pub const INVALID_ALERT_REQUEST: &'static str = "invalid secret alert request: ";

/// Whether a header byte may be read as text: visible ASCII or a tab, as
/// `http::HeaderValue::to_str` demands.
pub open spec fn is_visible_ascii(b: u8) -> bool {
    (32 <= b && b < 127) || b == 9
}

/// Whether every byte of a header value may be read as text.
pub open spec fn is_visible_text(bytes: Seq<u8>) -> bool {
    forall|i: int| 0 <= i < bytes.len() ==> is_visible_ascii(#[trigger] bytes[i])
}

/// The key identifier and the signature that a report request carries.
#[derive(Debug)]
pub struct SignatureHeaders {
    pub key_id: String,
    pub signature: Vec<u8>,
}

/// Whether every byte of `bytes` is visible ASCII.
fn visible_text(bytes: &[u8]) -> (r: bool)
    ensures
        r == is_visible_text(bytes@),
{
    let n: usize = bytes.len();
    let mut i: usize = 0;
    while i < n
        invariant
            n == bytes@.len(),
            i <= n,
            forall|j: int| 0 <= j < i ==> is_visible_ascii(#[trigger] bytes@[j]),
        decreases n - i,
    {
        let b: u8 = bytes[i];
        if !((32 <= b && b < 127) || b == 9) {
            return false;
        }
        i = i + 1;
    }
    true
}

/// Reads the key identifier and the signature from the values of the headers named
/// `key_id_header` and `signature_header`, as the request carries them (or not). The
/// identifier must be visible ASCII; the signature is taken as it stands.
pub fn read_signature_headers(
    key_id_header: &str,
    signature_header: &str,
    key_id: Option<&[u8]>,
    signature: Option<&[u8]>,
) -> (r: Result<SignatureHeaders, SignatureError>)
    ensures
        match key_id {
            None => r matches Err(SignatureError::MissingHeader(name)) && name@ == key_id_header@,
            Some(k) => if !is_visible_text(k@) {
                r matches Err(SignatureError::InvalidHeader(detail)) && detail@ == TO_STR_ERROR@
            } else {
                match signature {
                    None => r matches Err(SignatureError::MissingHeader(name)) && name@
                        == signature_header@,
                    Some(s) => r matches Ok(h) && h.key_id@ == ascii_chars(k@) && h.signature@
                        == s@,
                }
            },
        },
{
    let k = match key_id {
        None => {
            return Err(SignatureError::MissingHeader(key_id_header.to_owned()));
        },
        Some(k) => k,
    };
    if !visible_text(k) {
        return Err(SignatureError::InvalidHeader(TO_STR_ERROR.to_owned()));
    }
    let s = match signature {
        None => {
            return Err(SignatureError::MissingHeader(signature_header.to_owned()));
        },
        Some(s) => s,
    };
    proof {
        assert forall|i: int| 0 <= i < k@.len() implies #[trigger] k@[i] < 128 by {
            assert(is_visible_ascii(k@[i]));
        }
    }
    Ok(SignatureHeaders { key_id: ascii_to_string(k), signature: vstd::slice::slice_to_vec(s) })
}

/// The 400 error of a request whose signature could not be verified because of
/// `reason`, whose `Debug` text the detail carries.
pub fn request_signature_error(reason: &AppError) -> (r: BoxedAppError)
    requires
        reason.answerable(),
    ensures
        is_custom(*r, BAD_REQUEST, REQUEST_SIGNATURE_ERROR@ + reason.debug_text_of()),
{
    let text = String::from_str(REQUEST_SIGNATURE_ERROR).concat(reason.debug_text().as_str());
    bad_request(text.as_str())
}

/// The 400 error of a request whose content is not a list of reports.
pub fn invalid_alert_request(reason: &str) -> (r: BoxedAppError)
    ensures
        is_custom(*r, BAD_REQUEST, INVALID_ALERT_REQUEST@ + reason@),
{
    let text = String::from_str(INVALID_ALERT_REQUEST).concat(reason);
    bad_request(text.as_str())
}

impl SignatureError {
    /// The 400 error that the signature check refuses with: its message as the detail.
    pub fn refusal(&self) -> (r: BoxedAppError)
        ensures
            is_custom(*r, BAD_REQUEST, self.message_of()),
    {
        let text = self.message();
        bad_request(text.as_str())
    }

    /// The 400 error that the request is refused with: the refusal of the signature
    /// check, written by `Debug` after the request-level prefix.
    pub fn into_request_error(&self) -> (r: BoxedAppError)
        ensures
            is_custom(
                *r,
                BAD_REQUEST,
                REQUEST_SIGNATURE_ERROR@ + "CustomApiError { status: "@ + decimal(
                    BAD_REQUEST as nat,
                ) + ", detail: "@ + "Single("@ + str_debug_text(self.message_of()) + ")"@
                    + " }"@,
            ),
    {
        let refusal = self.refusal();
        let r = request_signature_error(&refusal);
        proof {
            let expected = "CustomApiError { status: "@ + decimal(BAD_REQUEST as nat)
                + ", detail: "@ + "Single("@ + str_debug_text(self.message_of()) + ")"@ + " }"@;
            assert(refusal.details_of() == seq![self.message_of()]);
            assert((*refusal).debug_text_of() =~= expected);
            assert(REQUEST_SIGNATURE_ERROR@ + (*refusal).debug_text_of() =~= REQUEST_SIGNATURE_ERROR@
                + "CustomApiError { status: "@ + decimal(BAD_REQUEST as nat) + ", detail: "@
                + "Single("@ + str_debug_text(self.message_of()) + ")"@ + " }"@);
        }
        r
    }
}

} // verus!
