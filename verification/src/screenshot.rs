//! Screenshot capture: a script renders the most-recent browser window (or
//! one element found by selector) to a canvas and returns a base64 PNG data
//! URL; the payload of that URL is decoded to raw PNG bytes for the caller to
//! write to disk.

use vstd::prelude::*;

use crate::errors::ProtocolError;
use crate::errors::ScreenshotError;
use crate::escape::dquote_escaped;
use crate::escape::push_dquote_escaped;
use crate::frame::frame_bytes;
use crate::reply::RemoteValue;
use crate::reply::RemoteValueV;
use crate::reply::response_of;
use crate::request::message_bytes;
use crate::request::push_all;
use crate::request::script_params_bytes;
use crate::search::byte_index;
use crate::search::copy_range;
use crate::search::find_byte;
use crate::search::lemma_byte_index;
use crate::session::Session;
use vstd::string::StringSliceAdditionalSpecFns;
use base64::Engine as _;

verus! {

/// ASCII code of `,`, the separator of a data URL's header and payload.
pub const COMMA: u8 = 44;

/// The script that renders the most-recent browser window to a canvas and
/// returns its PNG data URL.
pub const FULL_SCREEN_SCRIPT: &'static str =
    "const canvas = document.createElementNS(\"http://www.w3.org/1999/xhtml\", \"canvas\");\nconst window = Services.wm.getMostRecentWindow(\"navigator:browser\");\ncanvas.width = window.innerWidth;\ncanvas.height = window.innerHeight;\nconst ctx = canvas.getContext(\"2d\");\nctx.drawWindow(window, 0, 0, canvas.width, canvas.height, \"rgb(255,255,255)\");\nreturn canvas.toDataURL(\"image/png\");";

/// The element script up to the first embedding of the selector.
pub const ELEMENT_SCRIPT_PREFIX: &'static str =
    "const window = Services.wm.getMostRecentWindow(\"navigator:browser\");\nconst element = window.document.querySelector(\"";

/// The element script between the two embeddings of the selector.
pub const ELEMENT_SCRIPT_MID: &'static str =
    "\");\nif (!element) throw new Error(\"Element not found: ";

/// The element script after the second embedding of the selector.
pub const ELEMENT_SCRIPT_SUFFIX: &'static str =
    "\");\n\nconst rect = element.getBoundingClientRect();\nconst canvas = document.createElementNS(\"http://www.w3.org/1999/xhtml\", \"canvas\");\ncanvas.width = rect.width;\ncanvas.height = rect.height;\nconst ctx = canvas.getContext(\"2d\");\nctx.drawWindow(window, rect.left, rect.top, rect.width, rect.height, \"rgb(255,255,255)\");\nreturn canvas.toDataURL(\"image/png\");";

/// The element-capture script: the selector rides inside double quotes, with
/// backslash and double-quote escaping, in both the query and the error
/// message.
pub open spec fn element_script_bytes(selector: Seq<u8>) -> Seq<u8> {
    ELEMENT_SCRIPT_PREFIX.spec_bytes() + dquote_escaped(selector)
        + ELEMENT_SCRIPT_MID.spec_bytes() + dquote_escaped(selector)
        + ELEMENT_SCRIPT_SUFFIX.spec_bytes()
}

/// Build the element-capture script.
pub fn build_element_script(selector: &[u8]) -> (r: Vec<u8>)
    ensures
        r@ == element_script_bytes(selector@),
{
    let mut out: Vec<u8> = Vec::new();
    push_all(&mut out, ELEMENT_SCRIPT_PREFIX.as_bytes());
    push_dquote_escaped(&mut out, selector);
    push_all(&mut out, ELEMENT_SCRIPT_MID.as_bytes());
    push_dquote_escaped(&mut out, selector);
    push_all(&mut out, ELEMENT_SCRIPT_SUFFIX.as_bytes());
    out
}

/// The base64 payload of a data URL: what follows its first comma. A URL
/// without a comma has none.
pub open spec fn data_url_payload(s: Seq<u8>) -> Option<Seq<u8>> {
    match byte_index(s, COMMA) {
        Some(i) => Some(s.subrange(i + 1, s.len() as int)),
        None => None,
    }
}

/// What the base64 payload decodes to, if it is valid base64 of the standard
/// alphabet with padding.
pub uninterp spec fn base64_decoded(s: Seq<u8>) -> Option<Seq<u8>>;

/// Relies on base64's `Engine::decode` with the `STANDARD` engine (standard
/// alphabet, padding required): decodes base64 text to bytes, refusing
/// invalid characters or padding. The result is a function of the input
/// alone.
#[verifier::external_body]
fn base64_decode(b: &[u8]) -> (r: Option<Vec<u8>>)
    ensures
        match r {
            Some(d) => base64_decoded(b@) == Some(d@),
            None => base64_decoded(b@) is None,
        },
{
    base64::engine::general_purpose::STANDARD.decode(b).ok()
}

/// Decode a `data:<mime>;base64,<payload>` URL to the raw bytes it carries:
/// split on the first comma, base64-decode the tail. A URL without a comma is
/// rejected, as is an undecodable payload.
pub fn decode_data_url(data_url: &str) -> (r: Result<Vec<u8>, ScreenshotError>)
    ensures
        match data_url_payload(data_url.spec_bytes()) {
            None => r matches Err(ScreenshotError::InvalidDataUrl),
            Some(p) => match base64_decoded(p) {
                None => r matches Err(ScreenshotError::DecodeFailed),
                Some(d) => r matches Ok(bytes) && bytes@ == d,
            },
        },
{
    let bytes = data_url.as_bytes();
    let n = bytes.len();
    match find_byte(bytes, COMMA) {
        None => Err(ScreenshotError::InvalidDataUrl),
        Some(i) => {
            proof {
                lemma_byte_index(bytes@, COMMA);
                assert(byte_index(bytes@, COMMA) == Some(i as int));
                assert((i as int) < bytes@.len());
            }
            let tail = copy_range(bytes, i + 1, n);
            match base64_decode(tail.as_slice()) {
                None => Err(ScreenshotError::DecodeFailed),
                Some(d) => Ok(d),
            }
        },
    }
}

/// Captures screenshots over its own chrome-context session.
pub struct ScreenshotManager {
    session: Session,
    pending: bool,
}

impl ScreenshotManager {
    /// Internal consistency: the session sits in the chrome context and
    /// awaits a response exactly when a capture is in flight.
    pub closed spec fn wf(&self) -> bool {
        &&& self.session.wf()
        &&& self.session.ctx() is Chrome
        &&& (self.pending <==> self.session.state() is Command)
        &&& (!self.pending ==> self.session.state() is Idle)
    }

    /// Whether a capture is in flight.
    pub closed spec fn is_pending(&self) -> bool {
        self.pending
    }

    /// How many requests the manager's session has issued.
    pub closed spec fn calls_made(&self) -> nat {
        self.session.calls_made()
    }

    /// Wrap a session that already sits in the chrome context.
    pub fn new(session: Session) -> (r: ScreenshotManager)
        requires
            session.wf(),
            session.ctx() is Chrome,
            session.state() is Idle,
        ensures
            r.wf(),
            !r.is_pending(),
            r.calls_made() == session.calls_made(),
    {
        ScreenshotManager { session, pending: false }
    }

    /// Build the request that captures the full browser window.
    pub fn capture_full_screen(&mut self) -> (r: Vec<u8>)
        requires
            old(self).wf(),
            !old(self).is_pending(),
            old(self).calls_made() + 1 < u64::MAX,
        ensures
            final(self).wf(),
            final(self).is_pending(),
            final(self).calls_made() == old(self).calls_made() + 1,
            r@ == frame_bytes(
                message_bytes(
                    final(self).calls_made(),
                    "WebDriver:ExecuteScript".spec_bytes(),
                    script_params_bytes(FULL_SCREEN_SCRIPT.spec_bytes(), "[]".spec_bytes()),
                ),
            ),
    {
        let frame = self.session.execute_script_request(FULL_SCREEN_SCRIPT.as_bytes(), None);
        self.pending = true;
        frame
    }

    /// Build the request that captures the element `selector` names.
    pub fn capture_element(&mut self, selector: &str) -> (r: Vec<u8>)
        requires
            old(self).wf(),
            !old(self).is_pending(),
            old(self).calls_made() + 1 < u64::MAX,
        ensures
            final(self).wf(),
            final(self).is_pending(),
            final(self).calls_made() == old(self).calls_made() + 1,
            r@ == frame_bytes(
                message_bytes(
                    final(self).calls_made(),
                    "WebDriver:ExecuteScript".spec_bytes(),
                    script_params_bytes(
                        element_script_bytes(selector.spec_bytes()),
                        "[]".spec_bytes(),
                    ),
                ),
            ),
    {
        let script = build_element_script(selector.as_bytes());
        let frame = self.session.execute_script_request(script.as_slice(), None);
        self.pending = true;
        frame
    }

    /// Interpret the response to a capture: the script returns the data URL
    /// as a string; anything else is unusable.
    pub fn capture_complete(&mut self, payload: &[u8]) -> (r: Result<String, ScreenshotError>)
        requires
            old(self).wf(),
            old(self).is_pending(),
        ensures
            final(self).wf(),
            !final(self).is_pending(),
            final(self).calls_made() == old(self).calls_made(),
            match response_of(payload@) {
                None => r matches Err(ScreenshotError::Protocol(ProtocolError::DecodeError)),
                Some(resp) => match resp.error {
                    Some(e) => r matches Err(
                        ScreenshotError::Protocol(ProtocolError::RemoteError(m)),
                    ) && m@ == e,
                    None => match resp.value {
                        RemoteValueV::Str(url) => r matches Ok(out) && out@ == url,
                        _ => r matches Err(ScreenshotError::NotAString),
                    },
                },
            },
    {
        self.pending = false;
        match self.session.send_command_complete(payload) {
            Err(e) => Err(ScreenshotError::Protocol(e)),
            Ok(RemoteValue::Str(url)) => Ok(url),
            Ok(_) => Err(ScreenshotError::NotAString),
        }
    }
}

} // verus!
