//! The manifest registrar: asks the browser's component registrar to register
//! a chrome-manifest file, so user stylesheets can resolve custom-scheme
//! imports. At most one registered path per session is remembered;
//! re-registering replaces the recorded path on success.
//!
//! The caller canonicalises the path before handing it in; the registrar
//! validates that the canonical path can ride inside the script body.

use vstd::prelude::*;

use crate::errors::ProtocolError;
use crate::errors::RegisterError;
use crate::escape::single_quote_safe;
use crate::frame::frame_bytes;
use crate::reply::RemoteValueV;
use crate::reply::response_of;
use crate::request::message_bytes;
use crate::request::push_all;
use crate::request::script_params_bytes;
use crate::session::Session;
use vstd::string::StringSliceAdditionalSpecFns;

verus! {

/// The script up to the opening quote of the path.
pub const MANIFEST_SCRIPT_PREFIX: &'static str =
    "try {\n    const file = Cc['@mozilla.org/file/local;1'].createInstance(Ci.nsIFile);\n    file.initWithPath('";

/// The script after the closing quote of the path: it registers the file and
/// reports `{success: true}` or `{success: false, error}`.
pub const MANIFEST_SCRIPT_SUFFIX: &'static str =
    "');\n    const registrar = Components.manager.QueryInterface(Ci.nsIComponentRegistrar);\n    registrar.autoRegister(file);\n    return { success: true };\n} catch (e) {\n    return { success: false, error: e.toString() };\n}";

/// The registration script with `path` embedded between single quotes.
pub open spec fn manifest_script_bytes(path: Seq<u8>) -> Seq<u8> {
    MANIFEST_SCRIPT_PREFIX.spec_bytes() + path + MANIFEST_SCRIPT_SUFFIX.spec_bytes()
}

/// Build the registration script for `path`.
pub fn build_manifest_script(path: &[u8]) -> (r: Vec<u8>)
    ensures
        r@ == manifest_script_bytes(path@),
{
    let mut out: Vec<u8> = Vec::new();
    push_all(&mut out, MANIFEST_SCRIPT_PREFIX.as_bytes());
    push_all(&mut out, path);
    push_all(&mut out, MANIFEST_SCRIPT_SUFFIX.as_bytes());
    out
}

/// Registers a chrome-manifest file and remembers the registered path.
pub struct ChromeManifestRegistrar {
    manifest_path: Option<String>,
    pending: Option<String>,
}

impl ChromeManifestRegistrar {
    /// The path whose registration the remote confirmed, if any.
    pub closed spec fn path_view(&self) -> Option<Seq<char>> {
        match self.manifest_path {
            Some(p) => Some(p@),
            None => None,
        }
    }

    /// The path whose registration is in flight, if any.
    pub closed spec fn pending_view(&self) -> Option<Seq<char>> {
        match self.pending {
            Some(p) => Some(p@),
            None => None,
        }
    }

    /// A registrar that has registered nothing.
    pub fn new() -> (r: ChromeManifestRegistrar)
        ensures
            r.path_view() is None,
            r.pending_view() is None,
    {
        ChromeManifestRegistrar { manifest_path: None, pending: None }
    }

    /// Build the request that registers `path` (already canonical). A path
    /// that cannot stand between single quotes in the script body is rejected
    /// as a path-encoding fault, and nothing is sent.
    pub fn register_manifest(&mut self, path: &str, session: &mut Session) -> (r: Result<
        Vec<u8>,
        RegisterError,
    >)
        requires
            old(self).pending_view() is None,
            old(session).wf(),
            old(session).state() is Idle,
            old(session).calls_made() + 1 < u64::MAX,
        ensures
            final(self).path_view() == old(self).path_view(),
            final(session).wf(),
            final(session).ctx() == old(session).ctx(),
            final(session).handshake_view() == old(session).handshake_view(),
            match r {
                Err(e) => {
                    &&& e is PathEncoding
                    &&& !single_quote_safe(path.spec_bytes())
                    &&& final(self).pending_view() is None
                    &&& final(session).state() is Idle
                    &&& final(session).calls_made() == old(session).calls_made()
                },
                Ok(frame) => {
                    &&& single_quote_safe(path.spec_bytes())
                    &&& final(self).pending_view() == Some(path@)
                    &&& final(session).state() is Command
                    &&& final(session).calls_made() == old(session).calls_made() + 1
                    &&& frame@ == frame_bytes(
                        message_bytes(
                            final(session).calls_made(),
                            "WebDriver:ExecuteScript".spec_bytes(),
                            script_params_bytes(
                                manifest_script_bytes(path.spec_bytes()),
                                "[]".spec_bytes(),
                            ),
                        ),
                    )
                },
            },
    {
        if !crate::escape::check_single_quote_safe(path.as_bytes()) {
            return Err(RegisterError::PathEncoding);
        }
        let script = build_manifest_script(path.as_bytes());
        let frame = session.execute_script_request(script.as_slice(), None);
        self.pending = Some(path.to_owned());
        Ok(frame)
    }

    /// Interpret the response to the outstanding registration. The remote
    /// script reports `{success, error?}`: a true `success` records the path,
    /// anything else surfaces the reported error text (or `Unknown error`).
    pub fn register_manifest_complete(&mut self, session: &mut Session, payload: &[u8]) -> (r:
        Result<(), RegisterError>)
        requires
            old(self).pending_view() is Some,
            old(session).wf(),
            old(session).state() is Command,
        ensures
            final(self).pending_view() is None,
            final(session).wf(),
            final(session).state() is Idle,
            final(session).ctx() == old(session).ctx(),
            final(session).handshake_view() == old(session).handshake_view(),
            final(session).calls_made() == old(session).calls_made(),
            match response_of(payload@) {
                None => r matches Err(
                    RegisterError::Protocol(ProtocolError::DecodeError),
                ) && final(self).path_view() == old(self).path_view(),
                Some(resp) => match resp.error {
                    Some(e) => r matches Err(
                        RegisterError::Protocol(ProtocolError::RemoteError(m)),
                    ) && m@ == e && final(self).path_view() == old(self).path_view(),
                    None => match resp.value {
                        RemoteValueV::Object { success, error, rendering } => {
                            if success == Some(true) {
                                r matches Ok(()) && final(self).path_view() == old(
                                    self,
                                ).pending_view()
                            } else {
                                r matches Err(RegisterError::RemoteFailure(m)) && (match error {
                                    Some(e) => m@ == e,
                                    None => m@ == "Unknown error"@,
                                }) && final(self).path_view() == old(self).path_view()
                            }
                        },
                        _ => r matches Err(RegisterError::RemoteFailure(m)) && m@
                            == "Unknown error"@ && final(self).path_view() == old(
                            self,
                        ).path_view(),
                    },
                },
            },
    {
        let pending = self.pending.take();
        let outcome = session.send_command_complete(payload);
        match outcome {
            Err(e) => Err(RegisterError::Protocol(e)),
            Ok(value) => match value {
                crate::reply::RemoteValue::Object { success, error, rendering: _ } => {
                    match success {
                        Some(true) => {
                            self.manifest_path = pending;
                            Ok(())
                        },
                        _ => match error {
                            Some(e) => Err(RegisterError::RemoteFailure(e)),
                            None => Err(RegisterError::RemoteFailure("Unknown error".to_owned())),
                        },
                    }
                },
                _ => Err(RegisterError::RemoteFailure("Unknown error".to_owned())),
            },
        }
    }

    /// The path whose registration the remote confirmed, if any.
    pub fn get_registered_path(&self) -> (r: Option<&String>)
        ensures
            match r {
                Some(p) => self.path_view() == Some(p@),
                None => self.path_view() is None,
            },
    {
        self.manifest_path.as_ref()
    }
}

} // verus!
