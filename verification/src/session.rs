//! The protocol session: one connection's worth of state. It validates the
//! server handshake, allocates monotonically increasing message identifiers
//! (the k-th request of a session carries identifier k), tracks the current
//! execution context, and enforces strict request/response alternation: a
//! request must be answered before the next one is built.
//!
//! The session never touches a socket. A request builder returns the frame to
//! write; the caller reads one response frame and hands its payload to the
//! matching completion.

use vstd::prelude::*;

use crate::errors::ProtocolError;
use crate::frame::encode_frame;
use crate::frame::frame_bytes;
use crate::reply::Handshake;
use crate::reply::HandshakeV;
use crate::reply::RemoteValue;
use crate::reply::handshake_of;
use crate::reply::parse_handshake;
use crate::reply::parse_response;
use crate::reply::response_of;
use crate::request::context_params_bytes;
use crate::request::encode_context_params;
use crate::request::encode_message;
use crate::request::message_bytes;
use crate::request::encode_script_params;
use crate::request::script_params_bytes;
use vstd::string::StringSliceAdditionalSpecFns;

verus! {

/// The protocol version this client speaks.
pub const SUPPORTED_PROTOCOL: u64 = 3;

/// The application family token an acceptable server declares.
pub const EXPECTED_APPLICATION_TYPE: &'static str = "gecko";

/// The execution context of a session: the ordinary page sandbox, or the
/// privileged browser UI.
#[derive(Debug, Clone, Copy, PartialEq, Eq, Structural)]
pub enum Context {
    Content,
    Chrome,
}

/// The wire name of a context.
pub open spec fn context_name(ctx: Context) -> Seq<u8> {
    match ctx {
        Context::Content => "content".spec_bytes(),
        Context::Chrome => "chrome".spec_bytes(),
    }
}

/// What the session is waiting for: nothing, the response to a command, or
/// the response to a context switch.
#[derive(Debug, Clone, Copy, PartialEq, Eq, Structural)]
pub enum SessionPending {
    Idle,
    Command,
    Switching(Context),
}

/// One protocol session. Single-use: created over a validated handshake,
/// discarded when the transport dies.
pub struct Session {
    next_id: u64,
    context: Context,
    pending: SessionPending,
    handshake: Handshake,
    calls: Ghost<nat>,
}

impl Session {
    /// Internal consistency: identifiers start at one and advance with each
    /// request, and only a supported handshake was accepted.
    pub closed spec fn wf(&self) -> bool {
        &&& 1 <= self.next_id
        &&& self.next_id as nat == self.calls@ + 1
        &&& self.handshake.protocol == SUPPORTED_PROTOCOL
    }

    /// How many requests this session has issued.
    pub closed spec fn calls_made(&self) -> nat {
        self.calls@
    }

    /// The current execution context.
    pub closed spec fn ctx(&self) -> Context {
        self.context
    }

    /// What the session is waiting for.
    pub closed spec fn state(&self) -> SessionPending {
        self.pending
    }

    /// The handshake record the session was opened over.
    pub closed spec fn handshake_view(&self) -> HandshakeV {
        self.handshake@
    }

    /// The current execution context.
    pub fn context(&self) -> (r: Context)
        ensures
            r == self.ctx(),
    {
        self.context
    }

    /// The handshake record the session was opened over.
    pub fn handshake(&self) -> (r: &Handshake)
        ensures
            r@ == self.handshake_view(),
    {
        &self.handshake
    }

    /// Validate the server's handshake and construct the session. The
    /// handshake must parse, declare the expected application family, and
    /// declare the supported protocol version; a fresh session has issued no
    /// request and sits in the content context.
    pub fn open(handshake: &[u8]) -> (r: Result<Session, ProtocolError>)
        ensures
            match handshake_of(handshake@) {
                None => r matches Err(ProtocolError::HandshakeInvalid),
                Some(h) => {
                    if h.application_type != EXPECTED_APPLICATION_TYPE@ {
                        r matches Err(ProtocolError::HandshakeInvalid)
                    } else if h.protocol != SUPPORTED_PROTOCOL {
                        r matches Err(ProtocolError::VersionMismatch)
                    } else {
                        r matches Ok(s) && s.wf() && s.calls_made() == 0 && s.ctx()
                            is Content && s.state() is Idle && s.handshake_view() == h
                    }
                },
            },
    {
        match parse_handshake(handshake) {
            None => Err(ProtocolError::HandshakeInvalid),
            Some(h) => {
                let expected: String = EXPECTED_APPLICATION_TYPE.to_owned();
                if !(h.application_type == expected) {
                    Err(ProtocolError::HandshakeInvalid)
                } else if h.protocol != SUPPORTED_PROTOCOL {
                    Err(ProtocolError::VersionMismatch)
                } else {
                    Ok(
                        Session {
                            next_id: 1,
                            context: Context::Content,
                            pending: SessionPending::Idle,
                            handshake: h,
                            calls: Ghost(0),
                        },
                    )
                }
            },
        }
    }

    /// Build the frame of one request: `{"id":k,"name":...,"parameters":...}`
    /// where k counts this session's requests from one. `params` is the
    /// already-serialized JSON parameter object.
    pub fn send_command_request(&mut self, name: &[u8], params: &[u8]) -> (r: Vec<u8>)
        requires
            old(self).wf(),
            old(self).state() is Idle,
            old(self).calls_made() + 1 < u64::MAX,
        ensures
            final(self).wf(),
            final(self).state() is Command,
            final(self).ctx() == old(self).ctx(),
            final(self).handshake_view() == old(self).handshake_view(),
            final(self).calls_made() == old(self).calls_made() + 1,
            r@ == frame_bytes(message_bytes(final(self).calls_made(), name@, params@)),
    {
        let id = self.next_id;
        self.next_id = self.next_id + 1;
        proof {
            self.calls@ = self.calls@ + 1;
        }
        self.pending = SessionPending::Command;
        let msg = encode_message(id, name, params);
        encode_frame(msg.as_slice())
    }

    /// Interpret the response to the outstanding command: a response with an
    /// `error` field is a remote error carried verbatim, anything else hands
    /// the `value` field back.
    pub fn send_command_complete(&mut self, payload: &[u8]) -> (r: Result<
        RemoteValue,
        ProtocolError,
    >)
        requires
            old(self).wf(),
            old(self).state() is Command,
        ensures
            final(self).wf(),
            final(self).state() is Idle,
            final(self).ctx() == old(self).ctx(),
            final(self).handshake_view() == old(self).handshake_view(),
            final(self).calls_made() == old(self).calls_made(),
            match response_of(payload@) {
                None => r matches Err(ProtocolError::DecodeError),
                Some(resp) => match resp.error {
                    Some(e) => r matches Err(ProtocolError::RemoteError(m)) && m@ == e,
                    None => r matches Ok(v) && v@ == resp.value,
                },
            },
    {
        self.pending = SessionPending::Idle;
        match parse_response(payload) {
            None => Err(ProtocolError::DecodeError),
            Some(resp) => match resp.error {
                Some(e) => Err(ProtocolError::RemoteError(e)),
                None => Ok(resp.value),
            },
        }
    }

    /// Build the frame of a `Marionette:SetContext` request.
    pub fn set_context_request(&mut self, ctx: Context) -> (r: Vec<u8>)
        requires
            old(self).wf(),
            old(self).state() is Idle,
            old(self).calls_made() + 1 < u64::MAX,
        ensures
            final(self).wf(),
            final(self).state() == SessionPending::Switching(ctx),
            final(self).ctx() == old(self).ctx(),
            final(self).handshake_view() == old(self).handshake_view(),
            final(self).calls_made() == old(self).calls_made() + 1,
            r@ == frame_bytes(
                message_bytes(
                    final(self).calls_made(),
                    "Marionette:SetContext".spec_bytes(),
                    context_params_bytes(context_name(ctx)),
                ),
            ),
    {
        let name: &[u8] = "Marionette:SetContext".as_bytes();
        let ctx_bytes: &[u8] = match ctx {
            Context::Content => "content".as_bytes(),
            Context::Chrome => "chrome".as_bytes(),
        };
        let params = encode_context_params(ctx_bytes);
        let id = self.next_id;
        self.next_id = self.next_id + 1;
        proof {
            self.calls@ = self.calls@ + 1;
        }
        self.pending = SessionPending::Switching(ctx);
        let msg = encode_message(id, name, params.as_slice());
        encode_frame(msg.as_slice())
    }

    /// Interpret the response to the outstanding context switch: the switch
    /// takes effect exactly when the server did not answer with an error.
    pub fn set_context_complete(&mut self, payload: &[u8]) -> (r: Result<(), ProtocolError>)
        requires
            old(self).wf(),
            old(self).state() is Switching,
        ensures
            final(self).wf(),
            final(self).state() is Idle,
            final(self).handshake_view() == old(self).handshake_view(),
            final(self).calls_made() == old(self).calls_made(),
            match response_of(payload@) {
                None => r matches Err(ProtocolError::DecodeError) && final(self).ctx() == old(
                    self,
                ).ctx(),
                Some(resp) => match resp.error {
                    Some(e) => r matches Err(ProtocolError::RemoteError(m)) && m@ == e
                        && final(self).ctx() == old(self).ctx(),
                    None => r matches Ok(()) && old(self).state() matches
                        SessionPending::Switching(c) && final(self).ctx() == c,
                },
            },
    {
        let target = match self.pending {
            SessionPending::Switching(c) => c,
            _ => self.context,  // unreachable under the precondition
        };
        self.pending = SessionPending::Idle;
        match parse_response(payload) {
            None => Err(ProtocolError::DecodeError),
            Some(resp) => match resp.error {
                Some(e) => Err(ProtocolError::RemoteError(e)),
                None => {
                    self.context = target;
                    Ok(())
                },
            },
        }
    }

    /// Build the frame of a `WebDriver:ExecuteScript` request. The script
    /// travels as a JSON string; `args_json` is the already-serialized JSON
    /// array of positional arguments, `[]` when absent.
    pub fn execute_script_request(&mut self, script: &[u8], args_json: Option<&[u8]>) -> (r: Vec<
        u8,
    >)
        requires
            old(self).wf(),
            old(self).state() is Idle,
            old(self).calls_made() + 1 < u64::MAX,
        ensures
            final(self).wf(),
            final(self).state() is Command,
            final(self).ctx() == old(self).ctx(),
            final(self).handshake_view() == old(self).handshake_view(),
            final(self).calls_made() == old(self).calls_made() + 1,
            r@ == frame_bytes(
                message_bytes(
                    final(self).calls_made(),
                    "WebDriver:ExecuteScript".spec_bytes(),
                    script_params_bytes(
                        script@,
                        match args_json {
                            Some(a) => a@,
                            None => "[]".spec_bytes(),
                        },
                    ),
                ),
            ),
    {
        let args: &[u8] = match args_json {
            Some(a) => a,
            None => "[]".as_bytes(),
        };
        let params = encode_script_params(script, args);
        self.send_command_request("WebDriver:ExecuteScript".as_bytes(), params.as_slice())
    }
}

} // verus!
