//! The stylesheet manager: the client-side registry of injected sheets and
//! the operations that keep it in sync with the registry the browser holds.
//!
//! A bootstrap script, shipped once per session and a no-op when the
//! singleton it builds already exists, gives the browser four remote methods:
//! `load`, `unload`, `list`, `clear`. Every operation here is two-phase: the
//! request builder returns the frame to send, and the matching completion
//! takes the response payload, updates the registry, and returns the result.
//! A failed operation leaves the client registry unchanged, and after every
//! successful one the client registry's identifier set equals the remote's.

use vstd::prelude::*;

use crate::errors::CssError;
use crate::errors::ProtocolError;
use crate::errors::RegisterError;
use crate::escape::check_single_quote_safe;
use crate::escape::push_template_escaped;
use crate::escape::single_quote_safe;
use crate::escape::template_escaped;
use crate::frame::frame_bytes;
use crate::manifest::ChromeManifestRegistrar;
use crate::registry::SheetRegistry;
use crate::reply::RemoteValue;
use crate::reply::RemoteValueV;
use crate::reply::response_of;
use crate::request::message_bytes;
use crate::request::push_all;
use crate::request::script_params_bytes;
use crate::session::Session;
use vstd::string::StringSliceAdditionalSpecFns;

verus! {

/// The bootstrap script: builds the in-browser singleton holding the mirror
/// registry and a handle to the style-sheet service, unless it already
/// exists. Running it twice neither builds a second singleton nor touches
/// registered sheets.
pub const BOOTSTRAP_SCRIPT: &'static str =
    "if (typeof window.chromeCssManager === 'undefined') {\n    window.chromeCssManager = {\n        sheets: new Map(),\n        sss: Cc[\"@mozilla.org/content/style-sheet-service;1\"]\n             .getService(Ci.nsIStyleSheetService),\n\n        load(css, id) {\n            const sheetId = id || `sheet-${Date.now()}`;\n            const uri = Services.io.newURI(`data:text/css;charset=utf-8,${encodeURIComponent(css)}`);\n\n            this.sss.loadAndRegisterSheet(uri, this.sss.USER_SHEET);\n            this.sheets.set(sheetId, uri);\n            return sheetId;\n        },\n\n        unload(id) {\n            const uri = this.sheets.get(id);\n            if (!uri) return false;\n\n            if (this.sss.sheetRegistered(uri, this.sss.USER_SHEET)) {\n                this.sss.unregisterSheet(uri, this.sss.USER_SHEET);\n            }\n            this.sheets.delete(id);\n            return true;\n        },\n\n        list() {\n            return [...this.sheets.keys()];\n        },\n\n        clear() {\n            for (const id of this.sheets.keys()) {\n                this.unload(id);\n            }\n        }\n    };\n}\nreturn \"initialized\";";

pub const LOAD_SCRIPT_PREFIX: &'static str = "return window.chromeCssManager.load(`";

pub const LOAD_SCRIPT_MID: &'static str = "`, '";

pub const LOAD_SCRIPT_ID_SUFFIX: &'static str = "');";

pub const LOAD_SCRIPT_SUFFIX: &'static str = "`);";

pub const UNLOAD_SCRIPT_PREFIX: &'static str = "return window.chromeCssManager.unload('";

pub const UNLOAD_SCRIPT_SUFFIX: &'static str = "');";

pub const CLEAR_SCRIPT: &'static str = "window.chromeCssManager.clear();";

/// The bytes of an optional identifier.
pub open spec fn opt_bytes(o: Option<&str>) -> Option<Seq<u8>> {
    match o {
        Some(s) => Some(s.spec_bytes()),
        None => None,
    }
}

/// The view of an optional identifier.
pub open spec fn opt_view(o: Option<&str>) -> Option<Seq<char>> {
    match o {
        Some(s) => Some(s@),
        None => None,
    }
}

/// The load script: the source rides inside a backtick template literal,
/// fully escaped; a caller-chosen identifier rides between single quotes.
pub open spec fn load_script_bytes(css: Seq<u8>, id: Option<Seq<u8>>) -> Seq<u8> {
    match id {
        Some(i) => LOAD_SCRIPT_PREFIX.spec_bytes() + template_escaped(css)
            + LOAD_SCRIPT_MID.spec_bytes() + i + LOAD_SCRIPT_ID_SUFFIX.spec_bytes(),
        None => LOAD_SCRIPT_PREFIX.spec_bytes() + template_escaped(css)
            + LOAD_SCRIPT_SUFFIX.spec_bytes(),
    }
}

/// The unload script: the identifier rides between single quotes.
pub open spec fn unload_script_bytes(id: Seq<u8>) -> Seq<u8> {
    UNLOAD_SCRIPT_PREFIX.spec_bytes() + id + UNLOAD_SCRIPT_SUFFIX.spec_bytes()
}

/// Build the load script.
pub fn build_load_script(css: &[u8], id: Option<&[u8]>) -> (r: Vec<u8>)
    ensures
        r@ == load_script_bytes(
            css@,
            match id {
                Some(i) => Some(i@),
                None => None,
            },
        ),
{
    let mut out: Vec<u8> = Vec::new();
    push_all(&mut out, LOAD_SCRIPT_PREFIX.as_bytes());
    push_template_escaped(&mut out, css);
    match id {
        Some(i) => {
            push_all(&mut out, LOAD_SCRIPT_MID.as_bytes());
            push_all(&mut out, i);
            push_all(&mut out, LOAD_SCRIPT_ID_SUFFIX.as_bytes());
        },
        None => {
            push_all(&mut out, LOAD_SCRIPT_SUFFIX.as_bytes());
        },
    }
    out
}

/// Build the unload script.
pub fn build_unload_script(id: &[u8]) -> (r: Vec<u8>)
    ensures
        r@ == unload_script_bytes(id@),
{
    let mut out: Vec<u8> = Vec::new();
    push_all(&mut out, UNLOAD_SCRIPT_PREFIX.as_bytes());
    push_all(&mut out, id);
    push_all(&mut out, UNLOAD_SCRIPT_SUFFIX.as_bytes());
    out
}

/// The operation whose response the manager is waiting for.
pub enum PendingOp {
    Idle,
    Init,
    Load { css: String, id: Option<String> },
    Unload { id: String },
    Clear,
    Register,
    Exec,
}

/// The mathematical content of a pending operation.
pub enum PendingOpV {
    Idle,
    Init,
    Load { css: Seq<char>, id: Option<Seq<char>> },
    Unload { id: Seq<char> },
    Clear,
    Register,
    Exec,
}

impl View for PendingOp {
    type V = PendingOpV;

    open spec fn view(&self) -> PendingOpV {
        match self {
            PendingOp::Idle => PendingOpV::Idle,
            PendingOp::Init => PendingOpV::Init,
            PendingOp::Load { css, id } => PendingOpV::Load {
                css: css@,
                id: match id {
                    Some(i) => Some(i@),
                    None => None,
                },
            },
            PendingOp::Unload { id } => PendingOpV::Unload { id: id@ },
            PendingOp::Clear => PendingOpV::Clear,
            PendingOp::Register => PendingOpV::Register,
            PendingOp::Exec => PendingOpV::Exec,
        }
    }
}

/// The stylesheet manager: one chrome-context session, the client registry,
/// the manifest registrar, and a ghost model of the in-browser registry.
pub struct ChromeCSSManager {
    session: Session,
    sheets: SheetRegistry,
    registrar: ChromeManifestRegistrar,
    bootstrapped: bool,
    pending: PendingOp,
    remote: Ghost<Set<Seq<char>>>,
}

impl ChromeCSSManager {
    /// Internal consistency: the registry is well formed, the modelled remote
    /// registry holds exactly the client's identifiers, the session sits in
    /// the chrome context, and the session awaits a response exactly when an
    /// operation is in flight.
    pub closed spec fn wf(&self) -> bool {
        &&& self.sheets.wf()
        &&& self.remote@ == self.sheets.ids()
        &&& self.session.wf()
        &&& self.session.ctx() is Chrome
        &&& (self.pending is Idle <==> self.session.state() is Idle)
        &&& (!(self.pending is Idle) ==> self.session.state() is Command)
        &&& (self.pending is Register <==> self.registrar.pending_view() is Some)
    }

    /// Identifier-to-source map of the client registry.
    pub closed spec fn sheets_map(&self) -> Map<Seq<char>, Seq<char>> {
        self.sheets.map()
    }

    /// The client registry's identifier set.
    pub open spec fn ids(&self) -> Set<Seq<char>> {
        self.sheets_map().dom()
    }

    /// The modelled in-browser registry's identifier set.
    pub closed spec fn remote_ids(&self) -> Set<Seq<char>> {
        self.remote@
    }

    /// The operation in flight.
    pub closed spec fn pending_op(&self) -> PendingOpV {
        self.pending@
    }

    /// Whether the bootstrap script has been acknowledged this session.
    pub closed spec fn is_bootstrapped(&self) -> bool {
        self.bootstrapped
    }

    /// How many requests the manager's session has issued.
    pub closed spec fn calls_made(&self) -> nat {
        self.session.calls_made()
    }

    /// The registered manifest path, if any.
    pub closed spec fn manifest_view(&self) -> Option<Seq<char>> {
        self.registrar.path_view()
    }

    /// The path whose registration is in flight, if any.
    pub closed spec fn pending_manifest_view(&self) -> Option<Seq<char>> {
        self.registrar.pending_view()
    }

    /// Registry mirror: the modelled in-browser registry holds exactly the
    /// identifiers the client registry holds. Every operation of the manager
    /// preserves this, so it holds after any sequence of them.
    pub proof fn lemma_registry_mirror(&self)
        requires
            self.wf(),
        ensures
            self.remote_ids() == self.ids(),
    {
    }

    /// Wrap a session that already sits in the chrome context. The registry
    /// starts empty and nothing is in flight.
    pub fn new_with_connection(session: Session) -> (r: ChromeCSSManager)
        requires
            session.wf(),
            session.ctx() is Chrome,
            session.state() is Idle,
        ensures
            r.wf(),
            r.ids() =~= Set::<Seq<char>>::empty(),
            r.remote_ids() =~= Set::<Seq<char>>::empty(),
            !r.is_bootstrapped(),
            r.pending_op() is Idle,
            r.manifest_view() is None,
            r.calls_made() == session.calls_made(),
    {
        let sheets = SheetRegistry::new();
        proof {
            assert(sheets.ids() =~= Set::<Seq<char>>::empty());
        }
        ChromeCSSManager {
            session,
            sheets,
            registrar: ChromeManifestRegistrar::new(),
            bootstrapped: false,
            pending: PendingOp::Idle,
            remote: Ghost(Set::empty()),
        }
    }

    /// Build the request that ships the bootstrap script.
    pub fn initialize_chrome_context(&mut self) -> (r: Vec<u8>)
        requires
            old(self).wf(),
            old(self).pending_op() is Idle,
            old(self).calls_made() + 1 < u64::MAX,
        ensures
            final(self).wf(),
            final(self).pending_op() is Init,
            final(self).sheets_map() == old(self).sheets_map(),
            final(self).remote_ids() == old(self).remote_ids(),
            final(self).is_bootstrapped() == old(self).is_bootstrapped(),
            final(self).manifest_view() == old(self).manifest_view(),
            final(self).calls_made() == old(self).calls_made() + 1,
            r@ == frame_bytes(
                message_bytes(
                    final(self).calls_made(),
                    "WebDriver:ExecuteScript".spec_bytes(),
                    script_params_bytes(BOOTSTRAP_SCRIPT.spec_bytes(), "[]".spec_bytes()),
                ),
            ),
    {
        let frame = self.session.execute_script_request(BOOTSTRAP_SCRIPT.as_bytes(), None);
        self.pending = PendingOp::Init;
        frame
    }

    /// Interpret the response to the bootstrap script. Whatever came back,
    /// neither registry changes: bootstrapping never creates a second
    /// singleton and never unregisters existing sheets.
    pub fn initialize_chrome_context_complete(&mut self, payload: &[u8]) -> (r: Result<
        (),
        CssError,
    >)
        requires
            old(self).wf(),
            old(self).pending_op() is Init,
        ensures
            final(self).wf(),
            final(self).pending_op() is Idle,
            final(self).sheets_map() == old(self).sheets_map(),
            final(self).remote_ids() == old(self).remote_ids(),
            final(self).manifest_view() == old(self).manifest_view(),
            final(self).calls_made() == old(self).calls_made(),
            match response_of(payload@) {
                None => r matches Err(CssError::Protocol(ProtocolError::DecodeError)) && final(self).is_bootstrapped() == old(self).is_bootstrapped(),
                Some(resp) => match resp.error {
                    Some(e) => r matches Err(
                        CssError::Protocol(ProtocolError::RemoteError(m)),
                    ) && m@ == e && final(self).is_bootstrapped() == old(self).is_bootstrapped(),
                    None => r matches Ok(()) && final(self).is_bootstrapped(),
                },
            },
    {
        self.pending = PendingOp::Idle;
        match self.session.send_command_complete(payload) {
            Err(e) => Err(CssError::Protocol(e)),
            Ok(_) => {
                self.bootstrapped = true;
                Ok(())
            },
        }
    }

    /// Build the request that loads `css`, under `id` when one is given. A
    /// load under an identifier the registry already holds is refused before
    /// anything is sent: an explicit unload must come first. An identifier
    /// that cannot ride between single quotes is refused too.
    pub fn load_css(&mut self, css: &str, id: Option<&str>) -> (r: Result<Vec<u8>, CssError>)
        requires
            old(self).wf(),
            old(self).pending_op() is Idle,
            old(self).is_bootstrapped(),
            old(self).calls_made() + 1 < u64::MAX,
        ensures
            final(self).wf(),
            final(self).sheets_map() == old(self).sheets_map(),
            final(self).remote_ids() == old(self).remote_ids(),
            final(self).is_bootstrapped(),
            final(self).manifest_view() == old(self).manifest_view(),
            match r {
                Err(CssError::IdCollision(i)) => {
                    &&& id matches Some(s) && i@ == s@ && old(self).ids().contains(s@)
                    &&& final(self).pending_op() is Idle
                    &&& final(self).calls_made() == old(self).calls_made()
                },
                Err(CssError::Escaping(i)) => {
                    &&& id matches Some(s) && i@ == s@ && !old(self).ids().contains(s@)
                        && !single_quote_safe(s.spec_bytes())
                    &&& final(self).pending_op() is Idle
                    &&& final(self).calls_made() == old(self).calls_made()
                },
                Err(_) => false,
                Ok(frame) => {
                    &&& match id {
                        Some(s) => !old(self).ids().contains(s@) && single_quote_safe(
                            s.spec_bytes(),
                        ),
                        None => true,
                    }
                    &&& final(self).pending_op() == (PendingOpV::Load {
                        css: css@,
                        id: opt_view(id),
                    })
                    &&& final(self).calls_made() == old(self).calls_made() + 1
                    &&& frame@ == frame_bytes(
                        message_bytes(
                            final(self).calls_made(),
                            "WebDriver:ExecuteScript".spec_bytes(),
                            script_params_bytes(
                                load_script_bytes(css.spec_bytes(), opt_bytes(id)),
                                "[]".spec_bytes(),
                            ),
                        ),
                    )
                },
            },
    {
        match id {
            Some(s) => {
                let owned: String = s.to_owned();
                if self.sheets.contains(&owned) {
                    return Err(CssError::IdCollision(owned));
                }
                if !check_single_quote_safe(s.as_bytes()) {
                    return Err(CssError::Escaping(owned));
                }
                let script = build_load_script(css.as_bytes(), Some(s.as_bytes()));
                let frame = self.session.execute_script_request(script.as_slice(), None);
                self.pending = PendingOp::Load { css: css.to_owned(), id: Some(owned) };
                Ok(frame)
            },
            None => {
                let script = build_load_script(css.as_bytes(), None);
                let frame = self.session.execute_script_request(script.as_slice(), None);
                self.pending = PendingOp::Load { css: css.to_owned(), id: None };
                Ok(frame)
            },
        }
    }

    /// Interpret the response to a load. The remote returns the identifier it
    /// stored the sheet under; the client then inserts (identifier, source)
    /// into its registry. On any failure the registry is unchanged.
    pub fn load_css_complete(&mut self, payload: &[u8]) -> (r: Result<String, CssError>)
        requires
            old(self).wf(),
            old(self).pending_op() is Load,
        ensures
            final(self).wf(),
            final(self).pending_op() is Idle,
            final(self).calls_made() == old(self).calls_made(),
            final(self).is_bootstrapped() == old(self).is_bootstrapped(),
            final(self).manifest_view() == old(self).manifest_view(),
            match response_of(payload@) {
                None => r matches Err(CssError::Protocol(ProtocolError::DecodeError)) && final(self).sheets_map() == old(self).sheets_map() && final(self).remote_ids() == old(self).remote_ids(),
                Some(resp) => match resp.error {
                    Some(e) => r matches Err(
                        CssError::Protocol(ProtocolError::RemoteError(m)),
                    ) && m@ == e && final(self).sheets_map() == old(self).sheets_map() && final(self).remote_ids() == old(self).remote_ids(),
                    None => match resp.value {
                        RemoteValueV::Str(sid) => {
                            &&& r matches Ok(out) && out@ == sid
                            &&& old(self).pending_op() matches PendingOpV::Load { css, id } && final(self).sheets_map() == old(self).sheets_map().insert(sid, css)
                            &&& final(self).remote_ids() == old(self).remote_ids().insert(sid)
                        },
                        _ => r matches Err(CssError::Protocol(ProtocolError::DecodeError)) && final(self).sheets_map() == old(self).sheets_map() && final(self).remote_ids()
                            == old(self).remote_ids(),
                    },
                },
            },
    {
        let css = match &self.pending {
            PendingOp::Load { css, id: _ } => css.clone(),
            _ => String::new(),  // unreachable under the precondition
        };
        self.pending = PendingOp::Idle;
        match self.session.send_command_complete(payload) {
            Err(e) => Err(CssError::Protocol(e)),
            Ok(RemoteValue::Str(sid)) => {
                let out = sid.clone();
                self.sheets.upsert(sid, css);
                proof {
                    self.remote@ = self.remote@.insert(out@);
                    assert(self.remote@ =~= self.sheets.ids());
                }
                Ok(out)
            },
            Ok(_) => Err(CssError::Protocol(ProtocolError::DecodeError)),
        }
    }

    /// Build the request that unloads `id`. An identifier that cannot ride
    /// between single quotes is refused before anything is sent.
    pub fn unload_css(&mut self, id: &str) -> (r: Result<Vec<u8>, CssError>)
        requires
            old(self).wf(),
            old(self).pending_op() is Idle,
            old(self).is_bootstrapped(),
            old(self).calls_made() + 1 < u64::MAX,
        ensures
            final(self).wf(),
            final(self).sheets_map() == old(self).sheets_map(),
            final(self).remote_ids() == old(self).remote_ids(),
            final(self).is_bootstrapped(),
            final(self).manifest_view() == old(self).manifest_view(),
            match r {
                Err(CssError::Escaping(i)) => {
                    &&& i@ == id@ && !single_quote_safe(id.spec_bytes())
                    &&& final(self).pending_op() is Idle
                    &&& final(self).calls_made() == old(self).calls_made()
                },
                Err(_) => false,
                Ok(frame) => {
                    &&& single_quote_safe(id.spec_bytes())
                    &&& final(self).pending_op() == (PendingOpV::Unload { id: id@ })
                    &&& final(self).calls_made() == old(self).calls_made() + 1
                    &&& frame@ == frame_bytes(
                        message_bytes(
                            final(self).calls_made(),
                            "WebDriver:ExecuteScript".spec_bytes(),
                            script_params_bytes(
                                unload_script_bytes(id.spec_bytes()),
                                "[]".spec_bytes(),
                            ),
                        ),
                    )
                },
            },
    {
        if !check_single_quote_safe(id.as_bytes()) {
            return Err(CssError::Escaping(id.to_owned()));
        }
        let script = build_unload_script(id.as_bytes());
        let frame = self.session.execute_script_request(script.as_slice(), None);
        self.pending = PendingOp::Unload { id: id.to_owned() };
        Ok(frame)
    }

    /// Interpret the response to an unload. The remote answers true when it
    /// held and removed the sheet; the client then mirrors the removal. A
    /// false answer for an identifier the client registry holds is a
    /// registry mismatch; for an unknown identifier it is an ordinary
    /// not-found answer.
    pub fn unload_css_complete(&mut self, payload: &[u8]) -> (r: Result<bool, CssError>)
        requires
            old(self).wf(),
            old(self).pending_op() is Unload,
        ensures
            final(self).wf(),
            final(self).pending_op() is Idle,
            final(self).calls_made() == old(self).calls_made(),
            final(self).is_bootstrapped() == old(self).is_bootstrapped(),
            final(self).manifest_view() == old(self).manifest_view(),
            match response_of(payload@) {
                None => r matches Err(CssError::Protocol(ProtocolError::DecodeError)) && final(self).sheets_map() == old(self).sheets_map() && final(self).remote_ids() == old(self).remote_ids(),
                Some(resp) => match resp.error {
                    Some(e) => r matches Err(
                        CssError::Protocol(ProtocolError::RemoteError(m)),
                    ) && m@ == e && final(self).sheets_map() == old(self).sheets_map() && final(self).remote_ids() == old(self).remote_ids(),
                    None => match resp.value {
                        RemoteValueV::Bool(true) => {
                            &&& r matches Ok(true)
                            &&& old(self).pending_op() matches PendingOpV::Unload { id } && final(self).sheets_map() == old(self).sheets_map().remove(id) && final(self).remote_ids() == old(self).remote_ids().remove(id)
                        },
                        RemoteValueV::Bool(false) => {
                            &&& old(self).pending_op() matches PendingOpV::Unload { id }
                            &&& (if old(self).ids().contains(id) {
                                r matches Err(CssError::RegistryMismatch(m)) && m@ == id
                            } else {
                                r matches Ok(false)
                            })
                            &&& final(self).sheets_map() == old(self).sheets_map()
                            &&& final(self).remote_ids() == old(self).remote_ids()
                        },
                        _ => r matches Err(CssError::Protocol(ProtocolError::DecodeError)) && final(self).sheets_map() == old(self).sheets_map() && final(self).remote_ids()
                            == old(self).remote_ids(),
                    },
                },
            },
    {
        let id = match &self.pending {
            PendingOp::Unload { id } => id.clone(),
            _ => String::new(),  // unreachable under the precondition
        };
        self.pending = PendingOp::Idle;
        match self.session.send_command_complete(payload) {
            Err(e) => Err(CssError::Protocol(e)),
            Ok(RemoteValue::Bool(true)) => {
                self.sheets.remove(&id);
                proof {
                    self.remote@ = self.remote@.remove(id@);
                    assert(self.remote@ =~= self.sheets.ids());
                }
                Ok(true)
            },
            Ok(RemoteValue::Bool(false)) => {
                if self.sheets.contains(&id) {
                    Err(CssError::RegistryMismatch(id))
                } else {
                    Ok(false)
                }
            },
            Ok(_) => Err(CssError::Protocol(ProtocolError::DecodeError)),
        }
    }

    /// Build the request that unregisters every sheet the remote knows about.
    pub fn clear_all(&mut self) -> (r: Vec<u8>)
        requires
            old(self).wf(),
            old(self).pending_op() is Idle,
            old(self).is_bootstrapped(),
            old(self).calls_made() + 1 < u64::MAX,
        ensures
            final(self).wf(),
            final(self).sheets_map() == old(self).sheets_map(),
            final(self).remote_ids() == old(self).remote_ids(),
            final(self).is_bootstrapped(),
            final(self).manifest_view() == old(self).manifest_view(),
            final(self).pending_op() is Clear,
            final(self).calls_made() == old(self).calls_made() + 1,
            r@ == frame_bytes(
                message_bytes(
                    final(self).calls_made(),
                    "WebDriver:ExecuteScript".spec_bytes(),
                    script_params_bytes(CLEAR_SCRIPT.spec_bytes(), "[]".spec_bytes()),
                ),
            ),
    {
        let frame = self.session.execute_script_request(CLEAR_SCRIPT.as_bytes(), None);
        self.pending = PendingOp::Clear;
        frame
    }

    /// Interpret the response to a clear: on anything but an error, both
    /// registries are empty.
    pub fn clear_all_complete(&mut self, payload: &[u8]) -> (r: Result<(), CssError>)
        requires
            old(self).wf(),
            old(self).pending_op() is Clear,
        ensures
            final(self).wf(),
            final(self).pending_op() is Idle,
            final(self).calls_made() == old(self).calls_made(),
            final(self).is_bootstrapped() == old(self).is_bootstrapped(),
            final(self).manifest_view() == old(self).manifest_view(),
            match response_of(payload@) {
                None => r matches Err(CssError::Protocol(ProtocolError::DecodeError)) && final(self).sheets_map() == old(self).sheets_map() && final(self).remote_ids() == old(self).remote_ids(),
                Some(resp) => match resp.error {
                    Some(e) => r matches Err(
                        CssError::Protocol(ProtocolError::RemoteError(m)),
                    ) && m@ == e && final(self).sheets_map() == old(self).sheets_map() && final(self).remote_ids() == old(self).remote_ids(),
                    None => r matches Ok(()) && final(self).sheets_map() =~= Map::<
                        Seq<char>,
                        Seq<char>,
                    >::empty() && final(self).remote_ids() =~= Set::<Seq<char>>::empty(),
                },
            },
    {
        self.pending = PendingOp::Idle;
        match self.session.send_command_complete(payload) {
            Err(e) => Err(CssError::Protocol(e)),
            Ok(_) => {
                self.sheets.clear();
                proof {
                    self.remote@ = Set::empty();
                    assert(self.remote@ =~= self.sheets.ids());
                }
                Ok(())
            },
        }
    }

    /// The registered identifiers: the authoritative caller-visible view of
    /// what is loaded. One copy each.
    pub fn list_loaded(&self) -> (r: Vec<String>)
        requires
            self.wf(),
        ensures
            forall|i: int, j: int| 0 <= i < j < r@.len() ==> r@[i]@ != r@[j]@,
            forall|i: int| 0 <= i < r@.len() ==> self.ids().contains(#[trigger] r@[i]@),
            forall|k: Seq<char>|
                self.ids().contains(k) ==> exists|i: int| 0 <= i < r@.len() && r@[i]@ == k,
    {
        self.sheets.list()
    }

    /// Build the request that registers a chrome-manifest file (path already
    /// canonical).
    pub fn register_chrome_manifest(&mut self, path: &str) -> (r: Result<Vec<u8>, RegisterError>)
        requires
            old(self).wf(),
            old(self).pending_op() is Idle,
            old(self).calls_made() + 1 < u64::MAX,
        ensures
            final(self).wf(),
            final(self).sheets_map() == old(self).sheets_map(),
            final(self).remote_ids() == old(self).remote_ids(),
            final(self).is_bootstrapped() == old(self).is_bootstrapped(),
            final(self).manifest_view() == old(self).manifest_view(),
            match r {
                Err(e) => {
                    &&& e is PathEncoding
                    &&& !single_quote_safe(path.spec_bytes())
                    &&& final(self).pending_op() is Idle
                    &&& final(self).calls_made() == old(self).calls_made()
                },
                Ok(frame) => {
                    &&& single_quote_safe(path.spec_bytes())
                    &&& final(self).pending_op() is Register
                    &&& final(self).pending_manifest_view() == Some(path@)
                    &&& final(self).calls_made() == old(self).calls_made() + 1
                    &&& frame@ == frame_bytes(
                        message_bytes(
                            final(self).calls_made(),
                            "WebDriver:ExecuteScript".spec_bytes(),
                            script_params_bytes(
                                crate::manifest::manifest_script_bytes(path.spec_bytes()),
                                "[]".spec_bytes(),
                            ),
                        ),
                    )
                },
            },
    {
        match self.registrar.register_manifest(path, &mut self.session) {
            Err(e) => Err(e),
            Ok(frame) => {
                self.pending = PendingOp::Register;
                Ok(frame)
            },
        }
    }

    /// Interpret the response to a manifest registration.
    pub fn register_chrome_manifest_complete(&mut self, payload: &[u8]) -> (r: Result<
        (),
        RegisterError,
    >)
        requires
            old(self).wf(),
            old(self).pending_op() is Register,
        ensures
            final(self).wf(),
            final(self).pending_op() is Idle,
            final(self).calls_made() == old(self).calls_made(),
            final(self).sheets_map() == old(self).sheets_map(),
            final(self).remote_ids() == old(self).remote_ids(),
            final(self).is_bootstrapped() == old(self).is_bootstrapped(),
            match response_of(payload@) {
                None => r matches Err(
                    RegisterError::Protocol(ProtocolError::DecodeError),
                ) && final(self).manifest_view() == old(self).manifest_view(),
                Some(resp) => match resp.error {
                    Some(e) => r matches Err(
                        RegisterError::Protocol(ProtocolError::RemoteError(m)),
                    ) && m@ == e && final(self).manifest_view() == old(self).manifest_view(),
                    None => match resp.value {
                        RemoteValueV::Object { success, error, rendering } => {
                            if success == Some(true) {
                                r matches Ok(()) && final(self).manifest_view() == old(
                                    self,
                                ).pending_manifest_view()
                            } else {
                                r matches Err(RegisterError::RemoteFailure(m)) && (match error {
                                    Some(e) => m@ == e,
                                    None => m@ == "Unknown error"@,
                                }) && final(self).manifest_view() == old(self).manifest_view()
                            }
                        },
                        _ => r matches Err(RegisterError::RemoteFailure(m)) && m@
                            == "Unknown error"@ && final(self).manifest_view() == old(
                            self,
                        ).manifest_view(),
                    },
                },
            },
    {
        let r = self.registrar.register_manifest_complete(&mut self.session, payload);
        self.pending = PendingOp::Idle;
        r
    }

    /// The registered manifest path, if any.
    pub fn get_registered_manifest(&self) -> (r: Option<&String>)
        ensures
            match r {
                Some(p) => self.manifest_view() == Some(p@),
                None => self.manifest_view() is None,
            },
    {
        self.registrar.get_registered_path()
    }

    /// Build the request that executes an arbitrary script; `args_json` is an
    /// already-serialized JSON array of positional arguments.
    pub fn execute_script(&mut self, script: &str, args_json: Option<&str>) -> (r: Vec<u8>)
        requires
            old(self).wf(),
            old(self).pending_op() is Idle,
            old(self).calls_made() + 1 < u64::MAX,
        ensures
            final(self).wf(),
            final(self).sheets_map() == old(self).sheets_map(),
            final(self).remote_ids() == old(self).remote_ids(),
            final(self).is_bootstrapped() == old(self).is_bootstrapped(),
            final(self).manifest_view() == old(self).manifest_view(),
            final(self).pending_op() is Exec,
            final(self).calls_made() == old(self).calls_made() + 1,
            r@ == frame_bytes(
                message_bytes(
                    final(self).calls_made(),
                    "WebDriver:ExecuteScript".spec_bytes(),
                    script_params_bytes(
                        script.spec_bytes(),
                        match args_json {
                            Some(a) => a.spec_bytes(),
                            None => "[]".spec_bytes(),
                        },
                    ),
                ),
            ),
    {
        let args: Option<&[u8]> = match args_json {
            Some(a) => Some(a.as_bytes()),
            None => None,
        };
        let frame = self.session.execute_script_request(script.as_bytes(), args);
        self.pending = PendingOp::Exec;
        frame
    }

    /// Interpret the response to an arbitrary script execution.
    pub fn execute_script_complete(&mut self, payload: &[u8]) -> (r: Result<
        RemoteValue,
        ProtocolError,
    >)
        requires
            old(self).wf(),
            old(self).pending_op() is Exec,
        ensures
            final(self).wf(),
            final(self).pending_op() is Idle,
            final(self).calls_made() == old(self).calls_made(),
            final(self).sheets_map() == old(self).sheets_map(),
            final(self).remote_ids() == old(self).remote_ids(),
            final(self).is_bootstrapped() == old(self).is_bootstrapped(),
            final(self).manifest_view() == old(self).manifest_view(),
            match response_of(payload@) {
                None => r matches Err(ProtocolError::DecodeError),
                Some(resp) => match resp.error {
                    Some(e) => r matches Err(ProtocolError::RemoteError(m)) && m@ == e,
                    None => r matches Ok(v) && v@ == resp.value,
                },
            },
    {
        self.pending = PendingOp::Idle;
        self.session.send_command_complete(payload)
    }
}

} // verus!
