use vstd::prelude::*;

use crate::codec::{bytes_of_hex, hex_of, is_hex, lemma_bytes_round_trip};
use crate::error::{chain_text, has_context, SdkError};
use crate::identity::{identity_secret, is_mnemonic, GreenlightCredentials, Identity};

verus! {

/// The steps of session establishment, in the order they run.  Each step
/// but the last is outside work whose outcome the host reports back.
#[derive(Clone, Copy, Debug, PartialEq, Eq, Structural)]
pub enum EstablishStep {
    /// Parse the decoded blob into device credentials.
    ParseCredentials,
    /// Build the credentials into usable trust material.
    BuildCredentials,
    /// Derive the secure channel parameters from the trust material.
    DeriveTransport,
    /// Create the signer over the identity and the channel parameters.
    CreateSigner,
    /// Reach the scheduler for this node.
    ConnectScheduler,
    /// Ask the scheduler for the node handle.
    ResolveNode,
    /// Spawn the signer task; the session exists only after this.
    StartSigner,
}

/// The step that follows `s`.
pub open spec fn next_step(s: EstablishStep) -> EstablishStep {
    match s {
        EstablishStep::ParseCredentials => EstablishStep::BuildCredentials,
        EstablishStep::BuildCredentials => EstablishStep::DeriveTransport,
        EstablishStep::DeriveTransport => EstablishStep::CreateSigner,
        EstablishStep::CreateSigner => EstablishStep::ConnectScheduler,
        EstablishStep::ConnectScheduler => EstablishStep::ResolveNode,
        EstablishStep::ResolveNode => EstablishStep::StartSigner,
        EstablishStep::StartSigner => EstablishStep::StartSigner,
    }
}

/// A failed parse of the credentials is the caller's fault; every later
/// failure is the remote side's.
pub open spec fn fails_as_invalid_argument(s: EstablishStep) -> bool {
    s == EstablishStep::ParseCredentials
}

/// The context under which the failure of step `s` is reported.
pub open spec fn step_context(s: EstablishStep) -> Seq<char> {
    match s {
        EstablishStep::ParseCredentials => "failed to parse credentials"@,
        EstablishStep::BuildCredentials => "failed to build credentials"@,
        EstablishStep::DeriveTransport => "failed to get TLS config from greenlight credentials"@,
        EstablishStep::CreateSigner => "failed to create signer"@,
        EstablishStep::ConnectScheduler => "failed to create scheduler"@,
        EstablishStep::ResolveNode => "failed to create node"@,
        EstablishStep::StartSigner => "failed to start signer"@,
    }
}

fn context_of(s: EstablishStep) -> (r: &'static str)
    ensures
        r@ == step_context(s),
{
    match s {
        EstablishStep::ParseCredentials => "failed to parse credentials",
        EstablishStep::BuildCredentials => "failed to build credentials",
        EstablishStep::DeriveTransport => "failed to get TLS config from greenlight credentials",
        EstablishStep::CreateSigner => "failed to create signer",
        EstablishStep::ConnectScheduler => "failed to create scheduler",
        EstablishStep::ResolveNode => "failed to create node",
        EstablishStep::StartSigner => "failed to start signer",
    }
}

/// Whether establishment accepts a phrase and a credential text before any
/// remote call.
pub open spec fn establish_accepts(phrase: Seq<char>, credentials: Seq<char>) -> bool {
    is_hex(credentials) && is_mnemonic(phrase)
}

/// A session being set up.  It holds the identity and the decoded
/// credentials while the host performs each step; any failure ends it, so no
/// partial session is ever handed out.
pub struct SessionEstablisher {
    identity: Identity,
    credentials: Vec<u8>,
    step: EstablishStep,
}

impl SessionEstablisher {
    pub closed spec fn step_view(&self) -> EstablishStep {
        self.step
    }

    pub closed spec fn credentials_view(&self) -> Seq<u8> {
        self.credentials@
    }

    pub closed spec fn secret_view(&self) -> Seq<u8> {
        self.identity.secret_view()
    }

    /// Starts establishment with the checks that need no remote call: the
    /// credential text must be hex and the phrase a valid mnemonic.  Both
    /// failures are `InvalidArgument`.
    pub fn start(mnemonic: &str, credentials: &GreenlightCredentials) -> (r: Result<
        SessionEstablisher,
        SdkError,
    >)
        ensures
            r is Ok <==> establish_accepts(mnemonic@, credentials.gl_creds@),
            r is Err ==> r->Err_0.is_invalid_argument(),
            !is_hex(credentials.gl_creds@) ==> r is Err && has_context(
                r->Err_0.message(),
                "failed to decode credentials"@,
            ),
            is_hex(credentials.gl_creds@) && !is_mnemonic(mnemonic@) ==> r is Err && has_context(
                r->Err_0.message(),
                "failed to parse mnemonic"@,
            ),
            r is Ok ==> r->Ok_0.step_view() == EstablishStep::ParseCredentials
                && r->Ok_0.credentials_view() == bytes_of_hex(credentials.gl_creds@)
                && r->Ok_0.secret_view() == identity_secret(mnemonic@),
    {
        let blob = match credentials.decode() {
            Ok(b) => b,
            Err(e) => return Err(e),
        };
        let identity = match Identity::from_phrase(mnemonic) {
            Ok(id) => id,
            Err(e) => return Err(e),
        };
        Ok(SessionEstablisher { identity, credentials: blob, step: EstablishStep::ParseCredentials })
    }

    /// The step the host is to perform next.
    pub fn step(&self) -> (r: EstablishStep)
        ensures
            r == self.step_view(),
    {
        self.step
    }

    /// The decoded credentials blob.
    pub fn credentials(&self) -> (r: &Vec<u8>)
        ensures
            r@ == self.credentials_view(),
    {
        &self.credentials
    }

    /// The identity the session is for.
    pub fn identity(&self) -> (r: &Identity)
        ensures
            r.secret_view() == self.secret_view(),
    {
        &self.identity
    }

    /// Records the outcome of the current step.  Success moves on to the next
    /// step; a failure, with its cause, ends establishment with the step's
    /// error.
    pub fn advance(self, outcome: Result<(), String>) -> (r: Result<SessionEstablisher, SdkError>)
        requires
            self.step_view() != EstablishStep::StartSigner,
        ensures
            outcome is Ok ==> r is Ok && r->Ok_0.step_view() == next_step(self.step_view())
                && r->Ok_0.credentials_view() == self.credentials_view()
                && r->Ok_0.secret_view() == self.secret_view(),
            outcome is Err ==> r is Err && r->Err_0.is_invalid_argument()
                == fails_as_invalid_argument(self.step_view()) && r->Err_0.message()
                == chain_text(step_context(self.step_view()), outcome->Err_0@),
    {
        match outcome {
            Ok(()) => {
                let step = match self.step {
                    EstablishStep::ParseCredentials => EstablishStep::BuildCredentials,
                    EstablishStep::BuildCredentials => EstablishStep::DeriveTransport,
                    EstablishStep::DeriveTransport => EstablishStep::CreateSigner,
                    EstablishStep::CreateSigner => EstablishStep::ConnectScheduler,
                    EstablishStep::ConnectScheduler => EstablishStep::ResolveNode,
                    EstablishStep::ResolveNode => EstablishStep::StartSigner,
                    EstablishStep::StartSigner => EstablishStep::StartSigner,
                };
                Ok(SessionEstablisher { identity: self.identity, credentials: self.credentials, step })
            },
            Err(cause) => {
                let context = context_of(self.step);
                if self.step == EstablishStep::ParseCredentials {
                    Err(SdkError::invalid_arg(context, cause.as_str()))
                } else {
                    Err(SdkError::greenlight_api(context, cause.as_str()))
                }
            },
        }
    }

    /// Completes establishment once the signer task has been spawned: the
    /// session starts serving with its signer running.
    pub fn signer_spawned(self) -> (r: Session)
        requires
            self.step_view() == EstablishStep::StartSigner,
        ensures
            r@ == (SessionModel { signer: SignerState::Running, signal_sent: false }),
            session_wf(r@),
            rpc_permitted_in(r@),
    {
        Session { signer: SignerState::Running, signal_sent: false }
    }
}

/// The life of the signer task, as its session sees it.
#[derive(Clone, Copy, Debug, PartialEq, Eq, Structural)]
pub enum SignerState {
    Running,
    Stopping,
    Stopped,
}

/// What the library tracks of a live session: where its signer stands and
/// whether the shutdown signal was sent.
pub struct SessionModel {
    pub signer: SignerState,
    pub signal_sent: bool,
}

/// The signer stops only after the shutdown signal was sent.
pub open spec fn session_wf(m: SessionModel) -> bool {
    !m.signal_sent ==> m.signer == SignerState::Running
}

/// Node operations are permitted from establishment until shutdown begins.
pub open spec fn rpc_permitted_in(m: SessionModel) -> bool {
    !m.signal_sent
}

/// A shutdown request: the session afterwards, and whether the request is
/// to send the signal (only if none was sent yet).  A running signer is
/// then stopping.
pub open spec fn shutdown_request(m: SessionModel) -> (SessionModel, bool) {
    let signer = if m.signer == SignerState::Running {
        SignerState::Stopping
    } else {
        m.signer
    };
    (SessionModel { signer, signal_sent: true }, !m.signal_sent)
}

/// A live session: its signer was spawned before it was built, so every
/// remote call made through it can be answered.  The host keeps the node
/// handle, the shutdown channel and the task handle beside it.
pub struct Session {
    signer: SignerState,
    signal_sent: bool,
}

impl View for Session {
    type V = SessionModel;

    closed spec fn view(&self) -> SessionModel {
        SessionModel { signer: self.signer, signal_sent: self.signal_sent }
    }
}

impl Session {
    /// Whether node operations may be issued.
    pub fn rpc_permitted(&self) -> (r: bool)
        ensures
            r == rpc_permitted_in(self@),
    {
        !self.signal_sent
    }

    /// Where the signer task stands.
    pub fn signer(&self) -> (r: SignerState)
        ensures
            r == self@.signer,
    {
        self.signer
    }

    /// Begins shutdown.  Returns whether the host is to send the shutdown
    /// signal: true on the first call only, so at most one signal is ever
    /// sent.
    pub fn request_shutdown(&mut self) -> (send: bool)
        requires
            session_wf(old(self)@),
        ensures
            (final(self)@, send) == shutdown_request(old(self)@),
            session_wf(final(self)@),
    {
        let send = !self.signal_sent;
        self.signal_sent = true;
        if self.signer == SignerState::Running {
            self.signer = SignerState::Stopping;
        }
        send
    }

    /// Records that the signer task has ended, on its own or cancelled.
    pub fn signer_ended(&mut self)
        requires
            session_wf(old(self)@),
            old(self)@.signal_sent,
        ensures
            final(self)@ == (SessionModel { signer: SignerState::Stopped, signal_sent: true }),
            session_wf(final(self)@),
    {
        self.signer = SignerState::Stopped;
    }
}

/// Shutting down twice is harmless: the second request sends no signal and
/// leaves the session as the first one left it.
pub proof fn lemma_shutdown_idempotent(m: SessionModel)
    requires
        session_wf(m),
    ensures
        ({
            let (m1, send1) = shutdown_request(m);
            let (m2, send2) = shutdown_request(m1);
            &&& session_wf(m1) && session_wf(m2)
            &&& send1 == !m.signal_sent
            &&& !send2
            &&& m2 == m1
        }),
{
}

/// Credentials recovered or registered for a valid phrase are accepted by
/// establishment with that phrase, which then holds the very blob that the
/// scheduler issued.
pub proof fn lemma_recover_then_establish(phrase: Seq<char>, blob: Seq<u8>)
    requires
        is_mnemonic(phrase),
    ensures
        establish_accepts(phrase, hex_of(blob)),
        bytes_of_hex(hex_of(blob)) == blob,
{
    lemma_bytes_round_trip(blob);
}

/// A session permits node operations only while the signer task, which
/// was spawned before the session existed, is running.
pub proof fn lemma_rpc_needs_running_signer(m: SessionModel)
    requires
        session_wf(m),
        rpc_permitted_in(m),
    ensures
        m.signer == SignerState::Running,
{
}

} // verus!
