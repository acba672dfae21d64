//! The privileged helper's bookkeeping around one connection attempt: the
//! questions on screen, the single way an attempt is brought down, and the
//! fingerprints the user has accepted.
use vstd::prelude::*;

use crate::auth::AuthRequest;
use crate::profile::{opt_view, parse_os, ClientOs};
use crate::prompt::Prompt;
use crate::text::{chars_of, string_of, trim, trimmed};
use crate::tls::TlsOptions;

verus! {

/// Everything a running connection can be asked about from the command loop.
pub struct Prompts {
    pub trust: Prompt<bool>,
    pub otp: Prompt<String>,
    pub gateway: Prompt<String>,
    /// How many questions the user is looking at right now. The attempt's
    /// deadline stops counting while this is non-zero, so a slowly typed
    /// one-time code can never be what times a connection out.
    pub waiting: usize,
}

impl Prompts {
    pub fn new() -> (r: Prompts)
        ensures
            r.trust.state is Idle,
            r.otp.state is Idle,
            r.gateway.state is Idle,
            r.waiting == 0,
    {
        Prompts {
            trust: Prompt::default(),
            otp: Prompt::default(),
            gateway: Prompt::default(),
            waiting: 0,
        }
    }

    /// A question goes on screen.
    pub fn begin_question(&mut self)
        requires
            old(self).waiting < usize::MAX,
        ensures
            final(self).waiting == old(self).waiting + 1,
    {
        self.waiting = self.waiting + 1;
    }

    /// A question leaves the screen, answered or not.
    pub fn end_question(&mut self)
        requires
            old(self).waiting > 0,
        ensures
            final(self).waiting == old(self).waiting - 1,
    {
        self.waiting = self.waiting - 1;
    }

    /// Whether the user is looking at a question.
    pub fn is_waiting(&self) -> (r: bool)
        ensures
            r == (self.waiting > 0),
    {
        self.waiting > 0
    }

    /// Whether the attempt's clock runs: only while no question is on screen.
    pub fn charging(&self) -> (r: bool)
        ensures
            r == (self.waiting == 0),
    {
        !self.is_waiting()
    }

    /// Withdraws every question of the attempt.
    pub fn cancel_all(&mut self)
        ensures
            final(self).trust.state is Cancelled,
            final(self).otp.state is Cancelled,
            final(self).gateway.state is Cancelled,
            final(self).waiting == old(self).waiting,
    {
        self.trust.cancel();
        self.otp.cancel();
        self.gateway.cancel();
    }

    /// Clears a previous attempt's cancellation before a new connection.
    pub fn reset_all(&mut self)
        ensures
            final(self).trust.state is Idle,
            final(self).otp.state is Idle,
            final(self).gateway.state is Idle,
            final(self).waiting == old(self).waiting,
    {
        self.trust.reset();
        self.otp.reset();
        self.gateway.reset();
    }
}

/// One connection attempt, and the single way it is brought down.
///
/// Any failure ends the attempt: pending questions are withdrawn and a
/// half-built tunnel is cancelled. Only the first failure is reported - the
/// cancellation makes everything still in flight fail too, and that fallout
/// says nothing the user needs to hear.
pub struct Attempt {
    pub failure: Option<String>,
}

impl Attempt {
    pub fn new() -> (r: Attempt)
        ensures
            r.failure is None,
    {
        Attempt { failure: None }
    }

    /// Records a failure. True only for the first one, which the caller then
    /// reports before cancelling the prompts and the tunnel; any later one is
    /// dropped and the recorded failure stays as it was.
    pub fn fail(&mut self, message: String) -> (r: bool)
        ensures
            r == (old(self).failure is None),
            r ==> opt_view(final(self).failure) == Some(message@),
            !r ==> opt_view(final(self).failure) == opt_view(old(self).failure),
    {
        if self.failure.is_none() {
            self.failure = Some(message);
            true
        } else {
            false
        }
    }
}

/// The fingerprints in a trust store, as plain values.
pub open spec fn fingerprints_view(v: Seq<String>) -> Seq<Seq<char>> {
    v.map_values(|s: String| s@)
}

/// A store of fingerprints after `f` was added: empty fingerprints and ones
/// already there are not added again.
pub open spec fn added(store: Seq<Seq<char>>, f: Seq<char>) -> Seq<Seq<char>> {
    if f.len() == 0 || store.contains(f) {
        store
    } else {
        store.push(f)
    }
}

/// Fingerprints the user has accepted, shared between the login (which uses
/// rustls) and the tunnel (which uses libopenconnect). Both record the value
/// in openconnect's `pin-sha256:` form, so one accepted certificate covers
/// both.
pub struct TrustStore {
    pub fingerprints: Vec<String>,
}

impl TrustStore {
    pub fn new() -> (r: TrustStore)
        ensures
            r.fingerprints@.len() == 0,
    {
        TrustStore { fingerprints: Vec::new() }
    }

    /// Whether the store holds this fingerprint.
    pub fn contains(&self, fingerprint: &str) -> (r: bool)
        ensures
            r == fingerprints_view(self.fingerprints@).contains(fingerprint@),
    {
        let ghost f = fingerprints_view(self.fingerprints@);
        let wanted = String::from_str(fingerprint);
        let mut i: usize = 0;
        while i < self.fingerprints.len()
            invariant
                i <= self.fingerprints@.len(),
                f == fingerprints_view(self.fingerprints@),
                forall|k: int| 0 <= k < i ==> f[k] != fingerprint@,
                wanted@ == fingerprint@,
            decreases self.fingerprints@.len() - i,
        {
            if self.fingerprints[i].eq(&wanted) {
                assert(f[i as int] == fingerprint@);
                return true;
            }
            i = i + 1;
        }
        false
    }

    /// The fingerprint accepted in an earlier session, if there is one.
    pub fn seed(&mut self, fingerprint: Option<String>)
        ensures
            match opt_view(fingerprint) {
                Some(f) => if f.len() > 0 {
                    fingerprints_view(final(self).fingerprints@) == fingerprints_view(
                        old(self).fingerprints@,
                    ).push(f)
                } else {
                    fingerprints_view(final(self).fingerprints@) == fingerprints_view(
                        old(self).fingerprints@,
                    )
                },
                None => fingerprints_view(final(self).fingerprints@) == fingerprints_view(
                    old(self).fingerprints@,
                ),
            },
    {
        match fingerprint {
            Some(f) => {
                if f.unicode_len() > 0 {
                    self.fingerprints.push(f);
                    assert(fingerprints_view(self.fingerprints@) =~= fingerprints_view(
                        old(self).fingerprints@,
                    ).push(f@));
                }
            },
            None => {},
        }
    }

    /// Adds a fingerprint the user accepted; empty ones and ones already there
    /// are not added again.
    pub fn add(&mut self, fingerprint: String)
        ensures
            fingerprints_view(final(self).fingerprints@) == added(
                fingerprints_view(old(self).fingerprints@),
                fingerprint@,
            ),
    {
        if fingerprint.unicode_len() > 0 && !self.contains(fingerprint.as_str()) {
            self.fingerprints.push(fingerprint);
            assert(fingerprints_view(self.fingerprints@) =~= fingerprints_view(
                old(self).fingerprints@,
            ).push(fingerprint@));
        }
    }

    /// Every accepted fingerprint, in the order they were accepted.
    pub fn all(&self) -> (r: Vec<String>)
        ensures
            fingerprints_view(r@) == fingerprints_view(self.fingerprints@),
    {
        let mut out: Vec<String> = Vec::new();
        let mut i: usize = 0;
        while i < self.fingerprints.len()
            invariant
                i <= self.fingerprints@.len(),
                fingerprints_view(out@) == fingerprints_view(self.fingerprints@.take(i as int)),
            decreases self.fingerprints@.len() - i,
        {
            let item = self.fingerprints[i].clone();
            assert(item@ == self.fingerprints@[i as int]@);
            out.push(item);
            i = i + 1;
            assert(fingerprints_view(self.fingerprints@.take(i as int)) =~= fingerprints_view(
                self.fingerprints@.take(i - 1),
            ).push(self.fingerprints@[i - 1]@));
            assert(fingerprints_view(out@) =~= fingerprints_view(self.fingerprints@.take(i - 1)).push(
                self.fingerprints@[i - 1]@,
            ));
        }
        assert(self.fingerprints@.take(i as int) == self.fingerprints@);
        out
    }
}

/// Adding a fingerprint a second time changes nothing: the store holds each
/// accepted fingerprint once.
pub proof fn law_trust_store_add_is_idempotent(store: Seq<Seq<char>>, f: Seq<char>)
    ensures
        added(added(store, f), f) == added(store, f),
{
    if f.len() > 0 && !store.contains(f) {
        assert(store.push(f)[store.len() as int] == f);
    }
}

/// The level a libopenconnect progress message is shown at: errors as
/// errors, everything chattier as information.
pub open spec fn level_name(level: i32) -> Seq<char> {
    if level <= 0 {
        "error"@
    } else {
        "info"@
    }
}

/// The level a libopenconnect progress message is shown at. `PRG_ERR` is 0;
/// `PRG_INFO`, `PRG_DEBUG` and `PRG_TRACE` follow it.
pub fn progress_level(level: i32) -> (r: &'static str)
    ensures
        r@ == level_name(level),
{
    if level <= 0 {
        "error"
    } else {
        "info"
    }
}

/// A progress line as it is shown: without surrounding white space.
pub fn progress_text(message: &str) -> (r: String)
    ensures
        r@ == trim(message@),
{
    string_of(&trimmed(message))
}

/// What libopenconnect's certificate callback returns once the user has
/// answered: 0 accepts the certificate (and the store remembers it), 1
/// refuses it.
pub fn tunnel_cert_answer(store: &mut TrustStore, fingerprint: String, accepted: bool) -> (r: i32)
    ensures
        accepted ==> r == 0,
        !accepted ==> r == 1 && fingerprints_view(final(store).fingerprints@) == fingerprints_view(
            old(store).fingerprints@,
        ),
        accepted ==> (fingerprint@.len() > 0 ==> fingerprints_view(final(store).fingerprints@).contains(
            fingerprint@,
        )),
{
    if accepted {
        let ghost f = fingerprint@;
        let ghost before = fingerprints_view(store.fingerprints@);
        store.add(fingerprint);
        proof {
            if f.len() > 0 {
                if !before.contains(f) {
                    assert(fingerprints_view(store.fingerprints@)[before.len() as int] == f);
                }
            }
        }
        0
    } else {
        1
    }
}

/// A connection request, as the GUI sends it.
pub struct ConnectRequest {
    pub portal: String,
    pub username: String,
    pub password: String,
    pub otp: String,
    /// Skips portal discovery and logs straight into this gateway.
    pub gateway: Option<String>,
    /// `Linux`, `Windows` or `Mac`; portals that reject Linux clients usually
    /// accept a Windows one.
    pub client_os: Option<String>,
    pub cafile: Option<String>,
    pub client_cert: Option<String>,
    pub client_key: Option<String>,
    pub trusted_fingerprint: Option<String>,
    /// Overrides vpnc-script discovery.
    pub script: Option<String>,
    /// Submit a HIP report when the gateway asks for one.
    pub hip: bool,
    /// Seconds the attempt may spend before it is given up on; 0 removes the
    /// limit, none means the default.
    pub timeout_secs: Option<u64>,
    pub verbose: bool,
}

/// The login a connection request asks for.
pub fn auth_request(request: &ConnectRequest) -> (r: AuthRequest)
    ensures
        r.server@ == request.portal@,
        r.username@ == request.username@,
        r.password@ == request.password@,
        r.otp@ == request.otp@,
        opt_view(r.gateway) == opt_view(request.gateway),
        r.client_os == parse_os(
            match request.client_os {
                Some(o) => o@,
                None => Seq::empty(),
            },
        ),
        opt_view(r.tls.cafile) == opt_view(request.cafile),
        opt_view(r.tls.client_cert) == opt_view(request.client_cert),
        opt_view(r.tls.client_key) == opt_view(request.client_key),
        opt_view(r.tls.trusted_fingerprint) == opt_view(request.trusted_fingerprint),
{
    let os = match &request.client_os {
        Some(o) => ClientOs::parse(o.as_str()),
        None => {
            let empty = String::new();
            ClientOs::parse(empty.as_str())
        },
    };
    AuthRequest {
        server: request.portal.clone(),
        username: request.username.clone(),
        password: request.password.clone(),
        otp: request.otp.clone(),
        gateway: crate::credential::clone_opt(&request.gateway),
        client_os: os,
        tls: TlsOptions {
            cafile: crate::credential::clone_opt(&request.cafile),
            client_cert: crate::credential::clone_opt(&request.client_cert),
            client_key: crate::credential::clone_opt(&request.client_key),
            trusted_fingerprint: crate::credential::clone_opt(&request.trusted_fingerprint),
        },
    }
}

/// The message an attempt that ran out of time fails with.
pub fn timeout_message(limit_secs: u64) -> (r: String)
    ensures
        r@ == "Gave up after "@ + crate::text::decimal(limit_secs as nat)
            + " seconds: the portal did not finish bringing the connection up"@,
{
    let mut out = chars_of("Gave up after ");
    let d = crate::text::decimal_chars(limit_secs as u128);
    crate::text::push_chars(&mut out, &d);
    crate::text::push_str(&mut out, " seconds: the portal did not finish bringing the connection up");
    string_of(&out)
}

/// libopenconnect's `PRG_INFO` and `PRG_TRACE` log levels.
pub const PRG_INFO: i32 = 1;
pub const PRG_TRACE: i32 = 3;

/// The warning for a HIP report that was asked for but cannot be made.
pub fn hip_notice(hip: bool, found: bool) -> (r: Option<&'static str>)
    ensures
        hip && !found ==> (r matches Some(m) && m@
            == "HIP reporting was requested but no hipreport.sh was found; continuing without it"@),
        !(hip && !found) ==> r is None,
{
    if hip && !found {
        Some("HIP reporting was requested but no hipreport.sh was found; continuing without it")
    } else {
        None
    }
}

/// What libopenconnect is told for a session: the gateway and cookie the
/// login produced, the identity it logged in with, and the connection's own
/// TLS and script settings.
pub fn tunnel_options(
    session: &crate::auth::Session,
    request: &ConnectRequest,
    hip_script: Option<&str>,
) -> (r: crate::openconnect::Options)
    ensures
        r.gateway_url@ == session.gateway_url@,
        r.cookie@ == session.cookie@,
        r.computer@ == session.profile.computer@,
        r.reported_os@ == crate::profile::openconnect_os_name(session.profile.client_os),
        opt_view(r.cafile) == opt_view(request.cafile),
        opt_view(r.client_cert) == opt_view(request.client_cert),
        opt_view(r.client_key) == opt_view(request.client_key),
        opt_view(r.script) == opt_view(request.script),
        opt_view(r.hip_script) == match hip_script {
            Some(h) => Some(h@),
            None => None,
        },
        r.log_level == if request.verbose { PRG_TRACE } else { PRG_INFO },
{
    crate::openconnect::Options {
        gateway_url: session.gateway_url.clone(),
        cookie: session.cookie.clone(),
        computer: session.profile.computer.clone(),
        reported_os: String::from_str(session.profile.client_os.openconnect_os()),
        cafile: crate::credential::clone_opt(&request.cafile),
        client_cert: crate::credential::clone_opt(&request.client_cert),
        client_key: crate::credential::clone_opt(&request.client_key),
        script: crate::credential::clone_opt(&request.script),
        hip_script: match hip_script {
            Some(h) => Some(String::from_str(h)),
            None => None,
        },
        log_level: if request.verbose { PRG_TRACE } else { PRG_INFO },
    }
}

/// A command from the GUI, one per line.
pub enum Command {
    Connect(ConnectRequest),
    TrustCert,
    RejectCert,
    SubmitOtp { otp: String },
    SelectGateway { address: String },
    Disconnect,
}

/// What the command loop does with a command.
pub enum Dispatch {
    /// Report this error and go on reading commands.
    Refuse(String),
    /// Start a connection attempt on a worker.
    Start(ConnectRequest),
    /// An answer was handed to a prompt; `wake` says whether a waiter has to
    /// be woken for it.
    Answered { wake: bool },
    /// Tear the attempt down and stop reading commands.
    Stop,
}

/// Handles one command: answers go to the prompt that asked for them, a
/// disconnect withdraws every question, and a second connection is refused
/// while a worker is still running.
pub fn dispatch(prompts: &mut Prompts, command: Command, worker_running: bool) -> (r: Dispatch)
    ensures
        match command {
            Command::Connect(_) => if worker_running {
                r matches Dispatch::Refuse(m) && m@ == "A VPN connection is already active"@
            } else {
                r is Start
            },
            Command::TrustCert => r == (Dispatch::Answered {
                wake: old(prompts).trust.state is Waiting,
            }) && (old(prompts).trust.state is Waiting ==> final(prompts).trust.state
                == crate::prompt::PromptState::Answered(true)),
            Command::RejectCert => r == (Dispatch::Answered {
                wake: old(prompts).trust.state is Waiting,
            }) && (old(prompts).trust.state is Waiting ==> final(prompts).trust.state
                == crate::prompt::PromptState::Answered(false)),
            Command::SubmitOtp { otp } => r == (Dispatch::Answered {
                wake: old(prompts).otp.state is Waiting,
            }) && (old(prompts).otp.state is Waiting ==> final(prompts).otp.state
                == crate::prompt::PromptState::Answered(otp)),
            Command::SelectGateway { address } => r == (Dispatch::Answered {
                wake: old(prompts).gateway.state is Waiting,
            }) && (old(prompts).gateway.state is Waiting ==> final(prompts).gateway.state
                == crate::prompt::PromptState::Answered(address)),
            Command::Disconnect => {
                &&& r is Stop
                &&& final(prompts).trust.state is Cancelled
                &&& final(prompts).otp.state is Cancelled
                &&& final(prompts).gateway.state is Cancelled
            },
        },
{
    match command {
        Command::Connect(request) => {
            if worker_running {
                Dispatch::Refuse(String::from_str("A VPN connection is already active"))
            } else {
                Dispatch::Start(request)
            }
        },
        Command::TrustCert => Dispatch::Answered { wake: prompts.trust.answer(true) },
        Command::RejectCert => Dispatch::Answered { wake: prompts.trust.answer(false) },
        Command::SubmitOtp { otp } => Dispatch::Answered { wake: prompts.otp.answer(otp) },
        Command::SelectGateway { address } => Dispatch::Answered {
            wake: prompts.gateway.answer(address),
        },
        Command::Disconnect => {
            prompts.cancel_all();
            Dispatch::Stop
        },
    }
}

} // verus!
