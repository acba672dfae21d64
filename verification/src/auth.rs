//! The whole login - prelogin, portal config, gateway login, MFA challenge -
//! as a real client performs it, ending in the tunnel cookie.
//!
//! The flow is a state machine: each step says what has to happen next (a
//! request to send, a host to resolve, a question for the user) and takes the
//! outcome back. The caller performs the work; every decision is made here.
use vstd::prelude::*;

use crate::credential::{credential_params, wipe, wiped, Credential, CredentialView};
use crate::error::{Error, ErrorView, ServerError};
use crate::gateway::{
    build_params as login_params, login_body, login_reply, parse as parse_login, resolve_target,
    resolve_target_of, Challenge, ChallengeView, Login, LoginRequest, LoginRequestView, LoginView,
};
use crate::http::{host_of, host_text, normalize_server, normalized, pairs, result_view, url_parse, with_scheme, Params};
use crate::portal::{
    build_params as portal_params, clone_gateways, config_reply, gateways_view, parse as parse_config,
    portal_fields, Gateway, GatewayView, PortalConfig, PortalConfigView,
};
use crate::prelogin::{
    build_params as prelogin_params, endpoint_path, parse as parse_prelogin, prelogin_reply,
    prelogin_request, Endpoint, Prelogin, PreloginView,
};
use crate::profile::{opt_view, ClientOs, Profile, ProfileView};
use crate::text::{
    chars_of, contains, contains_chars, lower, lower_chars, push_chars, push_str, string_of, trim,
    trimmed,
};
use crate::tls::TlsOptions;

verus! {

/// The text of an optional value as a list of zero or one lines.
pub open spec fn opt_line(value: Option<Seq<char>>) -> Seq<Seq<char>> {
    match value {
        Some(v) => seq![v],
        None => Seq::empty(),
    }
}

/// The labels a prelogin reply asks for, joined by `, `.
pub open spec fn labels_text(p: PreloginView) -> Option<Seq<char>> {
    match (p.username_label, p.password_label) {
        (Some(u), Some(w)) => Some(u + ", "@ + w),
        (Some(u), None) => Some(u),
        (None, Some(w)) => Some(w),
        (None, None) => None,
    }
}

/// The progress lines that echo what the server said it wants.
pub open spec fn prelogin_lines(p: PreloginView) -> Seq<Seq<char>> {
    opt_line(p.message) + opt_line(
        match labels_text(p) {
            Some(l) => Some("Server asks for: "@ + l),
            None => None,
        },
    ) + opt_line(
        match p.region {
            Some(r) => Some("Portal region: "@ + r),
            None => None,
        },
    )
}

/// Lines of progress as plain values.
pub open spec fn lines_view(v: Seq<String>) -> Seq<Seq<char>> {
    v.map_values(|s: String| s@)
}

/// `prefix` followed by `value`.
fn prefixed(prefix: &str, value: &str) -> (r: String)
    ensures
        r@ == prefix@ + value@,
{
    let mut out = chars_of(prefix);
    push_str(&mut out, value);
    string_of(&out)
}

/// Echoes what the server said it wants, which is the quickest way to spot a
/// portal expecting something other than a username and password.
pub fn describe_prelogin(prelogin: &Prelogin) -> (r: Vec<String>)
    ensures
        lines_view(r@) == prelogin_lines(prelogin@),
{
    let mut out: Vec<String> = Vec::new();
    let ghost p = prelogin@;
    match &prelogin.message {
        Some(m) => out.push(m.clone()),
        None => {},
    }
    assert(lines_view(out@) =~= opt_line(p.message));
    let labels = match (&prelogin.username_label, &prelogin.password_label) {
        (Some(u), Some(w)) => {
            let mut l = chars_of(u.as_str());
            push_str(&mut l, ", ");
            push_str(&mut l, w.as_str());
            Some(string_of(&l))
        },
        (Some(u), None) => Some(u.clone()),
        (None, Some(w)) => Some(w.clone()),
        (None, None) => None,
    };
    assert(opt_view(labels) == labels_text(p));
    let ghost before = lines_view(out@);
    match &labels {
        Some(l) => {
            out.push(prefixed("Server asks for: ", l.as_str()));
            assert(lines_view(out@) =~= before + seq!["Server asks for: "@ + l@]);
        },
        None => {
            assert(lines_view(out@) =~= before + Seq::empty());
        },
    }
    let ghost middle = lines_view(out@);
    match &prelogin.region {
        Some(r) => {
            out.push(prefixed("Portal region: ", r.as_str()));
            assert(lines_view(out@) =~= middle + seq!["Portal region: "@ + r@]);
        },
        None => {
            assert(lines_view(out@) =~= middle + Seq::empty());
        },
    }
    out
}

/// Whether a failure means "this address is a gateway, not a portal".
pub open spec fn not_a_portal(e: ErrorView) -> bool {
    match e {
        ErrorView::Auth(m) => contains(lower(m), "portal does not exist"@) || contains(
            lower(m),
            "not a portal"@,
        ),
        ErrorView::Server(s) => s.status == 404,
        _ => false,
    }
}

/// Whether the failure means "this address is a gateway, not a portal".
pub fn is_not_a_portal(error: &Error) -> (r: bool)
    ensures
        r == not_a_portal(error@),
{
    match error {
        Error::Auth(message) => {
            let m = lower_chars(&chars_of(message.as_str()));
            contains_chars(&m, &chars_of("portal does not exist")) || contains_chars(
                &m,
                &chars_of("not a portal"),
            )
        },
        Error::Server(server) => server.status == 404,
        _ => false,
    }
}

/// A question the login flow needs answered before it can continue.
pub enum Question {
    /// The gateway wants a one-time code.
    Challenge(Challenge),
    /// The portal offers more than one gateway.
    Gateway(Vec<Gateway>),
}

/// The caller's answer. `Answer::Cancelled` aborts the login.
pub enum Answer {
    Otp(String),
    Gateway(String),
    Cancelled,
}

pub struct AuthRequest {
    /// Portal or gateway address as typed by the user.
    pub server: String,
    pub username: String,
    pub password: String,
    /// Code appended to the password on the first attempt, for portals that
    /// take both at once. A gateway challenge is answered through a question.
    pub otp: String,
    /// Skips gateway discovery and logs straight into this gateway.
    pub gateway: Option<String>,
    pub client_os: ClientOs,
    pub tls: TlsOptions,
}

/// What openconnect needs to bring the tunnel up.
pub struct Session {
    /// `https://gateway[:port]`, to hand to `openconnect_parse_url()`.
    pub gateway_url: String,
    pub gateway_name: String,
    /// The value for `openconnect_set_cookie()`.
    pub cookie: String,
    /// Identity that must match what we logged in with, because openconnect
    /// still sends its own `getconfig.esp` afterwards.
    pub profile: Profile,
    /// Gateways the portal offered, so the UI can remember them.
    pub gateways: Vec<Gateway>,
}

/// The most gateway logins one attempt makes. Each challenge produces one more
/// attempt; the bound stops a misconfigured server from looping forever.
pub const MAX_LOGINS: usize = 5;

/// Where a login stands: what it is waiting for.
#[derive(Debug, Clone, Copy, PartialEq, Eq, Structural)]
pub enum Phase {
    /// The reply to the portal prelogin.
    PortalPrelogin,
    /// The reply to the portal config request.
    PortalConfig,
    /// The user's choice among the gateways the portal offered.
    ChoosingGateway,
    /// The reply to the gateway prelogin.
    GatewayPrelogin,
    /// The addresses the gateway login reports.
    Resolving,
    /// The reply to a gateway login.
    LoggingIn,
    /// The one-time code a gateway challenge asked for.
    Challenged,
    /// Nothing: the login is over.
    Finished,
}

/// What moves a login on: a prelogin reply (accepted, saying the address is
/// no portal, or failing), the gateways a portal offers (how many, and
/// whether the one that would be taken has a usable address), the user's pick
/// among them, the gateway's addresses arriving, the gateway's login reply
/// (a cookie, a failure or a challenge), and the user's answer to a
/// challenge (a code, or anything else).
pub enum FlowEvent {
    PreloginOk,
    NotAPortal,
    Failed,
    Offered { count: nat, usable: bool },
    Picked { usable: bool },
    Unknown,
    Resolved,
    Cookie,
    Challenge,
    Code,
    Cancel,
}

/// The event a portal reply is: `outcome` is what the reply came to.
pub open spec fn portal_event<T>(outcome: Result<T, ErrorView>) -> FlowEvent {
    match outcome {
        Ok(_) => FlowEvent::PreloginOk,
        Err(e) => if not_a_portal(e) {
            FlowEvent::NotAPortal
        } else {
            FlowEvent::Failed
        },
    }
}

/// The event a portal config reply is.
pub open spec fn config_event(outcome: Result<PortalConfigView, ErrorView>) -> FlowEvent {
    match outcome {
        Ok(c) => FlowEvent::Offered {
            count: c.gateways.len(),
            usable: c.gateways.len() > 0 && base_url_of(c.gateways[0].address) is Ok,
        },
        Err(e) => portal_event::<PortalConfigView>(Err(e)),
    }
}

/// The event an answer to the gateway question is, among `offered`.
pub open spec fn choice_event(offered: Seq<GatewayView>, answer: Answer) -> FlowEvent {
    match answer {
        Answer::Cancelled => FlowEvent::Cancel,
        Answer::Otp(_) => FlowEvent::Picked { usable: base_url_of(offered[0].address) is Ok },
        Answer::Gateway(a) => match first_gateway(offered, a@, 0) {
            None => FlowEvent::Unknown,
            Some(i) => FlowEvent::Picked { usable: base_url_of(offered[i].address) is Ok },
        },
    }
}

/// The event a gateway prelogin reply is.
pub open spec fn gateway_prelogin_event(outcome: Result<PreloginView, ErrorView>) -> FlowEvent {
    match outcome {
        Ok(_) => FlowEvent::PreloginOk,
        Err(_) => FlowEvent::Failed,
    }
}

/// The event a gateway login reply is.
pub open spec fn reply_event(outcome: Result<LoginView, ErrorView>) -> FlowEvent {
    match outcome {
        Err(_) => FlowEvent::Failed,
        Ok(LoginView::Cookie(_)) => FlowEvent::Cookie,
        Ok(LoginView::Challenge(_)) => FlowEvent::Challenge,
    }
}

/// The event an answer to a challenge is.
pub open spec fn answer_event(answer: Answer) -> FlowEvent {
    match answer {
        Answer::Otp(_) => FlowEvent::Code,
        _ => FlowEvent::Cancel,
    }
}

/// The login as phase and gateway logins sent. The phase says what the flow
/// does meanwhile: a portal config request, a question among the gateways, a
/// gateway prelogin, the gateway's addresses, a gateway login, a question for
/// a code, or nothing more. An accepted portal prelogin asks for the config;
/// an address that is no portal is logged into as a gateway; no gateway
/// offered ends the login; one is taken at once, several are put to the user;
/// resolving sends a login; a challenge is put to the user, and a code sends
/// another login while fewer than `MAX_LOGINS` were sent; anything else ends
/// the login. An event the phase is not waiting for changes nothing.
pub open spec fn flow_next(phase: Phase, logins: nat, e: FlowEvent) -> (Phase, nat) {
    match (phase, e) {
        (Phase::PortalPrelogin, FlowEvent::PreloginOk) => (Phase::PortalConfig, logins),
        (Phase::PortalPrelogin, FlowEvent::NotAPortal) => (Phase::GatewayPrelogin, logins),
        (Phase::PortalPrelogin, _) => (Phase::Finished, logins),
        (Phase::PortalConfig, FlowEvent::NotAPortal) => (Phase::GatewayPrelogin, logins),
        (Phase::PortalConfig, FlowEvent::Offered { count, usable }) => if count == 0 {
            (Phase::Finished, logins)
        } else if count == 1 {
            if usable {
                (Phase::Resolving, logins)
            } else {
                (Phase::Finished, logins)
            }
        } else {
            (Phase::ChoosingGateway, logins)
        },
        (Phase::PortalConfig, _) => (Phase::Finished, logins),
        (Phase::ChoosingGateway, FlowEvent::Picked { usable }) => if usable {
            (Phase::Resolving, logins)
        } else {
            (Phase::Finished, logins)
        },
        (Phase::ChoosingGateway, _) => (Phase::Finished, logins),
        (Phase::GatewayPrelogin, FlowEvent::PreloginOk) => (Phase::Resolving, logins),
        (Phase::GatewayPrelogin, _) => (Phase::Finished, logins),
        (Phase::Resolving, FlowEvent::Resolved) => (Phase::LoggingIn, logins + 1),
        (Phase::LoggingIn, FlowEvent::Challenge) => (Phase::Challenged, logins),
        (Phase::LoggingIn, FlowEvent::Cookie) => (Phase::Finished, logins),
        (Phase::LoggingIn, FlowEvent::Failed) => (Phase::Finished, logins),
        (Phase::Challenged, FlowEvent::Code) => if logins < MAX_LOGINS {
            (Phase::Resolving, logins)
        } else {
            (Phase::Finished, logins)
        },
        (Phase::Challenged, _) => (Phase::Finished, logins),
        _ => (phase, logins),
    }
}

/// Where the login stands after a sequence of events.
pub open spec fn flow_run(phase: Phase, logins: nat, events: Seq<FlowEvent>) -> (Phase, nat)
    decreases events.len(),
{
    if events.len() == 0 {
        (phase, logins)
    } else {
        let next = flow_next(phase, logins, events[0]);
        flow_run(next.0, next.1, events.drop_first())
    }
}

/// The phases a sequence of events passes through, one after each event.
pub open spec fn flow_phases(phase: Phase, logins: nat, events: Seq<FlowEvent>) -> Seq<Phase>
    decreases events.len(),
{
    if events.len() == 0 {
        Seq::empty()
    } else {
        let next = flow_next(phase, logins, events[0]);
        seq![next.0] + flow_phases(next.0, next.1, events.drop_first())
    }
}

/// How many gateway logins a sequence of events sends.
pub open spec fn logins_sent(phase: Phase, logins: nat, events: Seq<FlowEvent>) -> nat
    decreases events.len(),
{
    if events.len() == 0 {
        0
    } else {
        let next = flow_next(phase, logins, events[0]);
        (if phase == Phase::Resolving && events[0] is Resolved {
            1nat
        } else {
            0nat
        }) + logins_sent(next.0, next.1, events.drop_first())
    }
}

/// Whether the login is at a portal: asking for the portal's prelogin or
/// config, or putting its gateways to the user.
pub open spec fn at_portal(phase: Phase) -> bool {
    phase == Phase::PortalPrelogin || phase == Phase::PortalConfig || phase
        == Phase::ChoosingGateway
}

/// However the gateway and the user answer, a login sends at most
/// `MAX_LOGINS` gateway logins in all: every login sent is counted, and the
/// count never passes the bound. Once the login is over, nothing more is
/// sent.
pub proof fn law_at_most_five_logins(phase: Phase, logins: nat, events: Seq<FlowEvent>)
    requires
        logins <= MAX_LOGINS,
        phase == Phase::Resolving ==> logins < MAX_LOGINS,
        at_portal(phase) || phase == Phase::GatewayPrelogin ==> logins == 0,
    ensures
        flow_run(phase, logins, events).1 == logins + logins_sent(phase, logins, events),
        flow_run(phase, logins, events).1 <= MAX_LOGINS,
        phase == Phase::Finished ==> logins_sent(phase, logins, events) == 0
            && flow_run(phase, logins, events) == (Phase::Finished, logins),
    decreases events.len(),
{
    if events.len() > 0 {
        let next = flow_next(phase, logins, events[0]);
        law_at_most_five_logins(next.0, next.1, events.drop_first());
    }
}

/// A finished login stays finished, whatever comes after.
pub proof fn law_finished_stays_finished(logins: nat, events: Seq<FlowEvent>)
    ensures
        flow_phases(Phase::Finished, logins, events).len() == events.len(),
        forall|i: int|
            0 <= i < events.len() ==> #[trigger] flow_phases(Phase::Finished, logins, events)[i]
                == Phase::Finished,
    decreases events.len(),
{
    if events.len() > 0 {
        law_finished_stays_finished(logins, events.drop_first());
        let rest = flow_phases(Phase::Finished, logins, events.drop_first());
        assert forall|i: int| 0 <= i < events.len() implies #[trigger] flow_phases(
            Phase::Finished,
            logins,
            events,
        )[i] == Phase::Finished by {
            if i > 0 {
                assert(flow_phases(Phase::Finished, logins, events)[i] == rest[i - 1]);
            }
        }
    }
}

/// Once a login has left the portal for a gateway, it never goes back: no
/// portal request and no gateway question comes after it.
pub proof fn law_no_way_back_to_the_portal(phase: Phase, logins: nat, events: Seq<FlowEvent>)
    requires
        !at_portal(phase),
    ensures
        flow_phases(phase, logins, events).len() == events.len(),
        forall|i: int|
            0 <= i < events.len() ==> !at_portal(#[trigger] flow_phases(phase, logins, events)[i]),
    decreases events.len(),
{
    if events.len() > 0 {
        let next = flow_next(phase, logins, events[0]);
        law_no_way_back_to_the_portal(next.0, next.1, events.drop_first());
        let rest = flow_phases(next.0, next.1, events.drop_first());
        assert forall|i: int| 0 <= i < events.len() implies !at_portal(
            #[trigger] flow_phases(phase, logins, events)[i],
        ) by {
            if i > 0 {
                assert(flow_phases(phase, logins, events)[i] == rest[i - 1]);
            }
        }
    }
}

/// What the portal's config decides, over the whole rest of the login:
/// - no gateway offered: the login ends there, and nothing is asked or sent
///   after it;
/// - one gateway: it is taken without a question, and the gateway's
///   addresses come next when its address is usable;
/// - several: the user is asked before anything goes to a gateway, and a
///   cancelled or unknown pick ends the login for good;
/// - an address that is no portal: its gateway prelogin comes next, and the
///   login never goes back to the portal.
pub proof fn law_portal_config_run(logins: nat, first: FlowEvent, events: Seq<FlowEvent>)
    ensures
        ({
            let all = seq![first] + events;
            let phases = flow_phases(Phase::PortalConfig, logins, all);
            &&& first is Offered && first->count == 0 ==> forall|i: int|
                0 <= i < phases.len() ==> #[trigger] phases[i] == Phase::Finished
            &&& first is Offered && first->count == 1 ==> phases[0] == (if first->Offered_usable {
                Phase::Resolving
            } else {
                Phase::Finished
            })
            &&& first is Offered && first->count > 1 ==> phases[0] == Phase::ChoosingGateway && (
            events.len() > 0 && (events[0] is Cancel || events[0] is Unknown) ==> forall|i: int|
                1 <= i < phases.len() ==> #[trigger] phases[i] == Phase::Finished)
            &&& first is NotAPortal ==> phases[0] == Phase::GatewayPrelogin && forall|i: int|
                0 <= i < phases.len() ==> !at_portal(#[trigger] phases[i])
        }),
{
    let all = seq![first] + events;
    assert(all.drop_first() =~= events);
    let phases = flow_phases(Phase::PortalConfig, logins, all);
    let next = flow_next(Phase::PortalConfig, logins, first);
    let rest = flow_phases(next.0, next.1, events);
    assert(phases =~= seq![next.0] + rest);
    if next.0 == Phase::Finished {
        law_finished_stays_finished(next.1, events);
    }
    if !at_portal(next.0) {
        law_no_way_back_to_the_portal(next.0, next.1, events);
    }
    if next.0 == Phase::ChoosingGateway && events.len() > 0 && (events[0] is Cancel
        || events[0] is Unknown) {
        let after = flow_next(next.0, next.1, events[0]);
        assert(events.drop_first().len() == events.len() - 1);
        law_finished_stays_finished(after.1, events.drop_first());
        let later = flow_phases(after.0, after.1, events.drop_first());
        assert(rest =~= seq![after.0] + later);
    }
}

/// What has to happen next.
pub enum Action {
    /// POST a form and hand back the body, or the error.
    Post { url: String, query: Params, body: Params },
    /// Resolve the gateway: its IPv4 address, and the local address that
    /// would reach it.
    Resolve { host: String },
    /// Put a question to the user and hand back the answer.
    Ask(Question),
    /// The login is over.
    Done(Result<Session, Error>),
}

/// One step of the login: lines of progress to show, then the next action.
pub struct Step {
    pub log: Vec<String>,
    pub action: Action,
}

/// `base/path`.
pub open spec fn at(base: Seq<char>, path: Seq<char>) -> Seq<char> {
    base + "/"@ + path
}

/// `action` posts exactly this request.
pub open spec fn posts(
    action: Action,
    url: Seq<char>,
    query: Seq<(Seq<char>, Seq<char>)>,
    body: Seq<(Seq<char>, Seq<char>)>,
) -> bool {
    action matches Action::Post { url: u, query: q, body: b } && u@ == url && pairs(q@) == query
        && pairs(b@) == body
}

/// `action` ends the login with this error.
pub open spec fn fails_with(action: Action, e: ErrorView) -> bool {
    action matches Action::Done(Err(x)) && x@ == e
}

/// `action` asks for the addresses of this host.
pub open spec fn resolves(action: Action, host: Seq<char>) -> bool {
    action matches Action::Resolve { host: h } && h@ == host
}

/// The first gateway from `from` on whose address or name is `a`.
pub open spec fn first_gateway(g: Seq<GatewayView>, a: Seq<char>, from: int) -> Option<int>
    decreases g.len() - from,
{
    if from < 0 || from >= g.len() {
        None
    } else if g[from].address == a || g[from].name == a {
        Some(from)
    } else {
        first_gateway(g, a, from + 1)
    }
}

/// A prelogin outcome: the request failed, or its reply says this.
pub open spec fn prelogin_outcome(reply: Result<Seq<char>, ErrorView>) -> Result<PreloginView, ErrorView> {
    match reply {
        Err(e) => Err(e),
        Ok(b) => prelogin_reply(b),
    }
}

/// A portal config outcome: the request failed, or its reply says this.
pub open spec fn config_outcome(reply: Result<Seq<char>, ErrorView>) -> Result<PortalConfigView, ErrorView> {
    match reply {
        Err(e) => Err(e),
        Ok(b) => config_reply(b),
    }
}

/// A gateway login outcome: the request failed, or its reply says this.
pub open spec fn login_outcome(reply: Result<Seq<char>, ErrorView>, computer: Seq<char>) -> Result<
    LoginView,
    ErrorView,
> {
    match reply {
        Err(e) => Err(e),
        Ok(b) => login_reply(b, computer),
    }
}

/// `action` puts this challenge to the user.
pub open spec fn asks_challenge(action: Action, c: ChallengeView) -> bool {
    action matches Action::Ask(Question::Challenge(x)) && x@ == c
}

/// `action` asks the user to pick one of these gateways.
pub open spec fn asks_gateway(action: Action, g: Seq<GatewayView>) -> bool {
    action matches Action::Ask(Question::Gateway(x)) && gateways_view(x@) == g
}

/// The password a credential carries, if any.
pub open spec fn password_of(c: CredentialView) -> Option<Seq<char>> {
    match c {
        CredentialView::Password { password, .. } => Some(password),
        CredentialView::PortalCookie { password, .. } => password,
    }
}

/// The base URL for an address, or why there is none.
pub open spec fn base_url_of(address: Seq<char>) -> Result<Seq<char>, ErrorView> {
    normalized(address, url_parse(with_scheme(address)))
}

/// A login in progress.
pub struct AuthFlow {
    pub phase: Phase,
    /// The portal (or gateway) the user typed, normalised.
    pub base_url: String,
    pub username: String,
    /// The username and password, the code appended when one was given.
    pub credential: Credential,
    pub profile: Profile,
    /// Gateways the portal offered; empty when no portal was involved.
    pub offered: Vec<Gateway>,
    /// The portal's cookies, reused against the gateway.
    pub user_auth_cookie: Option<String>,
    pub prelogon_user_auth_cookie: Option<String>,
    /// The gateway being logged into.
    pub gateway_url: String,
    /// Its label in the portal's list, when it came from one.
    pub gateway_name: Option<String>,
    pub gateway_credential: Credential,
    pub selected_manually: bool,
    /// Echoed back with a one-time code.
    pub input_str: String,
    /// The one-time code for the next login.
    pub otp: Option<String>,
    /// The challenge being answered.
    pub challenge: Option<Challenge>,
    /// Gateway logins sent so far.
    pub logins: usize,
}

impl AuthFlow {
    /// What the flow keeps true between steps.
    pub open spec fn wf(&self) -> bool {
        &&& self.logins <= MAX_LOGINS
        &&& self.phase == Phase::Resolving ==> self.logins < MAX_LOGINS
        &&& self.phase == Phase::Challenged ==> self.challenge is Some
        &&& self.phase == Phase::ChoosingGateway ==> self.offered@.len() > 1
        &&& (self.phase == Phase::PortalPrelogin || self.phase == Phase::PortalConfig || self.phase
            == Phase::ChoosingGateway || self.phase == Phase::GatewayPrelogin) ==> self.logins == 0
    }

    /// The next gateway login, as plain values.
    pub open spec fn login_request(&self) -> LoginRequestView {
        LoginRequestView {
            credential: self.gateway_credential@,
            profile: self.profile@,
            gateway_host: host_text(self.gateway_url@),
            gateway_name: opt_view(self.gateway_name),
            input_str: self.input_str@,
            otp: opt_view(self.otp),
            selected_manually: self.selected_manually,
        }
    }

    /// What the user asked for stays as it was: the address, the username,
    /// the credential typed and the identity reported.
    pub open spec fn same_login(&self, other: &AuthFlow) -> bool {
        &&& self.base_url@ == other.base_url@
        &&& self.username@ == other.username@
        &&& self.credential@ == other.credential@
        &&& self.profile@ == other.profile@
    }

    /// Everything but the phase stays as it was.
    pub open spec fn same_but_phase(&self, other: &AuthFlow) -> bool {
        &&& self.base_url@ == other.base_url@
        &&& self.username@ == other.username@
        &&& self.credential@ == other.credential@
        &&& self.profile@ == other.profile@
        &&& gateways_view(self.offered@) == gateways_view(other.offered@)
        &&& opt_view(self.user_auth_cookie) == opt_view(other.user_auth_cookie)
        &&& opt_view(self.prelogon_user_auth_cookie) == opt_view(other.prelogon_user_auth_cookie)
        &&& self.gateway_url@ == other.gateway_url@
        &&& opt_view(self.gateway_name) == opt_view(other.gateway_name)
        &&& self.gateway_credential@ == other.gateway_credential@
        &&& self.selected_manually == other.selected_manually
        &&& self.input_str@ == other.input_str@
        &&& opt_view(self.otp) == opt_view(other.otp)
        &&& self.logins == other.logins
    }

    /// The login parts of the flow stay as they were.
    pub open spec fn same_target(&self, other: &AuthFlow) -> bool {
        &&& self.login_request() == other.login_request()
        &&& self.gateway_url@ == other.gateway_url@
        &&& self.base_url@ == other.base_url@
        &&& self.profile@ == other.profile@
        &&& gateways_view(self.offered@) == gateways_view(other.offered@)
    }

    /// Overwrites the passwords the login holds, once it is over: the one the
    /// user typed and the one handed to the gateway. Nothing else changes.
    pub fn wipe(&mut self)
        ensures
            wiped(final(self).credential@),
            wiped(final(self).gateway_credential@),
            final(self).phase == old(self).phase,
            final(self).logins == old(self).logins,
            final(self).profile@ == old(self).profile@,
            final(self).gateway_url@ == old(self).gateway_url@,
    {
        self.credential.zeroize();
        self.gateway_credential.zeroize();
    }

    /// Ends the login.
    fn finish(&mut self, result: Result<Session, Error>) -> (r: Action)
        requires
            old(self).wf(),
        ensures
            final(self).wf(),
            final(self).phase == Phase::Finished,
            final(self).same_target(old(self)),
            final(self).same_but_phase(old(self)),
            final(self).logins == old(self).logins,
            r == Action::Done(result),
    {
        self.phase = Phase::Finished;
        Action::Done(result)
    }

    /// Starts a gateway login: first the gateway's addresses.
    fn begin_login(&mut self) -> (r: Action)
        requires
            old(self).wf(),
            old(self).logins < MAX_LOGINS,
        ensures
            final(self).wf(),
            final(self).phase == Phase::Resolving,
            final(self).same_target(old(self)),
            final(self).same_but_phase(old(self)),
            final(self).logins == old(self).logins,
            resolves(r, resolve_target_of(host_text(old(self).gateway_url@))),
    {
        self.phase = Phase::Resolving;
        Action::Resolve { host: resolve_target(host_of(self.gateway_url.as_str()).as_str()) }
    }

    /// `action` ends the login with the session for this cookie.
    pub open spec fn done_with(&self, action: Action, cookie: Seq<char>) -> bool {
        action matches Action::Done(Ok(s)) && s.gateway_url@ == self.gateway_url@
            && s.gateway_name@ == crate::credential::or_else(
            opt_view(self.gateway_name),
            host_text(self.gateway_url@),
        ) && s.cookie@ == cookie && s.profile@ == self.profile@ && gateways_view(s.gateways@)
            == gateways_view(self.offered@)
    }

    /// Sends the gateway login, now that the gateway's addresses are known:
    /// `server` is what the gateway resolves to, `client_ip` the local address
    /// that reaches it.
    pub fn on_resolved(&mut self, server: Option<String>, client_ip: Option<String>) -> (s: Step)
        requires
            old(self).wf(),
            old(self).phase == Phase::Resolving,
        ensures
            final(self).wf(),
            final(self).same_login(old(self)),
            final(self).phase == Phase::LoggingIn,
            final(self).logins == old(self).logins + 1,
            (final(self).phase, final(self).logins as nat) == flow_next(
                old(self).phase,
                old(self).logins as nat,
                FlowEvent::Resolved,
            ),
            final(self).same_target(old(self)),
            posts(
                s.action,
                at(old(self).gateway_url@, "ssl-vpn/login.esp"@),
                Seq::empty(),
                login_body(old(self).login_request(), opt_view(server), opt_view(client_ip)),
            ),
    {
        let request = LoginRequest {
            credential: self.gateway_credential.clone(),
            profile: self.profile.clone(),
            gateway_host: host_of(self.gateway_url.as_str()),
            gateway_name: crate::credential::clone_opt(&self.gateway_name),
            input_str: self.input_str.clone(),
            otp: crate::credential::clone_opt(&self.otp),
            selected_manually: self.selected_manually,
        };
        assert(request@ == self.login_request());
        let body = login_params(&request, server, client_ip);
        let url = prefixed(self.gateway_url.as_str(), "/ssl-vpn/login.esp");
        proof {
            reveal_strlit("/ssl-vpn/login.esp");
            reveal_strlit("ssl-vpn/login.esp");
            reveal_strlit("/");
            assert(url@ =~= at(self.gateway_url@, "ssl-vpn/login.esp"@));
        }
        let query: Params = Vec::new();
        assert(pairs(query@) =~= Seq::empty());
        self.logins = self.logins + 1;
        self.phase = Phase::LoggingIn;
        Step { log: Vec::new(), action: Action::Post { url, query, body } }
    }

    /// The flow after gateway `g` was chosen: logging into it with the
    /// portal's cookies, or failed because its address is unusable.
    pub open spec fn chose(&self, old: &AuthFlow, action: Action, g: GatewayView, manual: bool) -> bool {
        match base_url_of(g.address) {
            Err(e) => self.phase == Phase::Finished && fails_with(action, e),
            Ok(url) => {
                &&& self.phase == Phase::Resolving
                &&& self.gateway_url@ == url
                &&& opt_view(self.gateway_name) == Some(g.name)
                &&& self.selected_manually == manual
                &&& self.gateway_credential@ == (CredentialView::PortalCookie {
                    username: old.username@,
                    password: password_of(old.credential@),
                    user_auth_cookie: opt_view(self.user_auth_cookie),
                    prelogon_user_auth_cookie: opt_view(self.prelogon_user_auth_cookie),
                })
                &&& self.input_str@.len() == 0
                &&& self.otp is None
                &&& self.logins == 0
                &&& self.profile@ == old.profile@
                &&& resolves(action, resolve_target_of(host_text(url)))
            },
        }
    }

    /// Logs into the offered gateway at `index`, reusing the portal's cookies
    /// so the gateway does not prompt again.
    fn take_gateway(&mut self, index: usize, manual: bool) -> (s: Step)
        requires
            old(self).wf(),
            old(self).logins == 0,
            index < old(self).offered@.len(),
        ensures
            final(self).wf(),
            final(self).same_login(old(self)),
            final(self).chose(old(self), s.action, old(self).offered@[index as int]@, manual),
            final(self).logins == 0,
            gateways_view(final(self).offered@) == gateways_view(old(self).offered@),
            opt_view(final(self).user_auth_cookie) == opt_view(old(self).user_auth_cookie),
            opt_view(final(self).prelogon_user_auth_cookie) == opt_view(
                old(self).prelogon_user_auth_cookie,
            ),
    {
        let chosen = self.offered[index].clone();
        let password = match &self.credential {
            Credential::Password { password, .. } => Some(password.clone()),
            Credential::PortalCookie { password, .. } => crate::credential::clone_opt(password),
        };
        let credential = Credential::PortalCookie {
            username: self.username.clone(),
            password,
            user_auth_cookie: crate::credential::clone_opt(&self.user_auth_cookie),
            prelogon_user_auth_cookie: crate::credential::clone_opt(&self.prelogon_user_auth_cookie),
        };
        match normalize_server(chosen.address.as_str()) {
            Err(e) => {
                let action = self.finish(Err(e));
                Step { log: Vec::new(), action }
            },
            Ok(url) => {
                let mut line = chars_of("Logging in to gateway ");
                push_str(&mut line, chosen.name.as_str());
                push_str(&mut line, " (");
                push_str(&mut line, chosen.address.as_str());
                push_str(&mut line, ")");
                self.gateway_url = url;
                self.gateway_name = Some(chosen.name);
                self.selected_manually = manual;
                self.gateway_credential = credential;
                self.input_str = String::new();
                self.otp = None;
                let action = self.begin_login();
                Step { log: vec![string_of(&line)], action }
            },
        }
    }

    /// A failure at the portal: an address that turns out to be a gateway is
    /// logged into as one, anything else ends the login.
    fn fallback_or_fail(&mut self, e: Error) -> (s: Step)
        requires
            old(self).wf(),
            old(self).phase == Phase::PortalPrelogin || old(self).phase == Phase::PortalConfig,
        ensures
            final(self).wf(),
            final(self).same_login(old(self)),
            final(self).logins == 0,
            final(self).profile@ == old(self).profile@,
            not_a_portal(e@) ==> {
                &&& lines_view(s.log@) == seq![
                    host_text(old(self).base_url@) + " is not a portal, treating it as a gateway"@,
                ]
                &&& final(self).phase == Phase::GatewayPrelogin
                &&& final(self).gateway_url@ == old(self).base_url@
                &&& final(self).gateway_name is None
                &&& !final(self).selected_manually
                &&& final(self).offered@.len() == 0
                &&& final(self).gateway_credential@ == old(self).credential@
                &&& final(self).input_str@.len() == 0
                &&& final(self).otp is None
                &&& posts(
                    s.action,
                    at(old(self).base_url@, endpoint_path(Endpoint::Gateway)),
                    prelogin_request(old(self).profile@, Endpoint::Gateway).0,
                    prelogin_request(old(self).profile@, Endpoint::Gateway).1,
                )
            },
            !not_a_portal(e@) ==> final(self).phase == Phase::Finished && fails_with(s.action, e@),
    {
        if is_not_a_portal(&e) {
            let mut line = chars_of(host_of(self.base_url.as_str()).as_str());
            push_str(&mut line, " is not a portal, treating it as a gateway");
            self.gateway_url = self.base_url.clone();
            self.gateway_name = None;
            self.selected_manually = false;
            self.offered = Vec::new();
            self.gateway_credential = self.credential.clone();
            self.input_str = String::new();
            self.otp = None;
            self.phase = Phase::GatewayPrelogin;
            let action = self.prelogin_post(self.base_url.as_str(), Endpoint::Gateway);
            let log = vec![string_of(&line)];
            assert(lines_view(log@) =~= seq![
                host_text(old(self).base_url@) + " is not a portal, treating it as a gateway"@,
            ]);
            Step { log, action }
        } else {
            let action = self.finish(Err(e));
            Step { log: Vec::new(), action }
        }
    }

    /// The portal's prelogin reply: the portal config request follows.
    pub fn on_portal_prelogin(&mut self, reply: Result<String, Error>) -> (s: Step)
        requires
            old(self).wf(),
            old(self).phase == Phase::PortalPrelogin,
        ensures
            final(self).wf(),
            final(self).same_login(old(self)),
            (final(self).phase, final(self).logins as nat) == flow_next(
                old(self).phase,
                old(self).logins as nat,
                portal_event(prelogin_outcome(result_view(reply))),
            ),
            final(self).logins == 0,
            match prelogin_outcome(result_view(reply)) {
                Ok(p) => {
                    &&& lines_view(s.log@) == prelogin_lines(p)
                    &&& final(self).phase == Phase::PortalConfig
                    &&& final(self).credential@ == old(self).credential@
                    &&& final(self).base_url@ == old(self).base_url@
                    &&& final(self).username@ == old(self).username@
                    &&& final(self).profile@ == old(self).profile@
                    &&& posts(
                        s.action,
                        at(old(self).base_url@, "global-protect/getconfig.esp"@),
                        Seq::empty(),
                        portal_fields(
                            credential_params(old(self).credential@, old(self).profile@.client_os),
                            old(self).profile@,
                            old(self).base_url@,
                            Seq::empty(),
                        ),
                    )
                },
                Err(e) => {
                    &&& not_a_portal(e) ==> {
                        &&& lines_view(s.log@) == seq![
                            host_text(old(self).base_url@)
                                + " is not a portal, treating it as a gateway"@,
                        ]
                        &&& final(self).phase == Phase::GatewayPrelogin
                        &&& final(self).gateway_url@ == old(self).base_url@
                        &&& final(self).gateway_name is None
                        &&& !final(self).selected_manually
                        &&& final(self).offered@.len() == 0
                        &&& final(self).gateway_credential@ == old(self).credential@
                        &&& posts(
                            s.action,
                            at(old(self).base_url@, endpoint_path(Endpoint::Gateway)),
                            prelogin_request(old(self).profile@, Endpoint::Gateway).0,
                            prelogin_request(old(self).profile@, Endpoint::Gateway).1,
                        )
                    }
                    &&& !not_a_portal(e) ==> final(self).phase == Phase::Finished && fails_with(
                        s.action,
                        e,
                    )
                },
            },
    {
        let ghost expected = prelogin_outcome(result_view(reply));
        let outcome = match reply {
            Err(e) => Err(e),
            Ok(body) => parse_prelogin(body.as_str()),
        };
        assert(crate::prelogin::prelogin_result(outcome) == expected);
        match outcome {
            Err(e) => {
                assert(expected == Err::<PreloginView, ErrorView>(e@));
                self.fallback_or_fail(e)
            },
            Ok(prelogin) => {
                let log = describe_prelogin(&prelogin);
                let body = portal_params(&self.credential, &self.profile, self.base_url.as_str(), "");
                let url = prefixed(self.base_url.as_str(), "/global-protect/getconfig.esp");
                proof {
                    reveal_strlit("/global-protect/getconfig.esp");
                    reveal_strlit("global-protect/getconfig.esp");
                    reveal_strlit("/");
                    reveal_strlit("");
                    assert(""@ =~= Seq::<char>::empty());
                    assert(url@ =~= at(self.base_url@, "global-protect/getconfig.esp"@));
                }
                let query: Params = Vec::new();
                assert(pairs(query@) =~= Seq::empty());
                self.phase = Phase::PortalConfig;
                Step { log, action: Action::Post { url, query, body } }
            },
        }
    }

    /// The portal's config reply: the gateways it offers, and the cookies the
    /// gateway login reuses.
    pub fn on_portal_config(&mut self, reply: Result<String, Error>) -> (s: Step)
        requires
            old(self).wf(),
            old(self).phase == Phase::PortalConfig,
        ensures
            final(self).wf(),
            final(self).same_login(old(self)),
            (final(self).phase, final(self).logins as nat) == flow_next(
                old(self).phase,
                old(self).logins as nat,
                config_event(config_outcome(result_view(reply))),
            ),
            match config_outcome(result_view(reply)) {
                Err(e) => {
                    &&& not_a_portal(e) ==> {
                        &&& lines_view(s.log@) == seq![
                            host_text(old(self).base_url@)
                                + " is not a portal, treating it as a gateway"@,
                        ]
                        &&& final(self).phase == Phase::GatewayPrelogin
                        &&& final(self).gateway_url@ == old(self).base_url@
                        &&& final(self).gateway_name is None
                        &&& !final(self).selected_manually
                        &&& final(self).offered@.len() == 0
                        &&& final(self).gateway_credential@ == old(self).credential@
                        &&& posts(
                            s.action,
                            at(old(self).base_url@, endpoint_path(Endpoint::Gateway)),
                            prelogin_request(old(self).profile@, Endpoint::Gateway).0,
                            prelogin_request(old(self).profile@, Endpoint::Gateway).1,
                        )
                    }
                    &&& !not_a_portal(e) ==> final(self).phase == Phase::Finished && fails_with(
                        s.action,
                        e,
                    )
                },
                Ok(c) => {
                    &&& gateways_view(final(self).offered@) == c.gateways
                    &&& opt_view(final(self).user_auth_cookie) == c.user_auth_cookie
                    &&& opt_view(final(self).prelogon_user_auth_cookie) == c.prelogon_user_auth_cookie
                    &&& c.gateways.len() == 0 ==> final(self).phase == Phase::Finished && fails_with(
                        s.action,
                        ErrorView::Auth("the portal did not offer any gateway for this account"@),
                    )
                    &&& c.gateways.len() == 1 ==> final(self).chose(
                        old(self),
                        s.action,
                        c.gateways[0],
                        false,
                    )
                    &&& c.gateways.len() > 1 ==> final(self).phase == Phase::ChoosingGateway
                        && asks_gateway(s.action, c.gateways)
                },
            },
    {
        let ghost expected = config_outcome(result_view(reply));
        let outcome = match reply {
            Err(e) => Err(e),
            Ok(body) => parse_config(body.as_str()),
        };
        assert(crate::portal::config_result(outcome) == expected);
        match outcome {
            Err(e) => {
                assert(expected == Err::<PortalConfigView, ErrorView>(e@));
                self.fallback_or_fail(e)
            },
            Ok(config) => {
                let mut log: Vec<String> = Vec::new();
                match &config.portal_name {
                    Some(name) => {
                        let mut line = chars_of("Portal ");
                        push_str(&mut line, name.as_str());
                        match &config.portal_version {
                            Some(v) => {
                                push_str(&mut line, " reports GlobalProtect ");
                                push_str(&mut line, v.as_str());
                            },
                            None => {},
                        }
                        log.push(string_of(&line));
                    },
                    None => {},
                }
                let count = config.gateways.len();
                self.user_auth_cookie = config.user_auth_cookie;
                self.prelogon_user_auth_cookie = config.prelogon_user_auth_cookie;
                self.offered = config.gateways;
                if count == 0 {
                    let action = self.finish(
                        Err(
                            Error::Auth(
                                String::from_str(
                                    "the portal did not offer any gateway for this account",
                                ),
                            ),
                        ),
                    );
                    return Step { log, action };
                }
                let mut line = chars_of("Portal offered ");
                let n = crate::text::decimal_chars(count as u128);
                push_chars(&mut line, &n);
                push_str(&mut line, " gateway(s): ");
                let mut i: usize = 0;
                while i < self.offered.len()
                    invariant
                        i <= self.offered@.len(),
                    decreases self.offered@.len() - i,
                {
                    if i > 0 {
                        push_str(&mut line, ", ");
                    }
                    push_str(&mut line, self.offered[i].name.as_str());
                    i = i + 1;
                }
                log.push(string_of(&line));
                if count == 1 {
                    let step = self.take_gateway(0, false);
                    let mut all = log;
                    let mut more = step.log;
                    all.append(&mut more);
                    Step { log: all, action: step.action }
                } else {
                    self.phase = Phase::ChoosingGateway;
                    let list = clone_gateways(&self.offered);
                    Step { log, action: Action::Ask(Question::Gateway(list)) }
                }
            },
        }
    }

    /// The user's pick among the offered gateways, by address or by name.
    pub fn on_gateway_choice(&mut self, answer: Answer) -> (s: Step)
        requires
            old(self).wf(),
            old(self).phase == Phase::ChoosingGateway,
        ensures
            final(self).wf(),
            final(self).same_login(old(self)),
            opt_view(final(self).user_auth_cookie) == opt_view(old(self).user_auth_cookie),
            opt_view(final(self).prelogon_user_auth_cookie) == opt_view(
                old(self).prelogon_user_auth_cookie,
            ),
            gateways_view(final(self).offered@) == gateways_view(old(self).offered@),
            (final(self).phase, final(self).logins as nat) == flow_next(
                old(self).phase,
                old(self).logins as nat,
                choice_event(gateways_view(old(self).offered@), answer),
            ),
            match answer {
                Answer::Cancelled => final(self).phase == Phase::Finished && fails_with(
                    s.action,
                    ErrorView::Cancelled,
                ),
                Answer::Otp(_) => final(self).chose(old(self), s.action, old(self).offered@[0]@, false),
                Answer::Gateway(a) => match first_gateway(gateways_view(old(self).offered@), a@, 0) {
                    None => final(self).phase == Phase::Finished && fails_with(
                        s.action,
                        ErrorView::Config("unknown gateway "@ + a@),
                    ),
                    Some(i) => final(self).chose(old(self), s.action, old(self).offered@[i]@, true),
                },
            },
    {
        match answer {
            Answer::Cancelled => {
                let action = self.finish(Err(Error::Cancelled));
                Step { log: Vec::new(), action }
            },
            Answer::Otp(_) => self.take_gateway(0, false),
            Answer::Gateway(address) => {
                let ghost g = gateways_view(self.offered@);
                let mut i: usize = 0;
                while i < self.offered.len()
                    invariant
                        i <= self.offered@.len(),
                        g == gateways_view(self.offered@),
                        first_gateway(g, address@, 0) == first_gateway(g, address@, i as int),
                    ensures
                        i <= self.offered@.len(),
                        first_gateway(g, address@, 0) == first_gateway(g, address@, i as int),
                        i < self.offered@.len() ==> (g[i as int].address == address@ || g[i as int].name
                            == address@),
                    decreases self.offered@.len() - i,
                {
                    let entry = &self.offered[i];
                    assert(g[i as int] == entry@);
                    if entry.address.eq(&address) || entry.name.eq(&address) {
                        break;
                    }
                    i = i + 1;
                }
                if i < self.offered.len() {
                    assert(first_gateway(g, address@, 0) == Some(i as int));
                    self.take_gateway(i, true)
                } else {
                    let message = prefixed("unknown gateway ", address.as_str());
                    let action = self.finish(Err(Error::Config(message)));
                    Step { log: Vec::new(), action }
                }
            },
        }
    }

    /// The prelogin request for `url`.
    fn prelogin_post(&self, url: &str, endpoint: Endpoint) -> (r: Action)
        ensures
            posts(
                r,
                at(url@, endpoint_path(endpoint)),
                prelogin_request(self.profile@, endpoint).0,
                prelogin_request(self.profile@, endpoint).1,
            ),
    {
        let (query, body) = prelogin_params(&self.profile, endpoint);
        let mut full = chars_of(url);
        push_str(&mut full, "/");
        push_str(&mut full, endpoint.path());
        assert(full@ =~= at(url@, endpoint_path(endpoint)));
        Action::Post { url: string_of(&full), query, body }
    }

    /// The gateway's prelogin reply: a gateway login follows.
    pub fn on_gateway_prelogin(&mut self, reply: Result<String, Error>) -> (s: Step)
        requires
            old(self).wf(),
            old(self).phase == Phase::GatewayPrelogin,
        ensures
            final(self).wf(),
            final(self).same_login(old(self)),
            (final(self).phase, final(self).logins as nat) == flow_next(
                old(self).phase,
                old(self).logins as nat,
                gateway_prelogin_event(prelogin_outcome(result_view(reply))),
            ),
            final(self).same_target(old(self)),
            final(self).same_but_phase(old(self)),
            match prelogin_outcome(result_view(reply)) {
                Err(e) => final(self).phase == Phase::Finished && fails_with(s.action, e),
                Ok(p) => final(self).phase == Phase::Resolving && resolves(
                    s.action,
                    resolve_target_of(host_text(old(self).gateway_url@)),
                ) && lines_view(s.log@) == prelogin_lines(p),
            },
    {
        let outcome = match reply {
            Err(e) => Err(e),
            Ok(body) => parse_prelogin(body.as_str()),
        };
        match outcome {
            Err(e) => {
                let action = self.finish(Err(e));
                Step { log: Vec::new(), action }
            },
            Ok(prelogin) => {
                let log = describe_prelogin(&prelogin);
                let action = self.begin_login();
                Step { log, action }
            },
        }
    }

    /// A gateway login reply: the cookie ends the login, a challenge is put to
    /// the user.
    pub fn on_login_reply(&mut self, reply: Result<String, Error>) -> (s: Step)
        requires
            old(self).wf(),
            old(self).phase == Phase::LoggingIn,
        ensures
            final(self).wf(),
            final(self).same_login(old(self)),
            final(self).same_target(old(self)),
            final(self).logins == old(self).logins,
            (final(self).phase, final(self).logins as nat) == flow_next(
                old(self).phase,
                old(self).logins as nat,
                reply_event(login_outcome(result_view(reply), old(self).profile@.computer)),
            ),
            match login_outcome(result_view(reply), old(self).profile@.computer) {
                Err(e) => final(self).phase == Phase::Finished && fails_with(s.action, e),
                Ok(LoginView::Cookie(c)) => final(self).phase == Phase::Finished && old(self).done_with(
                    s.action,
                    c,
                ),
                Ok(LoginView::Challenge(c)) => {
                    &&& final(self).phase == Phase::Challenged
                    &&& final(self).challenge matches Some(x) && x@ == c
                    &&& asks_challenge(s.action, c)
                },
            },
    {
        let outcome = match reply {
            Err(e) => Err(e),
            Ok(body) => parse_login(body.as_str(), self.profile.computer.as_str()),
        };
        match outcome {
            Err(e) => {
                let action = self.finish(Err(e));
                Step { log: Vec::new(), action }
            },
            Ok(Login::Cookie(cookie)) => {
                let name = match &self.gateway_name {
                    Some(n) => n.clone(),
                    None => host_of(self.gateway_url.as_str()),
                };
                let session = Session {
                    gateway_url: self.gateway_url.clone(),
                    gateway_name: name,
                    cookie,
                    profile: self.profile.clone(),
                    gateways: clone_gateways(&self.offered),
                };
                let action = self.finish(Ok(session));
                Step { log: Vec::new(), action }
            },
            Ok(Login::Challenge(challenge)) => {
                let asked = challenge.clone();
                self.challenge = Some(challenge);
                self.phase = Phase::Challenged;
                Step { log: Vec::new(), action: Action::Ask(Question::Challenge(asked)) }
            },
        }
    }

    /// The user's answer to a gateway challenge: the code goes into the next
    /// login, which replaces the password with it.
    pub fn on_challenge_answer(&mut self, answer: Answer) -> (s: Step)
        requires
            old(self).wf(),
            old(self).phase == Phase::Challenged,
        ensures
            final(self).wf(),
            final(self).same_login(old(self)),
            (final(self).phase, final(self).logins as nat) == flow_next(
                old(self).phase,
                old(self).logins as nat,
                answer_event(answer),
            ),
            match answer {
                Answer::Otp(code) => if old(self).logins < MAX_LOGINS {
                    &&& final(self).phase == Phase::Resolving
                    &&& final(self).logins == old(self).logins
                    &&& opt_view(final(self).otp) == Some(code@)
                    &&& old(self).challenge matches Some(c) && final(self).input_str@ == c.input_str@
                    &&& final(self).gateway_credential@ == old(self).gateway_credential@
                    &&& final(self).gateway_url@ == old(self).gateway_url@
                    &&& opt_view(final(self).gateway_name) == opt_view(old(self).gateway_name)
                    &&& final(self).selected_manually == old(self).selected_manually
                    &&& final(self).profile@ == old(self).profile@
                    &&& gateways_view(final(self).offered@) == gateways_view(old(self).offered@)
                    &&& resolves(s.action, resolve_target_of(host_text(old(self).gateway_url@)))
                } else {
                    final(self).phase == Phase::Finished && fails_with(
                        s.action,
                        ErrorView::Auth("too many authentication challenges"@),
                    )
                },
                _ => final(self).phase == Phase::Finished && fails_with(s.action, ErrorView::Cancelled),
            },
    {
        match answer {
            Answer::Otp(code) => {
                if self.logins < MAX_LOGINS {
                    let input = match &self.challenge {
                        Some(c) => c.input_str.clone(),
                        None => String::new(),
                    };
                    self.input_str = input;
                    self.otp = Some(code);
                    let action = self.begin_login();
                    Step { log: Vec::new(), action }
                } else {
                    let action = self.finish(
                        Err(Error::Auth(String::from_str("too many authentication challenges"))),
                    );
                    Step { log: Vec::new(), action }
                }
            },
            _ => {
                let action = self.finish(Err(Error::Cancelled));
                Step { log: Vec::new(), action }
            },
        }
    }
}

/// The first progress line of a login: who the client says it is.
pub open spec fn identity_line(p: ProfileView) -> Seq<char> {
    "Identifying as "@ + crate::profile::os_name(p.client_os) + " (client "@ + p.client_version
        + ", computer "@ + p.computer + ")"@
}

/// A gateway named explicitly: present and not blank.
pub open spec fn explicit_gateway(gateway: Option<Seq<char>>) -> Option<Seq<char>> {
    match gateway {
        Some(g) => if trim(g).len() > 0 {
            Some(g)
        } else {
            None
        },
        None => None,
    }
}

/// The password sent on the first attempt: a code given up front is appended.
pub open spec fn first_password(password: Seq<char>, otp: Seq<char>) -> Seq<char> {
    if otp.len() == 0 {
        password
    } else {
        password + otp
    }
}

/// Begins a login: the first request of the flow, and the flow that reads
/// its reply.
///
/// Tries the address as a portal first and falls back to treating it as a
/// gateway, which is what the official client does. An explicit gateway, or
/// an address that already names one, skips the portal entirely.
pub fn authenticate(request: AuthRequest, profile: Profile) -> (r: Result<(AuthFlow, Step), Error>)
    ensures
        match base_url_of(request.server@) {
            Err(e) => r matches Err(x) && x@ == e,
            Ok(base) => {
                let credential = CredentialView::Password {
                    username: request.username@,
                    password: first_password(request.password@, request.otp@),
                };
                match explicit_gateway(opt_view(request.gateway)) {
                    Some(g) => match base_url_of(g) {
                        Err(e) => r matches Err(x) && x@ == e,
                        Ok(url) => r matches Ok((f, s)) && {
                            &&& lines_view(s.log@) == seq![
                                identity_line(profile@),
                                "Logging in to gateway "@ + host_text(url),
                            ]
                            &&& f.wf()
                            &&& f.phase == Phase::GatewayPrelogin
                            &&& f.base_url@ == base
                            &&& f.gateway_url@ == url
                            &&& f.gateway_name is None
                            &&& f.selected_manually
                            &&& f.offered@.len() == 0
                            &&& f.credential@ == credential
                            &&& f.gateway_credential@ == credential
                            &&& f.input_str@.len() == 0
                            &&& f.otp is None
                            &&& f.logins == 0
                            &&& f.profile@ == profile@
                            &&& posts(
                                s.action,
                                at(url, endpoint_path(Endpoint::Gateway)),
                                prelogin_request(profile@, Endpoint::Gateway).0,
                                prelogin_request(profile@, Endpoint::Gateway).1,
                            )
                        },
                    },
                    None => r matches Ok((f, s)) && {
                        &&& lines_view(s.log@) == seq![
                            identity_line(profile@),
                            "Contacting portal "@ + host_text(base),
                        ]
                        &&& f.wf()
                        &&& f.phase == Phase::PortalPrelogin
                        &&& f.base_url@ == base
                        &&& f.username@ == request.username@
                        &&& f.credential@ == credential
                        &&& f.offered@.len() == 0
                        &&& f.logins == 0
                        &&& f.profile@ == profile@
                        &&& posts(
                            s.action,
                            at(base, endpoint_path(Endpoint::Portal)),
                            prelogin_request(profile@, Endpoint::Portal).0,
                            prelogin_request(profile@, Endpoint::Portal).1,
                        )
                    },
                }
            },
        },
{
    let mut request = request;
    let base_url = match normalize_server(request.server.as_str()) {
        Ok(u) => u,
        Err(e) => {
            return Err(e);
        },
    };
    let mut line = chars_of("Identifying as ");
    push_str(&mut line, profile.client_os.as_str());
    push_str(&mut line, " (client ");
    push_str(&mut line, profile.client_version.as_str());
    push_str(&mut line, ", computer ");
    push_str(&mut line, profile.computer.as_str());
    push_str(&mut line, ")");
    let mut log: Vec<String> = vec![string_of(&line)];
    assert(lines_view(log@) =~= seq![identity_line(profile@)]);
    let password = if request.otp.unicode_len() == 0 {
        request.password.clone()
    } else {
        let mut p = chars_of(request.password.as_str());
        push_str(&mut p, request.otp.as_str());
        string_of(&p)
    };
    let credential = Credential::password(request.username.as_str(), password.as_str());
    // The credential owns the only copy from here on.
    wipe(&mut request.password);
    wipe(&mut request.otp);
    let explicit = match &request.gateway {
        Some(g) => if trimmed(g.as_str()).len() > 0 {
            Some(g.clone())
        } else {
            None
        },
        None => None,
    };
    assert(opt_view(explicit) == explicit_gateway(opt_view(request.gateway)));
    let mut flow = AuthFlow {
        phase: Phase::PortalPrelogin,
        base_url: base_url.clone(),
        username: request.username.clone(),
        credential: credential.clone(),
        profile,
        offered: Vec::new(),
        user_auth_cookie: None,
        prelogon_user_auth_cookie: None,
        gateway_url: base_url.clone(),
        gateway_name: None,
        gateway_credential: credential,
        selected_manually: false,
        input_str: String::new(),
        otp: None,
        challenge: None,
        logins: 0,
    };
    match explicit {
        Some(gateway) => {
            let url = match normalize_server(gateway.as_str()) {
                Ok(u) => u,
                Err(e) => {
                    return Err(e);
                },
            };
            let mut line = chars_of("Logging in to gateway ");
            push_str(&mut line, host_of(url.as_str()).as_str());
            log.push(string_of(&line));
            assert(lines_view(log@) =~= seq![identity_line(profile@), "Logging in to gateway "@ + host_text(url@)]);
            flow.gateway_url = url;
            flow.selected_manually = true;
            flow.phase = Phase::GatewayPrelogin;
            let action = flow.prelogin_post(flow.gateway_url.as_str(), Endpoint::Gateway);
            Ok((flow, Step { log, action }))
        },
        None => {
            let mut line = chars_of("Contacting portal ");
            push_str(&mut line, host_of(base_url.as_str()).as_str());
            log.push(string_of(&line));
            assert(lines_view(log@) =~= seq![identity_line(profile@), "Contacting portal "@ + host_text(base_url@)]);
            let action = flow.prelogin_post(base_url.as_str(), Endpoint::Portal);
            Ok((flow, Step { log, action }))
        },
    }
}

} // verus!
