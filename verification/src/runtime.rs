//! What the GUI knows about the VPN: the helper's state, the question it is
//! blocked on, the connection it built, and the traffic it moved.
//!
//! The helper reports events one line at a time; `VpnRuntime::handle` turns
//! each into the new state and the effects the GUI has to carry out.
use vstd::prelude::*;

use crate::profile::opt_view;
use crate::stats::{delta_of, sum, NetworkTotals, RawCounters, StatsTracker};
use crate::text::{chars_of, same, string_of};

verus! {

/// A gateway the portal offered, as the window lists it.
#[derive(Debug)]
pub struct Gateway {
    pub address: String,
    pub name: String,
}

impl Clone for Gateway {
    fn clone(&self) -> (r: Self)
        ensures
            r.address@ == self.address@,
            r.name@ == self.name@,
    {
        Gateway { address: self.address.clone(), name: self.name.clone() }
    }
}

/// Gateways as plain values.
pub open spec fn gateway_list(v: Seq<Gateway>) -> Seq<(Seq<char>, Seq<char>)> {
    v.map_values(|g: Gateway| (g.address@, g.name@))
}

/// Copies a list of gateways.
pub fn clone_list(v: &Vec<Gateway>) -> (r: Vec<Gateway>)
    ensures
        gateway_list(r@) == gateway_list(v@),
{
    let mut out: Vec<Gateway> = Vec::new();
    let mut i: usize = 0;
    while i < v.len()
        invariant
            i <= v@.len(),
            gateway_list(out@) == gateway_list(v@.take(i as int)),
        decreases v@.len() - i,
    {
        out.push(v[i].clone());
        i = i + 1;
        assert(gateway_list(v@.take(i as int)) =~= gateway_list(v@.take(i - 1)).push(
            (v@[i - 1].address@, v@[i - 1].name@),
        ));
        assert(gateway_list(out@) =~= gateway_list(v@.take(i - 1)).push(
            (v@[i - 1].address@, v@[i - 1].name@),
        ));
    }
    assert(v@.take(i as int) == v@);
    out
}

/// Strings as plain values.
pub open spec fn strings_view(v: Seq<String>) -> Seq<Seq<char>> {
    v.map_values(|s: String| s@)
}

/// Copies a list of strings.
pub fn clone_strings(v: &Vec<String>) -> (r: Vec<String>)
    ensures
        strings_view(r@) == strings_view(v@),
{
    let mut out: Vec<String> = Vec::new();
    let mut i: usize = 0;
    while i < v.len()
        invariant
            i <= v@.len(),
            strings_view(out@) == strings_view(v@.take(i as int)),
        decreases v@.len() - i,
    {
        out.push(v[i].clone());
        i = i + 1;
        assert(strings_view(v@.take(i as int)) =~= strings_view(v@.take(i - 1)).push(v@[i - 1]@));
        assert(strings_view(out@) =~= strings_view(v@.take(i - 1)).push(v@[i - 1]@));
    }
    assert(v@.take(i as int) == v@);
    out
}

/// What the tunnel ended up negotiating, shown on the connected screen.
#[derive(Debug)]
pub struct ConnectionInfo {
    pub ifname: String,
    pub addr: Option<String>,
    pub dns: Vec<String>,
    pub gateway: String,
}

/// A `ConnectionInfo` as plain values.
pub struct ConnectionView {
    pub ifname: Seq<char>,
    pub addr: Option<Seq<char>>,
    pub dns: Seq<Seq<char>>,
    pub gateway: Seq<char>,
}

impl View for ConnectionInfo {
    type V = ConnectionView;

    open spec fn view(&self) -> ConnectionView {
        ConnectionView {
            ifname: self.ifname@,
            addr: opt_view(self.addr),
            dns: strings_view(self.dns@),
            gateway: self.gateway@,
        }
    }
}

impl Clone for ConnectionInfo {
    fn clone(&self) -> (r: Self)
        ensures
            r@ == self@,
    {
        ConnectionInfo {
            ifname: self.ifname.clone(),
            addr: crate::credential::clone_opt(&self.addr),
            dns: clone_strings(&self.dns),
            gateway: self.gateway.clone(),
        }
    }
}

/// The profile the current attempt belongs to.
#[derive(Debug)]
pub struct ActiveProfile {
    pub id: String,
    pub name: String,
}

impl Clone for ActiveProfile {
    fn clone(&self) -> (r: Self)
        ensures
            r.id@ == self.id@,
            r.name@ == self.name@,
    {
        ActiveProfile { id: self.id.clone(), name: self.name.clone() }
    }
}

/// A question the helper is blocked on. Closing the window destroys it, so
/// the prompt has to outlive the webview that first showed it: without this,
/// a window reopened mid-attempt would leave the helper waiting forever for
/// an answer nobody is being asked for any more.
#[derive(Debug)]
pub enum PendingPrompt {
    Certificate { fingerprint: String, details: String },
    Mfa { message: String },
    Gateways { list: Vec<Gateway> },
}

/// A `PendingPrompt` as plain values.
pub enum PendingView {
    Certificate { fingerprint: Seq<char>, details: Seq<char> },
    Mfa { message: Seq<char> },
    Gateways { list: Seq<(Seq<char>, Seq<char>)> },
}

impl View for PendingPrompt {
    type V = PendingView;

    open spec fn view(&self) -> PendingView {
        match self {
            PendingPrompt::Certificate { fingerprint, details } => PendingView::Certificate {
                fingerprint: fingerprint@,
                details: details@,
            },
            PendingPrompt::Mfa { message } => PendingView::Mfa { message: message@ },
            PendingPrompt::Gateways { list } => PendingView::Gateways { list: gateway_list(list@) },
        }
    }
}

impl Clone for PendingPrompt {
    fn clone(&self) -> (r: Self)
        ensures
            r@ == self@,
    {
        match self {
            PendingPrompt::Certificate { fingerprint, details } => PendingPrompt::Certificate {
                fingerprint: fingerprint.clone(),
                details: details.clone(),
            },
            PendingPrompt::Mfa { message } => PendingPrompt::Mfa { message: message.clone() },
            PendingPrompt::Gateways { list } => PendingPrompt::Gateways { list: clone_list(list) },
        }
    }
}

/// An optional pending prompt as plain values.
pub open spec fn pending_view(p: Option<PendingPrompt>) -> Option<PendingView> {
    match p {
        Some(x) => Some(x@),
        None => None,
    }
}

/// One line the helper reports.
pub enum HelperEvent {
    State { state: String },
    Log { level: String, msg: String },
    CertUntrusted { fingerprint: String, details: String },
    MfaChallenge { message: String },
    Gateways { list: Vec<Gateway>, selecting: bool },
    Connected { ifname: String, addr: Option<String>, dns: Vec<String>, gateway: String },
    Stats { rx_bytes: u64, tx_bytes: u64, rx_packets: u64, tx_packets: u64 },
    Error { msg: String },
}

/// What the GUI has to do after an event.
pub enum Effect {
    /// Write the profile's lifetime totals back.
    PersistStats,
    /// Tell the window and the tray about a new state.
    PublishState { state: String, profile_id: Option<String> },
    /// A diagnostic line for the GUI's own error output.
    Diagnostic(String),
    /// Put the certificate question to the window.
    CertUntrusted { fingerprint: String, details: String },
    /// Put the one-time code question to the window.
    MfaChallenge { message: String },
    /// Show the gateways, as a question when `selecting`.
    Gateways { list: Vec<Gateway>, selecting: bool },
    /// Show the connection.
    Connected(ConnectionInfo),
    /// Show the traffic: what the snapshot added, the session and the
    /// profile's lifetime.
    Stats { delta: RawCounters, session: RawCounters, lifetime: RawCounters },
    /// Report the attempt's failure.
    Error { msg: String },
}

/// The state the GUI keeps about the VPN.
pub struct VpnRuntime {
    pub state: String,
    pub last_fingerprint: Option<String>,
    pub profile: Option<ActiveProfile>,
    pub connection: Option<ConnectionInfo>,
    pub pending: Option<PendingPrompt>,
    /// The connection the tray asked for, waiting for a window to run it.
    pub connect_request: Option<String>,
    pub stats: Option<StatsTracker>,
}

/// The profile id of an optional active profile.
pub open spec fn profile_id_of(p: Option<ActiveProfile>) -> Option<Seq<char>> {
    match p {
        Some(a) => Some(a.id@),
        None => None,
    }
}

impl VpnRuntime {
    pub fn new() -> (r: VpnRuntime)
        ensures
            r.state@ == "disconnected"@,
            r.last_fingerprint is None,
            r.profile is None,
            r.connection is None,
            r.pending is None,
            r.connect_request is None,
            r.stats is None,
    {
        VpnRuntime {
            state: String::from_str("disconnected"),
            last_fingerprint: None,
            profile: None,
            connection: None,
            pending: None,
            connect_request: None,
            stats: None,
        }
    }

    pub fn state(&self) -> (r: String)
        ensures
            r@ == self.state@,
    {
        self.state.clone()
    }

    pub fn last_fingerprint(&self) -> (r: Option<String>)
        ensures
            opt_view(r) == opt_view(self.last_fingerprint),
    {
        crate::credential::clone_opt(&self.last_fingerprint)
    }

    pub fn profile(&self) -> (r: Option<ActiveProfile>)
        ensures
            profile_id_of(r) == profile_id_of(self.profile),
            match (r, self.profile) {
                (Some(a), Some(b)) => a.name@ == b.name@,
                (None, None) => true,
                _ => false,
            },
    {
        match &self.profile {
            Some(p) => Some(p.clone()),
            None => None,
        }
    }

    pub fn connection(&self) -> (r: Option<ConnectionInfo>)
        ensures
            match (r, self.connection) {
                (Some(a), Some(b)) => a@ == b@,
                (None, None) => true,
                _ => false,
            },
    {
        match &self.connection {
            Some(c) => Some(c.clone()),
            None => None,
        }
    }

    pub fn pending(&self) -> (r: Option<PendingPrompt>)
        ensures
            pending_view(r) == pending_view(self.pending),
    {
        match &self.pending {
            Some(p) => Some(p.clone()),
            None => None,
        }
    }

    pub fn connect_request(&self) -> (r: Option<String>)
        ensures
            opt_view(r) == opt_view(self.connect_request),
    {
        crate::credential::clone_opt(&self.connect_request)
    }

    pub fn set_connect_request(&mut self, profile_id: Option<String>)
        ensures
            opt_view(final(self).connect_request) == opt_view(profile_id),
    {
        self.connect_request = profile_id;
    }

    pub fn set_profile(&mut self, profile: Option<ActiveProfile>)
        ensures
            profile_id_of(final(self).profile) == profile_id_of(profile),
    {
        self.profile = profile;
    }

    pub fn set_pending(&mut self, prompt: Option<PendingPrompt>)
        ensures
            pending_view(final(self).pending) == pending_view(prompt),
    {
        self.pending = prompt;
    }

    /// Starts counting a session on top of the profile's lifetime totals.
    pub fn start_stats(&mut self, profile_id: String, baseline: NetworkTotals)
        ensures
            final(self).stats is Some,
    {
        self.stats = Some(StatsTracker::new(profile_id, baseline));
    }

    /// Stops counting.
    pub fn clear_stats(&mut self)
        ensures
            final(self).stats is None,
    {
        self.stats = None;
    }

    /// What to write back for the profile, when a session is being counted.
    pub fn persisted_stats(&self) -> (r: Option<(String, NetworkTotals)>)
        ensures
            match self.stats {
                Some(t) => r matches Some(p) && p.0@ == t.profile_id@ && p.1 == crate::stats::totals_of(
                    sum(t.baseline, t.session),
                ),
                None => r is None,
            },
    {
        match &self.stats {
            Some(s) => Some(s.persisted()),
            None => None,
        }
    }

    /// Takes on a new state; a disconnection forgets the connection and any
    /// question still on screen. Returns the effect that tells the window and
    /// the tray at once, so the two can never disagree about whether a tunnel
    /// is up.
    pub fn publish_state(&mut self, state: String) -> (r: Effect)
        ensures
            final(self).state@ == state@,
            state@ == "disconnected"@ ==> final(self).connection is None && final(self).pending
                is None,
            state@ != "disconnected"@ ==> final(self).connection == old(self).connection
                && final(self).pending == old(self).pending,
            r matches Effect::PublishState { state: s, profile_id: p } && s@ == state@ && opt_view(p)
                == profile_id_of(old(self).profile),
            profile_id_of(final(self).profile) == profile_id_of(old(self).profile),
            final(self).profile == old(self).profile,
            final(self).last_fingerprint == old(self).last_fingerprint,
            final(self).connect_request == old(self).connect_request,
            final(self).stats == old(self).stats,
    {
        let disconnected = same(&chars_of(state.as_str()), &chars_of("disconnected"));
        if disconnected {
            self.connection = None;
            self.pending = None;
        }
        let profile_id = match &self.profile {
            Some(p) => Some(p.id.clone()),
            None => None,
        };
        let published = state.clone();
        self.state = state;
        Effect::PublishState { state: published, profile_id }
    }

    /// `self` is `old` but for the fields named changeable: the state, the
    /// last certificate fingerprint, the connection, the question on screen
    /// and the counters. The attempt's profile and a waiting tray request
    /// never change on a helper event.
    pub open spec fn keeps(
        &self,
        old: &VpnRuntime,
        state: bool,
        fingerprint: bool,
        connection: bool,
        pending: bool,
        stats: bool,
    ) -> bool {
        &&& !state ==> self.state == old.state
        &&& !fingerprint ==> self.last_fingerprint == old.last_fingerprint
        &&& !connection ==> self.connection == old.connection
        &&& !pending ==> self.pending == old.pending
        &&& !stats ==> self.stats == old.stats
        &&& self.profile == old.profile
        &&& self.connect_request == old.connect_request
    }

    /// Takes one helper event: the new state, and what the GUI has to do.
    pub fn handle(&mut self, event: HelperEvent) -> (r: Vec<Effect>)
        ensures
            match event {
                HelperEvent::State { state } => {
                    &&& final(self).keeps(old(self), true, false, true, true, false)
                    &&& final(self).state@ == state@
                    &&& state@ == "disconnected"@ ==> {
                        &&& final(self).connection is None
                        &&& final(self).pending is None
                        &&& r@.len() == 2
                        &&& r@[0] is PersistStats
                        &&& r@[1] is PublishState
                    }
                    &&& state@ != "disconnected"@ ==> final(self).connection == old(self).connection
                        && final(self).pending == old(self).pending
                    &&& state@ != "disconnected"@ ==> r@.len() == 1 && r@[0] is PublishState
                },
                HelperEvent::Log { level, msg } => {
                    &&& final(self).keeps(old(self), false, false, false, false, false)
                    &&& r@.len() == 1
                    &&& r@[0] matches Effect::Diagnostic(t) && t@ == "[gp-helper/"@ + level@ + "] "@
                        + msg@
                },
                HelperEvent::CertUntrusted { fingerprint, details } => {
                    &&& final(self).keeps(old(self), false, true, false, true, false)
                    &&& opt_view(final(self).last_fingerprint) == Some(fingerprint@)
                    &&& pending_view(final(self).pending) == Some(
                        PendingView::Certificate { fingerprint: fingerprint@, details: details@ },
                    )
                    &&& r@.len() == 1
                    &&& r@[0] matches Effect::CertUntrusted { fingerprint: f, details: d }
                        && f@ == fingerprint@ && d@ == details@
                },
                HelperEvent::MfaChallenge { message } => {
                    &&& final(self).keeps(old(self), false, false, false, true, false)
                    &&& pending_view(final(self).pending) == Some(
                        PendingView::Mfa { message: message@ },
                    )
                    &&& r@.len() == 1
                    &&& r@[0] matches Effect::MfaChallenge { message: m } && m@ == message@
                },
                HelperEvent::Gateways { list, selecting } => {
                    &&& final(self).keeps(old(self), false, false, false, true, false)
                    &&& !selecting ==> final(self).pending == old(self).pending
                    &&& selecting ==> pending_view(final(self).pending) == Some(
                        PendingView::Gateways { list: gateway_list(list@) },
                    )
                    &&& !selecting ==> pending_view(final(self).pending) == pending_view(
                        old(self).pending,
                    )
                    &&& r@.len() == 1
                    &&& r@[0] matches Effect::Gateways { list: l, selecting: s } && gateway_list(
                        l@,
                    ) == gateway_list(list@) && s == selecting
                },
                HelperEvent::Connected { ifname, addr, dns, gateway } => {
                    &&& final(self).keeps(old(self), false, false, true, false, false)
                    &&& final(self).connection matches Some(c) && c@ == (ConnectionView {
                        ifname: ifname@,
                        addr: opt_view(addr),
                        dns: strings_view(dns@),
                        gateway: gateway@,
                    })
                    &&& r@.len() == 1
                    &&& r@[0] is Connected
                },
                HelperEvent::Stats { rx_bytes, tx_bytes, rx_packets, tx_packets } => {
                    let raw = RawCounters { rx_bytes, tx_bytes, rx_packets, tx_packets };
                    &&& final(self).keeps(old(self), false, false, false, false, true)
                    &&& match old(self).stats {
                        Some(t) => {
                            &&& final(self).stats matches Some(n) && n.session == sum(
                                t.session,
                                delta_of(raw, t.previous),
                            ) && n.previous == Some(raw) && n.baseline == t.baseline
                            &&& r@.len() == 1
                            &&& r@[0] matches Effect::Stats { delta, session, lifetime } && delta
                                == delta_of(raw, t.previous) && session == sum(
                                t.session,
                                delta_of(raw, t.previous),
                            ) && lifetime == sum(
                                t.baseline,
                                sum(t.session, delta_of(raw, t.previous)),
                            )
                        },
                        None => final(self).stats is None && r@.len() == 0,
                    }
                },
                HelperEvent::Error { msg } => {
                    &&& final(self).keeps(old(self), false, false, false, true, false)
                    &&& final(self).pending is None
                    &&& r@.len() == 1
                    &&& r@[0] matches Effect::Error { msg: m } && m@ == msg@
                },
            },
    {
        let mut effects: Vec<Effect> = Vec::new();
        match event {
            HelperEvent::State { state } => {
                if same(&chars_of(state.as_str()), &chars_of("disconnected")) {
                    effects.push(Effect::PersistStats);
                }
                let e = self.publish_state(state);
                effects.push(e);
            },
            HelperEvent::Log { level, msg } => {
                let mut line = chars_of("[gp-helper/");
                crate::text::push_str(&mut line, level.as_str());
                crate::text::push_str(&mut line, "] ");
                crate::text::push_str(&mut line, msg.as_str());
                effects.push(Effect::Diagnostic(string_of(&line)));
            },
            HelperEvent::CertUntrusted { fingerprint, details } => {
                self.last_fingerprint = Some(fingerprint.clone());
                self.pending = Some(
                    PendingPrompt::Certificate {
                        fingerprint: fingerprint.clone(),
                        details: details.clone(),
                    },
                );
                effects.push(Effect::CertUntrusted { fingerprint, details });
            },
            HelperEvent::MfaChallenge { message } => {
                self.pending = Some(PendingPrompt::Mfa { message: message.clone() });
                effects.push(Effect::MfaChallenge { message });
            },
            HelperEvent::Gateways { list, selecting } => {
                // Only a selecting list is a question; the other kind is the
                // helper announcing what it found.
                if selecting {
                    self.pending = Some(PendingPrompt::Gateways { list: clone_list(&list) });
                }
                effects.push(Effect::Gateways { list, selecting });
            },
            HelperEvent::Connected { ifname, addr, dns, gateway } => {
                let info = ConnectionInfo { ifname, addr, dns, gateway };
                self.connection = Some(info.clone());
                effects.push(Effect::Connected(info));
            },
            HelperEvent::Stats { rx_bytes, tx_bytes, rx_packets, tx_packets } => {
                let raw = RawCounters { rx_bytes, tx_bytes, rx_packets, tx_packets };
                match &mut self.stats {
                    Some(tracker) => {
                        let delta = tracker.record(raw);
                        let session = tracker.session();
                        let lifetime = tracker.lifetime();
                        effects.push(Effect::Stats { delta, session, lifetime });
                    },
                    None => {},
                }
            },
            HelperEvent::Error { msg } => {
                // The attempt is over: a question still waiting would only
                // collect an answer nothing is listening for.
                self.pending = None;
                effects.push(Effect::Error { msg });
            },
        }
        effects
    }

    /// The helper's output ended: the totals are written back, the state
    /// becomes `disconnected`, and the attempt's profile and counters are
    /// forgotten.
    pub fn helper_exited(&mut self) -> (r: Vec<Effect>)
        ensures
            final(self).state@ == "disconnected"@,
            final(self).connection is None,
            final(self).pending is None,
            final(self).profile is None,
            final(self).stats is None,
            r@.len() == 2,
            r@[0] is PersistStats,
            r@[1] matches Effect::PublishState { state: s, profile_id: p } && s@ == "disconnected"@
                && opt_view(p) == profile_id_of(old(self).profile),
    {
        let mut effects: Vec<Effect> = Vec::new();
        effects.push(Effect::PersistStats);
        let e = self.publish_state(String::from_str("disconnected"));
        effects.push(e);
        self.profile = None;
        self.stats = None;
        effects
    }
}

/// What a `vpn_status` request reports.
pub struct StatusResponse {
    pub state: String,
    pub profile_id: Option<String>,
    pub connection: Option<ConnectionInfo>,
    /// Whatever the helper is still waiting on, so a window opened after the
    /// prompt was raised can put the question back on screen.
    pub pending: Option<PendingPrompt>,
    /// A connection the tray asked for, waiting for a window to run it.
    pub requested_profile_id: Option<String>,
}

impl VpnRuntime {
    /// The state as a window reads it back.
    pub fn status(&self) -> (r: StatusResponse)
        ensures
            r.state@ == self.state@,
            opt_view(r.profile_id) == profile_id_of(self.profile),
            pending_view(r.pending) == pending_view(self.pending),
            opt_view(r.requested_profile_id) == opt_view(self.connect_request),
            r.connection is Some <==> self.connection is Some,
    {
        StatusResponse {
            state: self.state(),
            profile_id: match &self.profile {
                Some(p) => Some(p.id.clone()),
                None => None,
            },
            connection: self.connection(),
            pending: self.pending(),
            requested_profile_id: self.connect_request(),
        }
    }
}

} // verus!
