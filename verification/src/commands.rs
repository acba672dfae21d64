//! What the window's requests decide: which saved connection changes, which
//! keyring entries are written or removed, and what the helper is asked to
//! do. Storing, the keyring and the helper process are the caller's.
use vstd::prelude::*;

use crate::helper::ConnectRequest;
use crate::profile::opt_view;
use crate::runtime::{profile_id_of, ActiveProfile, VpnRuntime};
use crate::settings::{
    default_name, default_name_of, lemma_position_of, position_of, profiles_view, Profile,
    ProfileStore, ProfileView,
};
use crate::text::{chars_of, same, trim, trimmed};

verus! {

/// A change to the keyring.
pub enum KeyringOp {
    Store { portal: String, username: String, password: String },
    Delete { portal: String, username: String },
}

/// A keyring change as plain values.
pub enum KeyringOpView {
    Store { portal: Seq<char>, username: Seq<char>, password: Seq<char> },
    Delete { portal: Seq<char>, username: Seq<char> },
}

impl View for KeyringOp {
    type V = KeyringOpView;

    open spec fn view(&self) -> KeyringOpView {
        match self {
            KeyringOp::Store { portal, username, password } => KeyringOpView::Store {
                portal: portal@,
                username: username@,
                password: password@,
            },
            KeyringOp::Delete { portal, username } => KeyringOpView::Delete {
                portal: portal@,
                username: username@,
            },
        }
    }
}

/// Keyring changes as plain values.
pub open spec fn ops_view(v: Seq<KeyringOp>) -> Seq<KeyringOpView> {
    v.map_values(|o: KeyringOp| o@)
}

/// A password that was actually typed.
pub open spec fn typed(password: Option<Seq<char>>) -> Option<Seq<char>> {
    match password {
        Some(p) => if p.len() > 0 {
            Some(p)
        } else {
            None
        },
        None => None,
    }
}

/// A profile, with the name it is saved under: its portal's host when none
/// was given.
pub open spec fn named(p: ProfileView) -> ProfileView {
    if trim(p.name).len() == 0 {
        ProfileView { name: default_name_of(p.portal), ..p }
    } else {
        p
    }
}

/// The profile as saved: named, and with a fresh id when it is new.
pub open spec fn saved_profile(store: Seq<ProfileView>, p: ProfileView, fresh_id: Seq<char>) -> ProfileView {
    match position_of(store, p.id, 0) {
        Some(_) => named(p),
        None => ProfileView { id: fresh_id, ..named(p) },
    }
}

/// The keyring changes a save makes. The keyring is addressed by portal and
/// username, so an edit to either would otherwise leave the old secret
/// behind.
pub open spec fn save_ops(
    store: Seq<ProfileView>,
    id: Seq<char>,
    saved: ProfileView,
    password: Option<Seq<char>>,
    available: bool,
) -> Seq<KeyringOpView> {
    previous_ops(store, id, saved) + new_ops(saved, password, available)
}

/// Removing the secret an edit of portal or username leaves behind.
pub open spec fn previous_ops(store: Seq<ProfileView>, id: Seq<char>, saved: ProfileView) -> Seq<
    KeyringOpView,
> {
    match position_of(store, id, 0) {
        Some(i) => if store[i].portal != saved.portal || store[i].username != saved.username {
            seq![KeyringOpView::Delete { portal: store[i].portal, username: store[i].username }]
        } else {
            Seq::empty()
        },
        None => Seq::empty(),
    }
}

/// Storing the typed password of a remembered profile, or forgetting the
/// secret of one that is not remembered.
pub open spec fn new_ops(saved: ProfileView, password: Option<Seq<char>>, available: bool) -> Seq<
    KeyringOpView,
> {
    if saved.remember && available {
        match typed(password) {
            Some(p) => seq![
                KeyringOpView::Store { portal: saved.portal, username: saved.username, password: p },
            ],
            None => Seq::empty(),
        }
    } else if !saved.remember {
        seq![KeyringOpView::Delete { portal: saved.portal, username: saved.username }]
    } else {
        Seq::empty()
    }
}

/// What a save decided.
pub struct Saved {
    pub profile: Profile,
    pub keyring: Vec<KeyringOp>,
}

/// Creates or updates one profile. `password` is only used when the profile
/// asks to be remembered; it goes to the keyring and never to the store. A
/// new profile gets `fresh_id`.
pub fn profile_save(
    store: &mut ProfileStore,
    profile: Profile,
    password: Option<String>,
    fresh_id: String,
    keyring_available: bool,
) -> (r: Result<Saved, String>)
    ensures
        trim(profile.portal@).len() == 0 || trim(profile.username@).len() == 0 ==> {
            &&& r matches Err(m) && m@ == "Portal and username are required"@
            &&& profiles_view(final(store).profiles@) == profiles_view(old(store).profiles@)
        },
        trim(profile.portal@).len() > 0 && trim(profile.username@).len() > 0 ==> {
            let before = profiles_view(old(store).profiles@);
            let saved = saved_profile(before, profile@, fresh_id@);
            &&& r matches Ok(s) && s.profile@ == saved && ops_view(s.keyring@) == save_ops(
                before,
                profile@.id,
                saved,
                opt_view(password),
                keyring_available,
            )
            &&& match position_of(before, profile@.id, 0) {
                Some(i) => profiles_view(final(store).profiles@) == before.update(i, saved),
                None => profiles_view(final(store).profiles@) == before.push(saved),
            }
        },
{
    let ghost before = profiles_view(store.profiles@);
    if trimmed(profile.portal.as_str()).len() == 0 || trimmed(profile.username.as_str()).len() == 0 {
        return Err(String::from_str("Portal and username are required"));
    }
    let ghost given_profile = profile@;
    let mut profile = profile;
    if trimmed(profile.name.as_str()).len() == 0 {
        profile.name = default_name(profile.portal.as_str());
    }
    assert(profile@ == named(given_profile));
    proof {
        lemma_position_of(before, profile@.id, 0);
    }
    let mut ops: Vec<KeyringOp> = Vec::new();
    match store.position(profile.id.as_str()) {
        Some(i) => {
            let previous = store.profiles[i].clone();
            if !same(&chars_of(previous.portal.as_str()), &chars_of(profile.portal.as_str())) || !same(
                &chars_of(previous.username.as_str()),
                &chars_of(profile.username.as_str()),
            ) {
                ops.push(KeyringOp::Delete { portal: previous.portal, username: previous.username });
            }
            let copy = profile.clone();
            store.profiles.set(i, copy);
            assert(profiles_view(store.profiles@) =~= before.update(i as int, profile@));
        },
        None => {
            profile.id = fresh_id;
            let copy = profile.clone();
            store.profiles.push(copy);
            assert(profiles_view(store.profiles@) =~= before.push(profile@));
        },
    }
    let ghost first = ops_view(ops@);
    assert(first =~= previous_ops(before, given_profile.id, profile@));
    if profile.remember && keyring_available {
        match &password {
            Some(p) => if p.unicode_len() > 0 {
                ops.push(
                    KeyringOp::Store {
                        portal: profile.portal.clone(),
                        username: profile.username.clone(),
                        password: p.clone(),
                    },
                );
            },
            None => {},
        }
    } else if !profile.remember {
        ops.push(
            KeyringOp::Delete { portal: profile.portal.clone(), username: profile.username.clone() },
        );
    }
    proof {
        reveal_strlit("");
    }
    assert(ops_view(ops@) =~= first + new_ops(profile@, opt_view(password), keyring_available));
    Ok(Saved { profile, keyring: ops })
}

/// Deletes one profile. Returns the portal and username whose saved
/// password has to be forgotten with it, when the profile existed.
pub fn profile_delete(store: &mut ProfileStore, id: &str) -> (r: Option<(String, String)>)
    ensures
        profiles_view(final(store).profiles@) == profiles_view(old(store).profiles@).filter(
            |p: ProfileView| p.id != id@,
        ),
        match position_of(profiles_view(old(store).profiles@), id@, 0) {
            Some(i) => r matches Some(c) && c.0@ == old(store).profiles@[i]@.portal && c.1@
                == old(store).profiles@[i]@.username,
            None => r is None,
        },
{
    let forget = match store.find(id) {
        Some(p) => Some((p.portal, p.username)),
        None => None,
    };
    store.remove(id);
    forget
}

/// What a window shows of a profile: never the password itself, only
/// whether one is waiting in the keyring.
pub fn has_saved_password(profile: &Profile, keyring_available: bool, saved: bool) -> (r: bool)
    ensures
        r == (profile.remember && keyring_available && saved),
{
    profile.remember && keyring_available && saved
}

/// A connection the window asks for.
pub struct ConnectInput {
    pub profile_id: String,
    /// Supplied by the credentials prompt when nothing is in the keyring.
    pub password: Option<String>,
    pub otp: Option<String>,
    /// Set when the prompt's "remember me" differs from the stored profile.
    pub remember: Option<bool>,
}

/// What a connection request decided.
pub struct ConnectPlan {
    /// The profile, with the remember choice of this attempt.
    pub profile: Profile,
    /// Whether the store changed and has to be written back.
    pub store_changed: bool,
    pub keyring: Vec<KeyringOp>,
    /// The request for the helper.
    pub request: ConnectRequest,
    /// The profile the attempt belongs to.
    pub active: ActiveProfile,
}

/// The error for a connection asked for while another is active.
pub open spec fn busy_message() -> Seq<char> {
    "Another connection is already active"@
}

/// The keyring changes of a connection: the typed password is stored when
/// the profile remembers it and a keyring is at hand; a profile that does not
/// remember forgets whatever was stored for it.
pub open spec fn connect_ops(
    p: ProfileView,
    typed_password: Option<Seq<char>>,
    keyring_available: bool,
) -> Seq<KeyringOpView> {
    (match typed_password {
        Some(pw) => if p.remember && keyring_available {
            seq![KeyringOpView::Store { portal: p.portal, username: p.username, password: pw }]
        } else {
            Seq::empty()
        },
        None => Seq::empty(),
    }) + (if !p.remember {
        seq![KeyringOpView::Delete { portal: p.portal, username: p.username }]
    } else {
        Seq::empty()
    })
}

/// What a connection to profile `p` comes to: the password typed, else the
/// one the keyring gave back (`saved`), else the missing-password error.
/// `r` is the plan or the error; `changed` whether the store changed.
pub open spec fn connect_outcome(
    r: Result<ConnectPlan, String>,
    p: ProfileView,
    changed: bool,
    typed_password: Option<Seq<char>>,
    saved: Option<Seq<char>>,
    otp: Option<Seq<char>>,
    keyring_available: bool,
) -> bool {
    let password = match typed_password {
        Some(pw) => Some(pw),
        None => saved,
    };
    match password {
        None => r matches Err(m) && m@ == "This connection has no saved password"@,
        Some(pw) => r matches Ok(plan) && {
            &&& plan.profile@ == p
            &&& plan.store_changed == changed
            &&& ops_view(plan.keyring@) == connect_ops(p, typed_password, keyring_available)
            &&& plan.request.portal@ == p.portal
            &&& plan.request.username@ == p.username
            &&& plan.request.password@ == pw
            &&& plan.request.otp@ == match otp {
                Some(o) => o,
                None => Seq::empty(),
            }
            &&& opt_view(plan.request.gateway) == p.gateway
            &&& opt_view(plan.request.client_os) == p.client_os
            &&& opt_view(plan.request.cafile) == p.cafile
            &&& opt_view(plan.request.client_cert) == p.client_cert
            &&& opt_view(plan.request.client_key) == p.client_key
            &&& opt_view(plan.request.trusted_fingerprint) == p.trusted_fingerprint
            &&& opt_view(plan.request.script) == p.script
            &&& plan.request.hip == p.hip
            &&& plan.request.timeout_secs is None
            &&& !plan.request.verbose
            &&& plan.active.id@ == p.id
            &&& plan.active.name@ == p.name
        },
    }
}

/// Plans a connection to `profile` once the password question is settled:
/// `typed_password` is what the window supplied (a non-empty one), `saved`
/// what the keyring gave back when nothing was typed.
pub fn plan_connection(
    profile: Profile,
    store_changed: bool,
    typed_password: Option<String>,
    saved: Option<String>,
    otp: &Option<String>,
    keyring_available: bool,
) -> (r: Result<ConnectPlan, String>)
    ensures
        connect_outcome(
            r,
            profile@,
            store_changed,
            opt_view(typed_password),
            opt_view(saved),
            opt_view(*otp),
            keyring_available,
        ),
{
    let mut keyring: Vec<KeyringOp> = Vec::new();
    let password = match typed_password {
        Some(p) => {
            if profile.remember && keyring_available {
                keyring.push(
                    KeyringOp::Store {
                        portal: profile.portal.clone(),
                        username: profile.username.clone(),
                        password: p.clone(),
                    },
                );
            }
            p
        },
        None => match saved {
            Some(p) => p,
            None => {
                return Err(String::from_str("This connection has no saved password"));
            },
        },
    };
    let ghost first = ops_view(keyring@);
    if !profile.remember {
        keyring.push(
            KeyringOp::Delete { portal: profile.portal.clone(), username: profile.username.clone() },
        );
    }
    proof {
        assert(ops_view(keyring@) =~= first + (if !profile.remember {
            seq![KeyringOpView::Delete { portal: profile@.portal, username: profile@.username }]
        } else {
            Seq::empty()
        }));
        assert(ops_view(keyring@) =~= connect_ops(profile@, opt_view(typed_password), keyring_available));
    }
    let request = ConnectRequest {
        portal: profile.portal.clone(),
        username: profile.username.clone(),
        password,
        otp: match otp {
            Some(o) => o.clone(),
            None => String::new(),
        },
        gateway: crate::credential::clone_opt(&profile.gateway),
        client_os: crate::credential::clone_opt(&profile.client_os),
        cafile: crate::credential::clone_opt(&profile.cafile),
        client_cert: crate::credential::clone_opt(&profile.client_cert),
        client_key: crate::credential::clone_opt(&profile.client_key),
        trusted_fingerprint: crate::credential::clone_opt(&profile.trusted_fingerprint),
        script: crate::credential::clone_opt(&profile.script),
        hip: profile.hip,
        timeout_secs: None,
        verbose: false,
    };
    let active = ActiveProfile { id: profile.id.clone(), name: profile.name.clone() };
    Ok(ConnectPlan { profile, store_changed, keyring, request, active })
}

/// Starts a connection to a saved profile. `saved_password` reads the
/// keyring for a portal and username; it is only asked when the window did
/// not supply a password.
pub fn vpn_connect<F: Fn(&str, &str) -> Option<String>>(
    state: &str,
    store: &mut ProfileStore,
    input: ConnectInput,
    keyring_available: bool,
    saved_password: F,
) -> (r: Result<ConnectPlan, String>)
    requires
        forall|a: &str, b: &str| saved_password.requires((a, b)),
    ensures
        state@ != "disconnected"@ ==> (r matches Err(m) && m@ == busy_message()),
        state@ != "disconnected"@ ==> profiles_view(final(store).profiles@) == profiles_view(
            old(store).profiles@,
        ),
        state@ == "disconnected"@ && position_of(profiles_view(old(store).profiles@), input.profile_id@, 0)
            is None ==> (r matches Err(m) && m@ == "That connection no longer exists"@),
        state@ == "disconnected"@ ==> match position_of(
            profiles_view(old(store).profiles@),
            input.profile_id@,
            0,
        ) {
            None => profiles_view(final(store).profiles@) == profiles_view(old(store).profiles@),
            Some(i) => {
                let before = old(store).profiles@[i]@;
                let remember = match input.remember {
                    Some(x) => x,
                    None => before.remember,
                };
                let after = ProfileView { remember, ..before };
                &&& profiles_view(final(store).profiles@) == profiles_view(old(store).profiles@).update(
                    i,
                    after,
                )
                &&& match typed(opt_view(input.password)) {
                    Some(p) => connect_outcome(
                        r,
                        after,
                        remember != before.remember,
                        Some(p),
                        None,
                        opt_view(input.otp),
                        keyring_available,
                    ),
                    None => exists|a: &str, b: &str, saved: Option<String>|
                        #![trigger saved_password.ensures((a, b), saved)]
                        a@ == after.portal && b@ == after.username && saved_password.ensures(
                            (a, b),
                            saved,
                        ) && connect_outcome(
                            r,
                            after,
                            remember != before.remember,
                            None,
                            opt_view(saved),
                            opt_view(input.otp),
                            keyring_available,
                        ),
                }
            },
        },
{
    if !same(&chars_of(state), &chars_of("disconnected")) {
        return Err(String::from_str("Another connection is already active"));
    }
    proof {
        lemma_position_of(profiles_view(store.profiles@), input.profile_id@, 0);
    }
    let index = match store.position(input.profile_id.as_str()) {
        Some(i) => i,
        None => {
            return Err(String::from_str("That connection no longer exists"));
        },
    };
    let ghost before = profiles_view(store.profiles@);
    let mut profile = store.profiles[index].clone();
    let mut store_changed = false;
    // A prompt may have changed the "remember me" choice for this attempt.
    match input.remember {
        Some(remember) => if remember != profile.remember {
            profile.remember = remember;
            store_changed = true;
        },
        None => {},
    }
    let copy = profile.clone();
    store.profiles.set(index, copy);
    assert(profiles_view(store.profiles@) =~= before.update(index as int, profile@));
    let typed_password = match &input.password {
        Some(p) => if p.unicode_len() > 0 {
            Some(p.clone())
        } else {
            None
        },
        None => None,
    };
    match typed_password {
        Some(p) => plan_connection(profile, store_changed, Some(p), None, &input.otp, keyring_available),
        None => {
            let portal = profile.portal.as_str();
            let username = profile.username.as_str();
            let saved = saved_password(portal, username);
            assert(saved_password.ensures((portal, username), saved));
            plan_connection(profile, store_changed, None, saved, &input.otp, keyring_available)
        },
    }
}

/// Trusts the certificate the helper asked about, for the profile of the
/// attempt in progress. Returns whether the store changed; the helper is
/// then told to go on.
pub fn vpn_trust_cert(runtime: &VpnRuntime, store: &mut ProfileStore) -> (r: Result<bool, String>)
    ensures
        runtime.last_fingerprint is None ==> (r matches Err(m)
            && m@ == "There is no certificate awaiting a trust decision"@),
        runtime.last_fingerprint is Some && runtime.profile is None ==> (r matches Err(m)
            && m@ == "There is no connection in progress"@),
        match (opt_view(runtime.last_fingerprint), profile_id_of(runtime.profile)) {
            (Some(f), Some(id)) => match position_of(profiles_view(old(store).profiles@), id, 0) {
                Some(i) => r == Ok::<bool, String>(true) && profiles_view(final(store).profiles@)
                    == profiles_view(old(store).profiles@).update(
                    i,
                    ProfileView { trusted_fingerprint: Some(f), ..old(store).profiles@[i]@ },
                ),
                None => r == Ok::<bool, String>(false) && profiles_view(final(store).profiles@)
                    == profiles_view(old(store).profiles@),
            },
            _ => profiles_view(final(store).profiles@) == profiles_view(old(store).profiles@),
        },
{
    let fingerprint = match runtime.last_fingerprint() {
        Some(f) => f,
        None => {
            return Err(String::from_str("There is no certificate awaiting a trust decision"));
        },
    };
    let profile_id = match &runtime.profile {
        Some(p) => p.id.clone(),
        None => {
            return Err(String::from_str("There is no connection in progress"));
        },
    };
    proof {
        lemma_position_of(profiles_view(store.profiles@), profile_id@, 0);
    }
    let ghost before = profiles_view(store.profiles@);
    match store.position(profile_id.as_str()) {
        Some(i) => {
            let mut p = store.profiles[i].clone();
            p.trusted_fingerprint = Some(fingerprint);
            store.profiles.set(i, p);
            assert(profiles_view(store.profiles@) =~= before.update(
                i as int,
                ProfileView { trusted_fingerprint: opt_view(runtime.last_fingerprint), ..before[i as int] },
            ));
            Ok(true)
        },
        None => Ok(false),
    }
}

} // verus!
