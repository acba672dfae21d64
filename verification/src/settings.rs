//! Saved connections. Passwords are never part of them: they stay in the
//! native keyring.
use vstd::prelude::*;

use crate::http::host_text;
use crate::profile::opt_view;
use crate::text::{
    chars_of, find_chars, find_from, hex, lemma_find_from, push_digits, slice_of, string_of, trim,
    trimmed,
};

verus! {

/// A saved connection.
#[derive(Debug)]
pub struct Profile {
    pub id: String,
    pub name: String,
    pub portal: String,
    pub username: String,
    pub remember: bool,
    pub cafile: Option<String>,
    pub client_cert: Option<String>,
    pub client_key: Option<String>,
    pub trusted_fingerprint: Option<String>,
    pub gateway: Option<String>,
    pub client_os: Option<String>,
    pub script: Option<String>,
    pub hip: bool,
    pub requires_otp: bool,
}

/// A `Profile` as plain values.
pub struct ProfileView {
    pub id: Seq<char>,
    pub name: Seq<char>,
    pub portal: Seq<char>,
    pub username: Seq<char>,
    pub remember: bool,
    pub cafile: Option<Seq<char>>,
    pub client_cert: Option<Seq<char>>,
    pub client_key: Option<Seq<char>>,
    pub trusted_fingerprint: Option<Seq<char>>,
    pub gateway: Option<Seq<char>>,
    pub client_os: Option<Seq<char>>,
    pub script: Option<Seq<char>>,
    pub hip: bool,
    pub requires_otp: bool,
}

impl View for Profile {
    type V = ProfileView;

    open spec fn view(&self) -> ProfileView {
        ProfileView {
            id: self.id@,
            name: self.name@,
            portal: self.portal@,
            username: self.username@,
            remember: self.remember,
            cafile: opt_view(self.cafile),
            client_cert: opt_view(self.client_cert),
            client_key: opt_view(self.client_key),
            trusted_fingerprint: opt_view(self.trusted_fingerprint),
            gateway: opt_view(self.gateway),
            client_os: opt_view(self.client_os),
            script: opt_view(self.script),
            hip: self.hip,
            requires_otp: self.requires_otp,
        }
    }
}

impl Clone for Profile {
    fn clone(&self) -> (r: Self)
        ensures
            r@ == self@,
    {
        Profile {
            id: self.id.clone(),
            name: self.name.clone(),
            portal: self.portal.clone(),
            username: self.username.clone(),
            remember: self.remember,
            cafile: crate::credential::clone_opt(&self.cafile),
            client_cert: crate::credential::clone_opt(&self.client_cert),
            client_key: crate::credential::clone_opt(&self.client_key),
            trusted_fingerprint: crate::credential::clone_opt(&self.trusted_fingerprint),
            gateway: crate::credential::clone_opt(&self.gateway),
            client_os: crate::credential::clone_opt(&self.client_os),
            script: crate::credential::clone_opt(&self.script),
            hip: self.hip,
            requires_otp: self.requires_otp,
        }
    }
}

/// The host part of what was typed as a portal: scheme and trailing slashes
/// removed, and nothing from the first `/` on.
pub open spec fn portal_host(portal: Seq<char>) -> Seq<char> {
    let t = host_text(trim(portal));
    match find_from(t, "/"@, 0) {
        Some(i) => t.take(i),
        None => t,
    }
}

/// The name a connection gets when none was given: its portal's host.
pub open spec fn default_name_of(portal: Seq<char>) -> Seq<char> {
    if portal_host(portal).len() == 0 {
        "New connection"@
    } else {
        portal_host(portal)
    }
}

/// The name a connection gets when none was given: its portal's host.
pub fn default_name(portal: &str) -> (r: String)
    ensures
        r@ == default_name_of(portal@),
{
    let t = chars_of(crate::http::host_of(string_of(&trimmed(portal)).as_str()).as_str());
    let slash = chars_of("/");
    proof {
        lemma_find_from(t@, slash@, 0);
    }
    let host = match find_chars(&t, &slash, 0) {
        Some(i) => {
            let h = slice_of(&t, 0, i);
            assert(t@.subrange(0, i as int) == t@.take(i as int));
            h
        },
        None => slice_of(&t, 0, t.len()),
    };
    assert(t@.subrange(0, t@.len() as int) == t@);
    if host.len() == 0 {
        String::from_str("New connection")
    } else {
        string_of(&host)
    }
}

/// The clock's type.
#[verifier::external_type_specification]
#[verifier::external_body]
pub struct ExSystemTime(std::time::SystemTime);

/// Calls `std::time::SystemTime::now`. The time is what it is: the contract
/// promises nothing of it.
#[verifier::external_body]
fn system_now() -> (r: std::time::SystemTime) {
    std::time::SystemTime::now()
}

/// Calls `SystemTime::duration_since` with the Unix epoch, as nanoseconds;
/// `None` for a clock set before 1970. Nothing is promised of the value.
#[verifier::external_body]
fn nanos_since_epoch(t: std::time::SystemTime) -> (r: Option<u128>) {
    match t.duration_since(std::time::UNIX_EPOCH) {
        Ok(d) => Some(d.as_nanos()),
        Err(_) => None,
    }
}

/// The id for a given instant: `p` and its nanoseconds in hexadecimal.
pub fn id_from_nanos(nanos: u128) -> (r: String)
    ensures
        r@ == seq!['p'] + hex(nanos as nat),
{
    let mut out: Vec<char> = vec!['p'];
    push_digits(&mut out, nanos, 16);
    string_of(&out)
}

/// A fresh profile id, from the clock (zero when the clock reads before
/// 1970).
pub fn new_id() -> (r: String)
    ensures
        r@.len() >= 2,
        r@[0] == 'p',
{
    let nanos = match nanos_since_epoch(system_now()) {
        Some(n) => n,
        None => 0,
    };
    let r = id_from_nanos(nanos);
    proof {
        let d = hex(nanos as nat);
        crate::text::lemma_digits_nonempty(nanos as nat, 16);
        assert(r@[0] == (seq!['p'] + d)[0]);
    }
    r
}

/// Profiles as plain values.
pub open spec fn profiles_view(v: Seq<Profile>) -> Seq<ProfileView> {
    v.map_values(|p: Profile| p@)
}

/// The position of the first profile with this id.
pub open spec fn position_of(v: Seq<ProfileView>, id: Seq<char>, from: int) -> Option<int>
    decreases v.len() - from,
{
    if from < 0 || from >= v.len() {
        None
    } else if v[from].id == id {
        Some(from)
    } else {
        position_of(v, id, from + 1)
    }
}

/// A position found is a profile with that id, and none before it from
/// `from` on has it.
pub proof fn lemma_position_of(v: Seq<ProfileView>, id: Seq<char>, from: int)
    requires
        0 <= from,
    ensures
        position_of(v, id, from) matches Some(i) ==> from <= i < v.len() && v[i].id == id
            && forall|k: int| from <= k < i ==> v[k].id != id,
        position_of(v, id, from) is None ==> forall|k: int| from <= k < v.len() ==> v[k].id != id,
    decreases v.len() - from,
{
    if from < v.len() && v[from].id != id {
        lemma_position_of(v, id, from + 1);
    }
}

/// The saved connections, in the order the user arranged them.
pub struct ProfileStore {
    pub profiles: Vec<Profile>,
}

impl ProfileStore {
    /// Where the profile with this id is.
    pub fn position(&self, id: &str) -> (r: Option<usize>)
        ensures
            match position_of(profiles_view(self.profiles@), id@, 0) {
                Some(i) => r matches Some(k) && k as int == i,
                None => r is None,
            },
    {
        let ghost v = profiles_view(self.profiles@);
        let wanted = String::from_str(id);
        let mut i: usize = 0;
        while i < self.profiles.len()
            invariant
                i <= self.profiles@.len(),
                v == profiles_view(self.profiles@),
                wanted@ == id@,
                position_of(v, id@, 0) == position_of(v, id@, i as int),
            decreases self.profiles@.len() - i,
        {
            assert(v[i as int] == self.profiles@[i as int]@);
            if self.profiles[i].id.eq(&wanted) {
                return Some(i);
            }
            i = i + 1;
        }
        None
    }

    /// A copy of the profile with this id.
    pub fn find(&self, id: &str) -> (r: Option<Profile>)
        ensures
            match position_of(profiles_view(self.profiles@), id@, 0) {
                Some(i) => r matches Some(p) && p@ == self.profiles@[i]@,
                None => r is None,
            },
    {
        proof {
            lemma_position_of(profiles_view(self.profiles@), id@, 0);
        }
        match self.position(id) {
            Some(i) => {
                let p = self.profiles[i].clone();
                assert(position_of(profiles_view(self.profiles@), id@, 0) == Some(i as int));
                assert(p@ == self.profiles@[i as int]@);
                Some(p)
            },
            None => None,
        }
    }

    /// Every profile but the one with this id.
    pub fn remove(&mut self, id: &str)
        ensures
            profiles_view(final(self).profiles@) == profiles_view(old(self).profiles@).filter(
                |p: ProfileView| p.id != id@,
            ),
    {
        let wanted = String::from_str(id);
        let mut kept: Vec<Profile> = Vec::new();
        let mut i: usize = 0;
        while i < self.profiles.len()
            invariant
                i <= self.profiles@.len(),
                self.profiles@ == old(self).profiles@,
                wanted@ == id@,
                profiles_view(kept@) == profiles_view(self.profiles@.take(i as int)).filter(
                    |p: ProfileView| p.id != id@,
                ),
            decreases self.profiles@.len() - i,
        {
            let ghost before = profiles_view(self.profiles@.take(i as int));
            let ghost item = self.profiles@[i as int]@;
            assert(profiles_view(self.profiles@.take(i + 1)) =~= before.push(item));
            if !self.profiles[i].id.eq(&wanted) {
                kept.push(self.profiles[i].clone());
                assert(profiles_view(kept@) =~= before.filter(|p: ProfileView| p.id != id@).push(
                    item,
                ));
            }
            proof {
                lemma_filter_push(before, item, |p: ProfileView| p.id != id@);
            }
            i = i + 1;
        }
        assert(self.profiles@.take(i as int) == self.profiles@);
        self.profiles = kept;
    }
}

/// Filtering a sequence with one more element.
pub proof fn lemma_filter_push(s: Seq<ProfileView>, x: ProfileView, keep: spec_fn(ProfileView) -> bool)
    ensures
        s.push(x).filter(keep) == if keep(x) {
            s.filter(keep).push(x)
        } else {
            s.filter(keep)
        },
{
    reveal(Seq::filter);
    assert(s.push(x).drop_last() =~= s);
}

} // verus!
