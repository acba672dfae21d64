//! The system tray's text and menu. Closing the window destroys it, so the
//! tray is the app's only visible surface while a tunnel is up, and the only
//! way back to a window. Drawing it is the caller's; what it says is decided
//! here.
use vstd::prelude::*;

use crate::runtime::ActiveProfile;
use crate::text::{chars_of, has_prefix, push_str, same, starts_with, string_of};

verus! {

/// The tray's id.
pub const TRAY_ID: &'static str = "gp-tray";

/// One character of a menu label: an `&` has to be said twice.
pub open spec fn label_piece(c: char) -> Seq<char> {
    if c == '&' {
        seq!['&', '&']
    } else {
        seq![c]
    }
}

/// A menu label for a name: every `&` doubled.
pub open spec fn label_of(s: Seq<char>) -> Seq<char>
    decreases s.len(),
{
    if s.len() == 0 {
        Seq::empty()
    } else {
        label_of(s.drop_last()) + label_piece(s.last())
    }
}

/// An `&` in a menu label marks the next character as a mnemonic, so a
/// connection named with one has to say it twice to be drawn.
pub fn label(name: &str) -> (r: String)
    ensures
        r@ == label_of(name@),
{
    let v = chars_of(name);
    let mut out: Vec<char> = Vec::new();
    let mut i: usize = 0;
    while i < v.len()
        invariant
            i <= v@.len(),
            out@ == label_of(v@.take(i as int)),
        decreases v@.len() - i,
    {
        let c = v[i];
        if c == '&' {
            out.push('&');
            out.push('&');
        } else {
            out.push(c);
        }
        i = i + 1;
        assert(v@.take(i as int).drop_last() =~= v@.take(i - 1));
        assert(out@ =~= label_of(v@.take(i - 1)) + label_piece(c));
    }
    assert(v@.take(i as int) =~= v@);
    string_of(&out)
}

/// The status line at the top of the menu.
pub open spec fn status_of(state: Seq<char>, name: Option<Seq<char>>) -> Seq<char> {
    if state == "connected"@ {
        match name {
            Some(n) => "Connected to "@ + n,
            None => "Connected"@,
        }
    } else if state == "authenticating"@ && name is Some {
        "Authenticating to "@ + name->0 + "…"@
    } else if state == "connecting"@ && name is Some {
        "Connecting to "@ + name->0 + "…"@
    } else if state == "authenticating"@ || state == "connecting"@ {
        "Connecting…"@
    } else if state == "disconnecting"@ {
        "Disconnecting…"@
    } else {
        "Not connected"@
    }
}

fn state_is(state: &str, word: &str) -> (r: bool)
    ensures
        r == (state@ == word@),
{
    same(&chars_of(state), &chars_of(word))
}

fn joined(a: &str, b: &str, c: &str) -> (r: String)
    ensures
        r@ == a@ + b@ + c@,
{
    let mut out = chars_of(a);
    push_str(&mut out, b);
    push_str(&mut out, c);
    string_of(&out)
}

/// The status line at the top of the menu: it describes the current
/// connection instead of being generic.
pub fn status_text(state: &str, name: Option<&str>) -> (r: String)
    ensures
        r@ == status_of(
            state@,
            match name {
                Some(n) => Some(n@),
                None => None,
            },
        ),
{
    proof {
        reveal_strlit("");
    }
    if state_is(state, "connected") {
        match name {
            Some(n) => joined("Connected to ", n, ""),
            None => String::from_str("Connected"),
        }
    } else if state_is(state, "authenticating") && name.is_some() {
        joined("Authenticating to ", name.unwrap(), "…")
    } else if state_is(state, "connecting") && name.is_some() {
        joined("Connecting to ", name.unwrap(), "…")
    } else if state_is(state, "authenticating") || state_is(state, "connecting") {
        String::from_str("Connecting…")
    } else if state_is(state, "disconnecting") {
        String::from_str("Disconnecting…")
    } else {
        String::from_str("Not connected")
    }
}

/// The tray icon's tooltip.
pub open spec fn tooltip_of(state: Seq<char>, name: Option<Seq<char>>) -> Seq<char> {
    if state == "connected"@ {
        match name {
            Some(n) => "gp-client — connected to "@ + n,
            None => "gp-client — connected"@,
        }
    } else if state == "disconnected"@ {
        "gp-client — not connected"@
    } else {
        match name {
            Some(n) => "gp-client — "@ + state + " ("@ + n + ")"@,
            None => "gp-client — "@ + state,
        }
    }
}

/// The tray icon's tooltip.
pub fn tooltip(state: &str, name: Option<&str>) -> (r: String)
    ensures
        r@ == tooltip_of(
            state@,
            match name {
                Some(n) => Some(n@),
                None => None,
            },
        ),
{
    proof {
        reveal_strlit("");
    }
    if state_is(state, "connected") {
        match name {
            Some(n) => joined("gp-client — connected to ", n, ""),
            None => String::from_str("gp-client — connected"),
        }
    } else if state_is(state, "disconnected") {
        String::from_str("gp-client — not connected")
    } else {
        match name {
            Some(n) => {
                let mut out = chars_of("gp-client — ");
                push_str(&mut out, state);
                push_str(&mut out, " (");
                push_str(&mut out, n);
                push_str(&mut out, ")");
                string_of(&out)
            },
            None => joined("gp-client — ", state, ""),
        }
    }
}

/// Which icon the tray shows.
pub fn shows_connected(state: &str) -> (r: bool)
    ensures
        r == (state@ == "connected"@),
{
    state_is(state, "connected")
}

/// One entry of the tray menu.
pub enum MenuEntry {
    Item { id: String, text: String, enabled: bool },
    Check { id: String, text: String, enabled: bool, checked: bool },
    Separator,
}

/// The prefix on the id of every saved-connection item, so one handler
/// recognises them whatever the profile is called.
pub open spec fn connect_prefix() -> Seq<char> {
    "connect:"@
}

fn item(id: &str, text: String, enabled: bool) -> (r: MenuEntry)
    ensures
        r matches MenuEntry::Item { id: i, text: t, enabled: e } && i@ == id@ && t@ == text@ && e
            == enabled,
{
    MenuEntry::Item { id: String::from_str(id), text, enabled }
}

/// The tray menu: the status, every saved connection (ticked when it is the
/// one that is up, and only pickable while no tunnel is), then the window,
/// disconnect and quit items. `profiles` are the saved connections' ids and
/// names.
pub fn menu(state: &str, active: Option<&ActiveProfile>, profiles: &Vec<(String, String)>) -> (r: Vec<
    MenuEntry,
>)
    ensures
        r@.len() == 7 + if profiles@.len() == 0 { 1int } else { profiles@.len() as int },
        r@[0] matches MenuEntry::Item { id, text, enabled } && id@ == "status"@ && text@ == status_of(
            state@,
            match active {
                Some(a) => Some(a.name@),
                None => None,
            },
        ) && !enabled,
        forall|k: int|
            0 <= k < profiles@.len() ==> ((#[trigger] r@[k + 2]) matches MenuEntry::Check {
                id,
                text,
                enabled,
                checked,
            } && id@ == connect_prefix() + profiles@[k].0@ && text@ == label_of(profiles@[k].1@)
                && enabled == (state@ == "disconnected"@) && checked == (active matches Some(a)
                && a.id@ == profiles@[k].0@)),
        r@[1] is Separator,
        profiles@.len() == 0 ==> (r@[2] matches MenuEntry::Item { id, text, enabled } && id@
            == "no-connections"@ && text@ == "No saved connections"@ && !enabled),
        r@[r@.len() - 5] is Separator,
        r@[r@.len() - 4] matches MenuEntry::Item { id, text, enabled } && id@ == "show"@ && text@
            == "Open gp-client"@ && enabled,
        r@[r@.len() - 3] matches MenuEntry::Item { id, text, enabled } && id@ == "disconnect"@
            && text@ == "Disconnect"@ && enabled == (state@ != "disconnected"@ && state@
            != "disconnecting"@),
        r@[r@.len() - 2] is Separator,
        r@[r@.len() - 1] matches MenuEntry::Item { id, text, enabled } && id@ == "quit"@ && text@
            == "Quit"@ && enabled,
{
    let name = match active {
        Some(a) => Some(a.name.as_str()),
        None => None,
    };
    let idle = state_is(state, "disconnected");
    let mut out: Vec<MenuEntry> = Vec::new();
    out.push(item("status", status_text(state, name), false));
    out.push(MenuEntry::Separator);
    if profiles.len() == 0 {
        out.push(item("no-connections", String::from_str("No saved connections"), false));
    }
    let mut i: usize = 0;
    while i < profiles.len()
        invariant
            i <= profiles@.len(),
            out@.len() == 2 + if profiles@.len() == 0 { 1int } else { i as int },
            profiles@.len() > 0 || i == 0,
            idle == (state@ == "disconnected"@),
            out@[1] is Separator,
            profiles@.len() == 0 ==> (out@[2] matches MenuEntry::Item { id, text, enabled } && id@
                == "no-connections"@ && text@ == "No saved connections"@ && !enabled),
            out@[0] matches MenuEntry::Item { id, text, enabled } && id@ == "status"@ && text@
                == status_of(
                state@,
                match active {
                    Some(a) => Some(a.name@),
                    None => None,
                },
            ) && !enabled,
            forall|k: int|
                0 <= k < i ==> ((#[trigger] out@[k + 2]) matches MenuEntry::Check {
                    id,
                    text,
                    enabled,
                    checked,
                } && id@ == connect_prefix() + profiles@[k].0@ && text@ == label_of(
                    profiles@[k].1@,
                ) && enabled == idle && checked == (active matches Some(a) && a.id@
                    == profiles@[k].0@)),
        decreases profiles@.len() - i,
    {
        let (id, name) = &profiles[i];
        let ticked = match active {
            Some(a) => a.id.eq(id),
            None => false,
        };
        let mut full = chars_of("connect:");
        push_str(&mut full, id.as_str());
        out.push(
            MenuEntry::Check { id: string_of(&full), text: label(name.as_str()), enabled: idle, checked: ticked },
        );
        i = i + 1;
    }
    out.push(MenuEntry::Separator);
    out.push(item("show", String::from_str("Open gp-client"), true));
    let can_disconnect = !idle && !state_is(state, "disconnecting");
    out.push(item("disconnect", String::from_str("Disconnect"), can_disconnect));
    out.push(MenuEntry::Separator);
    out.push(item("quit", String::from_str("Quit"), true));
    out
}

/// What a click on a menu entry asks for.
pub enum MenuAction {
    /// Start the saved connection with this id.
    Connect(String),
    Show,
    Disconnect,
    Quit,
    Nothing,
}

/// What a click on the menu entry with this id asks for.
pub fn menu_action(id: &str) -> (r: MenuAction)
    ensures
        has_prefix(id@, connect_prefix()) ==> (r matches MenuAction::Connect(p) && p@ == id@.skip(
            8,
        )),
        !has_prefix(id@, connect_prefix()) ==> {
            &&& id@ == "show"@ ==> r is Show
            &&& id@ == "disconnect"@ ==> r is Disconnect
            &&& id@ == "quit"@ ==> r is Quit
            &&& (id@ != "show"@ && id@ != "disconnect"@ && id@ != "quit"@) ==> r is Nothing
        },
{
    let v = chars_of(id);
    let prefix = chars_of("connect:");
    proof {
        reveal_strlit("connect:");
        reveal_strlit("show");
        reveal_strlit("disconnect");
        reveal_strlit("quit");
        assert("quit"@[0] != "show"@[0]);
    }
    if starts_with(&v, &prefix) {
        let rest = crate::text::slice_of(&v, 8, v.len());
        assert(rest@ =~= id@.skip(8));
        return MenuAction::Connect(string_of(&rest));
    }
    if state_is(id, "show") {
        MenuAction::Show
    } else if state_is(id, "disconnect") {
        MenuAction::Disconnect
    } else if state_is(id, "quit") {
        MenuAction::Quit
    } else {
        MenuAction::Nothing
    }
}

} // verus!
