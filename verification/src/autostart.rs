//! Autostart decisions: the command the Background portal registers, and the
//! contents of the native autostart `.desktop` entry.

use vstd::prelude::*;

use crate::text::push_str;

verus! {

/// The command inside the Flatpak the Background portal should register as the login
/// autostart entry: start the daemon **headless** (tray + polling, no viewer),
/// mirroring the native `Exec=fodderd` entry.
pub fn portal_autostart_command() -> (cmd: Vec<String>)
    ensures
        cmd@.len() == 1,
        cmd@[0]@ == "fodderd"@,
{
    let mut cmd = Vec::new();
    cmd.push(String::from_str("fodderd"));
    cmd
}

/// The text of the native autostart entry that launches `exec`.
pub open spec fn spec_desktop_entry(exec: Seq<char>) -> Seq<char> {
    "[Desktop Entry]\nType=Application\nName=Fodder Reader\nComment=RSS/Atom/JSON feed reader daemon\nExec="@
        + exec + "\nIcon=io.github.dipakmdhrm.Fodder\nTerminal=false\nCategories=Network;News;\nX-GNOME-Autostart-enabled=true\n"@
}

/// The native autostart `.desktop` entry launching the daemon command `exec`.
pub fn desktop_entry(exec: &str) -> (s: String)
    ensures
        s@ == spec_desktop_entry(exec@),
{
    let mut s = String::new();
    push_str(
        &mut s,
        "[Desktop Entry]\nType=Application\nName=Fodder Reader\nComment=RSS/Atom/JSON feed reader daemon\nExec=",
    );
    push_str(&mut s, exec);
    push_str(
        &mut s,
        "\nIcon=io.github.dipakmdhrm.Fodder\nTerminal=false\nCategories=Network;News;\nX-GNOME-Autostart-enabled=true\n",
    );
    assert(s@ =~= spec_desktop_entry(exec@));
    s
}

/// Whether autostart is currently enabled: the marker under Flatpak, else the
/// presence of the native autostart `.desktop` file.
pub fn is_enabled(in_flatpak: bool, marker_present: bool, entry_present: bool) -> (b: bool)
    ensures
        b == if in_flatpak { marker_present } else { entry_present },
{
    if in_flatpak {
        return marker_present;
    }
    entry_present
}

/// The change to the native autostart entry.
#[derive(Debug)]
pub enum AutostartChange {
    /// Write the entry with these contents.
    Write(String),
    /// Remove the entry, if present.
    Remove,
}

/// Enable or disable to match `enabled`: enabling writes the entry launching
/// `exec`, disabling removes it.
pub fn set_enabled(enabled: bool, exec: &str) -> (c: AutostartChange)
    ensures
        enabled ==> (c matches AutostartChange::Write(s) && s@ == spec_desktop_entry(exec@)),
        !enabled ==> c is Remove,
{
    if enabled {
        AutostartChange::Write(desktop_entry(exec))
    } else {
        AutostartChange::Remove
    }
}

/// The token naming our Background-portal request.
pub const PORTAL_TOKEN: &'static str = "fodder_autostart";

/// Why we ask the portal to run in the background.
pub const PORTAL_REASON: &'static str = "Poll feeds and show notifications in the background";

/// The sender part of a portal request path: the bus unique name without
/// its leading colons, dots turned into underscores.
pub open spec fn portal_sender(unique_name: Seq<char>) -> Seq<char> {
    crate::text::strip_start(unique_name, ':').map_values(|c: char| if c == '.' { '_' } else { c })
}

/// The object path on which the portal answers our request, known before
/// the request is made so that the answer cannot be missed.
pub open spec fn spec_portal_request_path(unique_name: Seq<char>) -> Seq<char> {
    "/org/freedesktop/portal/desktop/request/"@ + portal_sender(unique_name) + "/"@ + PORTAL_TOKEN@
}

/// The object path on which the portal answers our request (see
/// [`spec_portal_request_path`]).
pub fn portal_request_path(unique_name: &str) -> (p: String)
    ensures
        p@ == spec_portal_request_path(unique_name@),
{
    let trimmed = crate::text::trim_char_start(unique_name, ':');
    let n = trimmed.as_str().unicode_len();
    let mut sender = String::new();
    let mut i: usize = 0;
    while i < n
        invariant
            n == trimmed@.len(),
            i <= n,
            sender@ == trimmed@.take(i as int).map_values(|c: char| if c == '.' { '_' } else { c }),
        decreases n - i,
    {
        let c = trimmed.as_str().get_char(i);
        crate::text::push_char(&mut sender, if c == '.' { '_' } else { c });
        i = i + 1;
        assert(sender@ =~= trimmed@.take(i as int).map_values(|c: char| if c == '.' { '_' } else { c }));
    }
    assert(trimmed@.take(n as int) =~= trimmed@);
    let mut p = String::new();
    push_str(&mut p, "/org/freedesktop/portal/desktop/request/");
    push_str(&mut p, sender.as_str());
    push_str(&mut p, "/");
    push_str(&mut p, PORTAL_TOKEN);
    assert(p@ =~= spec_portal_request_path(unique_name@));
    p
}

/// Whether the portal granted what we asked: it answered with success, and
/// when enabling, it reports autostart as granted (or says nothing of it).
pub fn portal_granted(enabled: bool, response: u32, autostart_result: Option<bool>) -> (b: bool)
    ensures
        b == (response == 0 && (!enabled || match autostart_result {
            Some(g) => g,
            None => enabled,
        })),
{
    let granted = match autostart_result {
        Some(g) => g,
        None => enabled,
    };
    response == 0 && (!enabled || granted)
}

} // verus!
