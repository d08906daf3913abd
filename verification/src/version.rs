//! Application identity and the `--version` blurb shared by both binaries.

use vstd::prelude::*;

use crate::text::push_str;

verus! {

/// The application ID: GApplication id, D-Bus/SNI name, and the basename of the
/// installed `.desktop` file and icon.
pub const APP_ID: &'static str = "io.github.dipakmdhrm.Fodder";

/// Human-facing application name.
pub const APP_NAME: &'static str = "Fodder";

/// One-line description of what Fodder is.
pub const APP_DESCRIPTION: &'static str = "A lightweight RSS/Atom/JSON-Feed reader for Linux desktops.";

/// The release version the daemon and viewer report.
pub const VERSION: &'static str = "0.4.0";

/// Project homepage / source repository.
pub const REPOSITORY: &'static str = "https://github.com/dipakmdhrm/fodder";

/// SPDX license identifier.
pub const LICENSE: &'static str = "MIT";

/// The text of [`version_blurb`] for the binary name `bin`.
pub open spec fn spec_version_blurb(bin: Seq<char>) -> Seq<char> {
    bin + " "@ + VERSION@ + "\n"@ + APP_NAME@ + " — "@ + APP_DESCRIPTION@ + "\nHomepage: "@ + REPOSITORY@
        + "\nLicense:  "@ + LICENSE@
}

/// A multi-line version/about blurb shared by the `fodder`/`fodderd` `--version`
/// output. `bin` is the invoked binary name (e.g. `"fodderd"`), so the first
/// line reads like conventional CLI `--version` output.
pub fn version_blurb(bin: &str) -> (s: String)
    ensures
        s@ == spec_version_blurb(bin@),
{
    let mut s = String::new();
    push_str(&mut s, bin);
    push_str(&mut s, " ");
    push_str(&mut s, VERSION);
    push_str(&mut s, "\n");
    push_str(&mut s, APP_NAME);
    push_str(&mut s, " — ");
    push_str(&mut s, APP_DESCRIPTION);
    push_str(&mut s, "\nHomepage: ");
    push_str(&mut s, REPOSITORY);
    push_str(&mut s, "\nLicense:  ");
    push_str(&mut s, LICENSE);
    assert(s@ =~= spec_version_blurb(bin@));
    s
}

} // verus!
