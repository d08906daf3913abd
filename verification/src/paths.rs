//! Where the files live, given the base directories that the platform
//! reports: the configuration, the database, the daemon socket, the
//! autostart entry and its Flatpak marker.
//!
//! Config:  `<config dir>/config.toml`
//! Data:    `<data dir>/db.sqlite`
//! Runtime: `<runtime base>/fodder/daemon.sock` (single-instance + IPC)
//! Autostart: `<config root>/autostart/fodder.desktop`

use vstd::prelude::*;

use crate::text::push_str;

verus! {

/// `name` appended to `base` as a path component: `base/name`, without a
/// doubled separator, and just `name` when `base` is empty.
pub open spec fn join_path(base: Seq<char>, name: Seq<char>) -> Seq<char> {
    if base.len() == 0 {
        name
    } else if base.last() == '/' {
        base + name
    } else {
        base + seq!['/'] + name
    }
}

/// `name` appended to `base` as a path component (see [`join_path`]).
pub fn join(base: &str, name: &str) -> (p: String)
    ensures
        p@ == join_path(base@, name@),
{
    let n = base.unicode_len();
    let mut p = String::from_str(base);
    if n > 0 && base.get_char(n - 1) != '/' {
        crate::text::push_char(&mut p, '/');
    }
    push_str(&mut p, name);
    proof {
        if n == 0 {
            assert(p@ =~= name@);
        }
    }
    p
}

/// `<config dir>/config.toml`.
pub fn config_path(config_dir: &str) -> (p: String)
    ensures
        p@ == join_path(config_dir@, "config.toml"@),
{
    join(config_dir, "config.toml")
}

/// `<data dir>/db.sqlite`.
pub fn db_path(data_dir: &str) -> (p: String)
    ensures
        p@ == join_path(data_dir@, "db.sqlite"@),
{
    join(data_dir, "db.sqlite")
}

/// `<runtime base>/fodder`, the daemon's runtime directory.
pub fn runtime_dir(runtime_base: &str) -> (p: String)
    ensures
        p@ == join_path(runtime_base@, "fodder"@),
{
    join(runtime_base, "fodder")
}

/// `<runtime dir>/daemon.sock`: the single-instance guard and daemon/viewer
/// IPC endpoint.
pub fn daemon_socket_path(runtime_dir: &str) -> (p: String)
    ensures
        p@ == join_path(runtime_dir@, "daemon.sock"@),
{
    join(runtime_dir, "daemon.sock")
}

/// `<config root>/autostart/fodder.desktop`, where `config root` is the
/// parent of the application's config directory.
pub fn autostart_desktop_path(config_root: &str) -> (p: String)
    ensures
        p@ == join_path(join_path(config_root@, "autostart"@), "fodder.desktop"@),
{
    let dir = join(config_root, "autostart");
    join(dir.as_str(), "fodder.desktop")
}

/// Path to the Flatpak autostart-intent marker (a zero-byte file under the
/// config dir). The Background portal has no getter, so the daemon touches
/// this on a granted request and removes it on disable; the viewer reads it to
/// seed the settings toggle.
pub fn flatpak_marker_path(config_dir: &str) -> (p: String)
    ensures
        p@ == join_path(config_dir@, "autostart-requested"@),
{
    join(config_dir, "autostart-requested")
}

/// Path to the autostart entry.
pub fn desktop_path(config_root: &str) -> (p: String)
    ensures
        p@ == join_path(join_path(config_root@, "autostart"@), "fodder.desktop"@),
{
    autostart_desktop_path(config_root)
}

/// The data directory of the D-Bus daemon generation: `$FODDER_DATA_DIR`
/// when set (for tests and daemons under test), else `<data home>/fodder`,
/// else `./fodder`.
pub open spec fn spec_daemon_data_dir(override_dir: Option<Seq<char>>, data_home: Option<Seq<char>>) -> Seq<char> {
    match override_dir {
        Some(d) => d,
        None => join_path(
            match data_home {
                Some(h) => h,
                None => "."@,
            },
            "fodder"@,
        ),
    }
}

/// The daemon's data directory (see [`spec_daemon_data_dir`]).
pub fn daemon_data_dir(override_dir: Option<&str>, data_home: Option<&str>) -> (p: String)
    ensures
        p@ == spec_daemon_data_dir(crate::settings::opt_str_view(override_dir), crate::settings::opt_str_view(data_home)),
{
    match override_dir {
        Some(d) => String::from_str(d),
        None => match data_home {
            Some(h) => join(h, "fodder"),
            None => join(".", "fodder"),
        },
    }
}

/// The daemon's database: `<data dir>/fodder.db`.
pub fn daemon_db_path(data_dir: &str) -> (p: String)
    ensures
        p@ == join_path(data_dir@, "fodder.db"@),
{
    join(data_dir, "fodder.db")
}

/// Where the viewer caches article images: `<cache home>/fodder/images`.
pub fn image_cache_dir(cache_home: &str) -> (p: String)
    ensures
        p@ == join_path(join_path(cache_home@, "fodder"@), "images"@),
{
    let dir = join(cache_home, "fodder");
    join(dir.as_str(), "images")
}

/// The daemon's XDG autostart entry:
/// `<config home>/autostart/io.github.dipakmdhrm.Fodder.Daemon.desktop`.
pub fn daemon_autostart_path(config_home: &str) -> (p: String)
    ensures
        p@ == join_path(join_path(config_home@, "autostart"@), "io.github.dipakmdhrm.Fodder.Daemon.desktop"@),
{
    let dir = join(config_home, "autostart");
    join(dir.as_str(), "io.github.dipakmdhrm.Fodder.Daemon.desktop")
}

/// The daemon's XDG autostart entry contents.
pub const DAEMON_AUTOSTART_DESKTOP: &'static str = "[Desktop Entry]\nType=Application\nName=Fodder Feed Poller\nComment=Background feed poller for Fodder\nExec=fodder-daemon\nIcon=io.github.dipakmdhrm.Fodder\nNoDisplay=true\nX-GNOME-Autostart-enabled=true\n";

} // verus!
