//! Desktop-environment classification and the bus addressing constants
//! of each supported compositor configuration service.

use vstd::prelude::*;

use crate::errors::Error;
use crate::strutil::{lower_of, str_equal, to_lowercase};

verus! {

/// Bus addressing of one desktop's display configuration service.
#[derive(Debug)]
pub struct DbusConfig {
    pub service: &'static str,
    pub path: &'static str,
    pub interface: &'static str,
    pub method: &'static str,
}

/// The desktop environments the tool can target, plus a catch-all
/// carrying the (lowercased) session name that was not recognized.
#[derive(Debug, PartialEq, Eq)]
pub enum DesktopEnvironment {
    Gnome,
    Cinnamon,
    Unknown(String),
}

impl DesktopEnvironment {
    /// Classifies a session from plain environment values: the session
    /// desktop name, compared case-insensitively, and whether the
    /// legacy session-id marker is present as a fallback.
    pub fn detect_from(xdg_session_desktop: &str, gnome_session_id_set: bool) -> (r: Self)
        ensures
            ({
                let l = lower_of(xdg_session_desktop@);
                if l == "gnome"@ || l == "ubuntu:gnome"@ {
                    r == DesktopEnvironment::Gnome
                } else if l == "x-cinnamon"@ {
                    r == DesktopEnvironment::Cinnamon
                } else if gnome_session_id_set {
                    r == DesktopEnvironment::Gnome
                } else {
                    r matches DesktopEnvironment::Unknown(s) && s@ == l
                }
            }),
    {
        let lowered = to_lowercase(xdg_session_desktop);
        if str_equal(lowered.as_str(), "gnome") || str_equal(lowered.as_str(), "ubuntu:gnome") {
            DesktopEnvironment::Gnome
        } else if str_equal(lowered.as_str(), "x-cinnamon") {
            DesktopEnvironment::Cinnamon
        } else if gnome_session_id_set {
            DesktopEnvironment::Gnome
        } else {
            DesktopEnvironment::Unknown(lowered)
        }
    }

    /// The bus addressing of this desktop's configuration service;
    /// an unrecognized desktop has none.
    pub fn dbus_config(&self) -> (r: Result<DbusConfig, Error>)
        ensures
            match self {
                DesktopEnvironment::Gnome => r matches Ok(c) && c.service@
                    == "org.gnome.Mutter.DisplayConfig"@ && c.path@
                    == "/org/gnome/Mutter/DisplayConfig"@ && c.interface@
                    == "org.gnome.Mutter.DisplayConfig"@ && c.method@ == "ApplyMonitorsConfig"@,
                DesktopEnvironment::Cinnamon => r matches Ok(c) && c.service@
                    == "org.cinnamon.Muffin.DisplayConfig"@ && c.path@
                    == "/org/cinnamon/Muffin.DisplayConfig"@ && c.interface@
                    == "org.cinnamon.Muffin.DisplayConfig"@ && c.method@
                    == "ApplyMonitorsConfig"@,
                DesktopEnvironment::Unknown(d) => r matches Err(e) && (e matches
                Error::UnsupportedDesktop(s) && s@ == d@),
            },
    {
        match self {
            DesktopEnvironment::Gnome => Ok(
                DbusConfig {
                    service: "org.gnome.Mutter.DisplayConfig",
                    path: "/org/gnome/Mutter/DisplayConfig",
                    interface: "org.gnome.Mutter.DisplayConfig",
                    method: "ApplyMonitorsConfig",
                },
            ),
            DesktopEnvironment::Cinnamon => Ok(
                DbusConfig {
                    service: "org.cinnamon.Muffin.DisplayConfig",
                    path: "/org/cinnamon/Muffin.DisplayConfig",
                    interface: "org.cinnamon.Muffin.DisplayConfig",
                    method: "ApplyMonitorsConfig",
                },
            ),
            DesktopEnvironment::Unknown(desktop) => Err(
                Error::UnsupportedDesktop(desktop.clone()),
            ),
        }
    }
}

} // verus!
