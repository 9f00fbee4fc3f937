//! Launch parameters: what the sidecar is started with, what the window is
//! pointed at, and how the development-mode switches are read.
//!
//! The embedding program reads environment variables and performs the spawn
//! and the window creation; everything it passes along — the sidecar's
//! environment, the window URL, the configured development port — is
//! computed here.

use crate::decimal::{decimal_chars, parse_port, parsed_port, port_decimal};
use vstd::prelude::*;

verus! {

/// The preferred port doubles as the development-mode default.
pub const DEFAULT_DEV_PORT: u16 = 4000;

/// The in-window URL for a sidecar listening on `port`.
pub open spec fn window_url_chars(port: int) -> Seq<char> {
    "http://localhost:"@ + decimal_chars(port)
}

/// Builds the URL the window is pointed at.
pub fn window_url(port: u16) -> (s: String)
    ensures
        s@ == window_url_chars(port as int),
{
    let mut s = "http://localhost:".to_owned();
    s.append(port_decimal(port).as_str());
    s
}

/// Everything the window layer needs to create the main window.
pub struct WindowConfig {
    /// Window title.
    pub title: String,
    /// The URL the window is pointed at.
    pub url: String,
    /// Inner width in logical pixels.
    pub width: u32,
    /// Inner height in logical pixels.
    pub height: u32,
    /// Whether the window can be resized.
    pub resizable: bool,
}

/// The main window's configuration for a sidecar (or development server)
/// on `port`.
pub fn window_config(port: u16, dev: bool) -> (c: WindowConfig)
    ensures
        c.title@ == (if dev {
            "Liteskill (dev)"@
        } else {
            "Liteskill"@
        }),
        c.url@ == window_url_chars(port as int),
        c.width == 1280,
        c.height == 900,
        c.resizable,
{
    let title = if dev {
        "Liteskill (dev)".to_owned()
    } else {
        "Liteskill".to_owned()
    };
    WindowConfig { title, url: window_url(port), width: 1280, height: 900, resizable: true }
}

/// Everything needed to spawn the sidecar: the bundled executable's name and
/// the environment that signals desktop embedding and carries the port.
pub struct SpawnCommand {
    /// Name of the bundled sidecar executable.
    pub program: String,
    /// Environment variables set for the sidecar, name and value.
    pub env: Vec<(String, String)>,
}

/// Builds the sidecar invocation for the negotiated `port`: the `desktop`
/// executable, told that it is embedded in the desktop shell and which port
/// to listen on.
pub fn spawn_command(port: u16) -> (c: SpawnCommand)
    ensures
        c.program@ == "desktop"@,
        c.env@.len() == 2,
        c.env@[0].0@ == "LITESKILL_DESKTOP"@,
        c.env@[0].1@ == "true"@,
        c.env@[1].0@ == "PORT"@,
        c.env@[1].1@ == decimal_chars(port as int),
{
    let mut env: Vec<(String, String)> = Vec::new();
    env.push(("LITESKILL_DESKTOP".to_owned(), "true".to_owned()));
    env.push(("PORT".to_owned(), port_decimal(port)));
    SpawnCommand { program: "desktop".to_owned(), env }
}

/// Whether the development-mode switch is on: exactly when the variable is
/// present with the value `true`.
pub fn is_dev_mode(switch: Option<&str>) -> (dev: bool)
    ensures
        dev == (switch matches Some(s) && s@ == "true"@),
{
    match switch {
        Some(s) => {
            let lhs: String = s.to_owned();
            let rhs: String = "true".to_owned();
            lhs == rhs
        },
        None => false,
    }
}

/// The development server's port: the override variable when it parses as a
/// port, the default otherwise.
pub fn dev_port(override_var: Option<&str>) -> (port: u16)
    ensures
        port == (match override_var {
            Some(s) => (match parsed_port(s@) {
                Some(p) => p,
                None => DEFAULT_DEV_PORT,
            }),
            None => DEFAULT_DEV_PORT,
        }),
{
    match override_var {
        Some(s) => {
            match parse_port(s) {
                Some(p) => p,
                None => DEFAULT_DEV_PORT,
            }
        },
        None => DEFAULT_DEV_PORT,
    }
}

} // verus!
