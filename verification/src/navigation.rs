//! Navigation filtering: only the local sidecar may be loaded in-window.
//!
//! The window layer intercepts every navigation and hands the target's host
//! over; anything that is not the loopback host is vetoed in-window and
//! opened in the system's default external browser instead, so the embedded
//! webview is never hijacked.

use vstd::prelude::*;

verus! {

/// Whether a navigation target's host is the local machine, the only place
/// the sidecar (or development server) lives.
pub open spec fn is_local_host(host: Option<Seq<char>>) -> bool {
    host matches Some(h) && (h == "localhost"@ || h == "127.0.0.1"@)
}

/// What to do with an intercepted navigation.
#[derive(Clone, Copy, PartialEq, Eq, Structural, Debug)]
pub enum NavDecision {
    /// Load the target in the window.
    AllowInWindow,
    /// Veto the in-window load and open the target in the system browser.
    OpenExternally,
}

/// Decides an intercepted navigation from the target URL's host (`None` for
/// a URL without one): in-window exactly for the loopback hosts, the system
/// browser for everything else.
pub fn navigation_decision(host: Option<&str>) -> (d: NavDecision)
    ensures
        d == NavDecision::AllowInWindow <==> is_local_host(
            match host {
                Some(h) => Some(h@),
                None => None,
            },
        ),
{
    match host {
        Some(h) => {
            let name: String = h.to_owned();
            if name == "localhost".to_owned() || name == "127.0.0.1".to_owned() {
                NavDecision::AllowInWindow
            } else {
                NavDecision::OpenExternally
            }
        },
        None => NavDecision::OpenExternally,
    }
}

} // verus!
