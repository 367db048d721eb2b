//! Platform-facing configuration of the native session: the registration
//! parameters, the model of the helper window some platforms demand, and
//! the no-op variant of the event-pump capability.

use vstd::prelude::*;
use vstd::string::*;

verus! {

/// The invisible helper window that one platform's session API demands for
/// registration, reduced to the plain value the bridge reads from it: the
/// numeric window handle. Creating and releasing the real window is
/// platform work outside this library; whoever creates one hands its
/// handle over in this form.
#[derive(Clone, Copy, Debug, PartialEq, Eq, Structural)]
pub struct DummyWindow {
    pub handle: usize,
}

/// The parameters the native session is registered with: the application
/// identifier, the human-readable display name, and the optional window
/// handle for the platform that requires one.
#[derive(Clone, Debug, PartialEq)]
pub struct SessionConfig {
    pub dbus_name: String,
    pub display_name: String,
    pub hwnd: Option<usize>,
}

/// The handle a configuration takes from an optional helper window.
pub open spec fn window_handle(window: Option<&DummyWindow>) -> Option<usize> {
    match window {
        Some(w) => Some(w.handle),
        None => None,
    }
}

/// Build the registration parameters for the native session: the fixed
/// application identifier and display name, and the helper window's handle
/// where the platform provides one.
pub fn session_config(window: Option<&DummyWindow>) -> (c: SessionConfig)
    ensures
        c.dbus_name@ == "spotify_player"@,
        c.display_name@ == "Spotify Player"@,
        c.hwnd == window_handle(window),
{
    let hwnd = match window {
        Some(w) => Some(w.handle),
        None => None,
    };
    SessionConfig {
        dbus_name: String::from_str("spotify_player"),
        display_name: String::from_str("Spotify Player"),
        hwnd,
    }
}

/// The event-pump capability on platforms whose session delivers events on
/// its own thread: nothing needs draining, so a drain does nothing and
/// never observes a termination signal.
#[derive(Clone, Copy, Debug, PartialEq, Eq, Structural)]
pub struct NoopPump;

impl NoopPump {
    /// Drain the platform's message queue: a no-op here, reporting that no
    /// termination signal was observed.
    pub fn drain(&self) -> (quit: bool)
        ensures
            !quit,
    {
        false
    }
}

} // verus!
