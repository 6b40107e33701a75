use vstd::prelude::*;

use crate::endpoint::Endpoint;

verus! {

/// The local port a game session binds by default.
pub const DEFAULT_PORT: u16 = 4000;

/// The port the public rendezvous server listens on.
pub const MEET_SERVER_PORT: u16 = 5000;

/// Game-logic updates per second.
pub const TICK_RATE_HZ: u32 = 60;

/// What a session and a rendezvous server are set up with, passed to them
/// explicitly rather than read from process-wide constants.
#[derive(Clone, Copy, Debug, PartialEq, Eq, Structural)]
pub struct Settings {
    /// The local port a Transport binds.
    pub local_port: u16,
    /// Where the rendezvous server listens.
    pub rendezvous: Endpoint,
    /// Game-logic updates per second.
    pub tick_rate_hz: u32,
}

/// The public rendezvous server, 176.246.73.156 on its well-known port.
pub open spec fn public_server() -> Endpoint {
    Endpoint { a: 176, b: 246, c: 73, d: 156, port: MEET_SERVER_PORT }
}

impl Settings {
    pub fn new(local_port: u16, rendezvous: Endpoint, tick_rate_hz: u32) -> (r: Settings)
        ensures
            r == (Settings { local_port, rendezvous, tick_rate_hz }),
    {
        Settings { local_port, rendezvous, tick_rate_hz }
    }
}

impl Default for Settings {
    /// The default port, the public rendezvous server and the standard tick rate.
    fn default() -> (r: Settings)
        ensures
            r == (Settings { local_port: DEFAULT_PORT, rendezvous: public_server(), tick_rate_hz: TICK_RATE_HZ }),
    {
        Settings {
            local_port: DEFAULT_PORT,
            rendezvous: Endpoint::new(176, 246, 73, 156, MEET_SERVER_PORT),
            tick_rate_hz: TICK_RATE_HZ,
        }
    }
}

} // verus!
