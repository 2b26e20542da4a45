//! Constants of the client.

use vstd::prelude::*;

verus! {

/// Milliseconds between two registrations with the rendezvous server.
pub const REG_INTERVAL: u64 = 15_000;

/// Milliseconds that a TCP connection may take.
pub const CONNECT_TIMEOUT: u64 = 18_000;

/// The port of a rendezvous server.
pub const RENDEZVOUS_PORT: i32 = 21116;

/// The port of a relay server.
pub const RELAY_PORT: i32 = 21117;

/// The rendezvous server of last resort.
pub const FALLBACK_RENDEZVOUS_SERVER: &'static str = "rs-ny.rustdesk.com";

/// The registry key that holds the settings.
pub const REGISTRY_PATH: &'static str = "SOFTWARE\\RustDeskSOS";

/// The name of the application.
pub const APP_NAME: &'static str = "RustDesk SOS";

/// The pipe that carries input events to the SYSTEM process.
pub const INPUT_PIPE: &'static str = "\\\\.\\pipe\\sos_input";

/// Input pipe: a mouse event.
pub const MSG_MOUSE: u32 = 1;

/// Input pipe: a key event.
pub const MSG_KEY: u32 = 2;

/// Input pipe: the end of the service.
pub const MSG_SHUTDOWN: u32 = 3;

/// Set when the first frame has been captured.
pub const CAPTURE_READY_EVENT: &'static str = "SosCaptureReady";

/// Set to start the capture.
pub const CAPTURE_START_EVENT: &'static str = "SosCaptureStart";

/// Set to stop the capture.
pub const CAPTURE_STOP_EVENT: &'static str = "SosCaptureStop";

/// The rendezvous server to use when none was asked for: the first of the
/// known servers, or the one of last resort.
pub fn default_rendezvous_server(known: &Vec<String>) -> (r: String)
    ensures
        known@.len() > 0 ==> r@ == known@[0]@,
        known@.len() == 0 ==> r@ == FALLBACK_RENDEZVOUS_SERVER@,
{
    if known.len() > 0 {
        known[0].clone()
    } else {
        String::from_str(FALLBACK_RENDEZVOUS_SERVER)
    }
}

} // verus!
