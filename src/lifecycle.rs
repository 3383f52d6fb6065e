use vstd::prelude::*;
use vstd::string::*;

verus! {

/// The local port the server binds.
pub const SERVER_PORT: u16 = 5000;

/// Where the user opens the application once the server runs.
pub const SERVER_URL: &'static str = "http://127.0.0.1:5000";

pub const STATUS_IDLE: &'static str = "Idle";

pub const STATUS_RUNNING: &'static str = "Open http://127.0.0.1:5000 in your web browser";

pub const STATUS_STOPPED: &'static str = "Server stopped";

/// Whether the server runs, and the line of status shown to the user. The owner
/// of the server holds one and moves it along as the server starts and stops.
pub struct AppState {
    running: bool,
    status: String,
}

impl AppState {
    pub closed spec fn spec_running(&self) -> bool {
        self.running
    }

    pub closed spec fn spec_status(&self) -> Seq<char> {
        self.status@
    }

    /// A server that has not been started.
    pub fn new() -> (r: AppState)
        ensures
            !r.spec_running(),
            r.spec_status() == STATUS_IDLE@,
    {
        AppState { running: false, status: STATUS_IDLE.to_owned() }
    }

    /// Whether a start should be attempted: only while no server runs.
    pub fn may_start(&self) -> (r: bool)
        ensures
            r == !self.spec_running(),
    {
        !self.running
    }

    /// The server has bound its port and serves.
    pub fn started(&mut self)
        ensures
            final(self).spec_running(),
            final(self).spec_status() == STATUS_RUNNING@,
    {
        self.running = true;
        self.status = STATUS_RUNNING.to_owned();
    }

    /// The server has shut down, or was never running.
    pub fn stopped(&mut self)
        ensures
            !final(self).spec_running(),
            final(self).spec_status() == STATUS_STOPPED@,
    {
        self.running = false;
        self.status = STATUS_STOPPED.to_owned();
    }

    /// The status line shown to the user.
    pub fn get_status(&self) -> (r: String)
        ensures
            r@ == self.spec_status(),
    {
        self.status.clone()
    }

    pub fn is_running(&self) -> (r: bool)
        ensures
            r == self.spec_running(),
    {
        self.running
    }
}

} // verus!
