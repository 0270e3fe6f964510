use vstd::prelude::*;
use vstd::string::StringExecFns;

verus! {

/// Timeout, in milliseconds, for a fetch issued on behalf of a user command.
pub const QUERY_TIMEOUT_MS: u64 = 2500;

/// Timeout, in milliseconds, for a fetch issued by the background presence loop.
pub const PRESENCE_TIMEOUT_MS: u64 = 10000;

/// Pause, in milliseconds, between two cycles of the background presence loop.
pub const PRESENCE_INTERVAL_MS: u64 = 30000;

/// The address of the game server whose status is reported. It is validated
/// once at startup and read-only afterwards, so the foreground and background
/// paths can share it freely.
pub struct ServerEndpoint {
    address: String,
}

impl View for ServerEndpoint {
    type V = Seq<char>;

    closed spec fn view(&self) -> Seq<char> {
        self.address@
    }
}

impl ServerEndpoint {
    /// A usable endpoint holds a non-empty address.
    pub open spec fn wf(&self) -> bool {
        self@.len() > 0
    }

    /// Validates an address once, at startup: an empty address is rejected,
    /// anything else is accepted as given.
    pub fn new(address: String) -> (r: Option<ServerEndpoint>)
        ensures
            r is Some <==> address@.len() > 0,
            r matches Some(e) ==> e@ == address@ && e.wf(),
    {
        if address.as_str().is_empty() {
            None
        } else {
            Some(ServerEndpoint { address })
        }
    }

    /// The address exactly as it was validated.
    pub fn address(&self) -> (r: &str)
        ensures
            r@ == self@,
    {
        self.address.as_str()
    }
}

/// Shared context handed to every command invocation: only the read-only
/// endpoint configuration, loaded once at startup.
pub struct Data {
    endpoint: ServerEndpoint,
}

impl View for Data {
    type V = Seq<char>;

    closed spec fn view(&self) -> Seq<char> {
        self.endpoint@
    }
}

impl Data {
    pub open spec fn wf(&self) -> bool {
        self@.len() > 0
    }

    pub fn new(endpoint: ServerEndpoint) -> (d: Data)
        ensures
            d@ == endpoint@,
            endpoint.wf() ==> d.wf(),
    {
        Data { endpoint }
    }

    pub fn endpoint(&self) -> (r: &ServerEndpoint)
        ensures
            r@ == self@,
    {
        &self.endpoint
    }
}

} // verus!
