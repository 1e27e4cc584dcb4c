use vstd::prelude::*;

verus! {

/// Fixed endpoints, headers and intervals of the service.
pub struct Constants;

impl Constants {
    pub const WEBSOCKET_URI: &'static str = "wss://ws-api.oneme.ru/websocket";

    pub const MOBILE_HOST: &'static str = "api.oneme.ru";

    pub const MOBILE_PORT: u16 = 443;

    pub const ORIGIN_HEADER: &'static str = "https://web.max.ru";

    /// How long a request waits for its response, in milliseconds.
    pub const DEFAULT_TIMEOUT: u64 = 10000;

    /// The time between two keepalive pings, in seconds.
    pub const PING_INTERVAL: u64 = 30;

    pub const USER_AGENT: &'static str =
        "Mozilla/5.0 (X11; Linux x86_64; rv:142.0) Gecko/20100101 Firefox/142.0";

    /// The browser that the handshake names in web mode.
    pub const HANDSHAKE_USER_AGENT: &'static str =
        "Mozilla/5.0 (X11; Linux x86_64) AppleWebKit/537.36 (KHTML, like Gecko) Chrome/141.0.0.0 Safari/537.36";

    /// How many unsolicited frames the event channel keeps for a subscriber.
    pub const EVENT_CAPACITY: usize = 20;

    /// The largest size that a compressed payload may unpack to, unless the
    /// caller chooses another: 5 MiB.
    pub const MAX_DECOMPRESSED: usize = 5242880;
}

} // verus!
