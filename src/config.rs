//! The server's settings.

use vstd::prelude::*;
use vstd::string::*;

verus! {

/// The port the server listens on unless told otherwise.
pub const DEFAULT_PORT: u16 = 23234;

/// How many events a subscriber may fall behind unless told otherwise.
pub const DEFAULT_QUEUE_CAPACITY: usize = 16;

/// Where the server listens and how deep each subscriber's queue is.
#[derive(Clone, Debug, PartialEq, Eq)]
pub struct Config {
    /// The interface to bind.
    pub host: String,
    /// The listening port.
    pub port: u16,
    /// The per-subscriber buffer size.
    pub queue_capacity: usize,
}

/// The interface that stands for all interfaces.
pub open spec fn all_interfaces() -> Seq<char> {
    seq!['0', '.', '0', '.', '0', '.', '0']
}

impl Default for Config {
    /// All interfaces, the default port and the default queue capacity.
    fn default() -> (r: Config)
        ensures
            r.host@ == all_interfaces(),
            r.port == DEFAULT_PORT,
            r.queue_capacity == DEFAULT_QUEUE_CAPACITY,
    {
        let host = String::from_str("0.0.0.0");
        proof {
            reveal_strlit("0.0.0.0");
            assert(host@ =~= all_interfaces());
        }
        Config { host, port: DEFAULT_PORT, queue_capacity: DEFAULT_QUEUE_CAPACITY }
    }
}

} // verus!
