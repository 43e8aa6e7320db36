//! Runtime parameters of the gateway: polling interval, print verbosity,
//! and the two UDP ports. The values here are plain data; parsing a command
//! line into them is left to the surrounding program.

use vstd::prelude::*;

verus! {

/// The gateway's runtime parameters.
#[derive(Clone, Copy, Debug, PartialEq, Eq, Structural)]
pub struct Args {
    /// Polling interval in milliseconds: how long one poll of the listen
    /// endpoint may block before control returns to the drain phase.
    pub interval: u64,
    /// Print verbosity: 0 is silent, 1 prints each packet compactly,
    /// 2 or more prints each packet expanded.
    pub print_level: u8,
    /// UDP port that received packets are published to.
    pub publish_port: u16,
    /// UDP port polled for inbound transmit requests.
    pub listen_port: u16,
}

impl Default for Args {
    /// The deployment defaults: 100 ms polling, silent, publish on 31337,
    /// listen on 31338.
    fn default() -> (a: Args)
        ensures
            a.interval == 100,
            a.print_level == 0,
            a.publish_port == 31337,
            a.listen_port == 31338,
    {
        Args { interval: 100, print_level: 0, publish_port: 31337, listen_port: 31338 }
    }
}

} // verus!
