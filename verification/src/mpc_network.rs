//! Settings of the MPC network layer and the messages of a client's actor.

use vstd::prelude::*;
use crate::types::Duration;

verus! {

/// Timeouts and retries of the MPC network layer.
#[derive(Clone, Copy, Debug)]
pub struct MPCNetworkConfig {
    /// How long one MPC operation may take.
    pub mpc_timeout: Duration,
    /// How often a connection is tried again.
    pub max_connection_retries: u32,
    /// The pause between two connection attempts.
    pub connection_retry_delay: Duration,
}

impl Default for MPCNetworkConfig {
    /// A 5 second MPC timeout, 5 retries, 100 ms between attempts.
    fn default() -> (c: Self)
        ensures
            c.mpc_timeout == Duration::from_secs_spec(5),
            c.max_connection_retries == 5,
            c.connection_retry_delay == Duration::from_millis_spec(100),
    {
        MPCNetworkConfig {
            mpc_timeout: Duration::from_secs(5),
            max_connection_retries: 5,
            connection_retry_delay: Duration::from_millis(100),
        }
    }
}

/// Messages to a client's actor.
#[derive(Clone, Debug)]
pub enum ClientActorMessage {
    /// Data received from the network, to process.
    ProcessData(Vec<u8>),
    /// Stop the actor.
    Shutdown,
}

} // verus!
