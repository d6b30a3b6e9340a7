//! Settings of one party of an MPC network: where it listens, how it finds
//! the others, and the MPC parameters, with their validation.
//!
//! The syntax of the two socket addresses is checked by whoever parses them;
//! the checks here are those on the numbers, which come first.

use vstd::prelude::*;
use crate::error::{Error, ErrorView, rview};
use crate::text::{concat_str, decimal, owned, usize_to_decimal};
use crate::types::SocketAddress;

verus! {

/// Network part of the settings.
#[derive(Clone, Debug)]
pub struct NetworkSettings {
    /// This party's id, below the number of parties.
    pub party_id: usize,
    /// Address to listen on, as text.
    pub bind_address: String,
    /// Address of the bootstrap node, as text.
    pub bootstrap_address: String,
    /// Parties needed before starting; 3 by default.
    pub min_parties: usize,
}

/// MPC part of the settings.
#[derive(Clone, Debug)]
pub struct MPCSettings {
    /// Number of parties.
    pub n_parties: usize,
    /// Threshold; 1 by default.
    pub threshold: usize,
    /// Instance id, if fixed.
    pub instance_id: Option<u64>,
}

/// The default number of parties needed before starting.
pub fn default_min_parties() -> (n: usize)
    ensures
        n == 3,
{
    3
}

/// The default threshold.
pub fn default_threshold() -> (t: usize)
    ensures
        t == 1,
{
    1
}

/// The settings of one party.
#[derive(Clone, Debug)]
pub struct NetworkConfig {
    pub network: NetworkSettings,
    pub mpc: MPCSettings,
}

/// The message for too few parties for the threshold.
pub open spec fn too_few_for_threshold_text(n: usize, t: usize) -> Seq<char> {
    "Invalid MPC parameters: n_parties="@ + decimal(n as nat) + " must be >= 4*threshold+1="@
        + decimal((4 * t + 1) as nat) + " for threshold="@ + decimal(t as nat)
        + " (HoneyBadger TripleGen constraint)"@
}

/// The message for a party id out of range.
pub open spec fn bad_party_id_text(id: usize, n: usize) -> Seq<char> {
    "Invalid party_id="@ + decimal(id as nat) + ": must be < n_parties="@ + decimal(n as nat)
}

/// What checking the numbers gives: `n_parties >= 4t + 1` (as triple
/// generation needs), then `party_id < n_parties`.
pub open spec fn parameters_result(party_id: usize, n: usize, t: usize) -> Result<(), ErrorView> {
    if n < 4 * t + 1 {
        Err(ErrorView::InvalidInput(too_few_for_threshold_text(n, t)))
    } else if party_id >= n {
        Err(ErrorView::InvalidInput(bad_party_id_text(party_id, n)))
    } else {
        Ok(())
    }
}

impl NetworkConfig {
    /// Settings of these two parts.
    pub fn new(network: NetworkSettings, mpc: MPCSettings) -> (c: Self)
        ensures
            c.network == network,
            c.mpc == mpc,
    {
        NetworkConfig { network, mpc }
    }

    /// Checks the numbers (see [`parameters_result`]).
    pub fn validate_parameters(&self) -> (r: Result<(), Error>)
        requires
            4 * self.mpc.threshold + 1 <= usize::MAX,
        ensures
            rview(r) == parameters_result(self.network.party_id, self.mpc.n_parties, self.mpc.threshold),
    {
        let n = self.mpc.n_parties;
        let t = self.mpc.threshold;
        let id = self.network.party_id;
        if n < 4 * t + 1 {
            let m = concat_str(owned("Invalid MPC parameters: n_parties="), usize_to_decimal(n).as_str());
            let m = concat_str(concat_str(m, " must be >= 4*threshold+1="), usize_to_decimal(4 * t + 1).as_str());
            let m = concat_str(concat_str(m, " for threshold="), usize_to_decimal(t).as_str());
            let m = concat_str(m, " (HoneyBadger TripleGen constraint)");
            assert(m@ =~= too_few_for_threshold_text(n, t));
            return Err(Error::InvalidInput(m));
        }
        if id >= n {
            let m = concat_str(owned("Invalid party_id="), usize_to_decimal(id).as_str());
            let m = concat_str(concat_str(m, ": must be < n_parties="), usize_to_decimal(n).as_str());
            assert(m@ =~= bad_party_id_text(id, n));
            return Err(Error::InvalidInput(m));
        }
        Ok(())
    }

    /// Checks the parsed addresses, after the numbers: each address that did
    /// not parse gives an error with the parser's reason.
    pub fn validate_addresses(
        bind: &Result<SocketAddress, String>,
        bootstrap: &Result<SocketAddress, String>,
    ) -> (r: Result<(), Error>)
        ensures
            match (bind, bootstrap) {
                (Err(e), _) => rview(r) == Err::<(), ErrorView>(
                    ErrorView::InvalidInput("Invalid bind_address: "@ + e@),
                ),
                (Ok(_), Err(e)) => rview(r) == Err::<(), ErrorView>(
                    ErrorView::InvalidInput("Invalid bootstrap_address: "@ + e@),
                ),
                (Ok(_), Ok(_)) => r is Ok,
            },
    {
        match bind {
            Err(e) => {
                return Err(Error::InvalidInput(concat_str(owned("Invalid bind_address: "), e.as_str())));
            },
            Ok(_) => {},
        }
        match bootstrap {
            Err(e) => Err(Error::InvalidInput(concat_str(owned("Invalid bootstrap_address: "), e.as_str()))),
            Ok(_) => Ok(()),
        }
    }
}

/// Builder of [`NetworkConfig`].
pub struct NetworkConfigBuilder {
    pub party_id: Option<usize>,
    pub bind_address: Option<String>,
    pub bootstrap_address: Option<String>,
    pub min_parties: usize,
    pub n_parties: Option<usize>,
    pub threshold: usize,
    pub instance_id: Option<u64>,
}

impl NetworkConfigBuilder {
    /// Nothing set; at least 3 parties; threshold 1.
    pub fn new() -> (b: Self)
        ensures
            b.party_id is None,
            b.bind_address is None,
            b.bootstrap_address is None,
            b.min_parties == 3,
            b.n_parties is None,
            b.threshold == 1,
            b.instance_id is None,
    {
        NetworkConfigBuilder {
            party_id: None,
            bind_address: None,
            bootstrap_address: None,
            min_parties: 3,
            n_parties: None,
            threshold: 1,
            instance_id: None,
        }
    }

    /// Sets the party id.
    pub fn party_id(self, id: usize) -> (b: Self)
        ensures
            b.party_id == Some(id),
            b.bind_address == self.bind_address,
            b.bootstrap_address == self.bootstrap_address,
            b.min_parties == self.min_parties,
            b.n_parties == self.n_parties,
            b.threshold == self.threshold,
            b.instance_id == self.instance_id,
    {
        NetworkConfigBuilder { party_id: Some(id), ..self }
    }

    /// Sets the address to listen on.
    pub fn bind_address(self, addr: &str) -> (b: Self)
        ensures
            b.bind_address matches Some(a) && a@ == addr@,
            b.party_id == self.party_id,
            b.bootstrap_address == self.bootstrap_address,
            b.min_parties == self.min_parties,
            b.n_parties == self.n_parties,
            b.threshold == self.threshold,
            b.instance_id == self.instance_id,
    {
        NetworkConfigBuilder { bind_address: Some(owned(addr)), ..self }
    }

    /// Sets the bootstrap address.
    pub fn bootstrap_address(self, addr: &str) -> (b: Self)
        ensures
            b.bootstrap_address matches Some(a) && a@ == addr@,
            b.party_id == self.party_id,
            b.bind_address == self.bind_address,
            b.min_parties == self.min_parties,
            b.n_parties == self.n_parties,
            b.threshold == self.threshold,
            b.instance_id == self.instance_id,
    {
        NetworkConfigBuilder { bootstrap_address: Some(owned(addr)), ..self }
    }

    /// Sets the number of parties needed before starting.
    pub fn min_parties(self, n: usize) -> (b: Self)
        ensures
            b.min_parties == n,
            b.party_id == self.party_id,
            b.bind_address == self.bind_address,
            b.bootstrap_address == self.bootstrap_address,
            b.n_parties == self.n_parties,
            b.threshold == self.threshold,
            b.instance_id == self.instance_id,
    {
        NetworkConfigBuilder { min_parties: n, ..self }
    }

    /// Sets the number of parties.
    pub fn n_parties(self, n: usize) -> (b: Self)
        ensures
            b.n_parties == Some(n),
            b.party_id == self.party_id,
            b.bind_address == self.bind_address,
            b.bootstrap_address == self.bootstrap_address,
            b.min_parties == self.min_parties,
            b.threshold == self.threshold,
            b.instance_id == self.instance_id,
    {
        NetworkConfigBuilder { n_parties: Some(n), ..self }
    }

    /// Sets the threshold.
    pub fn threshold(self, t: usize) -> (b: Self)
        ensures
            b.threshold == t,
            b.party_id == self.party_id,
            b.bind_address == self.bind_address,
            b.bootstrap_address == self.bootstrap_address,
            b.min_parties == self.min_parties,
            b.n_parties == self.n_parties,
            b.instance_id == self.instance_id,
    {
        NetworkConfigBuilder { threshold: t, ..self }
    }

    /// Sets the instance id.
    pub fn instance_id(self, id: u64) -> (b: Self)
        ensures
            b.instance_id == Some(id),
            b.party_id == self.party_id,
            b.bind_address == self.bind_address,
            b.bootstrap_address == self.bootstrap_address,
            b.min_parties == self.min_parties,
            b.n_parties == self.n_parties,
            b.threshold == self.threshold,
    {
        NetworkConfigBuilder { instance_id: Some(id), ..self }
    }

    /// Builds the settings: every field must be set (checked in the order
    /// party id, bind address, bootstrap address, number of parties), and the
    /// numbers must pass [`NetworkConfig::validate_parameters`].
    pub fn build(self) -> (r: Result<NetworkConfig, Error>)
        requires
            4 * self.threshold + 1 <= usize::MAX,
        ensures
            self.party_id is None ==> rview(r) == Err::<NetworkConfig, ErrorView>(
                ErrorView::InvalidInput("party_id not set"@),
            ),
            self.party_id is Some && self.bind_address is None ==> rview(r) == Err::<
                NetworkConfig,
                ErrorView,
            >(ErrorView::InvalidInput("bind_address not set"@)),
            self.party_id is Some && self.bind_address is Some && self.bootstrap_address is None
                ==> rview(r) == Err::<NetworkConfig, ErrorView>(
                ErrorView::InvalidInput("bootstrap_address not set"@),
            ),
            self.party_id is Some && self.bind_address is Some && self.bootstrap_address is Some
                && self.n_parties is None ==> rview(r) == Err::<NetworkConfig, ErrorView>(
                ErrorView::InvalidInput("n_parties not set"@),
            ),
            self.party_id is Some && self.bind_address is Some && self.bootstrap_address is Some
                && self.n_parties is Some ==> ({
                let id = self.party_id->Some_0;
                let n = self.n_parties->Some_0;
                &&& (r is Ok <==> parameters_result(id, n, self.threshold) is Ok)
                &&& r is Err ==> rview(r) == Err::<NetworkConfig, ErrorView>(
                    parameters_result(id, n, self.threshold)->Err_0,
                )
                &&& r matches Ok(c) ==> {
                    &&& c.network.party_id == id
                    &&& Some(c.network.bind_address) == self.bind_address
                    &&& Some(c.network.bootstrap_address) == self.bootstrap_address
                    &&& c.network.min_parties == self.min_parties
                    &&& c.mpc.n_parties == n
                    &&& c.mpc.threshold == self.threshold
                    &&& c.mpc.instance_id == self.instance_id
                }
            }),
    {
        let party_id = match self.party_id {
            Some(p) => p,
            None => {
                return Err(Error::InvalidInput(owned("party_id not set")));
            },
        };
        let bind_address = match self.bind_address {
            Some(a) => a,
            None => {
                return Err(Error::InvalidInput(owned("bind_address not set")));
            },
        };
        let bootstrap_address = match self.bootstrap_address {
            Some(a) => a,
            None => {
                return Err(Error::InvalidInput(owned("bootstrap_address not set")));
            },
        };
        let n_parties = match self.n_parties {
            Some(n) => n,
            None => {
                return Err(Error::InvalidInput(owned("n_parties not set")));
            },
        };
        let config = NetworkConfig {
            network: NetworkSettings { party_id, bind_address, bootstrap_address, min_parties: self.min_parties },
            mpc: MPCSettings { n_parties, threshold: self.threshold, instance_id: self.instance_id },
        };
        match config.validate_parameters() {
            Ok(()) => Ok(config),
            Err(e) => Err(e),
        }
    }
}

impl Default for NetworkConfigBuilder {
    fn default() -> (b: Self)
        ensures
            b.party_id is None,
            b.bind_address is None,
            b.bootstrap_address is None,
            b.min_parties == 3,
            b.n_parties is None,
            b.threshold == 1,
            b.instance_id is None,
    {
        NetworkConfigBuilder::new()
    }
}

} // verus!
