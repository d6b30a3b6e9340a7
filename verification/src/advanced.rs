//! Lower-level settings of a local MPC network: party count, threshold,
//! ports and instance id.

use vstd::prelude::*;
use crate::config::generate_instance_id;
use crate::error::{Error, ErrorView, rview};
use crate::text::{concat_str, decimal, owned, usize_to_decimal};

verus! {

/// Builder of a [`NetworkConfig`].
pub struct NetworkBuilder {
    pub n_parties: usize,
    pub threshold: usize,
    pub base_port: u16,
    pub instance_id: u64,
}

impl NetworkBuilder {
    /// A builder for `n_parties` parties and threshold `threshold`, from
    /// port 19200, with a random instance id.
    pub fn new(n_parties: usize, threshold: usize) -> (b: Self)
        ensures
            b.n_parties == n_parties,
            b.threshold == threshold,
            b.base_port == 19200,
    {
        NetworkBuilder { n_parties, threshold, base_port: 19200, instance_id: generate_instance_id() }
    }

    /// Sets the first port.
    pub fn base_port(self, port: u16) -> (b: Self)
        ensures
            b == (NetworkBuilder { base_port: port, ..self }),
    {
        NetworkBuilder { base_port: port, ..self }
    }

    /// Sets the instance id.
    pub fn instance_id(self, id: u64) -> (b: Self)
        ensures
            b == (NetworkBuilder { instance_id: id, ..self }),
    {
        NetworkBuilder { instance_id: id, ..self }
    }

    /// The settings.
    pub fn build(self) -> (c: NetworkConfig)
        ensures
            c == (NetworkConfig {
                n_parties: self.n_parties,
                threshold: self.threshold,
                base_port: self.base_port,
                instance_id: self.instance_id,
            }),
    {
        NetworkConfig {
            n_parties: self.n_parties,
            threshold: self.threshold,
            base_port: self.base_port,
            instance_id: self.instance_id,
        }
    }
}

/// Settings of a local MPC network.
#[derive(Clone, Copy, Debug, PartialEq, Eq, Structural)]
pub struct NetworkConfig {
    pub n_parties: usize,
    pub threshold: usize,
    pub base_port: u16,
    pub instance_id: u64,
}

/// The message for too few parties for the threshold.
pub open spec fn too_few_parties_for_text(n: usize, t: usize) -> Seq<char> {
    "Invalid configuration: n_parties ("@ + decimal(n as nat) + ") must be >= 3*threshold+1 ("@
        + decimal((3 * t + 1) as nat) + ")"@
}

impl NetworkConfig {
    /// Checks `n_parties >= 3 * threshold + 1`.
    pub fn validate(&self) -> (r: Result<(), Error>)
        requires
            3 * self.threshold + 1 <= usize::MAX,
        ensures
            r is Ok <==> self.n_parties >= 3 * self.threshold + 1,
            r is Err ==> rview(r) == Err::<(), ErrorView>(
                ErrorView::Configuration(too_few_parties_for_text(self.n_parties, self.threshold)),
            ),
    {
        if self.n_parties < 3 * self.threshold + 1 {
            let m = concat_str(owned("Invalid configuration: n_parties ("), usize_to_decimal(self.n_parties).as_str());
            let m = concat_str(concat_str(m, ") must be >= 3*threshold+1 ("), usize_to_decimal(3 * self.threshold + 1).as_str());
            let m = concat_str(m, ")");
            assert(m@ =~= too_few_parties_for_text(self.n_parties, self.threshold));
            return Err(Error::Configuration(m));
        }
        Ok(())
    }
}

} // verus!
