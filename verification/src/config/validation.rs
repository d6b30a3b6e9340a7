//! Validation rules for MPC and network parameters.

use vstd::prelude::*;
use crate::error::{Error, ErrorView, rview};
use crate::text::{concat_str, decimal, owned, usize_to_decimal};

verus! {

/// Whether `3 * threshold + 1` is representable, as the rule needs.
pub open spec fn threshold_in_range(threshold: usize) -> bool {
    3 * threshold + 1 <= usize::MAX
}

/// Whether `3 * threshold + 1` is representable, so that the rule can be
/// checked.
pub fn threshold_fits(threshold: usize) -> (b: bool)
    ensures
        b == threshold_in_range(threshold),
{
    threshold <= (usize::MAX - 1) / 3
}

/// The HoneyBadger rule: at least four parties, and `parties >= 3t + 1`.
pub open spec fn mpc_params_valid(parties: usize, threshold: usize) -> bool {
    parties >= 4 && parties >= 3 * threshold + 1
}

/// The message for too few parties.
pub open spec fn too_few_parties_text(parties: usize) -> Seq<char> {
    "parties must be >= 4 for HoneyBadger BFT, got "@ + decimal(parties as nat)
}

/// The message for a threshold too high for the number of parties.
pub open spec fn threshold_too_high_text(parties: usize, threshold: usize) -> Seq<char> {
    "parties must be >= 3 * threshold + 1 for HoneyBadger BFT: parties="@ + decimal(parties as nat)
        + " < 3*"@ + decimal(threshold as nat) + "+1="@ + decimal((3 * threshold + 1) as nat)
}

/// What [`validate_mpc`] returns.
pub open spec fn validate_mpc_result(parties: usize, threshold: usize) -> Result<(), ErrorView> {
    if parties < 4 {
        Err(ErrorView::Configuration(too_few_parties_text(parties)))
    } else if parties < 3 * threshold + 1 {
        Err(ErrorView::Configuration(threshold_too_high_text(parties, threshold)))
    } else {
        Ok(())
    }
}

/// Validates MPC parameters: `parties >= 4` and `parties >= 3 * threshold + 1`.
pub fn validate_mpc(parties: usize, threshold: usize) -> (r: Result<(), Error>)
    requires
        threshold_in_range(threshold),
    ensures
        rview(r) == validate_mpc_result(parties, threshold),
        r is Ok <==> mpc_params_valid(parties, threshold),
{
    if parties < 4 {
        let m = concat_str(
            owned("parties must be >= 4 for HoneyBadger BFT, got "),
            usize_to_decimal(parties).as_str(),
        );
        return Err(Error::Configuration(m));
    }
    let min_parties = 3 * threshold + 1;
    if parties < min_parties {
        let m = concat_str(
            owned("parties must be >= 3 * threshold + 1 for HoneyBadger BFT: parties="),
            usize_to_decimal(parties).as_str(),
        );
        let m = concat_str(concat_str(m, " < 3*"), usize_to_decimal(threshold).as_str());
        let m = concat_str(concat_str(m, "+1="), usize_to_decimal(min_parties).as_str());
        assert(m@ =~= threshold_too_high_text(parties, threshold));
        return Err(Error::Configuration(m));
    }
    Ok(())
}

/// The message for too few expected parties.
pub open spec fn too_few_expected_text(expected: usize) -> Seq<char> {
    "expected_parties must be >= 2, got "@ + decimal(expected as nat)
}

/// Validates network parameters: at least two expected parties.
pub fn validate_network(expected_parties: usize) -> (r: Result<(), Error>)
    ensures
        r is Ok <==> expected_parties >= 2,
        expected_parties < 2 ==> (r matches Err(Error::Configuration(m))
            && m@ == too_few_expected_text(expected_parties)),
{
    if expected_parties < 2 {
        let m = concat_str(
            owned("expected_parties must be >= 2, got "),
            usize_to_decimal(expected_parties).as_str(),
        );
        return Err(Error::Configuration(m));
    }
    Ok(())
}

} // verus!
