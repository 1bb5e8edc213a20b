//! The governance side of the fee flow: a contract that publishes an
//! optional fee configuration through `get_fee_config`.

use vstd::prelude::*;

use crate::types::FeeConfig;

verus! {

/// A governance contract that stores one optional `FeeConfig`.
#[derive(Clone, Copy, Debug)]
pub struct MockGovernanceWithFees {
    pub fee: Option<FeeConfig>,
}

impl MockGovernanceWithFees {
    /// A freshly deployed governance contract, with no fee configuration.
    pub fn new() -> (r: MockGovernanceWithFees)
        ensures
            r.fee == None::<FeeConfig>,
    {
        MockGovernanceWithFees { fee: None }
    }

    /// Stores the initial fee configuration.
    pub fn init(&mut self, config: FeeConfig)
        ensures
            final(self).fee == Some(config),
    {
        self.fee = Some(config);
    }

    /// Replaces the fee configuration.
    pub fn set_fee_config(&mut self, config: FeeConfig)
        ensures
            final(self).fee == Some(config),
    {
        self.fee = Some(config);
    }

    /// The stored fee configuration, if one has been set.
    pub fn get_fee_config(&self) -> (r: Option<FeeConfig>)
        ensures
            r == self.fee,
    {
        self.fee
    }
}

} // verus!
