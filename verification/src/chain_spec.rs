//! Configuration values of the chain an off-chain environment runs
//! against: gas price, minimum balance, tombstone deposit and targeted
//! block time.  Every value starts out uninitialized and is set exactly
//! once; reading an unset value is an error.

use vstd::prelude::*;

verus! {

/// Error raised by the chain specification cells.
#[derive(Debug, Clone, Copy, PartialEq, Eq, Structural)]
pub enum ChainError {
    /// A value was read before it was initialized.
    Uninitialized,
    /// A value was initialized a second time.
    AlreadyInitialized,
}

/// The chain specification.
pub struct ChainSpec {
    /// The current gas price.
    pub gas_price: Option<u128>,
    /// The minimum value an account of the chain may have.
    pub minimum_balance: Option<u128>,
    /// The tombstone deposit.
    pub tombstone_deposit: Option<u128>,
    /// The targeted block time.
    pub block_time: Option<u64>,
}

impl ChainSpec {
    /// Holds when none of the cells has been initialized yet.
    pub open spec fn is_uninitialized(self) -> bool {
        &&& self.gas_price is None
        &&& self.minimum_balance is None
        &&& self.tombstone_deposit is None
        &&& self.block_time is None
    }

    /// Creates a new uninitialized chain specification.
    pub fn uninitialized() -> (r: Self)
        ensures
            r.is_uninitialized(),
    {
        Self {
            gas_price: None,
            minimum_balance: None,
            tombstone_deposit: None,
            block_time: None,
        }
    }

    /// Default initialization for the chain specification.
    ///
    /// Succeeds exactly when no cell has been set before; in that case
    /// every cell receives its default value.  Otherwise the
    /// specification is left unchanged.
    pub fn initialize_as_default(&mut self) -> (r: Result<(), ChainError>)
        ensures
            old(self).is_uninitialized() ==> {
                &&& r == Ok::<(), ChainError>(())
                &&& final(self).gas_price == Some(100u128)
                &&& final(self).minimum_balance == Some(42u128)
                &&& final(self).tombstone_deposit == Some(16u128)
                &&& final(self).block_time == Some(5u64)
            },
            !old(self).is_uninitialized() ==> {
                &&& r == Err::<(), ChainError>(ChainError::AlreadyInitialized)
                &&& *final(self) == *old(self)
            },
    {
        if self.gas_price.is_some() || self.minimum_balance.is_some()
            || self.tombstone_deposit.is_some() || self.block_time.is_some() {
            return Err(ChainError::AlreadyInitialized);
        }
        self.gas_price = Some(100);
        self.minimum_balance = Some(42);
        self.tombstone_deposit = Some(16);
        self.block_time = Some(5);
        Ok(())
    }

    /// Returns the gas price for the chain.
    pub fn gas_price(&self) -> (r: Result<u128, ChainError>)
        ensures
            r == (match self.gas_price {
                Some(v) => Ok::<u128, ChainError>(v),
                None => Err::<u128, ChainError>(ChainError::Uninitialized),
            }),
    {
        match self.gas_price {
            Some(v) => Ok(v),
            None => Err(ChainError::Uninitialized),
        }
    }

    /// Returns the minimum balance for an account on the chain.
    pub fn minimum_balance(&self) -> (r: Result<u128, ChainError>)
        ensures
            r == (match self.minimum_balance {
                Some(v) => Ok::<u128, ChainError>(v),
                None => Err::<u128, ChainError>(ChainError::Uninitialized),
            }),
    {
        match self.minimum_balance {
            Some(v) => Ok(v),
            None => Err(ChainError::Uninitialized),
        }
    }

    /// Returns the tombstone deposit for the chain.
    pub fn tombstone_deposit(&self) -> (r: Result<u128, ChainError>)
        ensures
            r == (match self.tombstone_deposit {
                Some(v) => Ok::<u128, ChainError>(v),
                None => Err::<u128, ChainError>(ChainError::Uninitialized),
            }),
    {
        match self.tombstone_deposit {
            Some(v) => Ok(v),
            None => Err(ChainError::Uninitialized),
        }
    }

    /// Returns the targeted block time for the chain.
    pub fn block_time(&self) -> (r: Result<u64, ChainError>)
        ensures
            r == (match self.block_time {
                Some(v) => Ok::<u64, ChainError>(v),
                None => Err::<u64, ChainError>(ChainError::Uninitialized),
            }),
    {
        match self.block_time {
            Some(v) => Ok(v),
            None => Err(ChainError::Uninitialized),
        }
    }
}

} // verus!
