//! The lifecycle of an instance: it is constructed once, and only a
//! constructed instance can be used.

use vstd::prelude::*;
use crate::contract::Contract;
use crate::error::StoreError;
use crate::model::ContractView;

verus! {

/// An instance of the contract, constructed or not yet.
#[derive(Debug)]
pub enum Instance {
    /// Nothing was constructed yet.
    Uninitialized,
    /// The constructed contract.
    Ready(Contract),
}

impl View for Instance {
    type V = Option<ContractView>;

    open spec fn view(&self) -> Option<ContractView> {
        match self {
            Instance::Uninitialized => None,
            Instance::Ready(contract) => Some(contract@),
        }
    }
}

impl Instance {
    /// Constructs the contract of `owner` with `name`, unless one was
    /// constructed before.
    pub fn construct(&mut self, owner: String, name: String) -> (done: Result<(), StoreError>)
        ensures
            old(self)@ is None ==> done == Ok::<(), StoreError>(()) && final(self)@ == Some(
                ContractView::init(owner@, name@),
            ),
            old(self)@ is Some ==> done == Err::<(), StoreError>(StoreError::AlreadyInitialized)
                && *final(self) == *old(self),
    {
        match self {
            Instance::Uninitialized => {
                *self = Instance::Ready(Contract::new(owner, name));
                Ok(())
            },
            Instance::Ready(_) => Err(StoreError::AlreadyInitialized),
        }
    }

    /// The contract, to read from.
    pub fn contract(&self) -> (ready: Result<&Contract, StoreError>)
        ensures
            match ready {
                Ok(contract) => self@ == Some(contract@),
                Err(e) => self@ is None && e == StoreError::Uninitialized,
            },
    {
        match self {
            Instance::Uninitialized => Err(StoreError::Uninitialized),
            Instance::Ready(contract) => Ok(contract),
        }
    }

    /// The contract, to change: what the caller leaves in it is the state of
    /// the instance afterwards.
    pub fn contract_mut(&mut self) -> (ready: Result<&mut Contract, StoreError>)
        ensures
            match ready {
                Ok(contract) => old(self)@ == Some((*contract)@) && final(self)@ == Some(
                    (*final(contract))@,
                ),
                Err(e) => old(self)@ is None && e == StoreError::Uninitialized && *final(self)
                    == *old(self),
            },
    {
        match self {
            Instance::Uninitialized => Err(StoreError::Uninitialized),
            Instance::Ready(contract) => Ok(contract),
        }
    }
}

} // verus!
