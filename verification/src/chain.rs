//! An in-memory chain to run the registry on: a fixed random hash, a block
//! number, account balances and a record of the transfers made.
use vstd::prelude::*;
use crate::pallet::Config;
use crate::storage::StorageMap;
use crate::types::{AccountId, Balance, BlockNumber, DispatchError, ExistenceRequirement, H256};

verus! {

/// The code of a transfer refused because the payer's balance is too small.
pub const INSUFFICIENT_BALANCE: u32 = 1;

/// The code of a transfer refused because it would leave a payer that must
/// be kept alive with less than the existential deposit.
pub const WOULD_REAP_PAYER: u32 = 2;

/// The code of a transfer refused because the payee's balance would overflow.
pub const BALANCE_OVERFLOW: u32 = 3;

pub struct MemoryChain {
    random_hash: H256,
    block: BlockNumber,
    existential_deposit: Balance,
    balances: StorageMap<AccountId, Balance>,
    payments: Vec<(AccountId, AccountId, Balance, ExistenceRequirement)>,
}

impl MemoryChain {
    #[verifier::type_invariant]
    spec fn well_formed(&self) -> bool {
        self.balances.wf()
    }

    /// The random hash that the chain gives for every subject.
    pub closed spec fn random_hash_spec(&self) -> H256 {
        self.random_hash
    }

    /// The least balance that a payer kept alive must retain.
    pub closed spec fn existential_deposit_spec(&self) -> Balance {
        self.existential_deposit
    }

    /// A chain at block `block` whose randomness is `random_hash`, with no
    /// balances and no transfers.
    pub fn new(random_hash: H256, block: BlockNumber, existential_deposit: Balance) -> (r: MemoryChain)
        ensures
            r.random_hash_spec() == random_hash,
            r.current_block() == block,
            r.existential_deposit_spec() == existential_deposit,
            forall|who: AccountId| r.balance_of(who) == 0,
            r.payments() == Seq::<(AccountId, AccountId, Balance, ExistenceRequirement)>::empty(),
    {
        MemoryChain {
            random_hash,
            block,
            existential_deposit,
            balances: StorageMap::new(),
            payments: Vec::new(),
        }
    }

    /// Sets the balance of `who`.
    pub fn set_balance(&mut self, who: AccountId, amount: Balance)
        ensures
            final(self).balance_of(who) == amount,
            forall|other: AccountId| other != who ==> final(self).balance_of(other) == old(self).balance_of(other),
            final(self).payments() == old(self).payments(),
            final(self).current_block() == old(self).current_block(),
            final(self).random_hash_spec() == old(self).random_hash_spec(),
            final(self).existential_deposit_spec() == old(self).existential_deposit_spec(),
    {
        proof {
            use_type_invariant(&*self);
        }
        let mut balances = StorageMap::new();
        std::mem::swap(&mut balances, &mut self.balances);
        balances.insert(who, amount);
        self.balances = balances;
    }

    /// Moves the chain to block `block`.
    pub fn set_block(&mut self, block: BlockNumber)
        ensures
            final(self).current_block() == block,
            forall|who: AccountId| final(self).balance_of(who) == old(self).balance_of(who),
            final(self).payments() == old(self).payments(),
            final(self).random_hash_spec() == old(self).random_hash_spec(),
            final(self).existential_deposit_spec() == old(self).existential_deposit_spec(),
    {
        proof {
            use_type_invariant(&*self);
        }
        self.block = block;
    }

    /// The balance of `who`.
    pub fn balance(&self, who: AccountId) -> (r: Balance)
        ensures
            r == self.balance_of(who),
    {
        proof {
            use_type_invariant(self);
        }
        match self.balances.get(&who) {
            Some(b) => *b,
            None => 0,
        }
    }

    /// The transfers made so far, oldest first.
    pub fn transfers(&self) -> (r: &Vec<(AccountId, AccountId, Balance, ExistenceRequirement)>)
        ensures
            r@ == self.payments(),
    {
        &self.payments
    }
}

impl Config for MemoryChain {
    closed spec fn randomness(&self, subject: Seq<u8>) -> (H256, BlockNumber) {
        (self.random_hash, self.block)
    }

    closed spec fn current_block(&self) -> BlockNumber {
        self.block
    }

    closed spec fn balance_of(&self, who: AccountId) -> Balance {
        if self.balances@.contains_key(who) {
            self.balances@[who]
        } else {
            0
        }
    }

    closed spec fn transfer_outcome(
        &self,
        source: AccountId,
        dest: AccountId,
        value: Balance,
        existence: ExistenceRequirement,
    ) -> Result<(), DispatchError> {
        let from = self.balance_of(source);
        let to = self.balance_of(dest);
        if from < value {
            Err(DispatchError::Other(INSUFFICIENT_BALANCE))
        } else if existence == ExistenceRequirement::KeepAlive && from - value < self.existential_deposit {
            Err(DispatchError::Other(WOULD_REAP_PAYER))
        } else if source != dest && to + value > u128::MAX {
            Err(DispatchError::Other(BALANCE_OVERFLOW))
        } else {
            Ok(())
        }
    }

    closed spec fn payments(&self) -> Seq<(AccountId, AccountId, Balance, ExistenceRequirement)> {
        self.payments@
    }

    fn random(&self, subject: &[u8]) -> (r: (H256, BlockNumber)) {
        (self.random_hash, self.block)
    }

    fn block_number(&self) -> (r: BlockNumber) {
        self.block
    }

    fn free_balance(&self, who: AccountId) -> (r: Balance) {
        self.balance(who)
    }

    /// Refuses with `INSUFFICIENT_BALANCE`, `WOULD_REAP_PAYER` or
    /// `BALANCE_OVERFLOW`, in that order; otherwise moves the amount and
    /// records the transfer.
    fn transfer(
        &mut self,
        source: AccountId,
        dest: AccountId,
        value: Balance,
        existence: ExistenceRequirement,
    ) -> (r: Result<(), DispatchError>)
        ensures
            ({
                let from = old(self).balance_of(source);
                let to = old(self).balance_of(dest);
                if from < value {
                    r == Err::<(), DispatchError>(DispatchError::Other(INSUFFICIENT_BALANCE))
                } else if existence == ExistenceRequirement::KeepAlive && from - value < old(self).existential_deposit_spec() {
                    r == Err::<(), DispatchError>(DispatchError::Other(WOULD_REAP_PAYER))
                } else if source != dest && to + value > u128::MAX {
                    r == Err::<(), DispatchError>(DispatchError::Other(BALANCE_OVERFLOW))
                } else {
                    &&& r == Ok::<(), DispatchError>(())
                    &&& final(self).balance_of(source) == (if source == dest { from } else { (from - value) as Balance })
                    &&& final(self).balance_of(dest) == (if source == dest { from } else { (to + value) as Balance })
                    &&& forall|other: AccountId| other != source && other != dest
                        ==> final(self).balance_of(other) == old(self).balance_of(other)
                }
            }),
    {
        proof {
            use_type_invariant(&*self);
        }
        let from = self.balance(source);
        let to = self.balance(dest);
        if from < value {
            return Err(DispatchError::Other(INSUFFICIENT_BALANCE));
        }
        match existence {
            ExistenceRequirement::KeepAlive => {
                if from - value < self.existential_deposit {
                    return Err(DispatchError::Other(WOULD_REAP_PAYER));
                }
            },
            ExistenceRequirement::AllowDeath => {},
        }
        if source != dest {
            if to > u128::MAX - value {
                return Err(DispatchError::Other(BALANCE_OVERFLOW));
            }
            let mut balances = StorageMap::new();
            std::mem::swap(&mut balances, &mut self.balances);
            balances.insert(source, from - value);
            balances.insert(dest, to + value);
            self.balances = balances;
        }
        let mut payments = Vec::new();
        std::mem::swap(&mut payments, &mut self.payments);
        payments.push((source, dest, value, existence));
        self.payments = payments;
        Ok(())
    }
}

} // verus!
