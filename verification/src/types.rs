//! The registry's accounts, hashes, statuses, errors, events and records.
use vstd::prelude::*;

verus! {

/// An account on the chain.
pub type AccountId = u64;

/// An amount of the chain's currency.
pub type Balance = u128;

/// The number of a block.
pub type BlockNumber = u32;

/// A 256-bit hash: it identifies rooms and timeshares.
pub type H256 = [u8; 32];

/// Why a registry operation was refused.
#[derive(Clone, Copy, Debug, PartialEq, Eq)]
pub enum Error {
    /// A room cannot have more timeshares than its configured maximum.
    MaximumTimesharesForRoomReached,
    /// Buyer cannot be the owner.
    BuyerIsTimeshareOwner,
    /// Cannot transfer a timeshare to its owner.
    TransferToSelf,
    /// The timeshare does not exist.
    TimeshareDoesntExist,
    /// Only the owner may perform this action.
    NotTimeshareOwner,
    /// The timeshare is not for sale.
    NotForSale,
    /// The bid must be greater than the asking price.
    BidPriceTooLow,
    /// The buyer's free balance does not cover the bid.
    NotEnoughFreeBalance,
    /// A timeshare with the same id already exists.
    MintingDuplicateTimeshare,
    HotelAlreadyActive,
    /// The hotel is already registered.
    HotelAlreadyPending,
    /// Only the administrator may perform this action.
    Forbidden,
    HotelNotActive,
    HotelNotRegistered,
    NotFoundInTimesharesOwned,
}

/// Where a hotel stands with the registry; only active hotels create timeshares.
#[derive(Clone, Copy, Debug, PartialEq, Eq)]
pub enum HotelStatus {
    Active,
    Suspended,
    Pending,
}

/// Who sent a call.
#[derive(Clone, Copy, Debug, PartialEq, Eq)]
pub enum Origin {
    /// The chain's privileged origin.
    Root,
    /// An account that signed the call.
    Signed(AccountId),
    /// A call that nobody signed.
    Unsigned,
}

/// Why a call failed.
#[derive(Clone, Copy, Debug, PartialEq, Eq)]
pub enum DispatchError {
    /// The call was not signed by an account.
    BadOrigin,
    /// The registry refused the call.
    Module(Error),
    /// Another part of the chain (such as the currency) refused, with its code.
    Other(u32),
}

/// Whether a currency transfer may empty the payer's account.
#[derive(Clone, Copy, Debug, PartialEq, Eq)]
pub enum ExistenceRequirement {
    KeepAlive,
    AllowDeath,
}

/// What the registry reports of a successful call.
#[derive(Clone, Copy, Debug, PartialEq, Eq)]
pub enum Event {
    /// A timeshare was created: sender, timeshare id.
    Created(AccountId, H256),
    /// A timeshare's price was set: sender, timeshare id, new price.
    PriceSet(AccountId, H256, Option<Balance>),
    /// A timeshare was transferred: from, to, timeshare id.
    Transferred(AccountId, AccountId, H256),
    /// A timeshare was bought: buyer, seller, timeshare id, bid price.
    Bought(AccountId, AccountId, H256, Balance),
}

/// A hotel's room.
pub struct Room {
    pub hotel: AccountId,
    pub room_number: Vec<u8>,
}

/// A timeshare of a hotel room.
pub struct Timeshare {
    pub hotel: AccountId,
    pub room_number: Vec<u8>,
    pub price: Option<Balance>,
    pub owner: AccountId,
    pub dna: [u8; 16],
    pub room_hash: H256,
}

/// A timeshare as a mathematical value.
pub struct TimeshareModel {
    pub hotel: AccountId,
    pub room_number: Seq<u8>,
    pub price: Option<Balance>,
    pub owner: AccountId,
    pub dna: [u8; 16],
    pub room_hash: H256,
}

impl View for Timeshare {
    type V = TimeshareModel;

    open spec fn view(&self) -> TimeshareModel {
        TimeshareModel {
            hotel: self.hotel,
            room_number: self.room_number@,
            price: self.price,
            owner: self.owner,
            dna: self.dna,
            room_hash: self.room_hash,
        }
    }
}

/// A copy of a byte vector.
pub(crate) fn copy_bytes(v: &Vec<u8>) -> (r: Vec<u8>)
    ensures
        r@ == v@,
{
    let mut r: Vec<u8> = Vec::new();
    let mut i: usize = 0;
    while i < v.len()
        invariant
            i <= v.len(),
            r@ == v@.subrange(0, i as int),
        decreases v.len() - i,
    {
        r.push(v[i]);
        i = i + 1;
    }
    assert(r@ =~= v@);
    r
}

/// A copy of a list of hashes.
pub(crate) fn copy_hashes(v: &Vec<H256>) -> (r: Vec<H256>)
    ensures
        r@ == v@,
{
    let mut r: Vec<H256> = Vec::new();
    let mut i: usize = 0;
    while i < v.len()
        invariant
            i <= v.len(),
            r@ == v@.subrange(0, i as int),
        decreases v.len() - i,
    {
        r.push(v[i]);
        i = i + 1;
    }
    assert(r@ =~= v@);
    r
}

/// Accepts a call signed by an account, giving that account; refuses any other.
pub fn ensure_signed(origin: Origin) -> (r: Result<AccountId, DispatchError>)
    ensures
        r == match origin {
            Origin::Signed(who) => Ok(who),
            _ => Err::<AccountId, DispatchError>(DispatchError::BadOrigin),
        },
{
    match origin {
        Origin::Signed(who) => Ok(who),
        _ => Err(DispatchError::BadOrigin),
    }
}

} // verus!
