//! The registry's storage as a mathematical value, what each operation does
//! to it, and the consistency that every operation keeps.
use vstd::prelude::*;
use crate::hashing::{room_hash_spec, timeshare_id_spec};
use crate::types::{
    AccountId, Balance, DispatchError, Error, Event, H256, HotelStatus, TimeshareModel,
};

verus! {

/// The registry's storage and the events it has reported.
pub struct PalletModel {
    /// Each timeshare by its id.
    pub timeshares: Map<H256, TimeshareModel>,
    /// The ids of each room's timeshares, by the room's hash.
    pub rooms_timeshares: Map<H256, Seq<H256>>,
    /// The ids of each account's timeshares.
    pub timeshares_owned: Map<AccountId, Seq<H256>>,
    /// Each registered hotel's status.
    pub hotel_statuses: Map<AccountId, HotelStatus>,
    /// The account that administers the registry.
    pub admin: AccountId,
    /// How many timeshares a room may have.
    pub max_timeshares_per_room: u32,
    /// The events reported so far, oldest first.
    pub events: Seq<Event>,
}

/// A call that goes through the registry's model: who made it and with what.
pub enum Call {
    /// `register_hotel` by the given hotel.
    RegisterHotel(AccountId),
    /// `set_hotel_status` by a sender, for a hotel.
    SetHotelStatus(AccountId, AccountId, HotelStatus),
    /// `create_timeshare` by a hotel, for a room number and price, with a DNA.
    CreateTimeshare(AccountId, Seq<u8>, Option<Balance>, [u8; 16]),
    /// `set_price` by a sender, for a timeshare id and a new price.
    SetPrice(AccountId, H256, Option<Balance>),
    /// `transfer` from an account, to an account, of a timeshare id.
    Transfer(AccountId, AccountId, H256),
    /// A paid `buy_timeshare` by a buyer, for a timeshare id and a bid.
    Buy(AccountId, H256, Balance),
}

/// The storage after the calls, in order; a refused call changes nothing.
pub open spec fn run(s: PalletModel, calls: Seq<Call>) -> PalletModel
    decreases calls.len(),
{
    if calls.len() == 0 {
        s
    } else {
        let prev = run(s, calls.drop_last());
        match prev.apply(calls.last()) {
            Ok(next) => next,
            Err(_) => prev,
        }
    }
}

/// What a call does to the storage: the new storage, or why it was refused.
pub open spec fn outcome(
    pre: PalletModel,
    step: Result<PalletModel, Error>,
    r: Result<(), DispatchError>,
    post: PalletModel,
) -> bool {
    match step {
        Ok(s) => r == Ok::<(), DispatchError>(()) && post == s,
        Err(e) => r == Err::<(), DispatchError>(DispatchError::Module(e)) && post == pre,
    }
}

/// What a mint does to the storage: the new storage and the timeshare's id,
/// or why it was refused.
pub open spec fn mint_outcome(
    pre: PalletModel,
    step: Result<(PalletModel, H256), Error>,
    r: Result<H256, Error>,
    post: PalletModel,
) -> bool {
    match step {
        Ok((s, id)) => r == Ok::<H256, Error>(id) && post == s,
        Err(e) => r == Err::<H256, Error>(e) && post == pre,
    }
}

/// A timeshare as minted: owned by its hotel, for the given room and price.
pub open spec fn minted(
    owner: AccountId,
    room_number: Seq<u8>,
    price: Option<Balance>,
    dna: [u8; 16],
) -> TimeshareModel {
    TimeshareModel {
        hotel: owner,
        room_number,
        price,
        owner,
        dna,
        room_hash: room_hash_spec(owner, room_number),
    }
}

impl PalletModel {
    /// The registry before anything is minted or registered.
    pub open spec fn empty(admin: AccountId, max_timeshares_per_room: u32) -> PalletModel {
        PalletModel {
            timeshares: Map::empty(),
            rooms_timeshares: Map::empty(),
            timeshares_owned: Map::empty(),
            hotel_statuses: Map::empty(),
            admin,
            max_timeshares_per_room,
            events: Seq::empty(),
        }
    }

    /// The ids of a room's timeshares (none if the room has no entry).
    pub open spec fn room_timeshares(self, room: H256) -> Seq<H256> {
        if self.rooms_timeshares.contains_key(room) {
            self.rooms_timeshares[room]
        } else {
            Seq::empty()
        }
    }

    /// The ids of an account's timeshares (none if the account has no entry).
    pub open spec fn owned(self, who: AccountId) -> Seq<H256> {
        if self.timeshares_owned.contains_key(who) {
            self.timeshares_owned[who]
        } else {
            Seq::empty()
        }
    }

    /// The storage is consistent: the timeshare records, the owners' lists and
    /// the rooms' lists agree, and no room is over its maximum.
    pub open spec fn wf(self) -> bool {
        &&& forall|id: H256| #[trigger]
            self.timeshares.contains_key(id) ==> self.owned(self.timeshares[id].owner).contains(id)
        &&& forall|id: H256| #[trigger]
            self.timeshares.contains_key(id) ==> self.room_timeshares(
                self.timeshares[id].room_hash,
            ).contains(id)
        &&& forall|a: AccountId| #[trigger] self.owned(a).no_duplicates()
        &&& forall|a: AccountId, i: int|
            0 <= i < self.owned(a).len() ==> {
                &&& self.timeshares.contains_key(#[trigger] self.owned(a)[i])
                &&& self.timeshares[self.owned(a)[i]].owner == a
            }
        &&& forall|room: H256| #[trigger] self.room_timeshares(room).no_duplicates()
        &&& forall|room: H256| #[trigger]
            self.room_timeshares(room).len() <= self.max_timeshares_per_room
        &&& forall|room: H256, i: int|
            0 <= i < self.room_timeshares(room).len() ==> {
                &&& self.timeshares.contains_key(#[trigger] self.room_timeshares(room)[i])
                &&& self.timeshares[self.room_timeshares(room)[i]].room_hash == room
            }
    }

    /// Whether `acct` owns the timeshare `id`; refused if there is no such timeshare.
    pub open spec fn is_timeshare_owner(self, id: H256, acct: AccountId) -> Result<bool, Error> {
        if self.timeshares.contains_key(id) {
            Ok(self.timeshares[id].owner == acct)
        } else {
            Err(Error::TimeshareDoesntExist)
        }
    }

    /// Whether `hotel` is active; refused if the hotel is not registered.
    pub open spec fn is_active(self, hotel: AccountId) -> Result<bool, Error> {
        if self.hotel_statuses.contains_key(hotel) {
            Ok(self.hotel_statuses[hotel] == HotelStatus::Active)
        } else {
            Err(Error::HotelNotRegistered)
        }
    }

    /// A hotel asks to be registered: it becomes pending, unless it already has a status.
    pub open spec fn register_hotel(self, sender: AccountId) -> Result<PalletModel, Error> {
        if self.hotel_statuses.contains_key(sender) {
            Err(Error::HotelAlreadyPending)
        } else {
            Ok(PalletModel {
                hotel_statuses: self.hotel_statuses.insert(sender, HotelStatus::Pending),
                ..self
            })
        }
    }

    /// The administrator sets a hotel's status; anyone else is refused.
    pub open spec fn set_hotel_status(
        self,
        sender: AccountId,
        hotel: AccountId,
        status: HotelStatus,
    ) -> Result<PalletModel, Error> {
        if sender != self.admin {
            Err(Error::Forbidden)
        } else {
            Ok(PalletModel { hotel_statuses: self.hotel_statuses.insert(hotel, status), ..self })
        }
    }

    /// The timeshare `t` is stored under id `id`, listed last among its
    /// owner's and its room's timeshares, and `id` is given back; refused if
    /// the id is taken or the room is full.
    pub open spec fn insert_timeshare(self, t: TimeshareModel, id: H256) -> Result<(PalletModel, H256), Error> {
        let room = t.room_hash;
        if self.timeshares.contains_key(id) {
            Err(Error::MintingDuplicateTimeshare)
        } else if self.room_timeshares(room).len() >= self.max_timeshares_per_room {
            Err(Error::MaximumTimesharesForRoomReached)
        } else {
            Ok(
                (
                    PalletModel {
                        timeshares: self.timeshares.insert(id, t),
                        rooms_timeshares: self.rooms_timeshares.insert(
                            room,
                            self.room_timeshares(room).push(id),
                        ),
                        timeshares_owned: self.timeshares_owned.insert(
                            t.owner,
                            self.owned(t.owner).push(id),
                        ),
                        ..self
                    },
                    id,
                ),
            )
        }
    }

    /// A timeshare with the given DNA is minted for `owner`'s room and stored
    /// under the hash of its encoding.
    pub open spec fn mint(
        self,
        owner: AccountId,
        room_number: Seq<u8>,
        price: Option<Balance>,
        dna: [u8; 16],
    ) -> Result<(PalletModel, H256), Error> {
        let t = minted(owner, room_number, price, dna);
        self.insert_timeshare(t, timeshare_id_spec(t))
    }

    /// An active hotel creates a timeshare with the given DNA for one of its rooms.
    pub open spec fn create_timeshare(
        self,
        sender: AccountId,
        room_number: Seq<u8>,
        price: Option<Balance>,
        dna: [u8; 16],
    ) -> Result<PalletModel, Error> {
        match self.is_active(sender) {
            Err(e) => Err(e),
            Ok(false) => Err(Error::HotelNotActive),
            Ok(true) => match self.mint(sender, room_number, price, dna) {
                Err(e) => Err(e),
                Ok((s, id)) => Ok(PalletModel { events: s.events.push(Event::Created(sender, id)), ..s }),
            },
        }
    }

    /// The owner sets a timeshare's price (`None`: not for sale).
    pub open spec fn set_price(
        self,
        sender: AccountId,
        id: H256,
        new_price: Option<Balance>,
    ) -> Result<PalletModel, Error> {
        match self.is_timeshare_owner(id, sender) {
            Err(e) => Err(e),
            Ok(false) => Err(Error::NotTimeshareOwner),
            Ok(true) => Ok(
                PalletModel {
                    timeshares: self.timeshares.insert(
                        id,
                        TimeshareModel { price: new_price, ..self.timeshares[id] },
                    ),
                    events: self.events.push(Event::PriceSet(sender, id, new_price)),
                    ..self
                },
            ),
        }
    }

    /// A timeshare passes to `to`, taken off its owner's list and added to the
    /// end of `to`'s (the last id of the owner's list takes its place), and
    /// stops being for sale.
    pub open spec fn transfer_timeshare_to(self, id: H256, to: AccountId) -> Result<PalletModel, Error> {
        if !self.timeshares.contains_key(id) {
            Err(Error::TimeshareDoesntExist)
        } else {
            let t = self.timeshares[id];
            let prev = t.owner;
            let list = self.owned(prev);
            match list.index_of_first(id) {
                None => Err(Error::NotFoundInTimesharesOwned),
                Some(i) => {
                    let owned1 = self.timeshares_owned.insert(
                        prev,
                        list.update(i, list.last()).drop_last(),
                    );
                    let to_list = if owned1.contains_key(to) {
                        owned1[to]
                    } else {
                        Seq::empty()
                    };
                    Ok(
                        PalletModel {
                            timeshares: self.timeshares.insert(
                                id,
                                TimeshareModel { owner: to, price: None, ..t },
                            ),
                            timeshares_owned: owned1.insert(to, to_list.push(id)),
                            ..self
                        },
                    )
                },
            }
        }
    }

    /// The owner transfers a timeshare to another account.
    pub open spec fn transfer(self, from: AccountId, to: AccountId, id: H256) -> Result<PalletModel, Error> {
        match self.is_timeshare_owner(id, from) {
            Err(e) => Err(e),
            Ok(false) => Err(Error::NotTimeshareOwner),
            Ok(true) => if from == to {
                Err(Error::TransferToSelf)
            } else {
                match self.transfer_timeshare_to(id, to) {
                    Err(e) => Err(e),
                    Ok(s) => Ok(
                        PalletModel { events: s.events.push(Event::Transferred(from, to, id)), ..s },
                    ),
                }
            },
        }
    }

    /// Whether `buyer` may buy timeshare `id` for `bid_price`: the seller, or
    /// why not (the buyer's balance aside).
    pub open spec fn sale_terms(self, buyer: AccountId, id: H256, bid_price: Balance) -> Result<AccountId, Error> {
        if !self.timeshares.contains_key(id) {
            Err(Error::TimeshareDoesntExist)
        } else {
            let t = self.timeshares[id];
            if t.owner == buyer {
                Err(Error::BuyerIsTimeshareOwner)
            } else {
                match t.price {
                    None => Err(Error::NotForSale),
                    Some(ask) => if bid_price <= ask {
                        Err(Error::BidPriceTooLow)
                    } else {
                        Ok(t.owner)
                    },
                }
            }
        }
    }

    /// Whether `buyer`, whose free balance is `free_balance`, may buy timeshare
    /// `id` for `bid_price`: the seller, or why not.
    pub open spec fn purchase_terms(
        self,
        buyer: AccountId,
        id: H256,
        bid_price: Balance,
        free_balance: Balance,
    ) -> Result<AccountId, Error> {
        match self.sale_terms(buyer, id, bid_price) {
            Err(e) => Err(e),
            Ok(seller) => if free_balance < bid_price {
                Err(Error::NotEnoughFreeBalance)
            } else {
                Ok(seller)
            },
        }
    }

    /// What a call does to the storage, or why it is refused.
    pub open spec fn apply(self, c: Call) -> Result<PalletModel, Error> {
        match c {
            Call::RegisterHotel(sender) => self.register_hotel(sender),
            Call::SetHotelStatus(sender, hotel, status) => self.set_hotel_status(sender, hotel, status),
            Call::CreateTimeshare(sender, room_number, price, dna) => self.create_timeshare(
                sender,
                room_number,
                price,
                dna,
            ),
            Call::SetPrice(sender, id, price) => self.set_price(sender, id, price),
            Call::Transfer(from, to, id) => self.transfer(from, to, id),
            Call::Buy(buyer, id, bid_price) => match self.sale_terms(buyer, id, bid_price) {
                Err(e) => Err(e),
                Ok(seller) => self.complete_purchase(buyer, seller, id, bid_price),
            },
        }
    }

    /// A paid purchase: the timeshare passes to the buyer.
    pub open spec fn complete_purchase(
        self,
        buyer: AccountId,
        seller: AccountId,
        id: H256,
        bid_price: Balance,
    ) -> Result<PalletModel, Error> {
        match self.transfer_timeshare_to(id, buyer) {
            Err(e) => Err(e),
            Ok(s) => Ok(
                PalletModel { events: s.events.push(Event::Bought(buyer, seller, id, bid_price)), ..s },
            ),
        }
    }
}

} // verus!
