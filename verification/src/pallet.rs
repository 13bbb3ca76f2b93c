//! The registry itself: its storage, the calls that accounts make, and the
//! helpers that those calls share.
use vstd::prelude::*;
use crate::hashing::{dna_spec, gen_dna, room_hash};
use crate::laws::{
    lemma_insert_timeshare_wf, lemma_same_storage_wf, lemma_set_price_wf, lemma_transfer_timeshare_to_succeeds,
    lemma_transfer_timeshare_to_wf,
};
use crate::model::{minted, mint_outcome, outcome, PalletModel};
use crate::storage::{StorageKey, StorageMap};
use crate::types::{
    copy_bytes, copy_hashes, ensure_signed, AccountId, Balance, BlockNumber, DispatchError, Error,
    Event, ExistenceRequirement, H256, HotelStatus, Origin, Timeshare,
};

verus! {

/// What the chain provides to the registry: randomness, the block number and
/// a currency. The chain that hosts the registry implements it; the spec
/// functions say what its methods answer and what a transfer records.
pub trait Config: Sized {
    /// The random hash that `random` gives for `subject`, and its block.
    spec fn randomness(&self, subject: Seq<u8>) -> (H256, BlockNumber);

    /// The number of the current block.
    spec fn current_block(&self) -> BlockNumber;

    /// The balance of `who` that is free to spend.
    spec fn balance_of(&self, who: AccountId) -> Balance;

    /// Whether a transfer of `value` from `source` to `dest` would be made now,
    /// or why it would be refused.
    spec fn transfer_outcome(
        &self,
        source: AccountId,
        dest: AccountId,
        value: Balance,
        existence: ExistenceRequirement,
    ) -> Result<(), DispatchError>;

    /// The transfers made so far (source, destination, amount, existence
    /// requirement), oldest first.
    spec fn payments(&self) -> Seq<(AccountId, AccountId, Balance, ExistenceRequirement)>;

    /// A random hash for `subject`, and the block from which it is known to be random.
    fn random(&self, subject: &[u8]) -> (r: (H256, BlockNumber))
        ensures
            r == self.randomness(subject@),
    ;

    /// The number of the current block.
    fn block_number(&self) -> (r: BlockNumber)
        ensures
            r == self.current_block(),
    ;

    /// The balance of `who` that is free to spend.
    fn free_balance(&self, who: AccountId) -> (r: Balance)
        ensures
            r == self.balance_of(who),
    ;

    /// Moves `value` from `source` to `dest`. A transfer that is made is
    /// recorded once; a refused one changes nothing.
    fn transfer(
        &mut self,
        source: AccountId,
        dest: AccountId,
        value: Balance,
        existence: ExistenceRequirement,
    ) -> (r: Result<(), DispatchError>)
        ensures
            r == old(self).transfer_outcome(source, dest, value, existence),
            r is Ok ==> final(self).payments() == old(self).payments().push((source, dest, value, existence)),
            r is Err ==> *final(self) == *old(self),
    ;
}

/// The subject under which a timeshare's DNA is drawn: the ASCII text "dna".
pub open spec fn dna_subject() -> Seq<u8> {
    seq![100u8, 110u8, 97u8]
}

/// The DNA that a timeshare minted now on `env` gets.
pub open spec fn drawn_dna<E: Config>(env: &E) -> [u8; 16] {
    dna_spec(env.randomness(dna_subject()).0, env.current_block())
}

/// The registry's storage and the events it has reported.
pub struct Pallet {
    timeshares: StorageMap<H256, Timeshare>,
    rooms_timeshares: StorageMap<H256, Vec<H256>>,
    timeshares_owned: StorageMap<AccountId, Vec<H256>>,
    hotel_statuses: StorageMap<AccountId, HotelStatus>,
    admin_account_id: AccountId,
    max_timeshares_per_room: u32,
    events: Vec<Event>,
}

impl Pallet {
    pub closed spec fn view(&self) -> PalletModel {
        PalletModel {
            timeshares: self.timeshares@.map_values(|t: Timeshare| t@),
            rooms_timeshares: self.rooms_timeshares@.map_values(|v: Vec<H256>| v@),
            timeshares_owned: self.timeshares_owned@.map_values(|v: Vec<H256>| v@),
            hotel_statuses: self.hotel_statuses@,
            admin: self.admin_account_id,
            max_timeshares_per_room: self.max_timeshares_per_room,
            events: self.events@,
        }
    }

    /// The storage is well formed and consistent.
    pub closed spec fn wf(&self) -> bool {
        &&& self.maps_wf()
        &&& self.view().wf()
    }

    /// Each storage map holds at most one entry per key (the storage may
    /// still be inconsistent).
    pub closed spec fn maps_wf(&self) -> bool {
        &&& self.timeshares.wf()
        &&& self.rooms_timeshares.wf()
        &&& self.timeshares_owned.wf()
        &&& self.hotel_statuses.wf()
    }

    /// A well-formed registry is consistent.
    pub proof fn lemma_consistent(&self)
        requires
            self.wf(),
        ensures
            self@.wf(),
    {
    }

    /// An empty registry administered by `admin`.
    pub fn new(admin: AccountId, max_timeshares_per_room: u32) -> (r: Pallet)
        ensures
            r.wf(),
            r@ == PalletModel::empty(admin, max_timeshares_per_room),
    {
        let r = Pallet {
            timeshares: StorageMap::new(),
            rooms_timeshares: StorageMap::new(),
            timeshares_owned: StorageMap::new(),
            hotel_statuses: StorageMap::new(),
            admin_account_id: admin,
            max_timeshares_per_room,
            events: Vec::new(),
        };
        assert(r@.timeshares =~= Map::empty());
        assert(r@.rooms_timeshares =~= Map::empty());
        assert(r@.timeshares_owned =~= Map::empty());
        r
    }

    /// The timeshare `id`, if it exists.
    pub fn timeshares(&self, id: &H256) -> (r: Option<&Timeshare>)
        requires
            self.wf(),
        ensures
            match r {
                Some(t) => self@.timeshares.contains_key(*id) && t@ == self@.timeshares[*id],
                None => !self@.timeshares.contains_key(*id),
            },
    {
        self.timeshares.get(id)
    }

    /// The ids of the timeshares of the room with hash `room`.
    pub fn rooms_timeshares(&self, room: &H256) -> (r: Vec<H256>)
        requires
            self.wf(),
        ensures
            r@ == self@.room_timeshares(*room),
    {
        match self.rooms_timeshares.get(room) {
            Some(v) => copy_hashes(v),
            None => Vec::new(),
        }
    }

    /// The ids of the timeshares that `who` owns.
    pub fn timeshares_owned(&self, who: AccountId) -> (r: Vec<H256>)
        requires
            self.wf(),
        ensures
            r@ == self@.owned(who),
    {
        match self.timeshares_owned.get(&who) {
            Some(v) => copy_hashes(v),
            None => Vec::new(),
        }
    }

    /// The status of `hotel`, if it is registered.
    pub fn hotel_statuses(&self, hotel: AccountId) -> (r: Option<HotelStatus>)
        requires
            self.wf(),
        ensures
            r == (if self@.hotel_statuses.contains_key(hotel) {
                Some(self@.hotel_statuses[hotel])
            } else {
                None
            }),
    {
        match self.hotel_statuses.get(&hotel) {
            Some(status) => Some(*status),
            None => None,
        }
    }

    /// The account that administers the registry.
    pub fn admin_key(&self) -> (r: AccountId)
        ensures
            r == self@.admin,
    {
        self.admin_account_id
    }

    /// How many timeshares a room may have.
    pub fn max_timeshares_per_room(&self) -> (r: u32)
        ensures
            r == self@.max_timeshares_per_room,
    {
        self.max_timeshares_per_room
    }

    /// The events reported so far, oldest first.
    pub fn events(&self) -> (r: &Vec<Event>)
        ensures
            r@ == self@.events,
    {
        &self.events
    }

    /// Whether `acct` owns the timeshare `timeshare_id`.
    pub fn is_timeshare_owner(&self, timeshare_id: &H256, acct: AccountId) -> (r: Result<bool, Error>)
        requires
            self.wf(),
        ensures
            r == self@.is_timeshare_owner(*timeshare_id, acct),
    {
        match self.timeshares.get(timeshare_id) {
            Some(timeshare) => Ok(timeshare.owner == acct),
            None => Err(Error::TimeshareDoesntExist),
        }
    }

    /// Whether `hotel` is active.
    pub fn is_active(&self, hotel: AccountId) -> (r: Result<bool, Error>)
        requires
            self.wf(),
        ensures
            r == self@.is_active(hotel),
    {
        match self.hotel_statuses.get(&hotel) {
            Some(status) => match status {
                HotelStatus::Active => Ok(true),
                _ => Ok(false),
            },
            None => Err(Error::HotelNotRegistered),
        }
    }

    /// A hotel asks to be registered; it becomes pending.
    pub fn register_hotel(&mut self, origin: Origin) -> (r: Result<(), DispatchError>)
        requires
            old(self).wf(),
        ensures
            final(self).wf(),
            match origin {
                Origin::Signed(sender) => outcome(
                    old(self)@,
                    old(self)@.register_hotel(sender),
                    r,
                    final(self)@,
                ),
                _ => r == Err::<(), DispatchError>(DispatchError::BadOrigin) && final(self)@ == old(self)@,
            },
    {
        let sender = match ensure_signed(origin) {
            Ok(who) => who,
            Err(e) => return Err(e),
        };
        if self.hotel_statuses.contains_key(&sender) {
            return Err(DispatchError::Module(Error::HotelAlreadyPending));
        }
        self.hotel_statuses.insert(sender, HotelStatus::Pending);
        proof {
            lemma_same_storage_wf(old(self)@, self@);
        }
        Ok(())
    }

    /// The administrator sets a hotel's status; `Active` lets it create timeshares.
    pub fn set_hotel_status(&mut self, origin: Origin, hotel: AccountId, status: HotelStatus) -> (r: Result<(), DispatchError>)
        requires
            old(self).wf(),
        ensures
            final(self).wf(),
            match origin {
                Origin::Signed(sender) => outcome(
                    old(self)@,
                    old(self)@.set_hotel_status(sender, hotel, status),
                    r,
                    final(self)@,
                ),
                _ => r == Err::<(), DispatchError>(DispatchError::BadOrigin) && final(self)@ == old(self)@,
            },
    {
        let sender = match ensure_signed(origin) {
            Ok(who) => who,
            Err(e) => return Err(e),
        };
        if sender != self.admin_account_id {
            return Err(DispatchError::Module(Error::Forbidden));
        }
        self.hotel_statuses.insert(hotel, status);
        proof {
            lemma_same_storage_wf(old(self)@, self@);
        }
        Ok(())
    }

    /// A DNA drawn from the chain's randomness for the current block.
    pub(crate) fn fresh_dna<E: Config>(env: &E) -> (r: [u8; 16])
        ensures
            r == drawn_dna(env),
    {
        // The randomness subject is the ASCII text "dna".
        let subject: [u8; 3] = [100, 110, 97];
        assert(subject@ =~= dna_subject());
        let (random_hash, _) = env.random(subject.as_slice());
        let block_number = env.block_number();
        gen_dna(random_hash, block_number)
    }

    /// Stores the new timeshare `timeshare` under id `timeshare_id`, listed
    /// last among its owner's and its room's timeshares, and gives the id back.
    pub fn insert_timeshare(&mut self, timeshare: Timeshare, timeshare_id: H256) -> (r: Result<H256, Error>)
        requires
            old(self).wf(),
        ensures
            final(self).wf(),
            mint_outcome(old(self)@, old(self)@.insert_timeshare(timeshare@, timeshare_id), r, final(self)@),
    {
        let ghost t = timeshare@;
        let owner = timeshare.owner;
        let rh = timeshare.room_hash;
        if self.timeshares.contains_key(&timeshare_id) {
            return Err(Error::MintingDuplicateTimeshare);
        }
        let mut room_list = match self.rooms_timeshares.get(&rh) {
            Some(v) => copy_hashes(v),
            None => Vec::new(),
        };
        if room_list.len() >= self.max_timeshares_per_room as usize {
            return Err(Error::MaximumTimesharesForRoomReached);
        }
        room_list.push(timeshare_id);
        self.rooms_timeshares.insert(rh, room_list);
        let mut owned = match self.timeshares_owned.get(&owner) {
            Some(v) => copy_hashes(v),
            None => Vec::new(),
        };
        owned.push(timeshare_id);
        self.timeshares_owned.insert(owner, owned);
        self.timeshares.insert(timeshare_id, timeshare);
        proof {
            let s = old(self)@.insert_timeshare(t, timeshare_id)->Ok_0.0;
            assert(self@.timeshares =~= s.timeshares);
            assert(self@.rooms_timeshares =~= s.rooms_timeshares);
            assert(self@.timeshares_owned =~= s.timeshares_owned);
            lemma_insert_timeshare_wf(old(self)@, t, timeshare_id);
        }
        Ok(timeshare_id)
    }

    /// Mints a timeshare with DNA `dna` for `owner`'s room `room_number`, and
    /// gives its id: the hash of the timeshare's encoding.
    pub fn mint_with_dna(
        &mut self,
        owner: AccountId,
        room_number: Vec<u8>,
        price: Option<Balance>,
        dna: [u8; 16],
    ) -> (r: Result<H256, Error>)
        requires
            old(self).wf(),
            room_number.len() <= u32::MAX,
        ensures
            final(self).wf(),
            mint_outcome(old(self)@, old(self)@.mint(owner, room_number@, price, dna), r, final(self)@),
    {
        let ghost rn = room_number@;
        let rh = room_hash(owner, &room_number);
        let timeshare = Timeshare {
            price,
            owner,
            hotel: owner,
            room_number,
            dna,
            room_hash: rh,
        };
        let timeshare_id = timeshare.id();
        assert(timeshare@ == minted(owner, rn, price, dna));
        self.insert_timeshare(timeshare, timeshare_id)
    }

    /// Mints a timeshare for `owner`'s room `room_number` with a DNA drawn from
    /// the chain's randomness, and gives its id.
    pub fn mint<E: Config>(
        &mut self,
        env: &E,
        owner: AccountId,
        room_number: Vec<u8>,
        price: Option<Balance>,
    ) -> (r: Result<H256, Error>)
        requires
            old(self).wf(),
            room_number.len() <= u32::MAX,
        ensures
            final(self).wf(),
            mint_outcome(old(self)@, old(self)@.mint(owner, room_number@, price, drawn_dna(env)), r, final(self)@),
    {
        let dna = Self::fresh_dna(env);
        self.mint_with_dna(owner, room_number, price, dna)
    }

    /// An active hotel creates a timeshare for one of its rooms.
    pub fn create_timeshare<E: Config>(
        &mut self,
        env: &E,
        origin: Origin,
        room_number: Vec<u8>,
        price: Option<Balance>,
    ) -> (r: Result<(), DispatchError>)
        requires
            old(self).wf(),
            room_number.len() <= u32::MAX,
        ensures
            final(self).wf(),
            match origin {
                Origin::Signed(sender) => outcome(
                    old(self)@,
                    old(self)@.create_timeshare(sender, room_number@, price, drawn_dna(env)),
                    r,
                    final(self)@,
                ),
                _ => r == Err::<(), DispatchError>(DispatchError::BadOrigin) && final(self)@ == old(self)@,
            },
    {
        let sender = match ensure_signed(origin) {
            Ok(who) => who,
            Err(e) => return Err(e),
        };
        match self.is_active(sender) {
            Ok(true) => {},
            Ok(false) => return Err(DispatchError::Module(Error::HotelNotActive)),
            Err(e) => return Err(DispatchError::Module(e)),
        }
        let ghost rn = room_number@;
        let dna = Self::fresh_dna(env);
        let timeshare_id = match self.mint_with_dna(sender, room_number, price, dna) {
            Ok(id) => id,
            Err(e) => {
                assert(outcome(old(self)@, old(self)@.create_timeshare(sender, rn, price, dna), Err(DispatchError::Module(e)), self@));
                return Err(DispatchError::Module(e));
            },
        };
        self.events.push(Event::Created(sender, timeshare_id));
        proof {
            lemma_same_storage_wf(old(self)@.mint(sender, rn, price, dna)->Ok_0.0, self@);
            assert(outcome(old(self)@, old(self)@.create_timeshare(sender, rn, price, dna), Ok(()), self@));
        }
        Ok(())
    }

    /// The owner sets a timeshare's price (`None`: not for sale).
    pub fn set_price(&mut self, origin: Origin, timeshare_id: H256, new_price: Option<Balance>) -> (r: Result<(), DispatchError>)
        requires
            old(self).wf(),
        ensures
            final(self).wf(),
            match origin {
                Origin::Signed(sender) => outcome(
                    old(self)@,
                    old(self)@.set_price(sender, timeshare_id, new_price),
                    r,
                    final(self)@,
                ),
                _ => r == Err::<(), DispatchError>(DispatchError::BadOrigin) && final(self)@ == old(self)@,
            },
    {
        let sender = match ensure_signed(origin) {
            Ok(who) => who,
            Err(e) => return Err(e),
        };
        match self.is_timeshare_owner(&timeshare_id, sender) {
            Ok(true) => {},
            Ok(false) => return Err(DispatchError::Module(Error::NotTimeshareOwner)),
            Err(e) => return Err(DispatchError::Module(e)),
        }
        let updated = match self.timeshares.get(&timeshare_id) {
            Some(t) => Timeshare {
                hotel: t.hotel,
                room_number: copy_bytes(&t.room_number),
                price: new_price,
                owner: t.owner,
                dna: t.dna,
                room_hash: t.room_hash,
            },
            None => return Err(DispatchError::Module(Error::TimeshareDoesntExist)),
        };
        self.timeshares.insert(timeshare_id, updated);
        self.events.push(Event::PriceSet(sender, timeshare_id, new_price));
        proof {
            let s = old(self)@.set_price(sender, timeshare_id, new_price)->Ok_0;
            assert(self@.timeshares =~= s.timeshares);
            lemma_set_price_wf(old(self)@, sender, timeshare_id, new_price);
        }
        Ok(())
    }

    /// Hands timeshare `timeshare_id` over to `to`: it leaves its owner's list,
    /// joins `to`'s, and stops being for sale.
    /// On inconsistent storage it does what the storage allows: a timeshare
    /// missing from its owner's list is refused with `NotFoundInTimesharesOwned`
    /// and nothing changes.
    pub fn transfer_timeshare_to(&mut self, timeshare_id: &H256, to: AccountId) -> (r: Result<(), Error>)
        requires
            old(self).maps_wf(),
        ensures
            final(self).maps_wf(),
            old(self).wf() ==> final(self).wf(),
            match old(self)@.transfer_timeshare_to(*timeshare_id, to) {
                Ok(s) => r == Ok::<(), Error>(()) && final(self)@ == s,
                Err(e) => r == Err::<(), Error>(e) && final(self)@ == old(self)@,
            },
            old(self).wf() ==> (r is Ok <==> old(self)@.timeshares.contains_key(*timeshare_id)),
    {
        proof {
            if old(self).wf() && old(self)@.timeshares.contains_key(*timeshare_id) {
                lemma_transfer_timeshare_to_succeeds(old(self)@, *timeshare_id, to);
            }
        }
        let id = *timeshare_id;
        let updated = match self.timeshares.get(&id) {
            Some(t) => Timeshare {
                hotel: t.hotel,
                room_number: copy_bytes(&t.room_number),
                price: None,
                owner: to,
                dna: t.dna,
                room_hash: t.room_hash,
            },
            None => return Err(Error::TimeshareDoesntExist),
        };
        let prev_owner = match self.timeshares.get(&id) {
            Some(t) => t.owner,
            None => return Err(Error::TimeshareDoesntExist),
        };
        let mut owned = match self.timeshares_owned.get(&prev_owner) {
            Some(v) => copy_hashes(v),
            None => Vec::new(),
        };
        let ghost l = owned@;
        let index = match position_of(&owned, &id) {
            Some(i) => i,
            None => {
                proof {
                    l.index_of_first_ensures(id);
                }
                return Err(Error::NotFoundInTimesharesOwned);
            },
        };
        proof {
            l.index_of_first_ensures(id);
            let j = l.index_of_first(id)->Some_0;
            assert(j == index);
        }
        owned.swap_remove(index);
        self.timeshares_owned.insert(prev_owner, owned);
        self.timeshares.insert(id, updated);
        let mut to_list = match self.timeshares_owned.get(&to) {
            Some(v) => copy_hashes(v),
            None => Vec::new(),
        };
        to_list.push(id);
        self.timeshares_owned.insert(to, to_list);
        proof {
            let s = old(self)@.transfer_timeshare_to(id, to)->Ok_0;
            assert(self@.timeshares =~= s.timeshares);
            assert(self@.timeshares_owned =~= s.timeshares_owned);
            if old(self).wf() {
                lemma_transfer_timeshare_to_wf(old(self)@, id, to);
            }
        }
        Ok(())
    }

    /// The owner transfers a timeshare to another account.
    pub fn transfer(&mut self, origin: Origin, to: AccountId, timeshare_id: H256) -> (r: Result<(), DispatchError>)
        requires
            old(self).wf(),
        ensures
            final(self).wf(),
            match origin {
                Origin::Signed(from) => outcome(
                    old(self)@,
                    old(self)@.transfer(from, to, timeshare_id),
                    r,
                    final(self)@,
                ),
                _ => r == Err::<(), DispatchError>(DispatchError::BadOrigin) && final(self)@ == old(self)@,
            },
    {
        let from = match ensure_signed(origin) {
            Ok(who) => who,
            Err(e) => return Err(e),
        };
        match self.is_timeshare_owner(&timeshare_id, from) {
            Ok(true) => {},
            Ok(false) => return Err(DispatchError::Module(Error::NotTimeshareOwner)),
            Err(e) => return Err(DispatchError::Module(e)),
        }
        if from == to {
            return Err(DispatchError::Module(Error::TransferToSelf));
        }
        match self.transfer_timeshare_to(&timeshare_id, to) {
            Ok(()) => {},
            Err(e) => return Err(DispatchError::Module(e)),
        }
        let ghost mid = self@;
        self.events.push(Event::Transferred(from, to, timeshare_id));
        proof {
            lemma_same_storage_wf(mid, self@);
        }
        Ok(())
    }

    /// Whether `buyer`, whose free balance is `free_balance`, may buy timeshare
    /// `timeshare_id` for `bid_price`: the seller to pay, or why not.
    pub fn purchase_terms(
        &self,
        buyer: AccountId,
        timeshare_id: &H256,
        bid_price: Balance,
        free_balance: Balance,
    ) -> (r: Result<AccountId, Error>)
        requires
            self.wf(),
        ensures
            r == self@.purchase_terms(buyer, *timeshare_id, bid_price, free_balance),
    {
        let t = match self.timeshares.get(timeshare_id) {
            Some(t) => t,
            None => return Err(Error::TimeshareDoesntExist),
        };
        if t.owner == buyer {
            return Err(Error::BuyerIsTimeshareOwner);
        }
        match t.price {
            Some(ask_price) => {
                if bid_price <= ask_price {
                    return Err(Error::BidPriceTooLow);
                }
            },
            None => return Err(Error::NotForSale),
        }
        if free_balance < bid_price {
            return Err(Error::NotEnoughFreeBalance);
        }
        Ok(t.owner)
    }

    /// Finishes a purchase once the currency transfer from `buyer` to `seller`
    /// has been attempted: a refused payment leaves everything as it was; a
    /// made one hands the timeshare to the buyer.
    pub fn settle_purchase(
        &mut self,
        buyer: AccountId,
        seller: AccountId,
        timeshare_id: H256,
        bid_price: Balance,
        payment: Result<(), DispatchError>,
    ) -> (r: Result<(), DispatchError>)
        requires
            old(self).wf(),
        ensures
            final(self).wf(),
            match payment {
                Err(e) => r == Err::<(), DispatchError>(e) && final(self)@ == old(self)@,
                Ok(()) => outcome(
                    old(self)@,
                    old(self)@.complete_purchase(buyer, seller, timeshare_id, bid_price),
                    r,
                    final(self)@,
                ),
            },
            payment is Ok && old(self)@.timeshares.contains_key(timeshare_id) ==> r is Ok,
    {
        proof {
            if old(self)@.timeshares.contains_key(timeshare_id) {
                lemma_transfer_timeshare_to_succeeds(old(self)@, timeshare_id, buyer);
            }
        }
        match payment {
            Ok(()) => {},
            Err(e) => return Err(e),
        }
        match self.transfer_timeshare_to(&timeshare_id, buyer) {
            Ok(()) => {},
            Err(e) => return Err(DispatchError::Module(e)),
        }
        let ghost mid = self@;
        self.events.push(Event::Bought(buyer, seller, timeshare_id, bid_price));
        proof {
            lemma_same_storage_wf(mid, self@);
        }
        Ok(())
    }

    /// A buyer pays its bid, above the timeshare's asking price, to the owner
    /// and takes the timeshare over. Nothing is paid unless the purchase goes
    /// through, and nothing changes if the payment is refused.
    pub fn buy_timeshare<E: Config>(
        &mut self,
        env: &mut E,
        origin: Origin,
        timeshare_id: H256,
        bid_price: Balance,
    ) -> (r: Result<(), DispatchError>)
        requires
            old(self).wf(),
        ensures
            final(self).wf(),
            match origin {
                Origin::Signed(buyer) => match old(self)@.sale_terms(buyer, timeshare_id, bid_price) {
                    Err(e) => {
                        &&& r == Err::<(), DispatchError>(DispatchError::Module(e))
                        &&& final(self)@ == old(self)@
                        &&& *final(env) == *old(env)
                    },
                    Ok(seller) => if old(env).balance_of(buyer) < bid_price {
                        &&& r == Err::<(), DispatchError>(DispatchError::Module(Error::NotEnoughFreeBalance))
                        &&& final(self)@ == old(self)@
                        &&& *final(env) == *old(env)
                    } else {
                        match old(env).transfer_outcome(buyer, seller, bid_price, ExistenceRequirement::KeepAlive) {
                            Ok(()) => {
                                &&& r == Ok::<(), DispatchError>(())
                                &&& final(env).payments() == old(env).payments().push(
                                    (buyer, seller, bid_price, ExistenceRequirement::KeepAlive),
                                )
                                &&& final(self)@ == old(self)@.complete_purchase(
                                    buyer,
                                    seller,
                                    timeshare_id,
                                    bid_price,
                                )->Ok_0
                            },
                            Err(e) => {
                                &&& r == Err::<(), DispatchError>(e)
                                &&& final(self)@ == old(self)@
                                &&& *final(env) == *old(env)
                            },
                        }
                    },
                },
                _ => {
                    &&& r == Err::<(), DispatchError>(DispatchError::BadOrigin)
                    &&& final(self)@ == old(self)@
                    &&& *final(env) == *old(env)
                },
            },
    {
        let buyer = match ensure_signed(origin) {
            Ok(who) => who,
            Err(e) => return Err(e),
        };
        let free_balance = env.free_balance(buyer);
        let seller = match self.purchase_terms(buyer, &timeshare_id, bid_price, free_balance) {
            Ok(seller) => seller,
            Err(e) => return Err(DispatchError::Module(e)),
        };
        let payment = env.transfer(buyer, seller, bid_price, ExistenceRequirement::KeepAlive);
        self.settle_purchase(buyer, seller, timeshare_id, bid_price, payment)
    }
}

/// The first index at which `x` occurs in `v`, if it occurs.
fn position_of(v: &Vec<H256>, x: &H256) -> (r: Option<usize>)
    ensures
        match r {
            Some(i) => i < v.len() && v@[i as int] == *x && forall|j: int| 0 <= j < i ==> v@[j] != *x,
            None => !v@.contains(*x),
        },
{
    let mut i: usize = 0;
    while i < v.len()
        invariant
            i <= v.len(),
            forall|j: int| 0 <= j < i ==> v@[j] != *x,
        decreases v.len() - i,
    {
        if v[i].key_eq(x) {
            return Some(i);
        }
        i = i + 1;
    }
    None
}

} // verus!
