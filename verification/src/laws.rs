//! What every operation keeps, and what the operations promise together.
use vstd::prelude::*;
use crate::model::{minted, run, Call, PalletModel};
use crate::hashing::{room_hash_spec, timeshare_id_spec};
use crate::types::{AccountId, Balance, Error, Event, H256, HotelStatus, TimeshareModel};

verus! {

/// Removing the entry at `i` of a list without duplicates, by moving the last
/// entry into its place, leaves exactly the other entries, still without duplicates.
pub proof fn lemma_swap_remove(l: Seq<H256>, i: int)
    requires
        l.no_duplicates(),
        0 <= i < l.len(),
    ensures
        l.update(i, l.last()).drop_last().no_duplicates(),
        forall|x: H256|
            #[trigger] l.update(i, l.last()).drop_last().contains(x) <==> (l.contains(x) && x != l[i]),
        l.update(i, l.last()).drop_last().len() == l.len() - 1,
{
    let l2 = l.update(i, l.last()).drop_last();
    let n = l.len() - 1;
    assert forall|a: int| 0 <= a < l2.len() implies #[trigger] l2[a] == (if a == i { l[n] } else { l[a] }) by {}
    assert forall|x: H256| #[trigger] l2.contains(x) <==> (l.contains(x) && x != l[i]) by {
        if l2.contains(x) {
            let a = choose|a: int| 0 <= a < l2.len() && l2[a] == x;
            if a == i {
                assert(l[n] == x);
            } else {
                assert(l[a] == x);
            }
        }
        if l.contains(x) && x != l[i] {
            let a = choose|a: int| 0 <= a < l.len() && l[a] == x;
            if a == n {
                assert(l2[i] == x);
            } else {
                assert(l2[a] == x);
            }
        }
    }
}

/// A registered timeshare of a consistent registry can always be handed over.
pub proof fn lemma_transfer_timeshare_to_succeeds(s: PalletModel, id: H256, to: AccountId)
    requires
        s.wf(),
        s.timeshares.contains_key(id),
    ensures
        s.transfer_timeshare_to(id, to) is Ok,
{
    let t = s.timeshares[id];
    assert(s.owned(t.owner).contains(id));
    s.owned(t.owner).index_of_first_ensures(id);
}

/// In a consistent registry, a timeshare is listed under its owner and under
/// no other account, and under its room and no other room.
pub proof fn lemma_listed_once(s: PalletModel, id: H256, a: AccountId, room: H256)
    requires
        s.wf(),
    ensures
        s.owned(a).contains(id) <==> (s.timeshares.contains_key(id) && s.timeshares[id].owner == a),
        s.room_timeshares(room).contains(id) <==> (s.timeshares.contains_key(id)
            && s.timeshares[id].room_hash == room),
{
    if s.owned(a).contains(id) {
        let k = choose|k: int| 0 <= k < s.owned(a).len() && s.owned(a)[k] == id;
        assert(s.timeshares.contains_key(s.owned(a)[k]));
    }
    if s.room_timeshares(room).contains(id) {
        let k = choose|k: int| 0 <= k < s.room_timeshares(room).len() && s.room_timeshares(room)[k] == id;
        assert(s.timeshares.contains_key(s.room_timeshares(room)[k]));
    }
}

/// Handing a timeshare over keeps the registry consistent.
pub proof fn lemma_transfer_timeshare_to_wf(s: PalletModel, id: H256, to: AccountId)
    requires
        s.wf(),
        s.transfer_timeshare_to(id, to) is Ok,
    ensures
        s.transfer_timeshare_to(id, to)->Ok_0.wf(),
{
    let s2 = s.transfer_timeshare_to(id, to)->Ok_0;
    let t = s.timeshares[id];
    let prev = t.owner;
    let l = s.owned(prev);
    l.index_of_first_ensures(id);
    let i = l.index_of_first(id)->Some_0;
    let l2 = l.update(i, l.last()).drop_last();
    assert(l.no_duplicates());
    lemma_swap_remove(l, i);
    let base = if to == prev { l2 } else { s.owned(to) };
    assert(s2.owned(to) == base.push(id));
    assert(!base.contains(id)) by {
        if to != prev && base.contains(id) {
            let a = choose|a: int| 0 <= a < base.len() && base[a] == id;
            assert(s.timeshares[s.owned(to)[a]].owner == to);
        }
    }
    assert forall|a: AccountId| #[trigger] s2.owned(a) == (if a == to {
        base.push(id)
    } else if a == prev {
        l2
    } else {
        s.owned(a)
    }) by {}
    assert forall|x: H256| #[trigger] s2.timeshares.contains_key(x) implies s2.owned(
        s2.timeshares[x].owner,
    ).contains(x) by {
        if x == id {
            assert(s2.owned(to)[base.len() as int] == id);
        } else {
            let a = s.timeshares[x].owner;
            assert(s.owned(a).contains(x));
            if a == to {
                assert(base.contains(x));
                let k = choose|k: int| 0 <= k < base.len() && base[k] == x;
                assert(s2.owned(to)[k] == x);
            } else if a == prev {
                assert(l2.contains(x));
            }
        }
    }
    assert forall|a: AccountId| #[trigger] s2.owned(a).no_duplicates() by {
        if a == to {
            let b = base.push(id);
            assert forall|p: int, q: int| 0 <= p < b.len() && 0 <= q < b.len() && p != q implies b[p] != b[q] by {
                if p == base.len() {
                    assert(!base.contains(id));
                    assert(base[q] == b[q]);
                } else if q == base.len() {
                    assert(base[p] == b[p]);
                } else {
                    assert(b[p] == base[p] && b[q] == base[q]);
                    assert(s.owned(to).no_duplicates());
                }
            }
        } else if a != prev {
            assert(s.owned(a).no_duplicates());
        }
    }
    assert forall|a: AccountId, k: int| 0 <= k < s2.owned(a).len() implies {
        &&& s2.timeshares.contains_key(#[trigger] s2.owned(a)[k])
        &&& s2.timeshares[s2.owned(a)[k]].owner == a
    } by {
        let x = s2.owned(a)[k];
        if a == to && k == base.len() {
        } else {
            let ll = if a == to { base } else if a == prev { l2 } else { s.owned(a) };
            assert(x == ll[k]);
            assert(ll.contains(x));
            if a == to && to != prev {
                assert(s.timeshares[s.owned(to)[k]].owner == to);
            } else if a == prev {
                let j = choose|j: int| 0 <= j < l.len() && l[j] == x;
                assert(s.timeshares[l[j]].owner == prev);
            } else {
                assert(s.timeshares[s.owned(a)[k]].owner == a);
            }
        }
    }
    assert forall|x: H256| #[trigger] s2.timeshares.contains_key(x) implies s2.room_timeshares(
        s2.timeshares[x].room_hash,
    ).contains(x) by {
        assert(s.timeshares.contains_key(x));
    }
    assert forall|room: H256, k: int| 0 <= k < s2.room_timeshares(room).len() implies {
        &&& s2.timeshares.contains_key(#[trigger] s2.room_timeshares(room)[k])
        &&& s2.timeshares[s2.room_timeshares(room)[k]].room_hash == room
    } by {
        assert(s.timeshares.contains_key(s.room_timeshares(room)[k]));
    }
    assert forall|room: H256| #[trigger] s2.room_timeshares(room).no_duplicates() by {
        assert(s.room_timeshares(room).no_duplicates());
    }
    assert forall|room: H256| #[trigger] s2.room_timeshares(room).len() <= s2.max_timeshares_per_room by {
        assert(s.room_timeshares(room).len() <= s.max_timeshares_per_room);
    }
}

/// Storing a new timeshare keeps the registry consistent.
pub proof fn lemma_insert_timeshare_wf(s: PalletModel, t: TimeshareModel, id: H256)
    requires
        s.wf(),
        s.insert_timeshare(t, id) is Ok,
    ensures
        s.insert_timeshare(t, id)->Ok_0.0.wf(),
{
    let s2 = s.insert_timeshare(t, id)->Ok_0.0;
    let owner = t.owner;
    let room = t.room_hash;
    assert(!s.timeshares.contains_key(id));
    assert forall|a: AccountId| !(#[trigger] s.owned(a)).contains(id) by {
        if s.owned(a).contains(id) {
            let k = choose|k: int| 0 <= k < s.owned(a).len() && s.owned(a)[k] == id;
            assert(s.timeshares.contains_key(s.owned(a)[k]));
        }
    }
    assert forall|r: H256| !(#[trigger] s.room_timeshares(r)).contains(id) by {
        if s.room_timeshares(r).contains(id) {
            let k = choose|k: int| 0 <= k < s.room_timeshares(r).len() && s.room_timeshares(r)[k] == id;
            assert(s.timeshares.contains_key(s.room_timeshares(r)[k]));
        }
    }
    assert forall|a: AccountId| #[trigger] s2.owned(a) == (if a == owner {
        s.owned(owner).push(id)
    } else {
        s.owned(a)
    }) by {}
    assert forall|r: H256| #[trigger] s2.room_timeshares(r) == (if r == room {
        s.room_timeshares(room).push(id)
    } else {
        s.room_timeshares(r)
    }) by {}
    assert forall|x: H256| #[trigger] s2.timeshares.contains_key(x) implies s2.owned(
        s2.timeshares[x].owner,
    ).contains(x) by {
        if x == id {
            assert(s2.owned(owner)[s.owned(owner).len() as int] == id);
        } else {
            let a = s.timeshares[x].owner;
            assert(s.owned(a).contains(x));
            let k = choose|k: int| 0 <= k < s.owned(a).len() && s.owned(a)[k] == x;
            assert(s2.owned(a)[k] == x);
        }
    }
    assert forall|x: H256| #[trigger] s2.timeshares.contains_key(x) implies s2.room_timeshares(
        s2.timeshares[x].room_hash,
    ).contains(x) by {
        if x == id {
            assert(s2.room_timeshares(room)[s.room_timeshares(room).len() as int] == id);
        } else {
            let r = s.timeshares[x].room_hash;
            assert(s.room_timeshares(r).contains(x));
            let k = choose|k: int| 0 <= k < s.room_timeshares(r).len() && s.room_timeshares(r)[k] == x;
            assert(s2.room_timeshares(r)[k] == x);
        }
    }
    assert forall|a: AccountId| #[trigger] s2.owned(a).no_duplicates() by {
        assert(s.owned(a).no_duplicates());
        if a == owner {
            let b = s2.owned(a);
            let n = s.owned(a).len() as int;
            assert forall|p: int, q: int| 0 <= p < b.len() && 0 <= q < b.len() && p != q implies b[p] != b[q] by {
                if p == n {
                    assert(b[q] == s.owned(a)[q]);
                } else if q == n {
                    assert(b[p] == s.owned(a)[p]);
                } else {
                    assert(b[p] == s.owned(a)[p] && b[q] == s.owned(a)[q]);
                }
            }
        }
    }
    assert forall|r: H256| #[trigger] s2.room_timeshares(r).no_duplicates() by {
        assert(s.room_timeshares(r).no_duplicates());
        if r == room {
            let b = s2.room_timeshares(r);
            let n = s.room_timeshares(r).len() as int;
            assert forall|p: int, q: int| 0 <= p < b.len() && 0 <= q < b.len() && p != q implies b[p] != b[q] by {
                if p == n {
                    assert(b[q] == s.room_timeshares(r)[q]);
                } else if q == n {
                    assert(b[p] == s.room_timeshares(r)[p]);
                } else {
                    assert(b[p] == s.room_timeshares(r)[p] && b[q] == s.room_timeshares(r)[q]);
                }
            }
        }
    }
    assert forall|r: H256| #[trigger] s2.room_timeshares(r).len() <= s2.max_timeshares_per_room by {
        assert(s.room_timeshares(r).len() <= s.max_timeshares_per_room);
    }
    assert forall|a: AccountId, k: int| 0 <= k < s2.owned(a).len() implies {
        &&& s2.timeshares.contains_key(#[trigger] s2.owned(a)[k])
        &&& s2.timeshares[s2.owned(a)[k]].owner == a
    } by {
        if !(a == owner && k == s.owned(owner).len()) {
            assert(s2.owned(a)[k] == s.owned(a)[k]);
            assert(s.timeshares.contains_key(s.owned(a)[k]));
        }
    }
    assert forall|r: H256, k: int| 0 <= k < s2.room_timeshares(r).len() implies {
        &&& s2.timeshares.contains_key(#[trigger] s2.room_timeshares(r)[k])
        &&& s2.timeshares[s2.room_timeshares(r)[k]].room_hash == r
    } by {
        if !(r == room && k == s.room_timeshares(room).len()) {
            assert(s2.room_timeshares(r)[k] == s.room_timeshares(r)[k]);
            assert(s.timeshares.contains_key(s.room_timeshares(r)[k]));
        }
    }
}

/// Setting a price keeps the registry consistent.
pub proof fn lemma_set_price_wf(s: PalletModel, sender: AccountId, id: H256, new_price: Option<Balance>)
    requires
        s.wf(),
        s.set_price(sender, id, new_price) is Ok,
    ensures
        s.set_price(sender, id, new_price)->Ok_0.wf(),
{
    let s2 = s.set_price(sender, id, new_price)->Ok_0;
    assert forall|a: AccountId| #[trigger] s2.owned(a) == s.owned(a) by {}
    assert forall|r: H256| #[trigger] s2.room_timeshares(r) == s.room_timeshares(r) by {}
    assert forall|x: H256| #[trigger] s2.timeshares.contains_key(x) implies s2.owned(
        s2.timeshares[x].owner,
    ).contains(x) && s2.room_timeshares(s2.timeshares[x].room_hash).contains(x) by {
        assert(s.timeshares.contains_key(x));
    }
    assert forall|a: AccountId, k: int| 0 <= k < s2.owned(a).len() implies {
        &&& s2.timeshares.contains_key(#[trigger] s2.owned(a)[k])
        &&& s2.timeshares[s2.owned(a)[k]].owner == a
    } by {
        assert(s.timeshares.contains_key(s.owned(a)[k]));
    }
    assert forall|r: H256, k: int| 0 <= k < s2.room_timeshares(r).len() implies {
        &&& s2.timeshares.contains_key(#[trigger] s2.room_timeshares(r)[k])
        &&& s2.timeshares[s2.room_timeshares(r)[k]].room_hash == r
    } by {
        assert(s.timeshares.contains_key(s.room_timeshares(r)[k]));
    }
    assert forall|a: AccountId| #[trigger] s2.owned(a).no_duplicates() by {
        assert(s.owned(a).no_duplicates());
    }
    assert forall|r: H256| #[trigger] s2.room_timeshares(r).no_duplicates() by {
        assert(s.room_timeshares(r).no_duplicates());
    }
    assert forall|r: H256| #[trigger] s2.room_timeshares(r).len() <= s2.max_timeshares_per_room by {
        assert(s.room_timeshares(r).len() <= s.max_timeshares_per_room);
    }
}

/// A change that leaves the timeshares, the lists and the maximum alone keeps
/// the registry consistent.
pub proof fn lemma_same_storage_wf(s: PalletModel, s2: PalletModel)
    requires
        s.wf(),
        s2.timeshares == s.timeshares,
        s2.rooms_timeshares == s.rooms_timeshares,
        s2.timeshares_owned == s.timeshares_owned,
        s2.max_timeshares_per_room == s.max_timeshares_per_room,
    ensures
        s2.wf(),
{
    assert forall|a: AccountId| #[trigger] s2.owned(a) == s.owned(a) by {}
    assert forall|r: H256| #[trigger] s2.room_timeshares(r) == s.room_timeshares(r) by {}
}

/// Handing a timeshare over makes `to` its owner, takes it off the market,
/// puts it at the end of `to`'s list and off the previous owner's, and leaves
/// the set of timeshares, the rooms and every other account's list alone.
pub proof fn lemma_transfer_timeshare_to_effect(s: PalletModel, id: H256, to: AccountId)
    requires
        s.wf(),
        s.timeshares.contains_key(id),
    ensures
        ({
            let prev = s.timeshares[id].owner;
            let s2 = s.transfer_timeshare_to(id, to)->Ok_0;
            &&& s2.timeshares.dom() == s.timeshares.dom()
            &&& s2.timeshares[id].owner == to
            &&& s2.timeshares[id].price is None
            &&& s2.timeshares[id].room_hash == s.timeshares[id].room_hash
            &&& s2.timeshares[id] == (TimeshareModel { owner: to, price: None, ..s.timeshares[id] })
            &&& s2.owned(to).last() == id
            &&& (to != prev ==> !s2.owned(prev).contains(id))
            &&& forall|a: AccountId| a != to && a != prev ==> #[trigger] s2.owned(a) == s.owned(a)
            &&& forall|x: H256| x != id ==> #[trigger] s2.timeshares.get(x) == s.timeshares.get(x)
            &&& s2.rooms_timeshares == s.rooms_timeshares
            &&& s2.hotel_statuses == s.hotel_statuses
            &&& s2.events == s.events
        }),
{
    lemma_transfer_timeshare_to_succeeds(s, id, to);
    let s2 = s.transfer_timeshare_to(id, to)->Ok_0;
    let prev = s.timeshares[id].owner;
    let l = s.owned(prev);
    l.index_of_first_ensures(id);
    let i = l.index_of_first(id)->Some_0;
    lemma_swap_remove(l, i);
    assert(s2.timeshares.dom() =~= s.timeshares.dom());
    if to != prev {
        assert(s2.owned(prev) == l.update(i, l.last()).drop_last());
    }
}

/// Once a sale's terms are met and the payment is made, the purchase goes
/// through: the buyer owns the timeshare, which is no longer for sale, and the
/// sale is reported.
pub proof fn lemma_purchase_completes(s: PalletModel, buyer: AccountId, id: H256, bid_price: Balance)
    requires
        s.wf(),
        s.sale_terms(buyer, id, bid_price) is Ok,
    ensures
        ({
            let seller = s.sale_terms(buyer, id, bid_price)->Ok_0;
            let s2 = s.complete_purchase(buyer, seller, id, bid_price);
            &&& seller == s.timeshares[id].owner
            &&& s2 is Ok
            &&& s2->Ok_0.timeshares[id].owner == buyer
            &&& s2->Ok_0.timeshares[id].price is None
            &&& s2->Ok_0.timeshares[id] == (TimeshareModel { owner: buyer, price: None, ..s.timeshares[id] })
            &&& s2->Ok_0.events == s.events.push(Event::Bought(buyer, seller, id, bid_price))
        }),
{
    lemma_transfer_timeshare_to_succeeds(s, id, buyer);
    lemma_transfer_timeshare_to_effect(s, id, buyer);
}

/// Minting gives a timeshare owned by the minting hotel, for the hashed room,
/// listed last among the owner's and the room's timeshares.
pub proof fn lemma_mint_effect(
    s: PalletModel,
    owner: AccountId,
    room_number: Seq<u8>,
    price: Option<Balance>,
    dna: [u8; 16],
)
    requires
        s.mint(owner, room_number, price, dna) is Ok,
    ensures
        ({
            let (s2, id) = s.mint(owner, room_number, price, dna)->Ok_0;
            &&& !s.timeshares.contains_key(id)
            &&& s2.timeshares[id] == minted(owner, room_number, price, dna)
            &&& s2.timeshares[id].room_hash == room_hash_spec(owner, room_number)
            &&& s2.owned(owner) == s.owned(owner).push(id)
            &&& s2.room_timeshares(room_hash_spec(owner, room_number)) == s.room_timeshares(
                room_hash_spec(owner, room_number),
            ).push(id)
            &&& s2.timeshares.dom() == s.timeshares.dom().insert(id)
            &&& s2.events == s.events
        }),
{
    let (s2, id) = s.mint(owner, room_number, price, dna)->Ok_0;
    assert(s2.timeshares.dom() =~= s.timeshares.dom().insert(id));
}

/// Minting keeps the registry consistent.
pub proof fn lemma_mint_wf(
    s: PalletModel,
    owner: AccountId,
    room_number: Seq<u8>,
    price: Option<Balance>,
    dna: [u8; 16],
)
    requires
        s.wf(),
        s.mint(owner, room_number, price, dna) is Ok,
    ensures
        s.mint(owner, room_number, price, dna)->Ok_0.0.wf(),
{
    let t = minted(owner, room_number, price, dna);
    lemma_insert_timeshare_wf(s, t, timeshare_id_spec(t));
}

/// Only an active hotel creates timeshares, and what it creates it owns.
pub proof fn lemma_create_timeshare_needs_active(
    s: PalletModel,
    sender: AccountId,
    room_number: Seq<u8>,
    price: Option<Balance>,
    dna: [u8; 16],
)
    requires
        s.create_timeshare(sender, room_number, price, dna) is Ok,
    ensures
        s.is_active(sender) == Ok::<bool, Error>(true),
        s.hotel_statuses.contains_key(sender),
        s.hotel_statuses[sender] == HotelStatus::Active,
        ({
            let (s2, id) = s.mint(sender, room_number, price, dna)->Ok_0;
            &&& s.create_timeshare(sender, room_number, price, dna)->Ok_0.events == s.events.push(
                Event::Created(sender, id),
            )
            &&& s.create_timeshare(sender, room_number, price, dna)->Ok_0.timeshares[id].owner == sender
        }),
{
}

/// A hotel registers once: it is then pending, and registering again is refused.
pub proof fn lemma_register_hotel_once(s: PalletModel, hotel: AccountId)
    requires
        s.register_hotel(hotel) is Ok,
    ensures
        s.register_hotel(hotel)->Ok_0.hotel_statuses[hotel] == HotelStatus::Pending,
        s.register_hotel(hotel)->Ok_0.register_hotel(hotel) == Err::<PalletModel, Error>(
            Error::HotelAlreadyPending,
        ),
        s.register_hotel(hotel)->Ok_0.is_active(hotel) == Ok::<bool, Error>(false),
{
}

/// Setting a price changes that timeshare's price and nothing else of the
/// storage; the new price is what a buyer must then bid.
pub proof fn lemma_set_price_effect(s: PalletModel, sender: AccountId, id: H256, new_price: Option<Balance>)
    requires
        s.set_price(sender, id, new_price) is Ok,
    ensures
        ({
            let s2 = s.set_price(sender, id, new_price)->Ok_0;
            &&& s.timeshares.contains_key(id) && s.timeshares[id].owner == sender
            &&& s2.timeshares[id] == (TimeshareModel { price: new_price, ..s.timeshares[id] })
            &&& s2.timeshares.dom() == s.timeshares.dom()
            &&& forall|x: H256| x != id ==> #[trigger] s2.timeshares.get(x) == s.timeshares.get(x)
            &&& s2.rooms_timeshares == s.rooms_timeshares
            &&& s2.timeshares_owned == s.timeshares_owned
            &&& s2.events == s.events.push(Event::PriceSet(sender, id, new_price))
            &&& forall|buyer: AccountId, bid: Balance|
                buyer != sender ==> #[trigger] s2.sale_terms(buyer, id, bid) == match new_price {
                    None => Err::<AccountId, Error>(Error::NotForSale),
                    Some(ask) => if bid <= ask {
                        Err(Error::BidPriceTooLow)
                    } else {
                        Ok(sender)
                    },
                }
        }),
{
    let s2 = s.set_price(sender, id, new_price)->Ok_0;
    assert(s2.timeshares.dom() =~= s.timeshares.dom());
}

/// A timeshare that was just handed over is not for sale until its new owner
/// sets a price.
pub proof fn lemma_transferred_not_for_sale(s: PalletModel, id: H256, to: AccountId, buyer: AccountId, bid: Balance)
    requires
        s.wf(),
        s.timeshares.contains_key(id),
        buyer != to,
    ensures
        s.transfer_timeshare_to(id, to)->Ok_0.sale_terms(buyer, id, bid) == Err::<AccountId, Error>(
            Error::NotForSale,
        ),
{
    lemma_transfer_timeshare_to_effect(s, id, to);
}

/// In a consistent registry, an owner's transfer to another account goes through.
pub proof fn lemma_transfer_succeeds(s: PalletModel, from: AccountId, to: AccountId, id: H256)
    requires
        s.wf(),
        s.is_timeshare_owner(id, from) == Ok::<bool, Error>(true),
        from != to,
    ensures
        s.transfer(from, to, id) is Ok,
        s.transfer(from, to, id)->Ok_0.timeshares[id].owner == to,
        s.transfer(from, to, id)->Ok_0.timeshares[id] == (TimeshareModel {
            owner: to,
            price: None,
            ..s.timeshares[id]
        }),
        s.transfer(from, to, id)->Ok_0.events == s.events.push(Event::Transferred(from, to, id)),
{
    lemma_transfer_timeshare_to_succeeds(s, id, to);
    lemma_transfer_timeshare_to_effect(s, id, to);
}

/// Two mints of the same timeshare in the same block draw the same DNA, so
/// the second is refused as a duplicate and changes nothing.
pub proof fn lemma_mint_twice_in_block(
    s: PalletModel,
    owner: AccountId,
    room_number: Seq<u8>,
    price: Option<Balance>,
    dna: [u8; 16],
)
    requires
        s.mint(owner, room_number, price, dna) is Ok,
    ensures
        s.mint(owner, room_number, price, dna)->Ok_0.0.mint(owner, room_number, price, dna)
            == Err::<(PalletModel, H256), Error>(Error::MintingDuplicateTimeshare),
{
}

/// Every call keeps the registry consistent, and a timeshare that exists and
/// is not for sale stays so unless this call prices it.
pub proof fn lemma_apply_keeps(s: PalletModel, c: Call, id: H256)
    requires
        s.wf(),
        s.apply(c) is Ok,
    ensures
        s.apply(c)->Ok_0.wf(),
        s.timeshares.contains_key(id) ==> s.apply(c)->Ok_0.timeshares.contains_key(id),
        s.timeshares.contains_key(id) && s.timeshares[id].price is None && !(c matches Call::SetPrice(
            _,
            x,
            Some(_),
        ) && x == id) ==> s.apply(c)->Ok_0.timeshares[id].price is None,
{
    let s2 = s.apply(c)->Ok_0;
    match c {
        Call::RegisterHotel(sender) => {
            lemma_same_storage_wf(s, s2);
        },
        Call::SetHotelStatus(sender, hotel, status) => {
            lemma_same_storage_wf(s, s2);
        },
        Call::CreateTimeshare(sender, room_number, price, dna) => {
            let m = s.mint(sender, room_number, price, dna)->Ok_0.0;
            lemma_mint_wf(s, sender, room_number, price, dna);
            lemma_same_storage_wf(m, s2);
        },
        Call::SetPrice(sender, x, price) => {
            lemma_set_price_wf(s, sender, x, price);
        },
        Call::Transfer(from, to, x) => {
            let t = s.transfer_timeshare_to(x, to)->Ok_0;
            lemma_transfer_timeshare_to_wf(s, x, to);
            lemma_same_storage_wf(t, s2);
        },
        Call::Buy(buyer, x, bid_price) => {
            let t = s.transfer_timeshare_to(x, buyer)->Ok_0;
            lemma_transfer_timeshare_to_wf(s, x, buyer);
            lemma_same_storage_wf(t, s2);
        },
    }
}

/// A timeshare that is not for sale stays not for sale, through any calls,
/// until a call that gives it a price succeeds; meanwhile anyone but its owner
/// who bids for it is told it is not for sale, and the registry stays
/// consistent.
pub proof fn lemma_unpriced_until_set_price(s: PalletModel, calls: Seq<Call>, id: H256)
    requires
        s.wf(),
        s.timeshares.contains_key(id),
        s.timeshares[id].price is None,
        forall|i: int|
            0 <= i < calls.len() && (#[trigger] calls[i] matches Call::SetPrice(_, x, Some(_)) && x == id)
                ==> run(s, calls.take(i)).apply(calls[i]) is Err,
    ensures
        run(s, calls).wf(),
        run(s, calls).timeshares.contains_key(id),
        run(s, calls).timeshares[id].price is None,
        forall|buyer: AccountId, bid_price: Balance|
            buyer != run(s, calls).timeshares[id].owner ==> #[trigger] run(s, calls).sale_terms(
                buyer,
                id,
                bid_price,
            ) == Err::<AccountId, Error>(Error::NotForSale),
    decreases calls.len(),
{
    if calls.len() > 0 {
        let rest = calls.drop_last();
        assert forall|i: int|
            0 <= i < rest.len() && (#[trigger] rest[i] matches Call::SetPrice(_, x, Some(_)) && x == id)
                implies run(s, rest.take(i)).apply(rest[i]) is Err by {
            assert(rest[i] == calls[i]);
            assert(rest.take(i) =~= calls.take(i));
        }
        lemma_unpriced_until_set_price(s, rest, id);
        let prev = run(s, rest);
        let n = calls.len() - 1;
        let c = calls.last();
        assert(c == calls[n]);
        assert(calls.take(n) =~= rest);
        if prev.apply(c) is Ok {
            lemma_apply_keeps(prev, c, id);
        }
    }
}

/// After a timeshare changes hands it is not for sale: until a call that
/// gives it a price succeeds, anyone but its owner who bids for it is told so.
pub proof fn lemma_not_for_sale_after_handover(
    s: PalletModel,
    id: H256,
    to: AccountId,
    calls: Seq<Call>,
    buyer: AccountId,
    bid_price: Balance,
)
    requires
        s.wf(),
        s.timeshares.contains_key(id),
        forall|i: int|
            0 <= i < calls.len() && (#[trigger] calls[i] matches Call::SetPrice(_, x, Some(_)) && x == id)
                ==> run(s.transfer_timeshare_to(id, to)->Ok_0, calls.take(i)).apply(calls[i]) is Err,
        buyer != run(s.transfer_timeshare_to(id, to)->Ok_0, calls).timeshares[id].owner,
    ensures
        s.transfer_timeshare_to(id, to) is Ok,
        run(s.transfer_timeshare_to(id, to)->Ok_0, calls).sale_terms(buyer, id, bid_price) == Err::<
            AccountId,
            Error,
        >(Error::NotForSale),
{
    lemma_transfer_timeshare_to_succeeds(s, id, to);
    lemma_transfer_timeshare_to_effect(s, id, to);
    lemma_transfer_timeshare_to_wf(s, id, to);
    let s2 = s.transfer_timeshare_to(id, to)->Ok_0;
    lemma_unpriced_until_set_price(s2, calls, id);
    assert(run(s2, calls).sale_terms(buyer, id, bid_price) == Err::<AccountId, Error>(Error::NotForSale));
}

/// Any sequence of calls keeps a consistent registry consistent.
pub proof fn lemma_run_keeps_wf(s: PalletModel, calls: Seq<Call>)
    requires
        s.wf(),
    ensures
        run(s, calls).wf(),
    decreases calls.len(),
{
    if calls.len() > 0 {
        lemma_run_keeps_wf(s, calls.drop_last());
        let prev = run(s, calls.drop_last());
        if prev.apply(calls.last()) is Ok {
            lemma_apply_keeps(prev, calls.last(), arbitrary());
        }
    }
}

/// A hand-over, by `transfer_timeshare_to`, `transfer` or a purchase, changes
/// only the timeshare's owner (to the receiver) and takes it off the market:
/// its hotel, room number, DNA and room hash stay as they were, and so does
/// every other timeshare.
pub proof fn lemma_handover_changes_only_owner_and_price(
    s: PalletModel,
    id: H256,
    from: AccountId,
    to: AccountId,
    seller: AccountId,
    bid_price: Balance,
)
    ensures
        s.transfer_timeshare_to(id, to) is Ok ==> {
            let s2 = s.transfer_timeshare_to(id, to)->Ok_0;
            &&& s.timeshares.contains_key(id)
            &&& s2.timeshares == s.timeshares.insert(
                id,
                TimeshareModel { owner: to, price: None, ..s.timeshares[id] },
            )
        },
        s.transfer(from, to, id) is Ok ==> {
            let s2 = s.transfer(from, to, id)->Ok_0;
            &&& s.timeshares.contains_key(id)
            &&& s2.timeshares == s.timeshares.insert(
                id,
                TimeshareModel { owner: to, price: None, ..s.timeshares[id] },
            )
        },
        s.complete_purchase(to, seller, id, bid_price) is Ok ==> {
            let s2 = s.complete_purchase(to, seller, id, bid_price)->Ok_0;
            &&& s.timeshares.contains_key(id)
            &&& s2.timeshares == s.timeshares.insert(
                id,
                TimeshareModel { owner: to, price: None, ..s.timeshares[id] },
            )
        },
{
}

/// Only the owner transfers a timeshare, and never to itself: a transfer that
/// goes through was made by the owner to another account, and anyone else is
/// refused with `NotTimeshareOwner`.
pub proof fn lemma_transfer_only_by_owner(s: PalletModel, from: AccountId, to: AccountId, id: H256)
    ensures
        s.transfer(from, to, id) is Ok ==> s.timeshares.contains_key(id) && s.timeshares[id].owner == from
            && from != to,
        s.timeshares.contains_key(id) && s.timeshares[id].owner != from ==> s.transfer(from, to, id)
            == Err::<PalletModel, Error>(Error::NotTimeshareOwner),
        !s.timeshares.contains_key(id) ==> s.transfer(from, to, id) == Err::<PalletModel, Error>(
            Error::TimeshareDoesntExist,
        ),
        s.transfer(from, to, id) is Ok ==> s.transfer(from, to, id)->Ok_0.timeshares[id].owner == to,
{
}

/// The owner may always set any price, whatever the current one; the price is
/// then exactly the one given, and nothing else about the timeshare changes.
/// Anyone else is refused with `NotTimeshareOwner`.
pub proof fn lemma_owner_sets_any_price(s: PalletModel, sender: AccountId, id: H256, new_price: Option<Balance>)
    ensures
        s.is_timeshare_owner(id, sender) == Ok::<bool, Error>(true) ==> {
            &&& s.set_price(sender, id, new_price) is Ok
            &&& s.set_price(sender, id, new_price)->Ok_0.timeshares == s.timeshares.insert(
                id,
                TimeshareModel { price: new_price, ..s.timeshares[id] },
            )
            &&& s.set_price(sender, id, new_price)->Ok_0.timeshares[id].price == new_price
        },
        s.timeshares.contains_key(id) && s.timeshares[id].owner != sender ==> s.set_price(sender, id, new_price)
            == Err::<PalletModel, Error>(Error::NotTimeshareOwner),
        s.set_price(sender, id, new_price) is Ok ==> s.timeshares.contains_key(id) && s.timeshares[id].owner
            == sender,
{
}

/// The administrator may always set any hotel's status, whatever it was; the
/// hotel then has exactly that status and no other hotel changes. Anyone else
/// is refused with `Forbidden` and nothing changes.
pub proof fn lemma_admin_sets_any_status(
    s: PalletModel,
    sender: AccountId,
    hotel: AccountId,
    status: HotelStatus,
)
    ensures
        sender == s.admin ==> {
            &&& s.set_hotel_status(sender, hotel, status) is Ok
            &&& s.set_hotel_status(sender, hotel, status)->Ok_0.hotel_statuses == s.hotel_statuses.insert(
                hotel,
                status,
            )
            &&& s.set_hotel_status(sender, hotel, status)->Ok_0.hotel_statuses[hotel] == status
            &&& s.set_hotel_status(sender, hotel, status)->Ok_0.timeshares == s.timeshares
        },
        sender != s.admin ==> s.set_hotel_status(sender, hotel, status) == Err::<PalletModel, Error>(
            Error::Forbidden,
        ),
{
}

/// Registering succeeds exactly for an account that has no status yet, and
/// makes it pending; an account that already has any status keeps it and is
/// refused with `HotelAlreadyPending`.
pub proof fn lemma_register_only_new_hotels(s: PalletModel, hotel: AccountId)
    ensures
        s.register_hotel(hotel) is Ok <==> !s.hotel_statuses.contains_key(hotel),
        s.register_hotel(hotel) is Ok ==> s.register_hotel(hotel)->Ok_0.hotel_statuses
            == s.hotel_statuses.insert(hotel, HotelStatus::Pending),
        s.hotel_statuses.contains_key(hotel) ==> s.register_hotel(hotel) == Err::<PalletModel, Error>(
            Error::HotelAlreadyPending,
        ),
{
}

/// A sale goes ahead exactly when the timeshare exists, the buyer is not its
/// owner, it is for sale and the bid is above the asking price; the seller is
/// the owner. Each refusal names its reason.
pub proof fn lemma_sale_terms_exact(s: PalletModel, buyer: AccountId, id: H256, bid_price: Balance, free_balance: Balance)
    ensures
        s.sale_terms(buyer, id, bid_price) is Ok <==> {
            &&& s.timeshares.contains_key(id)
            &&& s.timeshares[id].owner != buyer
            &&& s.timeshares[id].price is Some
            &&& s.timeshares[id].price->Some_0 < bid_price
        },
        s.sale_terms(buyer, id, bid_price) is Ok ==> s.sale_terms(buyer, id, bid_price)->Ok_0
            == s.timeshares[id].owner,
        !s.timeshares.contains_key(id) ==> s.sale_terms(buyer, id, bid_price) == Err::<AccountId, Error>(
            Error::TimeshareDoesntExist,
        ),
        s.timeshares.contains_key(id) && s.timeshares[id].owner == buyer ==> s.sale_terms(buyer, id, bid_price)
            == Err::<AccountId, Error>(Error::BuyerIsTimeshareOwner),
        s.timeshares.contains_key(id) && s.timeshares[id].owner != buyer && s.timeshares[id].price is None
            ==> s.sale_terms(buyer, id, bid_price) == Err::<AccountId, Error>(Error::NotForSale),
        s.timeshares.contains_key(id) && s.timeshares[id].owner != buyer && s.timeshares[id].price is Some
            && bid_price <= s.timeshares[id].price->Some_0 ==> s.sale_terms(buyer, id, bid_price) == Err::<
            AccountId,
            Error,
        >(Error::BidPriceTooLow),
        s.purchase_terms(buyer, id, bid_price, free_balance) is Ok <==> (s.sale_terms(buyer, id, bid_price) is Ok
            && bid_price <= free_balance),
        s.sale_terms(buyer, id, bid_price) is Ok && free_balance < bid_price ==> s.purchase_terms(
            buyer,
            id,
            bid_price,
            free_balance,
        ) == Err::<AccountId, Error>(Error::NotEnoughFreeBalance),
{
}

/// A created timeshare belongs to and names the creating hotel, for the given
/// room number, price and DNA, with the room's hash, under the id that hashes
/// it; it is reported. A hotel that is not registered, or not active, is
/// refused with `HotelNotRegistered` or `HotelNotActive`.
pub proof fn lemma_create_timeshare_exact(
    s: PalletModel,
    sender: AccountId,
    room_number: Seq<u8>,
    price: Option<Balance>,
    dna: [u8; 16],
)
    ensures
        !s.hotel_statuses.contains_key(sender) ==> s.create_timeshare(sender, room_number, price, dna) == Err::<
            PalletModel,
            Error,
        >(Error::HotelNotRegistered),
        s.hotel_statuses.contains_key(sender) && s.hotel_statuses[sender] != HotelStatus::Active
            ==> s.create_timeshare(sender, room_number, price, dna) == Err::<PalletModel, Error>(
            Error::HotelNotActive,
        ),
        s.create_timeshare(sender, room_number, price, dna) is Ok ==> {
            let t = TimeshareModel {
                hotel: sender,
                room_number,
                price,
                owner: sender,
                dna,
                room_hash: room_hash_spec(sender, room_number),
            };
            let id = timeshare_id_spec(t);
            let s2 = s.create_timeshare(sender, room_number, price, dna)->Ok_0;
            &&& !s.timeshares.contains_key(id)
            &&& s2.timeshares == s.timeshares.insert(id, t)
            &&& s2.owned(sender) == s.owned(sender).push(id)
            &&& s2.room_timeshares(t.room_hash) == s.room_timeshares(t.room_hash).push(id)
            &&& s2.events == s.events.push(Event::Created(sender, id))
            &&& s2.hotel_statuses == s.hotel_statuses
        },
{
}

} // verus!
