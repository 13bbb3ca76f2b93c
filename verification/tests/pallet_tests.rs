use pallet_timeshares::chain::{BALANCE_OVERFLOW, INSUFFICIENT_BALANCE, WOULD_REAP_PAYER};
use pallet_timeshares::{
    gen_dna, Config, DispatchError, Error, Event, ExistenceRequirement, GenesisConfig, HotelStatus,
    MemoryChain, Origin, Pallet, Room, Timeshare, H256,
};

const RANDOM: H256 = [7u8; 32];

/// A chain at block 1 with an existential deposit of 1, where the buyer has
/// 1000 and the hotel 10.
fn test_chain() -> MemoryChain {
    let mut chain = MemoryChain::new(RANDOM, 1, 1);
    chain.set_balance(BUYER, 1_000);
    chain.set_balance(HOTEL, 10);
    chain
}

const ADMIN: u64 = 1;
const HOTEL: u64 = 10;
const BUYER: u64 = 20;
const OTHER: u64 = 30;

fn active_hotel() -> Pallet {
    let mut p = Pallet::new(ADMIN, 2);
    assert_eq!(p.register_hotel(Origin::Signed(HOTEL)), Ok(()));
    assert_eq!(p.set_hotel_status(Origin::Signed(ADMIN), HOTEL, HotelStatus::Active), Ok(()));
    p
}

fn le(x: u128, n: usize) -> Vec<u8> {
    x.to_le_bytes()[..n].to_vec()
}

fn expected_room_hash(hotel: u64, room: &[u8]) -> H256 {
    let mut bytes = le(hotel as u128, 8);
    bytes.push((room.len() as u8) << 2);
    bytes.extend_from_slice(room);
    sp_io::hashing::blake2_256(&bytes)
}

fn expected_dna(random: H256, block: u32) -> [u8; 16] {
    let mut bytes = random.to_vec();
    bytes.extend_from_slice(&block.to_le_bytes());
    sp_io::hashing::blake2_128(&bytes)
}

fn expected_id(hotel: u64, room: &[u8], price: Option<u128>, owner: u64, dna: [u8; 16]) -> H256 {
    let mut bytes = le(hotel as u128, 8);
    bytes.push((room.len() as u8) << 2);
    bytes.extend_from_slice(room);
    match price {
        None => bytes.push(0),
        Some(p) => {
            bytes.push(1);
            bytes.extend_from_slice(&p.to_le_bytes());
        }
    }
    bytes.extend_from_slice(&owner.to_le_bytes());
    bytes.extend_from_slice(&dna);
    bytes.extend_from_slice(&expected_room_hash(hotel, room));
    sp_io::hashing::blake2_256(&bytes)
}

fn create(p: &mut Pallet, chain: &MemoryChain, room: &[u8], price: Option<u128>) -> H256 {
    assert_eq!(p.create_timeshare(chain, Origin::Signed(HOTEL), room.to_vec(), price), Ok(()));
    match p.events().last() {
        Some(Event::Created(who, id)) => {
            assert_eq!(*who, HOTEL);
            *id
        }
        other => panic!("unexpected event {:?}", other),
    }
}

#[test]
fn room_hash_is_blake2_of_scale_encoding() {
    let room = Room { hotel: HOTEL, room_number: b"101".to_vec() };
    assert_eq!(room.hash(), expected_room_hash(HOTEL, b"101"));
    assert_ne!(room.hash(), expected_room_hash(HOTEL, b"102"));
}

#[test]
fn room_hash_with_two_byte_compact_length() {
    let long = vec![5u8; 100];
    let room = Room { hotel: 3, room_number: long.clone() };
    let mut bytes = 3u64.to_le_bytes().to_vec();
    bytes.extend_from_slice(&((100u16 << 2) | 1).to_le_bytes());
    bytes.extend_from_slice(&long);
    assert_eq!(room.hash(), sp_io::hashing::blake2_256(&bytes));
}

#[test]
fn dna_is_blake2_128_of_random_hash_and_block() {
    let random = [9u8; 32];
    assert_eq!(gen_dna(random, 42), expected_dna(random, 42));
    assert_ne!(gen_dna(random, 42), gen_dna(random, 43));
}

#[test]
fn timeshare_id_is_blake2_of_its_fields() {
    let dna = [4u8; 16];
    let t = Timeshare {
        hotel: HOTEL,
        room_number: b"7".to_vec(),
        price: Some(50),
        owner: HOTEL,
        dna,
        room_hash: expected_room_hash(HOTEL, b"7"),
    };
    assert_eq!(t.id(), expected_id(HOTEL, b"7", Some(50), HOTEL, dna));
}

#[test]
fn register_hotel_makes_it_pending() {
    let mut p = Pallet::new(ADMIN, 2);
    assert_eq!(p.register_hotel(Origin::Signed(HOTEL)), Ok(()));
    assert_eq!(p.hotel_statuses(HOTEL), Some(HotelStatus::Pending));
    assert_eq!(p.is_active(HOTEL), Ok(false));
}

#[test]
fn register_hotel_twice_is_refused() {
    let mut p = Pallet::new(ADMIN, 2);
    assert_eq!(p.register_hotel(Origin::Signed(HOTEL)), Ok(()));
    assert_eq!(p.register_hotel(Origin::Signed(HOTEL)), Err(DispatchError::Module(Error::HotelAlreadyPending)));
}

#[test]
fn unsigned_calls_are_refused() {
    let chain = test_chain();
    let mut p = active_hotel();
    assert_eq!(p.register_hotel(Origin::Unsigned), Err(DispatchError::BadOrigin));
    assert_eq!(p.register_hotel(Origin::Root), Err(DispatchError::BadOrigin));
    assert_eq!(p.set_hotel_status(Origin::Root, HOTEL, HotelStatus::Suspended), Err(DispatchError::BadOrigin));
    assert_eq!(p.create_timeshare(&chain, Origin::Unsigned, b"1".to_vec(), None), Err(DispatchError::BadOrigin));
    assert_eq!(p.set_price(Origin::Unsigned, [0u8; 32], None), Err(DispatchError::BadOrigin));
    assert_eq!(p.transfer(Origin::Unsigned, BUYER, [0u8; 32]), Err(DispatchError::BadOrigin));
    let mut chain = chain;
    assert_eq!(p.buy_timeshare(&mut chain, Origin::Unsigned, [0u8; 32], 5), Err(DispatchError::BadOrigin));
    assert_eq!(p.hotel_statuses(HOTEL), Some(HotelStatus::Active));
}

#[test]
fn set_hotel_status_by_admin() {
    let mut p = Pallet::new(ADMIN, 2);
    assert_eq!(p.set_hotel_status(Origin::Signed(ADMIN), HOTEL, HotelStatus::Suspended), Ok(()));
    assert_eq!(p.hotel_statuses(HOTEL), Some(HotelStatus::Suspended));
    assert_eq!(p.is_active(HOTEL), Ok(false));
}

#[test]
fn set_hotel_status_by_non_admin_is_forbidden() {
    let mut p = Pallet::new(ADMIN, 2);
    assert_eq!(p.register_hotel(Origin::Signed(HOTEL)), Ok(()));
    assert_eq!(
        p.set_hotel_status(Origin::Signed(HOTEL), HOTEL, HotelStatus::Active),
        Err(DispatchError::Module(Error::Forbidden))
    );
    assert_eq!(p.hotel_statuses(HOTEL), Some(HotelStatus::Pending));
    assert_eq!(
        p.set_hotel_status(Origin::Signed(OTHER), OTHER, HotelStatus::Active),
        Err(DispatchError::Module(Error::Forbidden))
    );
    assert_eq!(p.hotel_statuses(OTHER), None);
}

#[test]
fn is_active_of_unregistered_hotel_is_refused() {
    let p = Pallet::new(ADMIN, 2);
    assert_eq!(p.is_active(HOTEL), Err(Error::HotelNotRegistered));
}

#[test]
fn create_timeshare_needs_registration() {
    let chain = test_chain();
    let mut p = Pallet::new(ADMIN, 2);
    assert_eq!(
        p.create_timeshare(&chain, Origin::Signed(HOTEL), b"1".to_vec(), None),
        Err(DispatchError::Module(Error::HotelNotRegistered))
    );
}

#[test]
fn create_timeshare_needs_active_hotel() {
    let chain = test_chain();
    let mut p = Pallet::new(ADMIN, 2);
    assert_eq!(p.register_hotel(Origin::Signed(HOTEL)), Ok(()));
    assert_eq!(
        p.create_timeshare(&chain, Origin::Signed(HOTEL), b"1".to_vec(), None),
        Err(DispatchError::Module(Error::HotelNotActive))
    );
    assert!(p.events().is_empty());
}

#[test]
fn create_timeshare_mints_for_the_hotel() {
    let chain = test_chain();
    let mut p = active_hotel();
    let id = create(&mut p, &chain, b"101", Some(100));
    let dna = expected_dna(RANDOM, 1);
    assert_eq!(id, expected_id(HOTEL, b"101", Some(100), HOTEL, dna));
    let t = p.timeshares(&id).unwrap();
    assert_eq!(t.owner, HOTEL);
    assert_eq!(t.hotel, HOTEL);
    assert_eq!(t.price, Some(100));
    assert_eq!(t.room_number, b"101".to_vec());
    assert_eq!(t.dna, dna);
    assert_eq!(t.room_hash, expected_room_hash(HOTEL, b"101"));
    assert_eq!(p.timeshares_owned(HOTEL), vec![id]);
    assert_eq!(p.rooms_timeshares(&expected_room_hash(HOTEL, b"101")), vec![id]);
    assert_eq!(p.events(), &vec![Event::Created(HOTEL, id)]);
}

#[test]
fn minting_the_same_timeshare_twice_is_refused() {
    let chain = test_chain();
    let mut p = active_hotel();
    let _ = create(&mut p, &chain, b"101", Some(100));
    assert_eq!(
        p.create_timeshare(&chain, Origin::Signed(HOTEL), b"101".to_vec(), Some(100)),
        Err(DispatchError::Module(Error::MintingDuplicateTimeshare))
    );
    assert_eq!(p.timeshares_owned(HOTEL).len(), 1);
}

#[test]
fn room_maximum_is_enforced() {
    let mut chain = test_chain();
    let mut p = active_hotel();
    let a = create(&mut p, &chain, b"101", None);
    chain.set_block(2);
    let b = create(&mut p, &chain, b"101", None);
    chain.set_block(3);
    assert_eq!(
        p.create_timeshare(&chain, Origin::Signed(HOTEL), b"101".to_vec(), None),
        Err(DispatchError::Module(Error::MaximumTimesharesForRoomReached))
    );
    assert_eq!(p.rooms_timeshares(&expected_room_hash(HOTEL, b"101")), vec![a, b]);
    // Another room is not affected.
    let c = create(&mut p, &chain, b"102", None);
    assert_eq!(p.timeshares_owned(HOTEL), vec![a, b, c]);
}

#[test]
fn mint_with_dna_gives_the_expected_id() {
    let mut p = Pallet::new(ADMIN, 1);
    let dna = [1u8; 16];
    let id = p.mint_with_dna(OTHER, b"9".to_vec(), None, dna).unwrap();
    assert_eq!(id, expected_id(OTHER, b"9", None, OTHER, dna));
    assert_eq!(p.timeshares_owned(OTHER), vec![id]);
    assert!(p.events().is_empty());
    assert_eq!(p.mint_with_dna(OTHER, b"9".to_vec(), None, [2u8; 16]), Err(Error::MaximumTimesharesForRoomReached));
    assert_eq!(p.mint_with_dna(OTHER, b"9".to_vec(), None, dna), Err(Error::MintingDuplicateTimeshare));
}

#[test]
fn mint_uses_the_chain_randomness() {
    let chain = test_chain();
    let mut p = Pallet::new(ADMIN, 1);
    let id = p.mint(&chain, OTHER, b"9".to_vec(), Some(3)).unwrap();
    let dna = expected_dna(RANDOM, 1);
    assert_eq!(id, expected_id(OTHER, b"9", Some(3), OTHER, dna));
}

#[test]
fn is_timeshare_owner_checks() {
    let chain = test_chain();
    let mut p = active_hotel();
    let id = create(&mut p, &chain, b"1", None);
    assert_eq!(p.is_timeshare_owner(&id, HOTEL), Ok(true));
    assert_eq!(p.is_timeshare_owner(&id, BUYER), Ok(false));
    assert_eq!(p.is_timeshare_owner(&[0u8; 32], HOTEL), Err(Error::TimeshareDoesntExist));
}

#[test]
fn set_price_by_owner() {
    let chain = test_chain();
    let mut p = active_hotel();
    let id = create(&mut p, &chain, b"1", None);
    assert_eq!(p.set_price(Origin::Signed(HOTEL), id, Some(77)), Ok(()));
    assert_eq!(p.timeshares(&id).unwrap().price, Some(77));
    assert_eq!(p.events().last(), Some(&Event::PriceSet(HOTEL, id, Some(77))));
    assert_eq!(p.set_price(Origin::Signed(HOTEL), id, None), Ok(()));
    assert_eq!(p.timeshares(&id).unwrap().price, None);
}

#[test]
fn set_price_by_non_owner_is_refused() {
    let chain = test_chain();
    let mut p = active_hotel();
    let id = create(&mut p, &chain, b"1", None);
    assert_eq!(p.set_price(Origin::Signed(BUYER), id, Some(5)), Err(DispatchError::Module(Error::NotTimeshareOwner)));
    assert_eq!(
        p.set_price(Origin::Signed(HOTEL), [3u8; 32], Some(5)),
        Err(DispatchError::Module(Error::TimeshareDoesntExist))
    );
    assert_eq!(p.timeshares(&id).unwrap().price, None);
}

#[test]
fn transfer_moves_ownership_and_clears_price() {
    let mut chain = test_chain();
    let mut p = active_hotel();
    let a = create(&mut p, &chain, b"1", Some(10));
    chain.set_block(2);
    let b = create(&mut p, &chain, b"2", Some(10));
    assert_eq!(p.transfer(Origin::Signed(HOTEL), OTHER, a), Ok(()));
    let t = p.timeshares(&a).unwrap();
    assert_eq!(t.owner, OTHER);
    assert_eq!(t.price, None);
    // The last id takes the moved id's place.
    assert_eq!(p.timeshares_owned(HOTEL), vec![b]);
    assert_eq!(p.timeshares_owned(OTHER), vec![a]);
    assert_eq!(p.events().last(), Some(&Event::Transferred(HOTEL, OTHER, a)));
}

#[test]
fn transfer_errors() {
    let chain = test_chain();
    let mut p = active_hotel();
    let a = create(&mut p, &chain, b"1", None);
    assert_eq!(p.transfer(Origin::Signed(HOTEL), HOTEL, a), Err(DispatchError::Module(Error::TransferToSelf)));
    assert_eq!(p.transfer(Origin::Signed(OTHER), BUYER, a), Err(DispatchError::Module(Error::NotTimeshareOwner)));
    assert_eq!(
        p.transfer(Origin::Signed(HOTEL), BUYER, [8u8; 32]),
        Err(DispatchError::Module(Error::TimeshareDoesntExist))
    );
    assert_eq!(p.timeshares(&a).unwrap().owner, HOTEL);
}

#[test]
fn transfer_timeshare_to_helper() {
    let chain = test_chain();
    let mut p = active_hotel();
    let a = create(&mut p, &chain, b"1", Some(4));
    assert_eq!(p.transfer_timeshare_to(&[8u8; 32], BUYER), Err(Error::TimeshareDoesntExist));
    assert_eq!(p.transfer_timeshare_to(&a, HOTEL), Ok(()));
    assert_eq!(p.timeshares_owned(HOTEL), vec![a]);
    assert_eq!(p.timeshares(&a).unwrap().price, None);
    let events_before = p.events().len();
    assert_eq!(p.transfer_timeshare_to(&a, BUYER), Ok(()));
    assert_eq!(p.events().len(), events_before);
    assert_eq!(p.timeshares_owned(BUYER), vec![a]);
    assert!(p.timeshares_owned(HOTEL).is_empty());
}

#[test]
fn buy_timeshare_pays_seller_and_transfers() {
    let mut chain = test_chain();
    let mut p = active_hotel();
    let id = create(&mut p, &chain, b"1", Some(100));
    assert_eq!(p.buy_timeshare(&mut chain, Origin::Signed(BUYER), id, 150), Ok(()));
    assert_eq!(chain.transfers(), &vec![(BUYER, HOTEL, 150, ExistenceRequirement::KeepAlive)]);
    assert_eq!(chain.free_balance(BUYER), 850);
    assert_eq!(chain.free_balance(HOTEL), 160);
    let t = p.timeshares(&id).unwrap();
    assert_eq!(t.owner, BUYER);
    assert_eq!(t.price, None);
    assert_eq!(p.timeshares_owned(BUYER), vec![id]);
    assert!(p.timeshares_owned(HOTEL).is_empty());
    assert_eq!(p.events().last(), Some(&Event::Bought(BUYER, HOTEL, id, 150)));
    // Bought timeshares are not for sale until priced again.
    let mut chain2 = test_chain();
    assert_eq!(
        p.buy_timeshare(&mut chain2, Origin::Signed(OTHER), id, 150),
        Err(DispatchError::Module(Error::NotForSale))
    );
}

#[test]
fn buy_timeshare_errors() {
    let mut chain = test_chain();
    let mut p = active_hotel();
    let priced = create(&mut p, &chain, b"1", Some(100));
    chain.set_block(2);
    let unpriced = create(&mut p, &chain, b"2", None);
    assert_eq!(
        p.buy_timeshare(&mut chain, Origin::Signed(BUYER), [8u8; 32], 100),
        Err(DispatchError::Module(Error::TimeshareDoesntExist))
    );
    assert_eq!(
        p.buy_timeshare(&mut chain, Origin::Signed(HOTEL), priced, 100),
        Err(DispatchError::Module(Error::BuyerIsTimeshareOwner))
    );
    assert_eq!(
        p.buy_timeshare(&mut chain, Origin::Signed(BUYER), unpriced, 100),
        Err(DispatchError::Module(Error::NotForSale))
    );
    assert_eq!(
        p.buy_timeshare(&mut chain, Origin::Signed(BUYER), priced, 99),
        Err(DispatchError::Module(Error::BidPriceTooLow))
    );
    assert_eq!(
        p.buy_timeshare(&mut chain, Origin::Signed(BUYER), priced, 100),
        Err(DispatchError::Module(Error::BidPriceTooLow))
    );
    assert_eq!(
        p.buy_timeshare(&mut chain, Origin::Signed(BUYER), priced, 1_001),
        Err(DispatchError::Module(Error::NotEnoughFreeBalance))
    );
    // The whole balance would leave the buyer below the existential deposit.
    assert_eq!(
        p.buy_timeshare(&mut chain, Origin::Signed(BUYER), priced, 1_000),
        Err(DispatchError::Other(WOULD_REAP_PAYER))
    );
    assert!(chain.transfers().is_empty());
    assert_eq!(chain.free_balance(BUYER), 1_000);
    assert_eq!(chain.free_balance(HOTEL), 10);
    assert_eq!(p.timeshares(&priced).unwrap().owner, HOTEL);
    assert_eq!(p.timeshares(&priced).unwrap().price, Some(100));
}

#[test]
fn bid_equal_to_the_asking_price_is_too_low() {
    let mut chain = test_chain();
    let mut p = active_hotel();
    let id = create(&mut p, &chain, b"1", Some(500));
    assert_eq!(
        p.buy_timeshare(&mut chain, Origin::Signed(BUYER), id, 500),
        Err(DispatchError::Module(Error::BidPriceTooLow))
    );
    assert!(chain.transfers().is_empty());
    assert_eq!(p.timeshares(&id).unwrap().owner, HOTEL);
    assert_eq!(p.buy_timeshare(&mut chain, Origin::Signed(BUYER), id, 501), Ok(()));
    assert_eq!(chain.free_balance(BUYER), 499);
}

#[test]
fn purchase_terms_and_settlement() {
    let chain = test_chain();
    let mut p = active_hotel();
    let id = create(&mut p, &chain, b"1", Some(100));
    assert_eq!(p.purchase_terms(BUYER, &id, 101, 101), Ok(HOTEL));
    assert_eq!(p.purchase_terms(BUYER, &id, 100, 1_000), Err(Error::BidPriceTooLow));
    assert_eq!(p.purchase_terms(BUYER, &id, 101, 100), Err(Error::NotEnoughFreeBalance));
    assert_eq!(p.settle_purchase(BUYER, HOTEL, id, 100, Err(DispatchError::Other(3))), Err(DispatchError::Other(3)));
    assert_eq!(p.timeshares(&id).unwrap().owner, HOTEL);
    assert_eq!(p.settle_purchase(BUYER, HOTEL, id, 100, Ok(())), Ok(()));
    assert_eq!(p.timeshares(&id).unwrap().owner, BUYER);
}

#[test]
fn genesis_default_is_empty() {
    let g = GenesisConfig::default();
    assert!(g.seeded_timeshares.is_empty());
    assert_eq!(g.admin_account_id, 0);
    let chain = test_chain();
    let p = g.build(&chain, 5);
    assert_eq!(p.admin_key(), 0);
    assert_eq!(p.max_timeshares_per_room(), 5);
    assert!(p.timeshares_owned(0).is_empty());
}

#[test]
fn genesis_build_mints_seeds_and_sets_admin() {
    let g = GenesisConfig {
        seeded_timeshares: vec![
            (HOTEL, b"1".to_vec(), Some(5)),
            (HOTEL, b"1".to_vec(), Some(5)),
            (OTHER, b"2".to_vec(), None),
        ],
        admin_account_id: ADMIN,
    };
    let chain = test_chain();
    let p = g.build(&chain, 5);
    assert_eq!(p.admin_key(), ADMIN);
    let dna = expected_dna(RANDOM, 1);
    // The second seed has the same id as the first and is passed over.
    assert_eq!(p.timeshares_owned(HOTEL), vec![expected_id(HOTEL, b"1", Some(5), HOTEL, dna)]);
    assert_eq!(p.timeshares_owned(OTHER), vec![expected_id(OTHER, b"2", None, OTHER, dna)]);
    assert!(p.events().is_empty());
}

#[test]
fn insert_timeshare_stores_under_the_given_id() {
    let mut p = Pallet::new(ADMIN, 1);
    let room = [6u8; 32];
    let t = Timeshare { hotel: HOTEL, room_number: b"5".to_vec(), price: Some(1), owner: OTHER, dna: [0u8; 16], room_hash: room };
    let id = [9u8; 32];
    assert_eq!(p.insert_timeshare(t, id), Ok(id));
    assert_eq!(p.timeshares(&id).unwrap().owner, OTHER);
    assert_eq!(p.timeshares_owned(OTHER), vec![id]);
    assert_eq!(p.rooms_timeshares(&room), vec![id]);
    let t2 = Timeshare { hotel: HOTEL, room_number: b"5".to_vec(), price: None, owner: OTHER, dna: [1u8; 16], room_hash: room };
    assert_eq!(p.insert_timeshare(t2, id), Err(Error::MintingDuplicateTimeshare));
    let t3 = Timeshare { hotel: HOTEL, room_number: b"5".to_vec(), price: None, owner: OTHER, dna: [1u8; 16], room_hash: room };
    assert_eq!(p.insert_timeshare(t3, [10u8; 32]), Err(Error::MaximumTimesharesForRoomReached));
    assert_eq!(p.timeshares_owned(OTHER), vec![id]);
}

#[test]
fn minting_twice_in_one_block_is_a_duplicate() {
    let mut chain = test_chain();
    let mut p = Pallet::new(ADMIN, 5);
    let id = p.mint(&chain, OTHER, b"3".to_vec(), None).unwrap();
    assert_eq!(p.mint(&chain, OTHER, b"3".to_vec(), None), Err(Error::MintingDuplicateTimeshare));
    chain.set_block(2);
    let id2 = p.mint(&chain, OTHER, b"3".to_vec(), None).unwrap();
    assert_ne!(id, id2);
    assert_eq!(p.timeshares_owned(OTHER), vec![id, id2]);
}

#[test]
fn transferred_timeshare_stays_unpriced_until_set_price() {
    let mut chain = test_chain();
    let mut p = active_hotel();
    let id = create(&mut p, &chain, b"1", Some(100));
    assert_eq!(p.buy_timeshare(&mut chain, Origin::Signed(BUYER), id, 200), Ok(()));
    assert_eq!(p.transfer(Origin::Signed(BUYER), OTHER, id), Ok(()));
    chain.set_block(2);
    let _ = create(&mut p, &chain, b"1", Some(100));
    assert_eq!(p.timeshares(&id).unwrap().price, None);
    assert_eq!(p.set_price(Origin::Signed(OTHER), id, Some(300)), Ok(()));
    assert_eq!(p.timeshares(&id).unwrap().price, Some(300));
}

#[test]
fn memory_chain_transfers() {
    let mut chain = MemoryChain::new([0u8; 32], 4, 10);
    chain.set_balance(1, 100);
    chain.set_balance(2, u128::MAX - 5);
    assert_eq!(chain.block_number(), 4);
    assert_eq!(chain.random(b"dna"), ([0u8; 32], 4));
    assert_eq!(chain.transfer(1, 3, 101, ExistenceRequirement::AllowDeath), Err(DispatchError::Other(INSUFFICIENT_BALANCE)));
    assert_eq!(chain.transfer(1, 3, 95, ExistenceRequirement::KeepAlive), Err(DispatchError::Other(WOULD_REAP_PAYER)));
    assert_eq!(chain.transfer(1, 2, 6, ExistenceRequirement::KeepAlive), Err(DispatchError::Other(BALANCE_OVERFLOW)));
    assert!(chain.transfers().is_empty());
    assert_eq!(chain.transfer(1, 3, 95, ExistenceRequirement::AllowDeath), Ok(()));
    assert_eq!(chain.balance(1), 5);
    assert_eq!(chain.balance(3), 95);
    assert_eq!(chain.transfers(), &vec![(1, 3, 95, ExistenceRequirement::AllowDeath)]);
}
