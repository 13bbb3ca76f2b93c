//! The registry's initial state: the timeshares it starts with and its administrator.
use vstd::prelude::*;
use crate::model::PalletModel;
use crate::pallet::{drawn_dna, Config, Pallet};
use crate::types::{copy_bytes, AccountId, Balance};

verus! {

/// The timeshares to mint when the chain starts (owner, room number, price),
/// and the administrator's account.
pub struct GenesisConfig {
    pub seeded_timeshares: Vec<(AccountId, Vec<u8>, Option<Balance>)>,
    pub admin_account_id: AccountId,
}

impl Default for GenesisConfig {
    fn default() -> (r: GenesisConfig)
        ensures
            r.seeded_timeshares@.len() == 0,
            r.admin_account_id == 0,
    {
        GenesisConfig { seeded_timeshares: Vec::new(), admin_account_id: 0 }
    }
}

/// A seeded timeshare as a mathematical value.
pub open spec fn seed_view(seed: (AccountId, Vec<u8>, Option<Balance>)) -> (AccountId, Seq<u8>, Option<Balance>) {
    (seed.0, seed.1@, seed.2)
}

/// The storage after minting the seeds in order, the `i`-th with DNA
/// `dnas[i]`; a seed that cannot be minted is passed over.
pub open spec fn mint_seeds(
    s: PalletModel,
    seeds: Seq<(AccountId, Seq<u8>, Option<Balance>)>,
    dnas: Seq<[u8; 16]>,
) -> PalletModel
    decreases seeds.len(),
{
    if seeds.len() == 0 {
        s
    } else {
        let prev = mint_seeds(s, seeds.drop_last(), dnas.drop_last());
        let (owner, room_number, price) = seeds.last();
        match prev.mint(owner, room_number, price, dnas.last()) {
            Ok((next, _)) => next,
            Err(_) => prev,
        }
    }
}

impl GenesisConfig {
    /// The seeds as mathematical values.
    pub open spec fn seeds(&self) -> Seq<(AccountId, Seq<u8>, Option<Balance>)> {
        self.seeded_timeshares@.map_values(|seed: (AccountId, Vec<u8>, Option<Balance>)| seed_view(seed))
    }

    /// The registry as the chain starts: the seeds minted in order, all with
    /// the DNA drawn from the chain's randomness in the genesis block, and the
    /// administrator set.
    pub fn build<E: Config>(&self, env: &E, max_timeshares_per_room: u32) -> (r: Pallet)
        requires
            forall|i: int| 0 <= i < self.seeded_timeshares@.len() ==> (#[trigger] self.seeded_timeshares@[i]).1.len() <= u32::MAX,
        ensures
            r.wf(),
            r@ == mint_seeds(
                PalletModel::empty(self.admin_account_id, max_timeshares_per_room),
                self.seeds(),
                Seq::new(self.seeds().len(), |i: int| drawn_dna(env)),
            ),
    {
        let mut pallet = Pallet::new(self.admin_account_id, max_timeshares_per_room);
        let ghost base = PalletModel::empty(self.admin_account_id, max_timeshares_per_room);
        let ghost mut dnas: Seq<[u8; 16]> = Seq::empty();
        let mut i: usize = 0;
        assert(self.seeds().take(0) =~= Seq::empty());
        assert(dnas =~= Seq::new(0, |k: int| drawn_dna(env)));
        while i < self.seeded_timeshares.len()
            invariant
                pallet.wf(),
                i <= self.seeded_timeshares@.len(),
                dnas == Seq::new(i as nat, |k: int| drawn_dna(env)),
                forall|k: int| 0 <= k < self.seeded_timeshares@.len() ==> (#[trigger] self.seeded_timeshares@[k]).1.len() <= u32::MAX,
                pallet@ == mint_seeds(base, self.seeds().take(i as int), dnas),
            decreases self.seeded_timeshares@.len() - i,
        {
            let seed = &self.seeded_timeshares[i];
            let dna = Pallet::fresh_dna(env);
            let ghost pre = pallet@;
            let _ = pallet.mint_with_dna(seed.0, copy_bytes(&seed.1), seed.2, dna);
            proof {
                let seeds_next = self.seeds().take(i + 1);
                assert(seeds_next.drop_last() =~= self.seeds().take(i as int));
                assert(seeds_next.last() == seed_view(*seed));
                let dnas_next = dnas.push(dna);
                assert(dnas_next.drop_last() =~= dnas);
                assert(dnas_next =~= Seq::new((i + 1) as nat, |k: int| drawn_dna(env)));
                dnas = dnas_next;
            }
            i = i + 1;
        }
        assert(self.seeds().take(i as int) =~= self.seeds());
        pallet
    }
}

} // verus!
