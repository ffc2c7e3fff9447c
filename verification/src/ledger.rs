use vstd::prelude::*;
use crate::amount::{amount_limit, lemma_amount_bounded, Amount};
use crate::identity::Identity;

verus! {

/// The balances of a token ledger, kept in a
/// `gstd::collections::HashMap` from `gstd::ActorId` to `sails_rs::U256`.
/// Nothing is proved of the map itself: what it records is
/// `balance_map_entries`, and the methods below say, unproved, what each
/// call of the hash map does to that.
#[verifier::external_body]
pub struct BalanceMap {
    inner: gstd::collections::HashMap<gstd::ActorId, sails_rs::U256>,
}

/// The balance that a balance map records for each identity it holds.
pub uninterp spec fn balance_map_entries(balances: BalanceMap) -> Map<Identity, nat>;

/// The map of balances that records nothing.
pub open spec fn no_balances() -> Map<Identity, nat> {
    Map::empty()
}

impl BalanceMap {
    /// Calls `gstd::collections::HashMap::new`. Trusted: the new map holds nothing.
    #[verifier::external_body]
    pub(crate) fn empty() -> (balances: BalanceMap)
        ensures
            balance_map_entries(balances) == no_balances(),
    {
        BalanceMap { inner: gstd::collections::HashMap::new() }
    }

    /// Calls `gstd::collections::HashMap::get` with the actor of the same
    /// 32 bytes. Trusted: the answer is the recorded balance of
    /// the identity, or `None` where the map has no entry for it.
    #[verifier::external_body]
    pub(crate) fn get(&self, id: Identity) -> (found: Option<Amount>)
        ensures
            match found {
                Some(a) => balance_map_entries(*self).dom().contains(id) && balance_map_entries(
                    *self,
                )[id] == a@,
                None => !balance_map_entries(*self).dom().contains(id),
            },
    {
        match self.inner.get(&gstd::ActorId::new(id.bytes)) {
            Some(v) => Some(Amount { limbs: v.0 }),
            None => None,
        }
    }

    /// Calls `gstd::collections::HashMap::insert` with the actor of the
    /// same 32 bytes and the number of the same limbs. Trusted: afterwards the map records the
    /// amount for the identity and is otherwise as before.
    #[verifier::external_body]
    pub(crate) fn insert(&mut self, id: Identity, amount: Amount)
        ensures
            balance_map_entries(*final(self)) == balance_map_entries(*old(self)).insert(
                id,
                amount@,
            ),
    {
        self.inner.insert(gstd::ActorId::new(id.bytes), sails_rs::U256(amount.limbs));
    }

    /// Walks `gstd::collections::HashMap::iter`. Trusted: every entry of the map comes out
    /// once, with its own balance, and nothing else does; the order is
    /// left open.
    #[verifier::external_body]
    pub(crate) fn entries(&self) -> (list: Vec<(Identity, Amount)>)
        ensures
            forall|i: int|
                0 <= i < list@.len() ==> balance_map_entries(*self).dom().contains(
                    (#[trigger] list@[i]).0,
                ) && balance_map_entries(*self)[list@[i].0] == list@[i].1@,
            forall|id: Identity| #[trigger]
                balance_map_entries(*self).dom().contains(id) ==> exists|i: int|
                    0 <= i < list@.len() && (#[trigger] list@[i]).0 == id,
            forall|i: int, j: int|
                0 <= i < j < list@.len() ==> (#[trigger] list@[i]).0 != (#[trigger] list@[j]).0,
    {
        let mut list = Vec::new();
        for (k, v) in self.inner.iter() {
            list.push((Identity { bytes: k.into_bytes() }, Amount { limbs: v.0 }));
        }
        list
    }
}

/// The balance that a map of balances gives an identity: zero where it
/// has no entry.
pub open spec fn balance_in(map: Map<Identity, nat>, id: Identity) -> nat {
    if map.dom().contains(id) {
        map[id]
    } else {
        0
    }
}

/// The balances that a list of entries records: each identity with the
/// amount of its last entry.
pub open spec fn recorded_balances(list: Seq<(Identity, Amount)>) -> Map<Identity, nat>
    decreases list.len(),
{
    if list.len() == 0 {
        Map::empty()
    } else {
        recorded_balances(list.drop_last()).insert(list.last().0, list.last().1@)
    }
}

/// The state of a fungible-token ledger: its metadata, the balance of each
/// holder and the total supply.
pub struct Ledger {
    name: String,
    symbol: String,
    decimals: u8,
    balances: BalanceMap,
    total_supply: Amount,
}

impl Ledger {
    /// The token's name, as characters.
    pub closed spec fn name_view(&self) -> Seq<char> {
        self.name@
    }

    /// The token's symbol, as characters.
    pub closed spec fn symbol_view(&self) -> Seq<char> {
        self.symbol@
    }

    /// The number of decimals.
    pub closed spec fn decimals_value(&self) -> u8 {
        self.decimals
    }

    /// The recorded balances.
    pub closed spec fn balance_map(&self) -> Map<Identity, nat> {
        balance_map_entries(self.balances)
    }

    /// The total supply.
    pub closed spec fn supply(&self) -> nat {
        self.total_supply@
    }

    /// The balance of one identity: zero where none is recorded.
    pub open spec fn balance(&self, id: Identity) -> nat {
        balance_in(self.balance_map(), id)
    }

    /// The total supply is below 2^256.
    pub proof fn lemma_supply_bounded(&self)
        ensures
            self.supply() < amount_limit(),
    {
        lemma_amount_bounded(self.total_supply);
    }

    /// A fresh ledger with the given metadata, no balances and no supply.
    pub fn seed(name: String, symbol: String, decimals: u8) -> (ledger: Ledger)
        ensures
            ledger.name_view() == name@,
            ledger.symbol_view() == symbol@,
            ledger.decimals_value() == decimals,
            ledger.balance_map() == no_balances(),
            ledger.supply() == 0,
    {
        Ledger { name, symbol, decimals, balances: BalanceMap::empty(), total_supply: Amount::zero() }
    }

    /// A ledger with the given metadata, recorded balances and total
    /// supply, as another keeper of the same ledger holds them. Where the
    /// list names an identity twice, its last entry counts.
    pub fn restore(
        name: String,
        symbol: String,
        decimals: u8,
        balances: &Vec<(Identity, Amount)>,
        total_supply: Amount,
    ) -> (ledger: Ledger)
        ensures
            ledger.name_view() == name@,
            ledger.symbol_view() == symbol@,
            ledger.decimals_value() == decimals,
            ledger.balance_map() == recorded_balances(balances@),
            ledger.supply() == total_supply@,
    {
        let mut map = BalanceMap::empty();
        let mut i: usize = 0;
        while i < balances.len()
            invariant
                0 <= i <= balances.len(),
                balance_map_entries(map) == recorded_balances(balances@.take(i as int)),
            decreases balances.len() - i,
        {
            let (holder, amount) = balances[i];
            proof {
                assert(balances@.take(i + 1).drop_last() =~= balances@.take(i as int));
            }
            map.insert(holder, amount);
            i += 1;
        }
        proof {
            assert(balances@.take(i as int) =~= balances@);
        }
        Ledger { name, symbol, decimals, balances: map, total_supply }
    }

    /// Adds `amount` to the balance of `to` and to the total supply. Does
    /// so only if neither would reach 2^256; otherwise the ledger is left
    /// as it was and the answer is `false`.
    pub fn credit(&mut self, to: Identity, amount: Amount) -> (done: bool)
        ensures
            done == (old(self).balance(to) + amount@ < amount_limit() && old(self).supply()
                + amount@ < amount_limit()),
            done ==> final(self).balance_map() == old(self).balance_map().insert(
                to,
                old(self).balance(to) + amount@,
            ),
            done ==> final(self).supply() == old(self).supply() + amount@,
            !done ==> *final(self) == *old(self),
            final(self).name_view() == old(self).name_view(),
            final(self).symbol_view() == old(self).symbol_view(),
            final(self).decimals_value() == old(self).decimals_value(),
    {
        let current = match self.balances.get(to) {
            Some(a) => a,
            None => Amount::zero(),
        };
        match current.checked_add(amount) {
            None => false,
            Some(balance) => match self.total_supply.checked_add(amount) {
                None => false,
                Some(supply) => {
                    self.balances.insert(to, balance);
                    self.total_supply = supply;
                    true
                },
            },
        }
    }

    /// The balance of `account`: zero where none is recorded.
    pub fn balance_of(&self, account: Identity) -> (balance: Amount)
        ensures
            balance@ == self.balance(account),
    {
        match self.balances.get(account) {
            Some(a) => a,
            None => Amount::zero(),
        }
    }

    /// All recorded balances, each holder once, in no particular order.
    pub fn balances(&self) -> (list: Vec<(Identity, Amount)>)
        ensures
            forall|i: int|
                0 <= i < list@.len() ==> self.balance_map().dom().contains(
                    (#[trigger] list@[i]).0,
                ) && self.balance_map()[list@[i].0] == list@[i].1@,
            forall|id: Identity| #[trigger]
                self.balance_map().dom().contains(id) ==> exists|i: int|
                    0 <= i < list@.len() && (#[trigger] list@[i]).0 == id,
            forall|i: int, j: int|
                0 <= i < j < list@.len() ==> (#[trigger] list@[i]).0 != (#[trigger] list@[j]).0,
    {
        self.balances.entries()
    }

    /// The total supply.
    pub fn total_supply(&self) -> (supply: Amount)
        ensures
            supply@ == self.supply(),
    {
        self.total_supply
    }

    /// The number of decimals.
    pub fn decimals(&self) -> (decimals: u8)
        ensures
            decimals == self.decimals_value(),
    {
        self.decimals
    }

    /// The token's name.
    pub fn name(&self) -> (name: &str)
        ensures
            name@ == self.name_view(),
    {
        self.name.as_str()
    }

    /// The token's symbol.
    pub fn symbol(&self) -> (symbol: &str)
        ensures
            symbol@ == self.symbol_view(),
    {
        self.symbol.as_str()
    }
}

} // verus!
