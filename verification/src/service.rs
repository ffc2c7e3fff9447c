use vstd::prelude::*;
use crate::admins::{admin_set_members, AdminSet};
use crate::amount::{amount_limit, Amount};
use crate::distribution::{
    distributed_total, lemma_balance_within_total, lemma_prefix_step, lemma_prefix_total,
    seeded_balances,
};
use crate::identity::Identity;
use crate::ledger::Ledger;

verus! {

/// The administrative state: who may run privileged operations, and
/// whether the one-time ledger initialisation has been done.
pub struct NexusVftStorage {
    is_initialized: bool,
    admins: AdminSet,
}

impl NexusVftStorage {
    /// The administrators.
    pub closed spec fn admins(&self) -> Set<Identity> {
        admin_set_members(self.admins)
    }

    /// Whether the ledger has been initialised.
    pub closed spec fn initialized(&self) -> bool {
        self.is_initialized
    }

    /// Whether the ledger has been initialised.
    pub fn is_initialized(&self) -> (answer: bool)
        ensures
            answer == self.initialized(),
    {
        self.is_initialized
    }

    /// Whether `actor` is an administrator.
    pub fn has_admin(&self, actor: Identity) -> (answer: bool)
        ensures
            answer == self.admins().contains(actor),
    {
        self.admins.contains(actor)
    }
}

impl Default for NexusVftStorage {
    /// A storage with no administrator and an uninitialised ledger.
    fn default() -> (storage: NexusVftStorage)
        ensures
            storage.admins() == Set::<Identity>::empty(),
            !storage.initialized(),
    {
        NexusVftStorage { is_initialized: false, admins: AdminSet::empty() }
    }
}

/// A lifecycle notification for outside observers.
#[derive(Clone, Debug, PartialEq, Eq)]
pub enum Event {
    AdminAdded { admin: Identity },
    AdminRemoved { admin: Identity },
    InitVft { name: String, symbol: String, decimals: u8, initial_balances: Vec<(Identity, Amount)> },
}

/// Why a privileged operation did nothing.
#[derive(Clone, Copy, Debug, PartialEq, Eq)]
pub enum NexusVftError {
    /// The caller is not an administrator.
    Unauthorized,
    /// A balance or the total supply would reach 2^256.
    Overflow,
}

/// The admin-gated token service: the administrative state, the ledger,
/// and the events published so far and not yet taken.
pub struct NexusVftService {
    storage: NexusVftStorage,
    vft: Ledger,
    events: Vec<Event>,
}

/// Whether a ledger is exactly what seeding leaves: the given metadata,
/// the balances of the distribution list, and its total as the supply.
pub open spec fn ledger_seeded(
    ledger: Ledger,
    name: Seq<char>,
    symbol: Seq<char>,
    decimals: u8,
    dist: Seq<(Identity, Amount)>,
) -> bool {
    &&& ledger.name_view() == name
    &&& ledger.symbol_view() == symbol
    &&& ledger.decimals_value() == decimals
    &&& ledger.balance_map() == seeded_balances(dist)
    &&& ledger.supply() == distributed_total(dist)
}

/// What the guarded one-time initialisation does. A caller who is no
/// administrator, or a ledger already initialised, gives `Ok(false)` and
/// changes nothing. A distribution whose total reaches 2^256 gives an
/// overflow error and changes nothing. Otherwise the ledger is seeded
/// anew, the service is marked initialised, one `InitVft` event is
/// published, and the answer is `Ok(true)`.
pub open spec fn init_vft_outcome(
    pre: NexusVftService,
    caller: Identity,
    name: String,
    symbol: String,
    decimals: u8,
    initial_balances: Vec<(Identity, Amount)>,
    post: NexusVftService,
    result: Result<bool, NexusVftError>,
) -> bool {
    if !pre.admins().contains(caller) || pre.initialized() {
        result == Ok::<bool, NexusVftError>(false) && post == pre
    } else if distributed_total(initial_balances@) >= amount_limit() {
        result == Err::<bool, NexusVftError>(NexusVftError::Overflow) && post == pre
    } else {
        &&& result == Ok::<bool, NexusVftError>(true)
        &&& post.admins() == pre.admins()
        &&& post.initialized()
        &&& ledger_seeded(post.ledger(), name@, symbol@, decimals, initial_balances@)
        &&& post.events() == pre.events().push(
            Event::InitVft { name, symbol, decimals, initial_balances },
        )
    }
}

impl NexusVftService {
    /// The administrators.
    pub open spec fn admins(&self) -> Set<Identity> {
        self.storage().admins()
    }

    /// Whether the ledger has been initialised.
    pub open spec fn initialized(&self) -> bool {
        self.storage().initialized()
    }

    /// The token ledger.
    pub closed spec fn ledger(&self) -> Ledger {
        self.vft
    }

    /// The events published and not yet taken, oldest first.
    pub closed spec fn events(&self) -> Seq<Event> {
        self.events@
    }

    /// The administrative state.
    pub closed spec fn storage(&self) -> NexusVftStorage {
        self.storage
    }

    /// A service deployed by `deployer`: the deployer is its only
    /// administrator, the ledger is empty, without metadata and not
    /// initialised, and no event has been published.
    pub fn new(deployer: Identity) -> (service: NexusVftService)
        ensures
            service.admins() == set![deployer],
            service.admins().contains(deployer),
            !service.initialized(),
            ledger_seeded(service.ledger(), Seq::empty(), Seq::empty(), 0, Seq::empty()),
            service.events() == Seq::<Event>::empty(),
    {
        let mut admins = AdminSet::empty();
        admins.insert(deployer);
        assert(admin_set_members(admins) =~= set![deployer]);
        NexusVftService {
            storage: NexusVftStorage { is_initialized: false, admins },
            vft: Ledger::seed(String::new(), String::new(), 0),
            events: Vec::new(),
        }
    }

    /// A service deployed by `deployer` with a seeded ledger: the deployer
    /// is its only administrator, the ledger has the given metadata and
    /// the balances of the distribution list, and it is marked
    /// initialised. Fails with an overflow error exactly when the list's
    /// total reaches 2^256.
    pub fn seed(
        deployer: Identity,
        name: String,
        symbol: String,
        decimals: u8,
        initial_balances: Vec<(Identity, Amount)>,
    ) -> (result: Result<NexusVftService, NexusVftError>)
        ensures
            result is Ok <==> distributed_total(initial_balances@) < amount_limit(),
            result is Err ==> result->Err_0 == NexusVftError::Overflow,
            result is Ok ==> result->Ok_0.admins() == set![deployer],
            result is Ok ==> result->Ok_0.admins().contains(deployer),
            result is Ok ==> result->Ok_0.initialized(),
            result is Ok ==> ledger_seeded(
                result->Ok_0.ledger(),
                name@,
                symbol@,
                decimals,
                initial_balances@,
            ),
            result is Ok ==> result->Ok_0.events() == Seq::<Event>::empty(),
    {
        let mut service = Self::new(deployer);
        match service._init_vft(deployer, name, symbol, decimals, &initial_balances) {
            Ok(_) => {
                service.storage.is_initialized = true;
                Ok(service)
            },
            Err(e) => Err(e),
        }
    }

    /// Replaces the ledger by one seeded with the given metadata and
    /// distribution list, for an administrator. Changes nothing else, and
    /// nothing at all where it fails: for a caller who is no
    /// administrator, or a list whose total reaches 2^256.
    fn _init_vft(
        &mut self,
        caller: Identity,
        name: String,
        symbol: String,
        decimals: u8,
        initial_balances: &Vec<(Identity, Amount)>,
    ) -> (result: Result<bool, NexusVftError>)
        ensures
            !old(self).admins().contains(caller) ==> result == Err::<bool, NexusVftError>(
                NexusVftError::Unauthorized,
            ),
            old(self).admins().contains(caller) && distributed_total(initial_balances@)
                >= amount_limit() ==> result == Err::<bool, NexusVftError>(
                NexusVftError::Overflow,
            ),
            old(self).admins().contains(caller) && distributed_total(initial_balances@)
                < amount_limit() ==> result == Ok::<bool, NexusVftError>(true),
            result is Err ==> *final(self) == *old(self),
            result is Ok ==> ledger_seeded(
                final(self).ledger(),
                name@,
                symbol@,
                decimals,
                initial_balances@,
            ),
            final(self).storage() == old(self).storage(),
            final(self).events() == old(self).events(),
    {
        if !self.is_admin(caller) {
            return Err(NexusVftError::Unauthorized);
        }
        let ghost dist = initial_balances@;
        let mut ledger = Ledger::seed(name, symbol, decimals);
        let mut i: usize = 0;
        while i < initial_balances.len()
            invariant
                0 <= i <= initial_balances.len(),
                dist == initial_balances@,
                *self == *old(self),
                self.admins().contains(caller),
                ledger_seeded(ledger, name@, symbol@, decimals, dist.take(i as int)),
            decreases initial_balances.len() - i,
        {
            let (actor, amount) = initial_balances[i];
            proof {
                lemma_prefix_step(dist, i as int);
                lemma_prefix_total(dist, i + 1);
                lemma_balance_within_total(dist.take(i as int), actor);
            }
            if !ledger.credit(actor, amount) {
                return Err(NexusVftError::Overflow);
            }
            i += 1;
        }
        proof {
            assert(dist.take(i as int) =~= dist);
            ledger.lemma_supply_bounded();
        }
        self.vft = ledger;
        Ok(true)
    }

    /// The administrative state, read-only.
    pub fn get(&self) -> (storage: &NexusVftStorage)
        ensures
            *storage == self.storage(),
    {
        &self.storage
    }

    /// The administrative state, for change in place. What the caller
    /// leaves there becomes the service's administrative state; the ledger
    /// and the events are not touched.
    pub fn get_mut(&mut self) -> (storage: &mut NexusVftStorage)
        ensures
            *storage == old(self).storage(),
            final(self).storage() == *final(storage),
            final(self).ledger() == old(self).ledger(),
            final(self).events() == old(self).events(),
    {
        &mut self.storage
    }

    /// Mints `amount` to `to` on behalf of `caller`. A caller who is no
    /// administrator is refused; a balance or a supply that would reach
    /// 2^256 is an overflow error; either way nothing changes. Otherwise
    /// the balance of `to` and the total supply each grow by exactly
    /// `amount`, nothing else changes, and the answer is `Ok(true)`.
    pub fn mint(&mut self, caller: Identity, to: Identity, amount: Amount) -> (result: Result<
        bool,
        NexusVftError,
    >)
        ensures
            !old(self).admins().contains(caller) ==> result == Err::<bool, NexusVftError>(
                NexusVftError::Unauthorized,
            ),
            old(self).admins().contains(caller) && (old(self).ledger().balance(to) + amount@
                >= amount_limit() || old(self).ledger().supply() + amount@ >= amount_limit())
                ==> result == Err::<bool, NexusVftError>(NexusVftError::Overflow),
            old(self).admins().contains(caller) && old(self).ledger().balance(to) + amount@
                < amount_limit() && old(self).ledger().supply() + amount@ < amount_limit()
                ==> result == Ok::<bool, NexusVftError>(true),
            result is Err ==> *final(self) == *old(self),
            result is Ok ==> final(self).ledger().balance(to) == old(self).ledger().balance(to)
                + amount@,
            result is Ok ==> final(self).ledger().supply() == old(self).ledger().supply()
                + amount@,
            result is Ok ==> final(self).ledger().balance_map() == old(
                self,
            ).ledger().balance_map().insert(to, old(self).ledger().balance(to) + amount@),
            final(self).ledger().name_view() == old(self).ledger().name_view(),
            final(self).ledger().symbol_view() == old(self).ledger().symbol_view(),
            final(self).ledger().decimals_value() == old(self).ledger().decimals_value(),
            final(self).storage() == old(self).storage(),
            final(self).events() == old(self).events(),
    {
        if !self.is_admin(caller) {
            return Err(NexusVftError::Unauthorized);
        }
        if self.vft.credit(to, amount) {
            Ok(true)
        } else {
            Err(NexusVftError::Overflow)
        }
    }

    /// The one-time ledger initialisation, guarded by the administrator
    /// set and by the initialised mark.
    pub fn init_vft(
        &mut self,
        caller: Identity,
        name: String,
        symbol: String,
        decimals: u8,
        initial_balances: Vec<(Identity, Amount)>,
    ) -> (result: Result<bool, NexusVftError>)
        ensures
            init_vft_outcome(
                *old(self),
                caller,
                name,
                symbol,
                decimals,
                initial_balances,
                *final(self),
                result,
            ),
    {
        if !self.is_admin(caller) {
            return Ok(false);
        }
        if self.storage.is_initialized {
            return Ok(false);
        }
        match self._init_vft(caller, name.clone(), symbol.clone(), decimals, &initial_balances) {
            Ok(done) => {
                if done {
                    self.events.push(Event::InitVft { name, symbol, decimals, initial_balances });
                    self.storage.is_initialized = true;
                    Ok(true)
                } else {
                    Ok(false)
                }
            },
            Err(e) => Err(e),
        }
    }

    /// Makes `new_admin` an administrator on behalf of `caller`. A caller
    /// who is no administrator is refused and nothing changes. Otherwise
    /// `new_admin` joins the set (which is as before if it was a member
    /// already) and one `AdminAdded` event is published.
    pub fn add_admin(&mut self, caller: Identity, new_admin: Identity) -> (result: Result<
        (),
        NexusVftError,
    >)
        ensures
            result is Ok <==> old(self).admins().contains(caller),
            result is Err ==> result->Err_0 == NexusVftError::Unauthorized,
            result is Err ==> *final(self) == *old(self),
            result is Ok ==> final(self).admins() == old(self).admins().insert(new_admin),
            result is Ok ==> final(self).admins().contains(new_admin),
            result is Ok ==> final(self).events() == old(self).events().push(
                Event::AdminAdded { admin: new_admin },
            ),
            final(self).initialized() == old(self).initialized(),
            final(self).ledger() == old(self).ledger(),
    {
        if !self.is_admin(caller) {
            return Err(NexusVftError::Unauthorized);
        }
        self.storage.admins.insert(new_admin);
        self.events.push(Event::AdminAdded { admin: new_admin });
        Ok(())
    }

    /// Takes the administrator rights from `admin` on behalf of `caller`.
    /// A caller who is no administrator is refused and nothing changes.
    /// Otherwise `admin` leaves the set (which is as before if it was no
    /// member; the caller itself and the last administrator may leave
    /// too) and one `AdminRemoved` event is published.
    pub fn remove_admin(&mut self, caller: Identity, admin: Identity) -> (result: Result<
        (),
        NexusVftError,
    >)
        ensures
            result is Ok <==> old(self).admins().contains(caller),
            result is Err ==> result->Err_0 == NexusVftError::Unauthorized,
            result is Err ==> *final(self) == *old(self),
            result is Ok ==> final(self).admins() == old(self).admins().remove(admin),
            result is Ok ==> !final(self).admins().contains(admin),
            result is Ok ==> final(self).events() == old(self).events().push(
                Event::AdminRemoved { admin },
            ),
            final(self).initialized() == old(self).initialized(),
            final(self).ledger() == old(self).ledger(),
    {
        if !self.is_admin(caller) {
            return Err(NexusVftError::Unauthorized);
        }
        self.storage.admins.remove(admin);
        self.events.push(Event::AdminRemoved { admin });
        Ok(())
    }

    /// Puts `ledger` in the place of the service's ledger: for a host that
    /// shares the ledger with another keeper and brings its state in
    /// before a call. The administrative state and the events stay.
    pub fn set_ledger(&mut self, ledger: Ledger)
        ensures
            final(self).ledger() == ledger,
            final(self).storage() == old(self).storage(),
            final(self).events() == old(self).events(),
    {
        self.vft = ledger;
    }

    /// Hands out the events published since the last call, oldest first,
    /// and forgets them. Nothing else changes.
    pub fn take_events(&mut self) -> (taken: Vec<Event>)
        ensures
            taken@ == old(self).events(),
            final(self).events() == Seq::<Event>::empty(),
            final(self).storage() == old(self).storage(),
            final(self).ledger() == old(self).ledger(),
    {
        let mut taken: Vec<Event> = Vec::new();
        std::mem::swap(&mut taken, &mut self.events);
        taken
    }

    /// The ledger's balance of `account`.
    pub fn balance_of(&self, account: Identity) -> (balance: Amount)
        ensures
            balance@ == self.ledger().balance(account),
    {
        self.vft.balance_of(account)
    }

    /// All balances that the ledger records, each holder once, in no
    /// particular order.
    pub fn balances(&self) -> (list: Vec<(Identity, Amount)>)
        ensures
            forall|i: int|
                0 <= i < list@.len() ==> self.ledger().balance_map().dom().contains(
                    (#[trigger] list@[i]).0,
                ) && self.ledger().balance_map()[list@[i].0] == list@[i].1@,
            forall|id: Identity| #[trigger]
                self.ledger().balance_map().dom().contains(id) ==> exists|i: int|
                    0 <= i < list@.len() && (#[trigger] list@[i]).0 == id,
            forall|i: int, j: int|
                0 <= i < j < list@.len() ==> (#[trigger] list@[i]).0 != (#[trigger] list@[j]).0,
    {
        self.vft.balances()
    }

    /// The ledger's number of decimals.
    pub fn decimals(&self) -> (decimals: u8)
        ensures
            decimals == self.ledger().decimals_value(),
    {
        self.vft.decimals()
    }

    /// The token's name.
    pub fn name(&self) -> (name: &str)
        ensures
            name@ == self.ledger().name_view(),
    {
        self.vft.name()
    }

    /// The token's symbol.
    pub fn symbol(&self) -> (symbol: &str)
        ensures
            symbol@ == self.ledger().symbol_view(),
    {
        self.vft.symbol()
    }

    /// The ledger's total supply.
    pub fn total_supply(&self) -> (supply: Amount)
        ensures
            supply@ == self.ledger().supply(),
    {
        self.vft.total_supply()
    }

    /// Whether `actor` is an administrator.
    pub fn is_admin(&self, actor: Identity) -> (answer: bool)
        ensures
            answer == self.admins().contains(actor),
    {
        self.storage.has_admin(actor)
    }
}

/// The deployed program: it owns the one service that every call works on.
pub struct NexusVftProgram(NexusVftService);

impl NexusVftProgram {
    /// The service that the program exposes.
    pub closed spec fn service(&self) -> NexusVftService {
        self.0
    }

    /// Deploys with a seeded ledger, as `NexusVftService::seed` does.
    pub fn initialize(
        deployer: Identity,
        name: String,
        symbol: String,
        decimals: u8,
        initial_balances: Vec<(Identity, Amount)>,
    ) -> (result: Result<NexusVftProgram, NexusVftError>)
        ensures
            result is Ok <==> distributed_total(initial_balances@) < amount_limit(),
            result is Err ==> result->Err_0 == NexusVftError::Overflow,
            result is Ok ==> result->Ok_0.service().admins() == set![deployer],
            result is Ok ==> result->Ok_0.service().admins().contains(deployer),
            result is Ok ==> result->Ok_0.service().initialized(),
            result is Ok ==> ledger_seeded(
                result->Ok_0.service().ledger(),
                name@,
                symbol@,
                decimals,
                initial_balances@,
            ),
            result is Ok ==> result->Ok_0.service().events() == Seq::<Event>::empty(),
    {
        match NexusVftService::seed(deployer, name, symbol, decimals, initial_balances) {
            Ok(service) => Ok(NexusVftProgram(service)),
            Err(e) => Err(e),
        }
    }

    /// Deploys bare, as `NexusVftService::new` does.
    pub fn new(deployer: Identity) -> (program: NexusVftProgram)
        ensures
            program.service().admins() == set![deployer],
            program.service().admins().contains(deployer),
            !program.service().initialized(),
            ledger_seeded(program.service().ledger(), Seq::empty(), Seq::empty(), 0, Seq::empty()),
            program.service().events() == Seq::<Event>::empty(),
    {
        NexusVftProgram(NexusVftService::new(deployer))
    }

    /// The exposed service, for calls on it. What a call leaves there is
    /// the program's service from then on.
    pub fn nexus_vft(&mut self) -> (service: &mut NexusVftService)
        ensures
            *service == old(self).service(),
            final(self).service() == *final(service),
    {
        &mut self.0
    }
}

/// The administrators after a deployment by `deployer` and a run of
/// successful additions, in order.
pub open spec fn admins_after_adding(deployer: Identity, added: Seq<Identity>) -> Set<Identity>
    decreases added.len(),
{
    if added.len() == 0 {
        set![deployer]
    } else {
        admins_after_adding(deployer, added.drop_last()).insert(added.last())
    }
}

/// After a deployment and any run of additions, an identity is an
/// administrator exactly if it is the deployer or one of those added.
pub proof fn lemma_only_added_are_admins(deployer: Identity, added: Seq<Identity>, id: Identity)
    ensures
        admins_after_adding(deployer, added).contains(id) <==> (id == deployer || added.contains(
            id,
        )),
    decreases added.len(),
{
    if added.len() > 0 {
        lemma_only_added_are_admins(deployer, added.drop_last(), id);
        if added.drop_last().contains(id) {
            let k = choose|k: int| 0 <= k < added.drop_last().len() && added.drop_last()[k] == id;
            assert(added[k] == id);
        }
        if added.contains(id) && id != added.last() {
            let k = choose|k: int| 0 <= k < added.len() && added[k] == id;
            assert(added.drop_last()[k] == id);
        }
    }
}

/// An identity that was added is an administrator, and is none once it
/// was removed after that.
pub proof fn lemma_added_then_removed(
    before: NexusVftService,
    added: NexusVftService,
    removed: NexusVftService,
    x: Identity,
)
    requires
        added.admins() == before.admins().insert(x),
        removed.admins() == added.admins().remove(x),
    ensures
        added.admins().contains(x),
        !removed.admins().contains(x),
{
}

/// The guarded initialisation succeeds at most once: after a call that
/// answered `Ok(true)`, every further call answers `Ok(false)` and leaves
/// the service as it was.
pub proof fn lemma_init_vft_only_once(
    before: NexusVftService,
    first_caller: Identity,
    first_name: String,
    first_symbol: String,
    first_decimals: u8,
    first_balances: Vec<(Identity, Amount)>,
    between: NexusVftService,
    second_caller: Identity,
    second_name: String,
    second_symbol: String,
    second_decimals: u8,
    second_balances: Vec<(Identity, Amount)>,
    after: NexusVftService,
    second_result: Result<bool, NexusVftError>,
)
    requires
        init_vft_outcome(
            before,
            first_caller,
            first_name,
            first_symbol,
            first_decimals,
            first_balances,
            between,
            Ok(true),
        ),
        init_vft_outcome(
            between,
            second_caller,
            second_name,
            second_symbol,
            second_decimals,
            second_balances,
            after,
            second_result,
        ),
    ensures
        second_result == Ok::<bool, NexusVftError>(false),
        after == between,
{
}

} // verus!
