//! The simulation engine: the account population of one run and one unit of
//! progress per tick.
//!
//! A tick is one Bernoulli trial. If it fires, a fresh account is created:
//! the driver generates a key pair and persists the secret in the key store
//! (both outside this library), and the engine then classifies the account
//! and admits it into exactly one of the two populations. The very first
//! account of a run joins the miners and is recorded as the mining author.
//!
//! The ghost model `SimModel` abstracts the engine to the addresses it
//! tracks; the engine's methods are specified against it, and the laws of
//! the simulation are proved over traces of model transitions.

use vstd::prelude::*;
use vstd::seq_lib::lemma_seq_contains_after_push;

use crate::account::{bytes_eq, copy_bytes, Account};
use crate::actions::{Action, ActionLog};
use crate::classify::{classify, placement_of, Placement};
use crate::rng::{random_lowercase_bytes, scripted_password, DrawSource};

verus! {

/// The addresses of a sequence of accounts, in order.
pub open spec fn addresses_of(s: Seq<Account>) -> Seq<Seq<u8>> {
    s.map_values(|a: Account| a.address@)
}

/// Pushing an account appends its address.
pub proof fn lemma_addresses_of_push(s: Seq<Account>, a: Account)
    ensures
        addresses_of(s.push(a)) == addresses_of(s).push(a.address@),
{
    assert(addresses_of(s.push(a)) =~= addresses_of(s).push(a.address@));
}

/// The population of a run, abstracted to the addresses it tracks and the
/// chances that drive it.
#[verifier::ext_equal]
pub struct SimModel {
    pub users: Seq<Seq<u8>>,
    pub miners: Seq<Seq<u8>>,
    pub author: Option<Seq<u8>>,
    pub create_chance: u32,
    pub miner_chance: u32,
}

/// What one tick receives from outside the engine: the draw that decides
/// creation, whether the key store persisted the new secret, the created
/// account's address, and the draw that classifies it.
pub struct TickInput {
    pub create_draw: u32,
    pub persist_ok: bool,
    pub address: Seq<u8>,
    pub class_draw: u32,
}

/// Whether no account has been created yet.
pub open spec fn no_accounts(m: SimModel) -> bool {
    m.users.len() == 0 && m.miners.len() == 0
}

/// Whether an address is tracked in either population.
pub open spec fn tracks(m: SimModel, addr: Seq<u8>) -> bool {
    m.users.contains(addr) || m.miners.contains(addr)
}

/// How many accounts the run tracks in all.
pub open spec fn population_total(m: SimModel) -> int {
    m.users.len() + m.miners.len() as int
}

/// The two populations share no address.
pub open spec fn disjoint_populations(m: SimModel) -> bool {
    forall|i: int, j: int|
        0 <= i < m.users.len() && 0 <= j < m.miners.len() ==> #[trigger] m.users[i]
            != #[trigger] m.miners[j]
}

/// Before the first account there is no author; from the first account on,
/// the author is the first miner.
pub open spec fn author_designated(m: SimModel) -> bool {
    match m.author {
        Option::None => no_accounts(m),
        Option::Some(a) => m.miners.len() > 0 && m.miners[0] == a,
    }
}

/// The engine's invariant over its model.
pub open spec fn model_wf(m: SimModel) -> bool {
    disjoint_populations(m) && author_designated(m)
}

/// Admitting one created account: the first ever joins the miners and
/// becomes the author; later ones join the miners exactly when the fresh
/// draw falls below the miner chance, and the users otherwise.
pub open spec fn commit_step(m: SimModel, addr: Seq<u8>, class_draw: u32) -> SimModel {
    match placement_of(no_accounts(m), class_draw, m.miner_chance) {
        Placement::FirstAccount => SimModel {
            miners: m.miners.push(addr),
            author: Option::Some(addr),
            ..m
        },
        Placement::Miner => SimModel { miners: m.miners.push(addr), ..m },
        Placement::User => SimModel { users: m.users.push(addr), ..m },
    }
}

/// One whole tick: an account is admitted exactly when the creation draw
/// fires and the key store persisted the secret; any other tick changes
/// nothing.
pub open spec fn tick_step(m: SimModel, t: TickInput) -> SimModel {
    if t.create_draw < m.create_chance && t.persist_ok {
        commit_step(m, t.address, t.class_draw)
    } else {
        m
    }
}

/// The model after a whole sequence of ticks, first tick first.
pub open spec fn run_ticks(m: SimModel, ts: Seq<TickInput>) -> SimModel
    decreases ts.len(),
{
    if ts.len() == 0 {
        m
    } else {
        run_ticks(tick_step(m, ts[0]), ts.drop_first())
    }
}

/// Admitting an account with a fresh address preserves the invariant: the
/// populations stay disjoint and the author stays the first miner.
pub proof fn lemma_commit_preserves_wf(m: SimModel, addr: Seq<u8>, class_draw: u32)
    requires
        model_wf(m),
        !tracks(m, addr),
    ensures
        model_wf(commit_step(m, addr, class_draw)),
{
    let m2 = commit_step(m, addr, class_draw);
    assert(forall|i: int| 0 <= i < m.users.len() ==> #[trigger] m.users[i] != addr) by {
        assert(forall|i: int|
            0 <= i < m.users.len() && #[trigger] m.users[i] == addr ==> m.users.contains(addr));
    }
    assert(forall|j: int| 0 <= j < m.miners.len() ==> #[trigger] m.miners[j] != addr) by {
        assert(forall|j: int|
            0 <= j < m.miners.len() && #[trigger] m.miners[j] == addr ==> m.miners.contains(
                addr,
            ));
    }
    match placement_of(no_accounts(m), class_draw, m.miner_chance) {
        Placement::FirstAccount => {
            assert(m2.miners[0] == addr);
        },
        Placement::Miner => {
            assert(m.author is Some);
            assert(m2.miners[0] == m.miners[0]);
        },
        Placement::User => {
            assert(m.author is Some);
        },
    }
}

/// A tick introduces no address but the one it was given.
pub proof fn lemma_tick_tracks(m: SimModel, t: TickInput, x: Seq<u8>)
    ensures
        tracks(tick_step(m, t), x) ==> tracks(m, x) || x == t.address,
{
    lemma_seq_contains_after_push(m.users, t.address, x);
    lemma_seq_contains_after_push(m.miners, t.address, x);
}

/// A tick preserves the invariant when the address it admits is fresh.
pub proof fn lemma_tick_preserves_wf(m: SimModel, t: TickInput)
    requires
        model_wf(m),
        !tracks(m, t.address),
    ensures
        model_wf(tick_step(m, t)),
{
    if t.create_draw < m.create_chance && t.persist_ok {
        lemma_commit_preserves_wf(m, t.address, t.class_draw);
    }
}

/// At every point of every run the populations are disjoint and the author
/// is the first miner, as long as created addresses are fresh: not tracked
/// at the start and pairwise distinct.
pub proof fn lemma_every_run_keeps_wf(m: SimModel, ts: Seq<TickInput>)
    requires
        model_wf(m),
        forall|k: int| 0 <= k < ts.len() ==> !tracks(m, #[trigger] ts[k].address),
        forall|k: int, l: int|
            0 <= k < l < ts.len() ==> #[trigger] ts[k].address != #[trigger] ts[l].address,
    ensures
        model_wf(run_ticks(m, ts)),
    decreases ts.len(),
{
    if ts.len() > 0 {
        let t = ts[0];
        let m1 = tick_step(m, t);
        let rest = ts.drop_first();
        lemma_tick_preserves_wf(m, t);
        assert forall|k: int| 0 <= k < rest.len() implies !tracks(m1, #[trigger] rest[k].address) by {
            assert(rest[k] == ts[k + 1]);
            lemma_tick_tracks(m, t, ts[k + 1].address);
        }
        assert forall|k: int, l: int|
            0 <= k < l < rest.len() implies #[trigger] rest[k].address
            != #[trigger] rest[l].address by {
            assert(rest[k] == ts[k + 1]);
            assert(rest[l] == ts[l + 1]);
        }
        lemma_every_run_keeps_wf(m1, rest);
    }
}

/// The first account ever created joins the miners and is exactly the one
/// recorded as the mining author.
pub proof fn lemma_first_account_becomes_author(m: SimModel, t: TickInput)
    requires
        no_accounts(m),
        t.create_draw < m.create_chance,
        t.persist_ok,
    ensures
        tick_step(m, t).author == Option::Some(t.address),
        tick_step(m, t).miners.len() == 1,
        tick_step(m, t).miners[0] == t.address,
        tick_step(m, t).users.len() == 0,
{
}

/// One tick creates at most one account: creation is a single Bernoulli
/// trial, never a batch.
pub proof fn lemma_tick_creates_at_most_one(m: SimModel, t: TickInput)
    ensures
        population_total(tick_step(m, t)) <= population_total(m) + 1,
{
}

/// A tick creates at most one account, so N ticks create at most N.
pub proof fn lemma_ticks_create_at_most(m: SimModel, ts: Seq<TickInput>)
    ensures
        population_total(run_ticks(m, ts)) <= population_total(m) + ts.len(),
    decreases ts.len(),
{
    if ts.len() > 0 {
        lemma_ticks_create_at_most(tick_step(m, ts[0]), ts.drop_first());
    }
}

/// With a creation chance of zero, no tick ever creates an account.
pub proof fn lemma_zero_chance_creates_nothing(m: SimModel, ts: Seq<TickInput>)
    requires
        m.create_chance == 0,
    ensures
        run_ticks(m, ts) == m,
    decreases ts.len(),
{
    if ts.len() > 0 {
        lemma_zero_chance_creates_nothing(m, ts.drop_first());
    }
}

/// If the key store fails to persist a secret, that tick changes nothing:
/// the account of the failed call appears in neither population.
pub proof fn lemma_failed_persistence_leaves_no_trace(m: SimModel, t: TickInput)
    requires
        !t.persist_ok,
    ensures
        tick_step(m, t) == m,
        !tracks(m, t.address) ==> !tracks(tick_step(m, t), t.address),
{
}

/// The simulation engine. It owns the populations, the action log, the
/// source of randomness and the chances of the run; the driver owns the key
/// store, the RPC client and the clock, and calls `tick_begin` and
/// `tick_commit` once per tick.
pub struct Simulation {
    pub users: Vec<Account>,
    pub miners: Vec<Account>,
    /// The address passed to "set mining author", once a first account
    /// exists.
    pub author: Option<Vec<u8>>,
    /// The wall-clock time the run started, in milliseconds.
    pub start_ms: u64,
    pub actions: ActionLog,
    pub rng: DrawSource,
    /// Chance that a tick creates an account, in parts per million.
    pub create_chance: u32,
    /// Chance that a created account is a miner, in parts per million.
    pub miner_chance: u32,
    /// Length of a generated account password, in bytes.
    pub password_len: usize,
}

impl Simulation {
    /// The engine abstracted to the addresses it tracks.
    pub open spec fn model(self) -> SimModel {
        SimModel {
            users: addresses_of(self.users@),
            miners: addresses_of(self.miners@),
            author: match self.author {
                Option::None => Option::None,
                Option::Some(v) => Option::Some(v@),
            },
            create_chance: self.create_chance,
            miner_chance: self.miner_chance,
        }
    }

    /// The engine's invariant.
    pub open spec fn well_formed(self) -> bool {
        model_wf(self.model())
    }

    /// A fresh simulation: empty populations, no author, an empty action
    /// log, and the given chances and randomness source.
    pub fn new(
        start_ms: u64,
        create_chance: u32,
        miner_chance: u32,
        password_len: usize,
        rng: DrawSource,
    ) -> (sim: Simulation)
        ensures
            sim.users@.len() == 0,
            sim.miners@.len() == 0,
            sim.author is None,
            sim.start_ms == start_ms,
            sim.actions.entries@.len() == 0,
            sim.rng == rng,
            sim.create_chance == create_chance,
            sim.miner_chance == miner_chance,
            sim.password_len == password_len,
            sim.well_formed(),
    {
        Simulation {
            users: Vec::new(),
            miners: Vec::new(),
            author: None,
            start_ms,
            actions: ActionLog::empty(),
            rng,
            create_chance,
            miner_chance,
            password_len,
        }
    }

    /// First half of a tick: one Bernoulli trial deciding whether this tick
    /// creates an account. The populations are untouched either way, so a
    /// tick that does not fire — or whose account the driver then fails to
    /// persist — leaves the simulation exactly as it was.
    pub fn tick_begin(&mut self) -> (create: bool)
        ensures
            final(self).users == old(self).users,
            final(self).miners == old(self).miners,
            final(self).author == old(self).author,
            final(self).start_ms == old(self).start_ms,
            final(self).actions == old(self).actions,
            final(self).create_chance == old(self).create_chance,
            final(self).miner_chance == old(self).miner_chance,
            final(self).password_len == old(self).password_len,
            final(self).model() == old(self).model(),
            final(self).rng == old(self).rng.advanced(),
            old(self).rng.script is Some ==> create == (old(self).rng.scripted_draw()
                < old(self).create_chance),
            old(self).create_chance == 0 ==> !create,
    {
        let d = self.rng.next_draw();
        crate::event_fires(d, self.create_chance)
    }

    /// Generates a fresh password for the account this tick creates:
    /// `password_len` random lowercase ASCII bytes.
    pub fn make_password(&mut self) -> (pw: Vec<u8>)
        ensures
            pw@.len() == old(self).password_len,
            forall|i: int| 0 <= i < pw@.len() ==> 97 <= #[trigger] pw@[i] <= 122,
            final(self).users == old(self).users,
            final(self).miners == old(self).miners,
            final(self).author == old(self).author,
            final(self).start_ms == old(self).start_ms,
            final(self).actions == old(self).actions,
            final(self).create_chance == old(self).create_chance,
            final(self).miner_chance == old(self).miner_chance,
            final(self).password_len == old(self).password_len,
            final(self).model() == old(self).model(),
            final(self).rng == old(self).rng.advanced_by(old(self).password_len as nat),
            old(self).rng.script is Some ==> pw@ == scripted_password(
                old(self).rng,
                old(self).password_len as nat,
            ),
    {
        let len = self.password_len;
        random_lowercase_bytes(&mut self.rng, len)
    }

    /// Whether some tracked account, miner or user, has this address.
    pub fn has_address(&self, addr: &Vec<u8>) -> (found: bool)
        ensures
            found == tracks(self.model(), addr@),
    {
        let mut i: usize = 0;
        while i < self.users.len()
            invariant
                i <= self.users@.len(),
                forall|k: int| 0 <= k < i ==> #[trigger] self.users@[k].address@ != addr@,
            decreases self.users@.len() - i,
        {
            if bytes_eq(&self.users[i].address, addr) {
                proof {
                    assert(self.model().users[i as int] == addr@);
                }
                return true;
            }
            i = i + 1;
        }
        let mut j: usize = 0;
        while j < self.miners.len()
            invariant
                j <= self.miners@.len(),
                forall|k: int| 0 <= k < j ==> #[trigger] self.miners@[k].address@ != addr@,
                forall|k: int|
                    0 <= k < self.users@.len() ==> #[trigger] self.users@[k].address@ != addr@,
            decreases self.miners@.len() - j,
        {
            if bytes_eq(&self.miners[j].address, addr) {
                proof {
                    assert(self.model().miners[j as int] == addr@);
                }
                return true;
            }
            j = j + 1;
        }
        proof {
            assert forall|k: int| 0 <= k < self.model().users.len()
                implies #[trigger] self.model().users[k] != addr@ by {
                assert(self.model().users[k] == self.users@[k].address@);
            }
            assert forall|k: int| 0 <= k < self.model().miners.len()
                implies #[trigger] self.model().miners[k] != addr@ by {
                assert(self.model().miners[k] == self.miners@[k].address@);
            }
        }
        false
    }

    /// Second half of a tick that fired: admits the freshly persisted
    /// account. The first account of the run joins the miners and its
    /// address is recorded as the mining author, without consuming a draw;
    /// every later account consumes one fresh draw and joins the miners or
    /// the users as the draw falls below the miner chance or not. Exactly
    /// one population grows, by exactly this account.
    pub fn tick_commit(&mut self, account: Account) -> (p: Placement)
        requires
            old(self).well_formed(),
            !tracks(old(self).model(), account.address@),
        ensures
            final(self).well_formed(),
            final(self).start_ms == old(self).start_ms,
            final(self).actions == old(self).actions,
            final(self).create_chance == old(self).create_chance,
            final(self).miner_chance == old(self).miner_chance,
            final(self).password_len == old(self).password_len,
            no_accounts(old(self).model()) ==> p == Placement::FirstAccount && final(self).rng
                == old(self).rng,
            !no_accounts(old(self).model()) ==> p != Placement::FirstAccount && final(self).rng
                == old(self).rng.advanced(),
            !no_accounts(old(self).model()) && old(self).rng.script is Some ==> p == placement_of(
                false,
                old(self).rng.scripted_draw(),
                old(self).miner_chance,
            ),
            p == Placement::FirstAccount ==> final(self).miners@ == old(self).miners@.push(account)
                && final(self).users@ == old(self).users@ && final(self).model().author
                == Option::Some(account.address@),
            p == Placement::Miner ==> final(self).miners@ == old(self).miners@.push(account)
                && final(self).users@ == old(self).users@ && final(self).author == old(
                self,
            ).author,
            p == Placement::User ==> final(self).users@ == old(self).users@.push(account)
                && final(self).miners@ == old(self).miners@ && final(self).author == old(
                self,
            ).author,
            no_accounts(old(self).model()) || old(self).rng.script is Some ==> final(self).model()
                == commit_step(old(self).model(), account.address@, old(self).rng.scripted_draw()),
    {
        let first = self.users.len() == 0 && self.miners.len() == 0;
        if first {
            let addr_copy = copy_bytes(&account.address);
            self.author = Some(addr_copy);
            proof {
                lemma_addresses_of_push(self.miners@, account);
            }
            self.miners.push(account);
            proof {
                let m2 = commit_step(old(self).model(), account.address@, old(self).rng.scripted_draw());
                assert(self.model() =~= m2);
                lemma_commit_preserves_wf(
                    old(self).model(),
                    account.address@,
                    old(self).rng.scripted_draw(),
                );
            }
            Placement::FirstAccount
        } else {
            let d = self.rng.next_draw();
            let p = classify(false, d, self.miner_chance);
            proof {
                lemma_commit_preserves_wf(old(self).model(), account.address@, d);
            }
            match p {
                Placement::Miner => {
                    proof {
                        lemma_addresses_of_push(self.miners@, account);
                    }
                    self.miners.push(account);
                },
                _ => {
                    proof {
                        lemma_addresses_of_push(self.users@, account);
                    }
                    self.users.push(account);
                },
            }
            proof {
                let m2 = commit_step(old(self).model(), account.address@, d);
                assert(self.model() =~= m2);
            }
            p
        }
    }

    /// Records one simulated action, stamped with the elapsed time at which
    /// it fired. Nothing calls this yet — transaction dispatch is the
    /// planned producer — but the log is part of the run's state.
    pub fn record_action(&mut self, elapsed_ms: u64, action: Action)
        ensures
            final(self).actions.entries@ == old(self).actions.entries@.push((elapsed_ms, action)),
            final(self).users == old(self).users,
            final(self).miners == old(self).miners,
            final(self).author == old(self).author,
            final(self).start_ms == old(self).start_ms,
            final(self).rng == old(self).rng,
            final(self).create_chance == old(self).create_chance,
            final(self).miner_chance == old(self).miner_chance,
            final(self).password_len == old(self).password_len,
            final(self).model() == old(self).model(),
    {
        self.actions.append(elapsed_ms, action);
    }
}

} // verus!
