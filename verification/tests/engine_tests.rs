use chainsim::account::{bytes_eq, copy_bytes, Account};
use chainsim::actions::{Action, ActionLog};
use chainsim::classify::Placement;
use chainsim::rng::DrawSource;
use chainsim::sim::Simulation;
use chainsim::{DEFAULT_MINER_CHANCE, DEFAULT_PASSWORD_LEN, SCALE};

fn account_with_address(byte: u8) -> Account {
    Account::new(vec![byte; 20], vec![byte; 32], vec![b'p'; 4])
}

fn always_create_sim(draws: Vec<u32>) -> Simulation {
    // Creation chance SCALE: every tick fires. The scripted draws feed the
    // creation trials and, interleaved, the classification decisions.
    Simulation::new(
        0,
        SCALE,
        DEFAULT_MINER_CHANCE,
        DEFAULT_PASSWORD_LEN,
        DrawSource::scripted(draws),
    )
}

#[test]
fn first_account_is_miner_and_author() {
    // Tick 1: creation draw 0 fires; the first account takes no class draw.
    let mut sim = always_create_sim(vec![0]);
    assert!(sim.tick_begin());
    let a = account_with_address(1);
    let addr = copy_bytes(&a.address);
    assert!(!sim.has_address(&addr));
    let p = sim.tick_commit(a);
    assert_eq!(p, Placement::FirstAccount);
    assert_eq!(sim.miners.len(), 1);
    assert_eq!(sim.users.len(), 0);
    assert_eq!(sim.author.as_ref().expect("author set"), &addr);
    assert_eq!(&sim.miners[0].address, &addr);
    assert!(sim.has_address(&addr));
}

#[test]
fn populations_stay_disjoint_over_a_run() {
    // Draws: tick 1 create (first account, no class draw); tick 2 create +
    // class 100_000 (miner); tick 3 create + class 900_000 (user); tick 4
    // create + class 399_999 (miner, boundary).
    let mut sim = always_create_sim(vec![0, 0, 100_000, 0, 900_000, 0, 399_999]);
    let placements: Vec<Placement> = (1..=4u8)
        .map(|i| {
            assert!(sim.tick_begin());
            sim.tick_commit(account_with_address(i))
        })
        .collect();
    assert_eq!(
        placements,
        vec![
            Placement::FirstAccount,
            Placement::Miner,
            Placement::User,
            Placement::Miner
        ]
    );
    assert_eq!(sim.miners.len(), 3);
    assert_eq!(sim.users.len(), 1);
    // No address appears in both populations.
    for u in &sim.users {
        for m in &sim.miners {
            assert!(!bytes_eq(&u.address, &m.address));
        }
    }
    // The author is still the first account committed.
    assert_eq!(sim.author.as_ref().expect("author set"), &vec![1u8; 20]);
    assert_eq!(&sim.miners[0].address, &vec![1u8; 20]);
}

#[test]
fn n_ticks_create_at_most_n_accounts() {
    // Six ticks at chance 0.5: draws below 500_000 fire. Ticks 1, 3 and 6
    // fire; ticks 2, 4 and 5 do not.
    let mut sim = Simulation::new(
        0,
        500_000,
        DEFAULT_MINER_CHANCE,
        DEFAULT_PASSWORD_LEN,
        DrawSource::scripted(vec![
            0,         // tick 1: fires (first account, no class draw)
            700_000,   // tick 2: no
            499_999,   // tick 3: fires
            100_000,   //   class: miner
            500_000,   // tick 4: no
            999_999,   // tick 5: no
            250_000,   // tick 6: fires
            800_000,   //   class: user
        ]),
    );
    let mut created = 0u8;
    for _ in 0..6 {
        if sim.tick_begin() {
            created += 1;
            sim.tick_commit(account_with_address(created));
        }
    }
    assert_eq!(created, 3);
    assert_eq!(sim.users.len() + sim.miners.len(), 3);
    assert!(sim.users.len() + sim.miners.len() <= 6);
}

#[test]
fn zero_creation_chance_creates_nothing() {
    let mut sim = Simulation::new(
        0,
        0,
        DEFAULT_MINER_CHANCE,
        DEFAULT_PASSWORD_LEN,
        DrawSource::scripted(vec![0, 1, 2, 3, 4, 5, 6, 7, 8, 9]),
    );
    for _ in 0..10 {
        assert!(!sim.tick_begin());
    }
    assert_eq!(sim.users.len(), 0);
    assert_eq!(sim.miners.len(), 0);
    assert!(sim.author.is_none());
}

#[test]
fn failed_persistence_leaves_no_account_behind() {
    // The tick fires, but the key store fails: the driver never commits,
    // and the account of the failed call is tracked nowhere.
    let mut sim = always_create_sim(vec![0]);
    assert!(sim.tick_begin());
    let doomed = account_with_address(9);
    // ... the insert fails here; no commit follows ...
    assert!(!sim.has_address(&doomed.address));
    assert_eq!(sim.users.len(), 0);
    assert_eq!(sim.miners.len(), 0);
    assert!(sim.author.is_none());
}

#[test]
fn engine_passwords_are_lowercase_of_configured_length() {
    let mut sim = Simulation::new(
        0,
        SCALE,
        DEFAULT_MINER_CHANCE,
        7,
        DrawSource::scripted(vec![0, 3, 25, 12, 26, 51, 999_999]),
    );
    let pw = sim.make_password();
    assert_eq!(pw, vec![b'a', b'd', b'z', b'm', b'a', b'z', b'n']);
    let mut live = Simulation::new(
        0,
        SCALE,
        DEFAULT_MINER_CHANCE,
        DEFAULT_PASSWORD_LEN,
        DrawSource::from_entropy(),
    );
    let pw2 = live.make_password();
    assert_eq!(pw2.len(), DEFAULT_PASSWORD_LEN);
    assert!(pw2.iter().all(|b| b.is_ascii_lowercase()));
}

#[test]
fn has_address_finds_only_tracked_accounts() {
    let mut sim = always_create_sim(vec![0, 0, 0]);
    assert!(sim.tick_begin());
    sim.tick_commit(account_with_address(1));
    assert!(sim.tick_begin());
    sim.tick_commit(account_with_address(2));
    assert!(sim.has_address(&vec![1u8; 20]));
    assert!(sim.has_address(&vec![2u8; 20]));
    assert!(!sim.has_address(&vec![3u8; 20]));
}

#[test]
fn action_log_records_in_order() {
    let mut log = ActionLog::empty();
    assert_eq!(log.len(), 0);
    log.append(500, Action::DispatchTransaction);
    log.append(1000, Action::DispatchTransaction);
    assert_eq!(log.len(), 2);
    assert_eq!(log.entries[0], (500, Action::DispatchTransaction));
    assert_eq!(log.entries[1], (1000, Action::DispatchTransaction));
}

#[test]
fn engine_records_actions_with_elapsed_time() {
    let mut sim = always_create_sim(vec![0]);
    sim.record_action(1500, Action::DispatchTransaction);
    assert_eq!(sim.actions.entries.len(), 1);
    assert_eq!(sim.actions.entries[0], (1500, Action::DispatchTransaction));
}

#[test]
fn byte_helpers_compare_and_copy() {
    let a = vec![1u8, 2, 3];
    let b = copy_bytes(&a);
    assert_eq!(a, b);
    assert!(bytes_eq(&a, &b));
    assert!(!bytes_eq(&a, &vec![1u8, 2]));
    assert!(!bytes_eq(&a, &vec![1u8, 2, 4]));
}
