use task_api::common::errors::{AppError, StorageError};
use task_api::common::utils::PasswordUtils;
use task_api::services::user::{
    Registration, RegistrationAction, RegistrationEvent, UserService,
};

/// A table of accounts with a uniqueness constraint on the name.
struct Store {
    rows: Vec<(i64, String, String)>,
}

impl Store {
    fn new() -> Store {
        Store { rows: Vec::new() }
    }

    fn has(&self, name: &str) -> bool {
        self.rows.iter().any(|row| row.1 == name)
    }

    fn insert(&mut self, name: &str, digest: &str) -> Result<i64, StorageError> {
        if self.has(name) {
            return Err(StorageError::UniqueViolation);
        }
        let id = self.rows.len() as i64 + 1;
        self.rows.push((id, name.to_string(), digest.to_string()));
        Ok(id)
    }
}

/// One client: its state and the action it is about to perform.
struct Client {
    state: Registration,
    action: RegistrationAction,
}

fn arrive() -> Client {
    let (state, action) = UserService::create_user(Registration::Start, RegistrationEvent::Begin);
    Client { state, action }
}

fn done(client: &Client) -> Option<Result<i64, AppError>> {
    match &client.action {
        RegistrationAction::Reply(reply) => Some(*reply),
        _ => None,
    }
}

/// Performs the pending action of a client against the store.
fn step(client: Client, store: &mut Store, name: &str) -> Client {
    let event = match client.action {
        RegistrationAction::CheckName => RegistrationEvent::NameChecked(Ok(store.has(name))),
        RegistrationAction::HashPassword => RegistrationEvent::Hashed(Ok(format!("digest of {}", name))),
        RegistrationAction::OpenTransaction => RegistrationEvent::TransactionOpened(Ok(())),
        RegistrationAction::Insert { digest } => RegistrationEvent::Inserted(store.insert(name, &digest)),
        RegistrationAction::Commit => RegistrationEvent::Committed(Ok(())),
        RegistrationAction::Reply(reply) => {
            return Client { state: client.state, action: RegistrationAction::Reply(reply) };
        }
    };
    let (state, action) = UserService::create_user(client.state, event);
    Client { state, action }
}

fn register(store: &mut Store, name: &str) -> Result<i64, AppError> {
    let mut client = arrive();
    loop {
        if let Some(reply) = done(&client) {
            return reply;
        }
        client = step(client, store, name);
    }
}

fn run(schedule: &[usize], clients: usize) -> (Vec<Option<Result<i64, AppError>>>, Store) {
    let mut store = Store::new();
    let mut all: Vec<Option<Client>> = (0..clients).map(|_| Some(arrive())).collect();
    for who in schedule {
        let client = all[*who].take().unwrap();
        all[*who] = Some(step(client, &mut store, "same_name"));
    }
    (all.iter().map(|c| done(c.as_ref().unwrap())).collect(), store)
}

fn assert_one_winner(replies: &[Option<Result<i64, AppError>>], store: &Store) {
    let winners = replies.iter().filter(|r| matches!(r, Some(Ok(_)))).count();
    let refused = replies.iter().filter(|r| matches!(r, Some(Err(AppError::UserAlreadyExists)))).count();
    assert_eq!(winners, 1);
    assert_eq!(refused, replies.len() - 1);
    assert_eq!(store.rows.iter().filter(|row| row.1 == "same_name").count(), 1);
}

#[test]
fn registration_starts_with_the_look_up() {
    let (state, action) = UserService::create_user(Registration::Start, RegistrationEvent::Begin);
    assert!(matches!(state, Registration::CheckingName));
    assert!(matches!(action, RegistrationAction::CheckName));
}

#[test]
fn registration_walks_through_its_steps() {
    let (state, action) =
        UserService::create_user(Registration::CheckingName, RegistrationEvent::NameChecked(Ok(false)));
    assert!(matches!(state, Registration::Hashing));
    assert!(matches!(action, RegistrationAction::HashPassword));

    let (state, action) =
        UserService::create_user(state, RegistrationEvent::Hashed(Ok("the digest".to_string())));
    assert!(matches!(&state, Registration::OpeningTransaction { digest } if digest == "the digest"));
    assert!(matches!(action, RegistrationAction::OpenTransaction));

    let (state, action) = UserService::create_user(state, RegistrationEvent::TransactionOpened(Ok(())));
    assert!(matches!(state, Registration::Inserting));
    assert!(matches!(&action, RegistrationAction::Insert { digest } if digest == "the digest"));

    let (state, action) = UserService::create_user(state, RegistrationEvent::Inserted(Ok(17)));
    assert!(matches!(state, Registration::Committing { id: 17 }));
    assert!(matches!(action, RegistrationAction::Commit));

    let (state, action) = UserService::create_user(state, RegistrationEvent::Committed(Ok(())));
    assert!(matches!(state, Registration::Finished));
    assert!(matches!(action, RegistrationAction::Reply(Ok(17))));
}

#[test]
fn taken_name_is_refused_early() {
    let (state, action) =
        UserService::create_user(Registration::CheckingName, RegistrationEvent::NameChecked(Ok(true)));
    assert!(matches!(state, Registration::Finished));
    assert!(matches!(action, RegistrationAction::Reply(Err(AppError::UserAlreadyExists))));
}

#[test]
fn uniqueness_violation_is_a_conflict() {
    let (state, action) = UserService::create_user(
        Registration::Inserting,
        RegistrationEvent::Inserted(Err(StorageError::UniqueViolation)),
    );
    assert!(matches!(state, Registration::Finished));
    assert!(matches!(action, RegistrationAction::Reply(Err(AppError::UserAlreadyExists))));

    let (_, action) = UserService::create_user(
        Registration::Committing { id: 3 },
        RegistrationEvent::Committed(Err(StorageError::UniqueViolation)),
    );
    assert!(matches!(action, RegistrationAction::Reply(Err(AppError::UserAlreadyExists))));
}

#[test]
fn other_store_failures_are_database_failures() {
    for failure in [StorageError::Other, StorageError::PoolTimedOut, StorageError::RowNotFound] {
        let (_, action) = UserService::create_user(
            Registration::CheckingName,
            RegistrationEvent::NameChecked(Err(failure)),
        );
        assert!(matches!(action, RegistrationAction::Reply(Err(AppError::DatabaseQueryFailed))));
        let (_, action) = UserService::create_user(
            Registration::OpeningTransaction { digest: "d".to_string() },
            RegistrationEvent::TransactionOpened(Err(failure)),
        );
        assert!(matches!(action, RegistrationAction::Reply(Err(AppError::DatabaseQueryFailed))));
        let (_, action) =
            UserService::create_user(Registration::Inserting, RegistrationEvent::Inserted(Err(failure)));
        assert!(matches!(action, RegistrationAction::Reply(Err(AppError::DatabaseQueryFailed))));
        let (state, action) = UserService::create_user(
            Registration::Committing { id: 3 },
            RegistrationEvent::Committed(Err(failure)),
        );
        assert!(matches!(state, Registration::Finished));
        assert!(matches!(action, RegistrationAction::Reply(Err(AppError::DatabaseQueryFailed))));
    }
}

#[test]
fn store_failure_translation() {
    assert_eq!(UserService::registration_failed(StorageError::UniqueViolation), AppError::UserAlreadyExists);
    assert_eq!(UserService::registration_failed(StorageError::PoolTimedOut), AppError::DatabaseQueryFailed);
    assert_eq!(UserService::registration_failed(StorageError::Other), AppError::DatabaseQueryFailed);
    assert_eq!(UserService::registration_failed(StorageError::RowNotFound), AppError::DatabaseQueryFailed);
}

#[test]
fn hashing_failure_ends_the_registration() {
    let (state, action) = UserService::create_user(
        Registration::Hashing,
        RegistrationEvent::Hashed(Err(AppError::PasswordHashingFailed)),
    );
    assert!(matches!(state, Registration::Finished));
    assert!(matches!(action, RegistrationAction::Reply(Err(AppError::PasswordHashingFailed))));
}

#[test]
fn unexpected_event_ends_the_registration() {
    let (state, action) =
        UserService::create_user(Registration::Start, RegistrationEvent::Committed(Ok(())));
    assert!(matches!(state, Registration::Finished));
    assert!(matches!(action, RegistrationAction::Reply(Err(AppError::SignupFailed))));

    let (_, action) =
        UserService::create_user(Registration::Inserting, RegistrationEvent::NameChecked(Ok(false)));
    assert!(matches!(action, RegistrationAction::Reply(Err(AppError::SignupFailed))));

    let (_, action) = UserService::create_user(Registration::Finished, RegistrationEvent::Begin);
    assert!(matches!(action, RegistrationAction::Reply(Err(AppError::SignupFailed))));

    let (_, action) =
        UserService::create_user(Registration::Hashing, RegistrationEvent::Inserted(Ok(1)));
    assert!(matches!(action, RegistrationAction::Reply(Err(AppError::SignupFailed))));
}

#[test]
fn second_registration_of_a_name_is_a_conflict() {
    let mut store = Store::new();
    assert_eq!(register(&mut store, "alice"), Ok(1));
    assert_eq!(register(&mut store, "alice"), Err(AppError::UserAlreadyExists));
    assert_eq!(register(&mut store, "bob"), Ok(2));
    assert_eq!(store.rows.len(), 2);
}

#[test]
fn stored_digest_matches_the_password() {
    let mut client = arrive();
    let mut store = Store::new();
    loop {
        let event = match client.action {
            RegistrationAction::CheckName => RegistrationEvent::NameChecked(Ok(store.has("alice"))),
            RegistrationAction::HashPassword => {
                RegistrationEvent::Hashed(PasswordUtils::hash_password("pw1"))
            }
            RegistrationAction::OpenTransaction => RegistrationEvent::TransactionOpened(Ok(())),
            RegistrationAction::Insert { digest } => {
                RegistrationEvent::Inserted(store.insert("alice", &digest))
            }
            RegistrationAction::Commit => RegistrationEvent::Committed(Ok(())),
            RegistrationAction::Reply(reply) => {
                assert_eq!(reply, Ok(1));
                break;
            }
        };
        let (state, action) = UserService::create_user(client.state, event);
        client = Client { state, action };
    }
    assert_ne!(store.rows[0].2, "pw1");
    assert!(PasswordUtils::verfify_passowrd("pw1", &store.rows[0].2));
}

#[test]
fn simultaneous_registrations_one_after_the_other() {
    let schedule = [0, 0, 0, 0, 0, 1, 1, 1, 1, 2, 2, 2];
    let (replies, store) = run(&schedule, 3);
    assert_eq!(replies[0], Some(Ok(1)));
    assert_eq!(replies[1], Some(Err(AppError::UserAlreadyExists)));
    assert_eq!(replies[2], Some(Err(AppError::UserAlreadyExists)));
    assert_one_winner(&replies, &store);
}

#[test]
fn simultaneous_registrations_in_lock_step() {
    let clients = 5;
    let mut schedule = Vec::new();
    for _round in 0..5 {
        for who in 0..clients {
            schedule.push(who);
        }
    }
    let (replies, store) = run(&schedule, clients);
    assert_one_winner(&replies, &store);
    assert_eq!(replies[0], Some(Ok(1)));
}

#[test]
fn simultaneous_registrations_last_client_first() {
    let schedule = [3, 2, 1, 0, 3, 2, 1, 0, 3, 2, 1, 0, 2, 3, 0, 1, 1, 0, 3, 2, 0, 1, 2, 3];
    let (replies, store) = run(&schedule, 4);
    assert_one_winner(&replies, &store);
    assert_eq!(replies[2], Some(Ok(1)));
}

#[test]
fn simultaneous_registrations_in_many_orders() {
    let clients = 4;
    let mut seed: u64 = 0x9E37_79B9_7F4A_7C15;
    for _trial in 0..200 {
        let mut schedule = Vec::new();
        let mut left = vec![5usize; clients];
        while left.iter().any(|n| *n > 0) {
            seed = seed.wrapping_mul(6364136223846793005).wrapping_add(1442695040888963407);
            let who = (seed >> 33) as usize % clients;
            if left[who] > 0 {
                left[who] -= 1;
                schedule.push(who);
            }
        }
        let (replies, store) = run(&schedule, clients);
        assert_one_winner(&replies, &store);
    }
}
