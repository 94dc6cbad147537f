//! Registrations that run at the same time.
//!
//! Any number of clients register the same name against one store. Each of
//! them is driven by `registration_step`; the steps of different clients
//! interleave in any order. The store is a table with a uniqueness
//! constraint on the name: an insert is refused while a row with the name
//! exists, committed or not, and a look-up sees committed rows only. In this
//! model the store does not fail, and every client gets a digest of the
//! password, as `PasswordUtils::hash_password` makes them.
//!
//! The result, `one_registration_wins`: once all clients have their reply,
//! exactly one of them has an id, all others were told that the name is
//! taken, and the table holds exactly one row with the name, under that id
//! and with a digest of the password.

use crate::common::errors::{AppError, StorageError};
use crate::common::utils::password_matches;
use crate::services::user::{
    registration_step, Registration, RegistrationAction, RegistrationEvent,
};
use vstd::prelude::*;

verus! {

/// A row of the accounts table.
pub struct AccountRow {
    pub username: Seq<char>,
    pub id: i64,
    /// The digest of the password.
    pub digest: Seq<char>,
    /// Whether the transaction that inserted the row has committed.
    pub committed: bool,
}

/// A registration in flight: where it stands, and the action that it is
/// about to perform.
pub struct Client {
    pub state: Registration,
    pub action: RegistrationAction,
}

/// The store and the clients that register with it.
pub struct Directory {
    pub rows: Seq<AccountRow>,
    pub clients: Seq<Client>,
}

/// How the store and the hasher answer: the id that the store assigns when
/// the table has a given number of rows, and the digest that each client
/// gets.
pub struct Answers {
    pub ids: spec_fn(nat) -> i64,
    pub digests: spec_fn(int) -> String,
}

/// Whether row `k` has the name.
pub open spec fn names(rows: Seq<AccountRow>, k: int, name: Seq<char>) -> bool {
    0 <= k < rows.len() && rows[k].username == name
}

/// Whether some row has the name.
pub open spec fn taken(rows: Seq<AccountRow>, name: Seq<char>) -> bool {
    exists|k: int| names(rows, k, name)
}

/// Whether some committed row has the name.
pub open spec fn visible(rows: Seq<AccountRow>, name: Seq<char>) -> bool {
    exists|k: int| names(rows, k, name) && rows[k].committed
}

/// The table after the transaction that inserted the name has committed.
pub open spec fn committed_rows(rows: Seq<AccountRow>, name: Seq<char>) -> Seq<AccountRow> {
    Seq::new(
        rows.len(),
        |k: int|
            if rows[k].username == name {
                AccountRow {
                    username: rows[k].username,
                    id: rows[k].id,
                    digest: rows[k].digest,
                    committed: true,
                }
            } else {
                rows[k]
            },
    )
}

/// The client after an event.
pub open spec fn after(client: Client, event: RegistrationEvent) -> Client {
    let next = registration_step(client.state, event);
    Client { state: next.0, action: next.1 }
}

/// A client whose request has just arrived.
pub open spec fn arrived() -> Client {
    after(
        Client { state: Registration::Start, action: RegistrationAction::CheckName },
        RegistrationEvent::Begin,
    )
}

/// The table and client `who` after the client has performed its action.
pub open spec fn performed(
    rows: Seq<AccountRow>,
    name: Seq<char>,
    answers: Answers,
    who: int,
    client: Client,
) -> (Seq<AccountRow>, Client) {
    match client.action {
        RegistrationAction::CheckName => (
            rows,
            after(client, RegistrationEvent::NameChecked(Ok(visible(rows, name)))),
        ),
        RegistrationAction::HashPassword => (
            rows,
            after(client, RegistrationEvent::Hashed(Ok((answers.digests)(who)))),
        ),
        RegistrationAction::OpenTransaction => (
            rows,
            after(client, RegistrationEvent::TransactionOpened(Ok(()))),
        ),
        RegistrationAction::Insert { digest } => if taken(rows, name) {
            (rows, after(client, RegistrationEvent::Inserted(Err(StorageError::UniqueViolation))))
        } else {
            (
                rows.push(
                    AccountRow {
                        username: name,
                        id: (answers.ids)(rows.len()),
                        digest: digest@,
                        committed: false,
                    },
                ),
                after(client, RegistrationEvent::Inserted(Ok((answers.ids)(rows.len())))),
            )
        },
        RegistrationAction::Commit => (
            committed_rows(rows, name),
            after(client, RegistrationEvent::Committed(Ok(()))),
        ),
        RegistrationAction::Reply(_) => (rows, client),
    }
}

/// The directory after client `who` has performed its action. A number
/// that names no client changes nothing.
pub open spec fn stepped(directory: Directory, name: Seq<char>, answers: Answers, who: int) -> Directory {
    if 0 <= who < directory.clients.len() {
        let (rows, client) = performed(directory.rows, name, answers, who, directory.clients[who]);
        Directory { rows, clients: directory.clients.update(who, client) }
    } else {
        directory
    }
}

/// The directory after the clients have taken their steps in the order of
/// `schedule`.
pub open spec fn ran(directory: Directory, name: Seq<char>, answers: Answers, schedule: Seq<int>) -> Directory
    decreases schedule.len(),
{
    if schedule.len() == 0 {
        directory
    } else {
        stepped(ran(directory, name, answers, schedule.drop_last()), name, answers, schedule.last())
    }
}

/// The directory when `clients` requests have just arrived.
pub open spec fn opening(rows: Seq<AccountRow>, clients: nat) -> Directory {
    Directory { rows, clients: Seq::new(clients, |i: int| arrived()) }
}

/// Whether the client has inserted the row with the name.
pub open spec fn holds_row(client: Client) -> bool {
    client.action is Commit || client.action matches RegistrationAction::Reply(Ok(_))
}

/// Whether the client was told that the name is taken.
pub open spec fn refused(client: Client) -> bool {
    client.action == RegistrationAction::Reply(Err(AppError::UserAlreadyExists))
}

/// Whether the state and the action of a client belong together.
pub open spec fn on_track(client: Client) -> bool {
    match client.action {
        RegistrationAction::CheckName => client.state is CheckingName,
        RegistrationAction::HashPassword => client.state is Hashing,
        RegistrationAction::OpenTransaction => client.state is OpeningTransaction,
        RegistrationAction::Insert { digest } => client.state is Inserting,
        RegistrationAction::Commit => client.state is Committing,
        RegistrationAction::Reply(Ok(_)) => client.state is Finished,
        RegistrationAction::Reply(Err(e)) => client.state is Finished && e
            == AppError::UserAlreadyExists,
    }
}

/// Whether the digest that the client carries is a digest of the password.
pub open spec fn carries_digest(client: Client, password: Seq<char>) -> bool {
    &&& client.state matches Registration::OpeningTransaction { digest } ==> password_matches(
        password,
        digest@,
    )
    &&& client.action matches RegistrationAction::Insert { digest } ==> password_matches(
        password,
        digest@,
    )
}

/// Whether every digest that the hasher hands out is a digest of the
/// password.
pub open spec fn hashes(answers: Answers, password: Seq<char>) -> bool {
    forall|who: int| password_matches(password, #[trigger] (answers.digests)(who)@)
}

/// Whether the row that the client inserted is in the table as it should
/// be: under the id that the client knows, and committed once the client
/// has its reply.
pub open spec fn row_matches(rows: Seq<AccountRow>, name: Seq<char>, client: Client) -> bool {
    match (client.state, client.action) {
        (Registration::Committing { id }, RegistrationAction::Commit) => exists|k: int|
            names(rows, k, name) && rows[k].id == id,
        (_, RegistrationAction::Reply(Ok(id))) => exists|k: int|
            names(rows, k, name) && rows[k].id == id && rows[k].committed,
        _ => true,
    }
}

/// What holds of the directory at every moment.
pub open spec fn consistent(directory: Directory, name: Seq<char>, password: Seq<char>) -> bool {
    &&& forall|i: int| 0 <= i < directory.clients.len() ==> on_track(#[trigger] directory.clients[i])
    &&& forall|i: int|
        0 <= i < directory.clients.len() ==> carries_digest(
            #[trigger] directory.clients[i],
            password,
        )
    &&& forall|k: int| #[trigger]
        names(directory.rows, k, name) ==> password_matches(password, directory.rows[k].digest)
    &&& forall|i: int|
        0 <= i < directory.clients.len() ==> row_matches(
            directory.rows,
            name,
            #[trigger] directory.clients[i],
        )
    &&& forall|j: int, k: int|
        names(directory.rows, j, name) && names(directory.rows, k, name) ==> j == k
    &&& taken(directory.rows, name) <==> exists|i: int|
        0 <= i < directory.clients.len() && holds_row(#[trigger] directory.clients[i])
    &&& forall|i: int, j: int|
        0 <= i < directory.clients.len() && 0 <= j < directory.clients.len() && holds_row(
            #[trigger] directory.clients[i],
        ) && holds_row(#[trigger] directory.clients[j]) ==> i == j
    &&& forall|i: int|
        0 <= i < directory.clients.len() && refused(#[trigger] directory.clients[i]) ==> taken(
            directory.rows,
            name,
        )
}

/// Requests that have just arrived, for a name that no row has, are
/// consistent.
proof fn opening_is_consistent(
    rows: Seq<AccountRow>,
    name: Seq<char>,
    password: Seq<char>,
    clients: nat,
)
    requires
        !taken(rows, name),
    ensures
        consistent(opening(rows, clients), name, password),
        opening(rows, clients).clients.len() == clients,
{
    let directory = opening(rows, clients);
    assert(forall|i: int|
        0 <= i < directory.clients.len() ==> #[trigger] directory.clients[i] == arrived());
}

/// Whoever holds the row before a step that leaves the table alone holds it
/// after the step.
proof fn holder_stays(
    directory: Directory,
    name: Seq<char>,
    password: Seq<char>,
    next: Directory,
    who: int,
)
    requires
        consistent(directory, name, password),
        0 <= who < directory.clients.len(),
        next.clients == directory.clients.update(who, next.clients[who]),
        !holds_row(directory.clients[who]),
        taken(directory.rows, name),
    ensures
        exists|i: int| 0 <= i < next.clients.len() && holds_row(#[trigger] next.clients[i]),
{
    let holder = choose|i: int|
        0 <= i < directory.clients.len() && holds_row(#[trigger] directory.clients[i]);
    assert(holds_row(next.clients[holder]));
}

/// A step of one client keeps the directory consistent.
proof fn step_keeps_consistent(
    directory: Directory,
    name: Seq<char>,
    password: Seq<char>,
    answers: Answers,
    who: int,
)
    requires
        consistent(directory, name, password),
        hashes(answers, password),
    ensures
        consistent(stepped(directory, name, answers, who), name, password),
        stepped(directory, name, answers, who).clients.len() == directory.clients.len(),
{
    if 0 <= who < directory.clients.len() {
        let client = directory.clients[who];
        let rows = directory.rows;
        let next = stepped(directory, name, answers, who);
        assert(carries_digest(client, password));
        assert(forall|i: int|
            0 <= i < next.clients.len() && i != who ==> #[trigger] next.clients[i]
                == directory.clients[i]);
        match client.action {
            RegistrationAction::Insert { digest } => {
                if taken(rows, name) {
                    // The insert is refused: the table is as it was.
                    holder_stays(directory, name, password, next, who);
                } else {
                    // The insert adds the only row with the name, and the
                    // client becomes the only one that holds a row.
                    let fresh = rows.len() as int;
                    assert(names(next.rows, fresh, name));
                    assert(next.rows[fresh].digest == digest@);
                    assert forall|k: int| #[trigger] names(next.rows, k, name) implies k
                        == fresh by {
                        if k != fresh {
                            assert(names(rows, k, name));
                        }
                    }
                    assert(forall|i: int|
                        0 <= i < directory.clients.len() ==> !holds_row(
                            #[trigger] directory.clients[i],
                        ));
                    assert(row_matches(next.rows, name, next.clients[who]));
                }
            },
            RegistrationAction::Commit => {
                // The row of the client becomes visible; no row comes or
                // goes, and nobody else holds one.
                assert(forall|k: int| #[trigger] names(next.rows, k, name) == names(rows, k, name));
                assert(forall|k: int|
                    0 <= k < rows.len() ==> (#[trigger] next.rows[k]).digest == rows[k].digest);
                let id = client.state->Committing_id;
                let row = choose|k: int| names(rows, k, name) && rows[k].id == id;
                assert(names(next.rows, row, name) && next.rows[row].id == id
                    && next.rows[row].committed);
                assert(forall|i: int|
                    0 <= i < directory.clients.len() && i != who ==> !holds_row(
                        #[trigger] directory.clients[i],
                    ));
            },
            RegistrationAction::Reply(_) => {
                assert(next.clients =~= directory.clients);
            },
            RegistrationAction::HashPassword => {
                // The client gets its digest; the table is as it was.
                assert(password_matches(password, (answers.digests)(who)@));
                if taken(rows, name) {
                    holder_stays(directory, name, password, next, who);
                }
            },
            _ => {
                // A look-up or an opened transaction: the table is as it
                // was.
                if taken(rows, name) {
                    holder_stays(directory, name, password, next, who);
                }
            },
        }
    }
}

/// Any number of steps in any order keeps the directory consistent.
proof fn run_keeps_consistent(
    directory: Directory,
    name: Seq<char>,
    password: Seq<char>,
    answers: Answers,
    schedule: Seq<int>,
)
    requires
        consistent(directory, name, password),
        hashes(answers, password),
    ensures
        consistent(ran(directory, name, answers, schedule), name, password),
        ran(directory, name, answers, schedule).clients.len() == directory.clients.len(),
    decreases schedule.len(),
{
    if schedule.len() > 0 {
        run_keeps_consistent(directory, name, password, answers, schedule.drop_last());
        step_keeps_consistent(
            ran(directory, name, answers, schedule.drop_last()),
            name,
            password,
            answers,
            schedule.last(),
        );
    }
}

/// Whether `winner` is the one client that succeeded and `row` the one row
/// with the name: the winner has the id of that row, which is committed
/// and holds a digest of the password, and every other client was told
/// `UserAlreadyExists`.
pub open spec fn won_by(
    end: Directory,
    name: Seq<char>,
    password: Seq<char>,
    winner: int,
    row: int,
) -> bool {
    &&& 0 <= winner < end.clients.len()
    &&& end.clients[winner].action matches RegistrationAction::Reply(Ok(id)) && names(
        end.rows,
        row,
        name,
    ) && end.rows[row].id == id && end.rows[row].committed
    &&& password_matches(password, end.rows[row].digest)
    &&& forall|other: int|
        0 <= other < end.clients.len() && other != winner ==> refused(#[trigger] end.clients[other])
    &&& forall|k: int| names(end.rows, k, name) ==> k == row
}

/// Of any number of clients that register the same free name with the same
/// password at the same time, exactly one succeeds.
///
/// Whatever the order of their steps: once every client has its reply, one
/// client has the id of its account, every other client was told
/// `UserAlreadyExists`, and the table holds exactly one row with the name:
/// committed, under the winner's id, and with a digest that matches the
/// password.
pub proof fn one_registration_wins(
    rows: Seq<AccountRow>,
    name: Seq<char>,
    password: Seq<char>,
    clients: nat,
    answers: Answers,
    schedule: Seq<int>,
)
    requires
        clients >= 1,
        !taken(rows, name),
        hashes(answers, password),
        forall|i: int|
            0 <= i < clients ==> (#[trigger] ran(
                opening(rows, clients),
                name,
                answers,
                schedule,
            ).clients[i]).action is Reply,
    ensures
        ran(opening(rows, clients), name, answers, schedule).clients.len() == clients,
        exists|winner: int, row: int| #[trigger]
            won_by(
                ran(opening(rows, clients), name, answers, schedule),
                name,
                password,
                winner,
                row,
            ),
{
    let start = opening(rows, clients);
    opening_is_consistent(rows, name, password, clients);
    run_keeps_consistent(start, name, password, answers, schedule);
    let end = ran(start, name, answers, schedule);
    assert(holds_row(end.clients[0]) || refused(end.clients[0]));
    let winner = choose|i: int| 0 <= i < end.clients.len() && holds_row(#[trigger] end.clients[i]);
    let id = end.clients[winner].action->Reply_0->Ok_0;
    let row = choose|k: int|
        names(end.rows, k, name) && end.rows[k].id == id && end.rows[k].committed;
    assert(won_by(end, name, password, winner, row));
}

} // verus!
