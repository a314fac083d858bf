//! Plans and sessions.
//!
//! A handler does not talk to the store. It returns a [`Plan`]: either the
//! reply itself, or a [`Script`] of at most three store commands, namely a
//! guarding lookup, the work, and a follow-up insert. A [`Session`] carries a
//! plan out one step at a time: [`advance`] takes the store's answer to the
//! last command and gives the next command or the reply. Whoever drives the
//! session sends the commands to the store.
use vstd::prelude::*;
use crate::clock::Timestamp;
use crate::credential::{accepts, hash, judged, verify, Verdict};
use crate::models::Entity;
use crate::store::{Changes, Collection, Command, Filter, Outcome};

verus! {

/// How a request ended.
#[derive(Clone, Copy, Debug, PartialEq, Eq, Structural, Hash)]
pub enum Status {
    Success,
    /// The entity sent breaks a rule of its kind.
    Invalid,
    /// An identifier in the request is not well formed.
    MalformedIdentifier,
    /// The credentials were not accepted.
    Unauthorized,
    /// The entity asked for, or to be changed, is not there.
    NotFound,
    /// An entity with this natural key is there already.
    Conflict,
    /// The store failed, or answered what cannot be.
    StoreFailure,
}

impl Status {
    /// The HTTP status code that stands for the status.
    pub open spec fn number(self) -> u16 {
        match self {
            Status::Success => 200,
            Status::Invalid => 400,
            Status::MalformedIdentifier => 400,
            Status::Unauthorized => 401,
            Status::NotFound => 404,
            Status::Conflict => 409,
            Status::StoreFailure => 500,
        }
    }

    pub fn code(&self) -> (code: u16)
        ensures
            code == self.number(),
    {
        match self {
            Status::Success => 200,
            Status::Invalid => 400,
            Status::MalformedIdentifier => 400,
            Status::Unauthorized => 401,
            Status::NotFound => 404,
            Status::Conflict => 409,
            Status::StoreFailure => 500,
        }
    }
}

/// A message for the client.
#[derive(Clone, Debug, PartialEq, Eq)]
pub enum Notice {
    Plain(&'static str),
    /// The payment named by this text, as the client wrote it, was deleted.
    PaymentDeleted { id: String },
}

impl Notice {
    pub open spec fn wording(self) -> Seq<char> {
        match self {
            Notice::Plain(text) => text@,
            Notice::PaymentDeleted { id } => "Payment "@ + id@ + " : deleted successfully"@,
        }
    }

    /// The message as text.
    pub fn text(&self) -> (text: String)
        ensures
            text@ == self.wording(),
    {
        match self {
            Notice::Plain(text) => (*text).to_owned(),
            Notice::PaymentDeleted { id } => {
                let mut text = "Payment ".to_owned();
                text.append(id.as_str());
                text.append(" : deleted successfully");
                text
            },
        }
    }
}

/// What a reply carries.
#[derive(Clone, Debug, PartialEq, Eq)]
pub enum Body {
    Notice(Notice),
    One(Entity),
    Many(Vec<Entity>),
}

/// The reply to a request.
#[derive(Clone, Debug, PartialEq, Eq)]
pub struct Response {
    pub status: Status,
    pub body: Body,
}

/// A reply that carries a plain message.
pub open spec fn noting(status: Status, text: &'static str) -> Response {
    Response { status, body: Body::Notice(Notice::Plain(text)) }
}

pub fn note(status: Status, text: &'static str) -> (response: Response)
    ensures
        response == noting(status, text),
{
    Response { status, body: Body::Notice(Notice::Plain(text)) }
}

/// What a guarding lookup must show before the work may begin.
#[derive(Clone, Debug, PartialEq, Eq)]
pub enum Check {
    /// Nothing is found; else the request ends in `Conflict` with `taken`.
    Absent { taken: &'static str },
    /// Something is found; else the request ends in `NotFound` with `missing`.
    Present { missing: &'static str },
    /// A user is found whose digest accepts `plain`. Else the request ends in
    /// `Unauthorized`: with `unknown` where no user is found, with `mismatch`
    /// where the digest refuses.
    Password { plain: String, unknown: &'static str, mismatch: &'static str },
}

/// A lookup that guards the work, and what it must show.
#[derive(Clone, Debug, PartialEq, Eq)]
pub struct Guard {
    pub collection: Collection,
    pub filter: Filter,
    pub check: Check,
}

/// An insert that follows the work's insert. Where it fails while the first
/// stood, the request ends in `StoreFailure` with `orphaned`.
#[derive(Clone, Debug, PartialEq, Eq)]
pub struct Sequel {
    pub collection: Collection,
    pub entity: Entity,
    pub orphaned: &'static str,
}

/// The command that a request is for. `done` is the message of success,
/// `missing` the message where nothing matched, `taken` the message where
/// the store refuses the document as a duplicate.
#[derive(Clone, Debug, PartialEq, Eq)]
pub enum Work {
    /// No command: the guard was all.
    Nothing { done: Notice },
    Insert {
        collection: Collection,
        entity: Entity,
        sequel: Option<Sequel>,
        done: Notice,
        taken: &'static str,
    },
    Update {
        collection: Collection,
        filter: Filter,
        changes: Changes,
        done: Notice,
        missing: &'static str,
    },
    /// An update that sets a user's password to a digest of `plain`, made
    /// when the update is due and not before.
    Rekey {
        collection: Collection,
        filter: Filter,
        plain: String,
        done: Notice,
        missing: &'static str,
    },
    Delete { collection: Collection, filter: Filter, done: Notice, missing: &'static str },
    Fetch { collection: Collection, filter: Filter, missing: &'static str },
    List { collection: Collection, filter: Filter, skip: u64, limit: Option<u64> },
}

/// The commands of one request. `failed` is the message where the store fails.
#[derive(Clone, Debug, PartialEq, Eq)]
pub struct Script {
    pub guard: Option<Guard>,
    pub work: Work,
    pub failed: &'static str,
}

/// What a handler makes of a request.
#[derive(Clone, Debug, PartialEq, Eq)]
pub enum Plan {
    /// The reply is known without the store.
    Settled(Response),
    Scripted(Script),
}

/// The answer that the work's command is waiting for.
#[derive(Clone, Debug, PartialEq, Eq)]
pub enum Expect {
    Inserted { sequel: Option<Sequel>, done: Notice, taken: &'static str },
    Updated { done: Notice, missing: &'static str },
    Deleted { done: Notice, missing: &'static str },
    Fetched { missing: &'static str },
    Listed,
}

/// How far a plan has been carried out.
#[derive(Clone, Debug, PartialEq, Eq)]
pub enum Session {
    /// Nothing was asked yet.
    Fresh(Plan),
    /// The guarding lookup was asked.
    Guarding { check: Check, work: Work, failed: &'static str },
    /// The work's command was asked.
    Working { expect: Expect, failed: &'static str },
    /// The follow-up insert was asked.
    Following { done: Notice, orphaned: &'static str },
    /// The reply was given.
    Closed,
}

/// What a session is told.
#[derive(Clone, Debug, PartialEq, Eq)]
pub enum Event {
    /// To start.
    Begin,
    /// The store's answer to the command that was asked last.
    Answer(Outcome),
}

/// What a session wants done next.
#[derive(Clone, Debug, PartialEq, Eq)]
pub enum Action {
    /// Send this command to the store and come back with its answer.
    Ask(Command),
    /// Send this reply to the client; the session is over.
    Reply(Response),
}

/// What a step may need from outside: the time, and a digest where a
/// password is about to be stored.
#[derive(Clone, Debug, PartialEq, Eq)]
pub struct Supplies {
    pub now: Timestamp,
    pub digest: Option<String>,
}

/// The message where a session is told something out of turn.
pub const OUT_OF_TURN: &'static str = "Unexpected answer from the store";

/// The message where the store refuses a write as a duplicate and the plan
/// has no message of its own for it.
pub const TAKEN: &'static str = "Error 10001 : Already exists";

/// The reply that ends the request where the guard's lookup does not show
/// what the check asks for; `None` where it does, and the work may begin.
pub open spec fn rejection(check: Check, outcome: Outcome, failed: &'static str) -> Option<
    Response,
> {
    match outcome {
        Outcome::Found(found) => match check {
            Check::Absent { taken } => match found {
                None => None,
                Some(_) => Some(noting(Status::Conflict, taken)),
            },
            Check::Present { missing } => match found {
                Some(_) => None,
                None => Some(noting(Status::NotFound, missing)),
            },
            Check::Password { plain, unknown, mismatch } => match found {
                None => Some(noting(Status::Unauthorized, unknown)),
                Some(Entity::User(user)) => match judged(plain@, user.password@) {
                    Verdict::Accepted => None,
                    Verdict::Refused => Some(noting(Status::Unauthorized, mismatch)),
                    Verdict::Unreadable => Some(noting(Status::StoreFailure, failed)),
                },
                Some(_) => Some(noting(Status::StoreFailure, failed)),
            },
        },
        _ => Some(noting(Status::StoreFailure, failed)),
    }
}

/// The step that begins the work: its command, or the reply where there is
/// none to send.
pub open spec fn issued(work: Work, failed: &'static str, supplies: Supplies) -> (
    Session,
    Action,
) {
    match work {
        Work::Nothing { done } => (
            Session::Closed,
            Action::Reply(Response { status: Status::Success, body: Body::Notice(done) }),
        ),
        Work::Insert { collection, entity, sequel, done, taken } => (
            Session::Working { expect: Expect::Inserted { sequel, done, taken }, failed },
            Action::Ask(Command::InsertOne { collection, entity }),
        ),
        Work::Update { collection, filter, changes, done, missing } => (
            Session::Working { expect: Expect::Updated { done, missing }, failed },
            Action::Ask(Command::UpdateOne { collection, filter, changes, at: supplies.now }),
        ),
        Work::Rekey { collection, filter, plain, done, missing } => match supplies.digest {
            Some(digest) => (
                Session::Working { expect: Expect::Updated { done, missing }, failed },
                Action::Ask(
                    Command::UpdateOne {
                        collection,
                        filter,
                        changes: Changes::Password(digest),
                        at: supplies.now,
                    },
                ),
            ),
            None => (Session::Closed, Action::Reply(noting(Status::StoreFailure, failed))),
        },
        Work::Delete { collection, filter, done, missing } => (
            Session::Working { expect: Expect::Deleted { done, missing }, failed },
            Action::Ask(Command::DeleteOne { collection, filter }),
        ),
        Work::Fetch { collection, filter, missing } => (
            Session::Working { expect: Expect::Fetched { missing }, failed },
            Action::Ask(Command::FindOne { collection, filter }),
        ),
        Work::List { collection, filter, skip, limit } => (
            Session::Working { expect: Expect::Listed, failed },
            Action::Ask(Command::FindMany { collection, filter, skip, limit }),
        ),
    }
}

/// The step that takes the answer to the work's command. An update or a
/// delete that matched nothing is not a success, and a write that the store
/// refused as a duplicate ends in `Conflict`.
pub open spec fn concluded(expect: Expect, failed: &'static str, outcome: Outcome) -> (
    Session,
    Action,
) {
    match (expect, outcome) {
        (Expect::Inserted { sequel: Some(sequel), done, taken }, Outcome::Inserted) => (
            Session::Following { done, orphaned: sequel.orphaned },
            Action::Ask(
                Command::InsertOne { collection: sequel.collection, entity: sequel.entity },
            ),
        ),
        (Expect::Inserted { sequel: None, done, taken }, Outcome::Inserted) => (
            Session::Closed,
            Action::Reply(Response { status: Status::Success, body: Body::Notice(done) }),
        ),
        (Expect::Inserted { sequel, done, taken }, Outcome::Duplicate) => (
            Session::Closed,
            Action::Reply(noting(Status::Conflict, taken)),
        ),
        (Expect::Updated { done, missing }, Outcome::Duplicate) => (
            Session::Closed,
            Action::Reply(noting(Status::Conflict, TAKEN)),
        ),
        (Expect::Updated { done, missing }, Outcome::Updated { matched }) => (
            Session::Closed,
            Action::Reply(
                if matched == 0 {
                    noting(Status::NotFound, missing)
                } else {
                    Response { status: Status::Success, body: Body::Notice(done) }
                },
            ),
        ),
        (Expect::Deleted { done, missing }, Outcome::Deleted { count }) => (
            Session::Closed,
            Action::Reply(
                if count == 0 {
                    noting(Status::NotFound, missing)
                } else {
                    Response { status: Status::Success, body: Body::Notice(done) }
                },
            ),
        ),
        (Expect::Fetched { missing }, Outcome::Found(Some(entity))) => (
            Session::Closed,
            Action::Reply(Response { status: Status::Success, body: Body::One(entity) }),
        ),
        (Expect::Fetched { missing }, Outcome::Found(None)) => (
            Session::Closed,
            Action::Reply(noting(Status::NotFound, missing)),
        ),
        (Expect::Listed, Outcome::Listed(entities)) => (
            Session::Closed,
            Action::Reply(Response { status: Status::Success, body: Body::Many(entities) }),
        ),
        _ => (Session::Closed, Action::Reply(noting(Status::StoreFailure, failed))),
    }
}

/// The step that takes the answer to the follow-up insert. Anything but
/// success leaves the first document stored without the second, and the
/// reply says so.
pub open spec fn followed(done: Notice, orphaned: &'static str, outcome: Outcome) -> (
    Session,
    Action,
) {
    match outcome {
        Outcome::Inserted => (
            Session::Closed,
            Action::Reply(Response { status: Status::Success, body: Body::Notice(done) }),
        ),
        _ => (Session::Closed, Action::Reply(noting(Status::StoreFailure, orphaned))),
    }
}

/// One step of a session: from where it stands and what it is told to where
/// it stands next and what it wants done.
pub open spec fn stepped(session: Session, event: Event, supplies: Supplies) -> (Session, Action) {
    match (session, event) {
        (Session::Fresh(Plan::Settled(response)), Event::Begin) => (
            Session::Closed,
            Action::Reply(response),
        ),
        (Session::Fresh(Plan::Scripted(script)), Event::Begin) => match script.guard {
            Some(guard) => (
                Session::Guarding { check: guard.check, work: script.work, failed: script.failed },
                Action::Ask(
                    Command::FindOne { collection: guard.collection, filter: guard.filter },
                ),
            ),
            None => issued(script.work, script.failed, supplies),
        },
        (Session::Guarding { check, work, failed }, Event::Answer(outcome)) => match rejection(
            check,
            outcome,
            failed,
        ) {
            Some(response) => (Session::Closed, Action::Reply(response)),
            None => issued(work, failed, supplies),
        },
        (Session::Working { expect, failed }, Event::Answer(outcome)) => concluded(
            expect,
            failed,
            outcome,
        ),
        (Session::Following { done, orphaned }, Event::Answer(outcome)) => followed(
            done,
            orphaned,
            outcome,
        ),
        _ => (Session::Closed, Action::Reply(noting(Status::StoreFailure, OUT_OF_TURN))),
    }
}

/// The work that a session has still to begin.
pub open spec fn work_ahead(session: Session) -> Option<Work> {
    match session {
        Session::Fresh(Plan::Scripted(script)) => Some(script.work),
        Session::Guarding { check, work, failed } => Some(work),
        _ => None,
    }
}

/// The supplies fit the session: a digest among them is a digest of the
/// plaintext that the session is to store.
pub open spec fn supplied(session: Session, supplies: Supplies) -> bool {
    match work_ahead(session) {
        Some(Work::Rekey { collection, filter, plain, done, missing }) => {
            supplies.digest matches Some(digest) ==> accepts(plain@, digest@)
        },
        _ => supplies.digest is None,
    }
}

fn reject(check: &Check, outcome: &Outcome, failed: &'static str) -> (response: Option<Response>)
    ensures
        response == rejection(*check, *outcome, failed),
{
    match outcome {
        Outcome::Found(found) => match check {
            Check::Absent { taken } => match found {
                None => None,
                Some(_) => Some(note(Status::Conflict, taken)),
            },
            Check::Present { missing } => match found {
                Some(_) => None,
                None => Some(note(Status::NotFound, missing)),
            },
            Check::Password { plain, unknown, mismatch } => match found {
                None => Some(note(Status::Unauthorized, unknown)),
                Some(Entity::User(user)) => match verify(plain.as_str(), user.password.as_str()) {
                    Verdict::Accepted => None,
                    Verdict::Refused => Some(note(Status::Unauthorized, mismatch)),
                    Verdict::Unreadable => Some(note(Status::StoreFailure, failed)),
                },
                Some(_) => Some(note(Status::StoreFailure, failed)),
            },
        },
        _ => Some(note(Status::StoreFailure, failed)),
    }
}

fn issue(work: Work, failed: &'static str, supplies: Supplies) -> (next: (Session, Action))
    ensures
        next == issued(work, failed, supplies),
{
    match work {
        Work::Nothing { done } => (
            Session::Closed,
            Action::Reply(Response { status: Status::Success, body: Body::Notice(done) }),
        ),
        Work::Insert { collection, entity, sequel, done, taken } => (
            Session::Working { expect: Expect::Inserted { sequel, done, taken }, failed },
            Action::Ask(Command::InsertOne { collection, entity }),
        ),
        Work::Update { collection, filter, changes, done, missing } => (
            Session::Working { expect: Expect::Updated { done, missing }, failed },
            Action::Ask(Command::UpdateOne { collection, filter, changes, at: supplies.now }),
        ),
        Work::Rekey { collection, filter, plain, done, missing } => match supplies.digest {
            Some(digest) => (
                Session::Working { expect: Expect::Updated { done, missing }, failed },
                Action::Ask(
                    Command::UpdateOne {
                        collection,
                        filter,
                        changes: Changes::Password(digest),
                        at: supplies.now,
                    },
                ),
            ),
            None => (Session::Closed, Action::Reply(note(Status::StoreFailure, failed))),
        },
        Work::Delete { collection, filter, done, missing } => (
            Session::Working { expect: Expect::Deleted { done, missing }, failed },
            Action::Ask(Command::DeleteOne { collection, filter }),
        ),
        Work::Fetch { collection, filter, missing } => (
            Session::Working { expect: Expect::Fetched { missing }, failed },
            Action::Ask(Command::FindOne { collection, filter }),
        ),
        Work::List { collection, filter, skip, limit } => (
            Session::Working { expect: Expect::Listed, failed },
            Action::Ask(Command::FindMany { collection, filter, skip, limit }),
        ),
    }
}

fn conclude(expect: Expect, failed: &'static str, outcome: Outcome) -> (next: (Session, Action))
    ensures
        next == concluded(expect, failed, outcome),
{
    match (expect, outcome) {
        (Expect::Inserted { sequel: Some(sequel), done, taken }, Outcome::Inserted) => (
            Session::Following { done, orphaned: sequel.orphaned },
            Action::Ask(
                Command::InsertOne { collection: sequel.collection, entity: sequel.entity },
            ),
        ),
        (Expect::Inserted { sequel: None, done, taken }, Outcome::Inserted) => (
            Session::Closed,
            Action::Reply(Response { status: Status::Success, body: Body::Notice(done) }),
        ),
        (Expect::Inserted { sequel, done, taken }, Outcome::Duplicate) => (
            Session::Closed,
            Action::Reply(note(Status::Conflict, taken)),
        ),
        (Expect::Updated { done, missing }, Outcome::Duplicate) => (
            Session::Closed,
            Action::Reply(note(Status::Conflict, TAKEN)),
        ),
        (Expect::Updated { done, missing }, Outcome::Updated { matched }) => (
            Session::Closed,
            Action::Reply(
                if matched == 0 {
                    note(Status::NotFound, missing)
                } else {
                    Response { status: Status::Success, body: Body::Notice(done) }
                },
            ),
        ),
        (Expect::Deleted { done, missing }, Outcome::Deleted { count }) => (
            Session::Closed,
            Action::Reply(
                if count == 0 {
                    note(Status::NotFound, missing)
                } else {
                    Response { status: Status::Success, body: Body::Notice(done) }
                },
            ),
        ),
        (Expect::Fetched { missing }, Outcome::Found(Some(entity))) => (
            Session::Closed,
            Action::Reply(Response { status: Status::Success, body: Body::One(entity) }),
        ),
        (Expect::Fetched { missing }, Outcome::Found(None)) => (
            Session::Closed,
            Action::Reply(note(Status::NotFound, missing)),
        ),
        (Expect::Listed, Outcome::Listed(entities)) => (
            Session::Closed,
            Action::Reply(Response { status: Status::Success, body: Body::Many(entities) }),
        ),
        _ => (Session::Closed, Action::Reply(note(Status::StoreFailure, failed))),
    }
}

fn follow(done: Notice, orphaned: &'static str, outcome: Outcome) -> (next: (Session, Action))
    ensures
        next == followed(done, orphaned, outcome),
{
    match outcome {
        Outcome::Inserted => (
            Session::Closed,
            Action::Reply(Response { status: Status::Success, body: Body::Notice(done) }),
        ),
        _ => (Session::Closed, Action::Reply(note(Status::StoreFailure, orphaned))),
    }
}

/// The digest that the work needs, if it needs one: made now.
fn digest_for(work: &Work) -> (digest: Option<String>)
    ensures
        (match *work {
            Work::Rekey { collection, filter, plain, done, missing } => {
                digest matches Some(d) ==> accepts(plain@, d@)
            },
            _ => digest is None,
        }),
{
    match work {
        Work::Rekey { plain, .. } => hash(plain.as_str()),
        _ => None,
    }
}

/// One step of a session, with the supplies given by the caller.
pub fn advance_with(session: Session, event: Event, supplies: Supplies) -> (next: (
    Session,
    Action,
))
    ensures
        next == stepped(session, event, supplies),
{
    match (session, event) {
        (Session::Fresh(Plan::Settled(response)), Event::Begin) => (
            Session::Closed,
            Action::Reply(response),
        ),
        (Session::Fresh(Plan::Scripted(script)), Event::Begin) => match script.guard {
            Some(guard) => (
                Session::Guarding { check: guard.check, work: script.work, failed: script.failed },
                Action::Ask(
                    Command::FindOne { collection: guard.collection, filter: guard.filter },
                ),
            ),
            None => issue(script.work, script.failed, supplies),
        },
        (Session::Guarding { check, work, failed }, Event::Answer(outcome)) => match reject(
            &check,
            &outcome,
            failed,
        ) {
            Some(response) => (Session::Closed, Action::Reply(response)),
            None => issue(work, failed, supplies),
        },
        (Session::Working { expect, failed }, Event::Answer(outcome)) => conclude(
            expect,
            failed,
            outcome,
        ),
        (Session::Following { done, orphaned }, Event::Answer(outcome)) => follow(
            done,
            orphaned,
            outcome,
        ),
        _ => (Session::Closed, Action::Reply(note(Status::StoreFailure, OUT_OF_TURN))),
    }
}

/// One step of a session. The time is read from the clock, and where the
/// step begins an update that stores a password, the digest is made for it:
/// after the guard has passed, not before. Whatever time and digest came,
/// the step is the one that [`stepped`] gives for them.
pub fn advance(session: Session, event: Event) -> (next: (Session, Action))
    ensures
        exists|supplies: Supplies|
            supplied(session, supplies) && next == stepped(session, event, supplies),
{
    let now = Timestamp::now();
    match (session, event) {
        (Session::Fresh(Plan::Scripted(script)), Event::Begin) => match script.guard {
            Some(guard) => {
                let ghost supplies = Supplies { now, digest: None };
                let next = (
                    Session::Guarding {
                        check: guard.check,
                        work: script.work,
                        failed: script.failed,
                    },
                    Action::Ask(
                        Command::FindOne { collection: guard.collection, filter: guard.filter },
                    ),
                );
                assert(supplied(session, supplies) && next == stepped(session, event, supplies));
                next
            },
            None => {
                let supplies = Supplies { now, digest: digest_for(&script.work) };
                assert(supplied(session, supplies));
                issue(script.work, script.failed, supplies)
            },
        },
        (Session::Guarding { check, work, failed }, Event::Answer(outcome)) => match reject(
            &check,
            &outcome,
            failed,
        ) {
            Some(response) => {
                let ghost supplies = Supplies { now, digest: None };
                assert(supplied(session, supplies));
                (Session::Closed, Action::Reply(response))
            },
            None => {
                let supplies = Supplies { now, digest: digest_for(&work) };
                assert(supplied(session, supplies));
                issue(work, failed, supplies)
            },
        },
        (session, event) => {
            let supplies = Supplies { now, digest: None };
            assert(supplied(session, supplies));
            advance_with(session, event, supplies)
        },
    }
}

} // verus!
