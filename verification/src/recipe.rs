//! The plans that handlers are made of: fetch one, list, insert, create if
//! absent, update, update if present, delete.
use vstd::prelude::*;
use crate::identity::{Encoding, Identifier, RecordId};
use crate::models::Entity;
use crate::plan::{
    note, noting, Check, Guard, Notice, Plan, Script, Sequel, Status, Work, TAKEN,
};
use crate::store::{Changes, Collection, Filter, KeyField};

verus! {

/// The plan that replies at once with a plain message.
pub open spec fn answering(status: Status, text: &'static str) -> Plan {
    Plan::Settled(noting(status, text))
}

/// The plan that looks one document up and replies with it, or with
/// `NotFound` and `missing`.
pub open spec fn fetching(
    collection: Collection,
    filter: Filter,
    missing: &'static str,
    failed: &'static str,
) -> Plan {
    Plan::Scripted(
        Script { guard: None, work: Work::Fetch { collection, filter, missing }, failed },
    )
}

/// The plan that lists the documents that a filter selects, after the first
/// `skip` of them and at most `limit`.
pub open spec fn listing(
    collection: Collection,
    filter: Filter,
    skip: u64,
    limit: Option<u64>,
    failed: &'static str,
) -> Plan {
    Plan::Scripted(
        Script { guard: None, work: Work::List { collection, filter, skip, limit }, failed },
    )
}

/// The plan that inserts a document, unguarded.
pub open spec fn inserting(
    collection: Collection,
    entity: Entity,
    done: &'static str,
    failed: &'static str,
) -> Plan {
    Plan::Scripted(
        Script {
            guard: None,
            work: Work::Insert {
                collection,
                entity,
                sequel: None,
                done: Notice::Plain(done),
                taken: TAKEN,
            },
            failed,
        },
    )
}

/// Create if absent: the plan that looks for a document with the natural key
/// `key`, replies `Conflict` with `taken` where there is one, and inserts the
/// entity, and after it the sequel if there is one, only where there is none.
/// The lookup is the friendly fast path; where another request stores the
/// key between the lookup and the insert, the store refuses the insert, and
/// the reply is the same `Conflict`.
pub open spec fn creating(
    collection: Collection,
    key: Filter,
    entity: Entity,
    sequel: Option<Sequel>,
    taken: &'static str,
    done: &'static str,
    failed: &'static str,
) -> Plan {
    Plan::Scripted(
        Script {
            guard: Some(Guard { collection, filter: key, check: Check::Absent { taken } }),
            work: Work::Insert { collection, entity, sequel, done: Notice::Plain(done), taken },
            failed,
        },
    )
}

/// The plan that updates the first document that a filter selects, and
/// replies `NotFound` with `missing` where it selects none.
pub open spec fn updating(
    collection: Collection,
    filter: Filter,
    changes: Changes,
    done: &'static str,
    missing: &'static str,
    failed: &'static str,
) -> Plan {
    Plan::Scripted(
        Script {
            guard: None,
            work: Work::Update { collection, filter, changes, done: Notice::Plain(done), missing },
            failed,
        },
    )
}

/// Mutate if present: as [`updating`], after a lookup has shown that the
/// filter selects a document.
pub open spec fn updating_if_present(
    collection: Collection,
    filter: Filter,
    changes: Changes,
    done: &'static str,
    missing: &'static str,
    failed: &'static str,
) -> Plan {
    Plan::Scripted(
        Script {
            guard: Some(Guard { collection, filter, check: Check::Present { missing } }),
            work: Work::Update { collection, filter, changes, done: Notice::Plain(done), missing },
            failed,
        },
    )
}

/// The plan that deletes the first document that a filter selects, and
/// replies `NotFound` with `missing` where it selects none.
pub open spec fn deleting(
    collection: Collection,
    filter: Filter,
    done: Notice,
    missing: &'static str,
    failed: &'static str,
) -> Plan {
    Plan::Scripted(
        Script {
            guard: None,
            work: Work::Delete { collection, filter, done, missing },
            failed,
        },
    )
}

pub fn answer(status: Status, text: &'static str) -> (plan: Plan)
    ensures
        plan == answering(status, text),
{
    Plan::Settled(note(status, text))
}

pub fn fetch(
    collection: Collection,
    filter: Filter,
    missing: &'static str,
    failed: &'static str,
) -> (plan: Plan)
    ensures
        plan == fetching(collection, filter, missing, failed),
{
    Plan::Scripted(
        Script { guard: None, work: Work::Fetch { collection, filter, missing }, failed },
    )
}

pub fn list(
    collection: Collection,
    filter: Filter,
    skip: u64,
    limit: Option<u64>,
    failed: &'static str,
) -> (plan: Plan)
    ensures
        plan == listing(collection, filter, skip, limit, failed),
{
    Plan::Scripted(
        Script { guard: None, work: Work::List { collection, filter, skip, limit }, failed },
    )
}

pub fn insert(
    collection: Collection,
    entity: Entity,
    done: &'static str,
    failed: &'static str,
) -> (plan: Plan)
    ensures
        plan == inserting(collection, entity, done, failed),
{
    Plan::Scripted(
        Script {
            guard: None,
            work: Work::Insert {
                collection,
                entity,
                sequel: None,
                done: Notice::Plain(done),
                taken: TAKEN,
            },
            failed,
        },
    )
}

pub fn create(
    collection: Collection,
    key: Filter,
    entity: Entity,
    sequel: Option<Sequel>,
    taken: &'static str,
    done: &'static str,
    failed: &'static str,
) -> (plan: Plan)
    ensures
        plan == creating(collection, key, entity, sequel, taken, done, failed),
{
    Plan::Scripted(
        Script {
            guard: Some(Guard { collection, filter: key, check: Check::Absent { taken } }),
            work: Work::Insert { collection, entity, sequel, done: Notice::Plain(done), taken },
            failed,
        },
    )
}

pub fn update(
    collection: Collection,
    filter: Filter,
    changes: Changes,
    done: &'static str,
    missing: &'static str,
    failed: &'static str,
) -> (plan: Plan)
    ensures
        plan == updating(collection, filter, changes, done, missing, failed),
{
    Plan::Scripted(
        Script {
            guard: None,
            work: Work::Update { collection, filter, changes, done: Notice::Plain(done), missing },
            failed,
        },
    )
}

pub fn update_if_present(
    collection: Collection,
    filter: Filter,
    changes: Changes,
    done: &'static str,
    missing: &'static str,
    failed: &'static str,
) -> (plan: Plan)
    ensures
        plan == updating_if_present(collection, filter, changes, done, missing, failed),
{
    let probe = filter.copy();
    Plan::Scripted(
        Script {
            guard: Some(Guard { collection, filter: probe, check: Check::Present { missing } }),
            work: Work::Update { collection, filter, changes, done: Notice::Plain(done), missing },
            failed,
        },
    )
}

pub fn delete(
    collection: Collection,
    filter: Filter,
    done: Notice,
    missing: &'static str,
    failed: &'static str,
) -> (plan: Plan)
    ensures
        plan == deleting(collection, filter, done, missing, failed),
{
    Plan::Scripted(
        Script {
            guard: None,
            work: Work::Delete { collection, filter, done, missing },
            failed,
        },
    )
}

} // verus!

verus! {

/// The plan that carries `plan` out only after the guard's lookup has shown
/// what the guard asks for. A plan that is settled stays as it is.
pub open spec fn guarded(first: Guard, plan: Plan) -> Plan {
    match plan {
        Plan::Scripted(script) => Plan::Scripted(Script { guard: Some(first), ..script }),
        Plan::Settled(response) => Plan::Settled(response),
    }
}

pub fn guard(first: Guard, plan: Plan) -> (behind: Plan)
    ensures
        behind == guarded(first, plan),
{
    match plan {
        Plan::Scripted(script) => Plan::Scripted(Script { guard: Some(first), ..script }),
        Plan::Settled(response) => Plan::Settled(response),
    }
}

} // verus!

verus! {

/// The filter for the documents of a collection whose field holds an
/// identifier, written in the form in which the collection holds identifiers.
pub open spec fn keyed(collection: Collection, field: KeyField, id: Identifier) -> Filter {
    Filter::Key { field, id, encoding: collection.encoding() }
}

pub fn key(collection: Collection, field: KeyField, id: Identifier) -> (filter: Filter)
    ensures
        filter == keyed(collection, field, id),
{
    Filter::Key { field, id, encoding: collection.stored_as() }
}

/// A filter made by [`keyed`] selects, in its own collection, exactly the
/// documents whose field holds the identifier; written in the other
/// encoding it would select none.
pub proof fn law_key_in_the_right_form(
    collection: Collection,
    field: KeyField,
    id: Identifier,
    record: RecordId,
    entity: Entity,
)
    ensures
        keyed(collection, field, id).holds(collection, record, entity) <==> entity.key(field)
            == Some(id),
        forall|other: Encoding|
            other != collection.encoding() ==> !(Filter::Key { field, id, encoding: other }).holds(
                collection,
                record,
                entity,
            ),
{
}

} // verus!
