//! A store that answers faithfully, as a relation between the records
//! before a command, the command, the records after it and the answer; and
//! what it means for a plan to be carried out against such a store.
use vstd::prelude::*;
use crate::models::Entity;
use crate::plan::{stepped, supplied, Action, Event, Plan, Response, Session, Supplies};
use crate::store::{revised, Collection, Command, Filter, Outcome, Record};
use crate::identity::RecordId;

verus! {

/// The place of the first record that a filter selects.
pub open spec fn first_hit(records: Seq<Record>, collection: Collection, filter: Filter) -> Option<
    int,
>
    decreases records.len(),
{
    if records.len() == 0 {
        None
    } else {
        match first_hit(records.drop_last(), collection, filter) {
            Some(at) => Some(at),
            None => if filter.hits(collection, records.last()) {
                Some(records.len() - 1)
            } else {
                None
            },
        }
    }
}

/// The entities that a filter selects, in the store's order.
pub open spec fn selected(records: Seq<Record>, collection: Collection, filter: Filter) -> Seq<
    Entity,
>
    decreases records.len(),
{
    if records.len() == 0 {
        Seq::empty()
    } else {
        let earlier = selected(records.drop_last(), collection, filter);
        if filter.hits(collection, records.last()) {
            earlier.push(records.last().entity)
        } else {
            earlier
        }
    }
}

/// The part of a listing that a page shows: without the first `skip` items,
/// and at most `limit` of them.
pub open spec fn window<T>(items: Seq<T>, skip: nat, limit: Option<nat>) -> Seq<T> {
    let from = if skip <= items.len() {
        skip
    } else {
        items.len()
    };
    let until = match limit {
        Some(limit) => if from + limit <= items.len() {
            from + limit
        } else {
            items.len()
        },
        None => items.len(),
    };
    items.subrange(from as int, until as int)
}

/// No record is kept under this key.
pub open spec fn unused(records: Seq<Record>, key: RecordId) -> bool {
    forall|i: int| 0 <= i < records.len() ==> (#[trigger] records[i]).key != key
}

/// `record` is kept in `collection`, the collection has a natural key, and
/// `entity` holds in it the text that the record holds.
pub open spec fn same_key(collection: Collection, record: Record, entity: Entity) -> bool {
    &&& record.collection == collection
    &&& collection.natural_key() matches Some(field)
    &&& record.entity.shares_text(field, entity)
}

/// Stored in `collection`, `entity` would repeat the natural key of a record
/// other than the one at `except`.
pub open spec fn collides(
    records: Seq<Record>,
    collection: Collection,
    entity: Entity,
    except: Option<int>,
) -> bool {
    exists|i: int|
        0 <= i < records.len() && except != Some(i) && same_key(
            collection,
            #[trigger] records[i],
            entity,
        )
}

/// No two records of one collection hold the same natural key.
pub open spec fn distinct(records: Seq<Record>) -> bool {
    forall|i: int, j: int|
        0 <= i < j < records.len() ==> !same_key(
            (#[trigger] records[j]).collection,
            #[trigger] records[i],
            records[j].entity,
        )
}

/// The limit of a command, as a number of items.
pub open spec fn as_count(limit: Option<u64>) -> Option<nat> {
    match limit {
        Some(limit) => Some(limit as nat),
        None => None,
    }
}

/// A faithful store, given `command` while it holds `before`, answers
/// `outcome` and holds `after`.
///
/// A lookup gives the first match. A listing gives the matches in order,
/// windowed. An insert adds the document at the end, under a key that no
/// record has. An update changes the first match, a delete removes it, and
/// both say how many documents they matched. An insert or an update that
/// would repeat a natural key is refused as a duplicate and changes
/// nothing. A faithful store never fails.
pub open spec fn follows(
    before: Seq<Record>,
    command: Command,
    after: Seq<Record>,
    outcome: Outcome,
) -> bool {
    match command {
        Command::FindOne { collection, filter } => {
            &&& after == before
            &&& outcome == Outcome::Found(
                match first_hit(before, collection, filter) {
                    Some(at) => Some(before[at].entity),
                    None => None,
                },
            )
        },
        Command::FindMany { collection, filter, skip, limit } => {
            &&& after == before
            &&& outcome matches Outcome::Listed(entities)
            &&& entities@ == window(
                selected(before, collection, filter),
                skip as nat,
                as_count(limit),
            )
        },
        Command::InsertOne { collection, entity } => if collides(
            before,
            collection,
            entity,
            None,
        ) {
            outcome == Outcome::Duplicate && after == before
        } else {
            &&& outcome == Outcome::Inserted
            &&& exists|key: RecordId| #[trigger]
                unused(before, key) && after == before.push(Record { key, collection, entity })
        },
        Command::UpdateOne { collection, filter, changes, at } => match first_hit(
            before,
            collection,
            filter,
        ) {
            Some(place) => if collides(
                before,
                collection,
                revised(before[place].entity, changes, at),
                Some(place),
            ) {
                outcome == Outcome::Duplicate && after == before
            } else {
                &&& outcome == Outcome::Updated { matched: 1 }
                &&& after == before.update(
                    place,
                    Record { entity: revised(before[place].entity, changes, at), ..before[place] },
                )
            },
            None => outcome == Outcome::Updated { matched: 0 } && after == before,
        },
        Command::DeleteOne { collection, filter } => match first_hit(before, collection, filter) {
            Some(place) => outcome == Outcome::Deleted { count: 1 } && after == before.remove(
                place,
            ),
            None => outcome == Outcome::Deleted { count: 0 } && after == before,
        },
    }
}

/// A session that stands at `session` and is told `event`, driven against a
/// faithful store that holds `before`, ends with `response` and leaves the
/// store holding `after`, with at most `rounds` commands.
pub open spec fn finishes(
    before: Seq<Record>,
    session: Session,
    event: Event,
    rounds: nat,
    after: Seq<Record>,
    response: Response,
) -> bool
    decreases rounds,
{
    exists|supplies: Supplies| #[trigger]
        supplied(session, supplies) && match stepped(session, event, supplies).1 {
            Action::Reply(reply) => after == before && response == reply,
            Action::Ask(command) => rounds > 0 && exists|between: Seq<Record>, outcome: Outcome| #[trigger]
                follows(before, command, between, outcome) && finishes(
                    between,
                    stepped(session, event, supplies).0,
                    Event::Answer(outcome),
                    (rounds - 1) as nat,
                    after,
                    response,
                ),
        }
}

/// A plan, carried out from the start against a faithful store that holds
/// `before`, ends with `response` and leaves the store holding `after`.
pub open spec fn carried_out(
    before: Seq<Record>,
    plan: Plan,
    after: Seq<Record>,
    response: Response,
) -> bool {
    finishes(before, Session::Fresh(plan), Event::Begin, 3, after, response)
}

/// What [`first_hit`] finds is the first record that the filter selects.
pub proof fn lemma_first_hit(records: Seq<Record>, collection: Collection, filter: Filter)
    ensures
        (match first_hit(records, collection, filter) {
            Some(at) => {
                &&& 0 <= at < records.len()
                &&& filter.hits(collection, records[at])
                &&& forall|i: int| 0 <= i < at ==> !filter.hits(collection, #[trigger] records[i])
            },
            None => forall|i: int|
                0 <= i < records.len() ==> !filter.hits(collection, #[trigger] records[i]),
        }),
    decreases records.len(),
{
    if records.len() > 0 {
        lemma_first_hit(records.drop_last(), collection, filter);
        assert forall|i: int| 0 <= i < records.len() - 1 implies records.drop_last()[i]
            == records[i] by {}
        match first_hit(records.drop_last(), collection, filter) {
            Some(at) => {
                assert(records.drop_last()[at] == records[at]);
                assert forall|i: int| 0 <= i < at implies !filter.hits(
                    collection,
                    #[trigger] records[i],
                ) by {
                    assert(records.drop_last()[i] == records[i]);
                }
            },
            None => {
                assert forall|i: int| 0 <= i < records.len() - 1 implies !filter.hits(
                    collection,
                    #[trigger] records[i],
                ) by {
                    assert(records.drop_last()[i] == records[i]);
                }
            },
        }
    }
}

/// Where the filter selects nothing, nothing is selected; where it selects
/// something, something is.
pub proof fn lemma_selected_none(records: Seq<Record>, collection: Collection, filter: Filter)
    ensures
        first_hit(records, collection, filter) is None <==> selected(records, collection, filter).len()
            == 0,
    decreases records.len(),
{
    if records.len() > 0 {
        lemma_selected_none(records.drop_last(), collection, filter);
    }
}

/// Adding a record at the end adds it to the selection if the filter selects it.
pub proof fn lemma_selected_push(
    records: Seq<Record>,
    record: Record,
    collection: Collection,
    filter: Filter,
)
    ensures
        selected(records.push(record), collection, filter) == (if filter.hits(collection, record) {
            selected(records, collection, filter).push(record.entity)
        } else {
            selected(records, collection, filter)
        }),
{
    assert(records.push(record).drop_last() =~= records);
}

/// A window is no longer than its limit and no longer than what is left of
/// the items after the skip: it has exactly the smaller of the two.
pub proof fn law_window_length<T>(items: Seq<T>, skip: nat, limit: nat)
    ensures
        window(items, skip, Some(limit)).len() == (if skip >= items.len() {
            0
        } else if items.len() - skip <= limit {
            items.len() - skip
        } else {
            limit as int
        }),
        forall|i: int|
            0 <= i < window(items, skip, Some(limit)).len() ==> #[trigger] window(
                items,
                skip,
                Some(limit),
            )[i] == items[skip + i],
{
}

} // verus!

verus! {

/// Tests whether an entity would repeat a natural key, as [`collides`] says.
pub fn clashes(
    records: &Vec<Record>,
    collection: Collection,
    entity: &Entity,
    except: Option<usize>,
) -> (answer: bool)
    ensures
        answer == collides(
            records@,
            collection,
            *entity,
            match except {
                Some(place) => Some(place as int),
                None => None,
            },
        ),
{
    let ghost spared: Option<int> = match except {
        Some(place) => Some(place as int),
        None => None,
    };
    match collection.unique_field() {
        None => false,
        Some(field) => {
            let mut at: usize = 0;
            while at < records.len()
                invariant
                    at <= records.len(),
                    collection.natural_key() == Some(field),
                    spared == match except {
                        Some(place) => Some(place as int),
                        None => None,
                    },
                    forall|i: int|
                        0 <= i < at && spared != Some(i) ==> !same_key(
                            collection,
                            #[trigger] records@[i],
                            *entity,
                        ),
                decreases records.len() - at,
            {
                let spare = match except {
                    Some(place) => place == at,
                    None => false,
                };
                if !spare && records[at].collection == collection && records[at].entity.has_text_of(
                    field,
                    entity,
                ) {
                    assert(same_key(collection, records@[at as int], *entity));
                    return true;
                }
                at = at + 1;
            }
            false
        },
    }
}

/// Cuts a listing down to the page that a command asks for, as [`window`] says.
pub fn page<T>(items: Vec<T>, skip: u64, limit: Option<u64>) -> (shown: Vec<T>)
    ensures
        shown@ == window(items@, skip as nat, as_count(limit)),
{
    let mut items = items;
    let ghost all = items@;
    if skip >= items.len() as u64 {
        items.truncate(0);
        assert(items@ =~= window(all, skip as nat, as_count(limit)));
        return items;
    }
    let mut shown = items.split_off(skip as usize);
    match limit {
        Some(limit) => {
            if limit < shown.len() as u64 {
                shown.truncate(limit as usize);
            }
        },
        None => {},
    }
    assert(shown@ =~= window(all, skip as nat, as_count(limit)));
    shown
}

} // verus!
