//! What holds of every plan that is carried out against a faithful store,
//! and of every step of a session, whatever the store answers.
use vstd::prelude::*;
use crate::clock::Timestamp;
use crate::credential::{accepts, judged, Verdict};
use crate::identity::{Identifier, RecordId};
use crate::model::{
    as_count, carried_out, collides, distinct, finishes, first_hit, follows, lemma_first_hit,
    lemma_selected_none, lemma_selected_push, same_key, selected, unused, window,
};
use crate::models::message::Message;
use crate::models::notification::Notification;
use crate::models::user::NewUser;
use crate::models::Entity;
use crate::plan::{
    issued, noting, stepped, supplied, Action, Body, Check, Event, Expect, Guard, Notice, Plan,
    Response, Script, Sequel, Session, Status, Supplies, Work, TAKEN,
};
use crate::recipe::{
    creating, deleting, fetching, guarded, inserting, listing, updating, updating_if_present,
};
use crate::routes::auth_routes::{
    login, password_change, LoginRequest, PasswordChangeRequest, LOGIN_DONE, LOGIN_FAILED,
    LOGIN_REFUSED,
};
use crate::routes::business_routes::PaginationParams;
use crate::routes::user_routes::{
    registered_profile, registered_user, registration, PROFILE_ORPHANED, USER_EXISTS,
    USER_NOT_REGISTERED, USER_REGISTERED,
};
use crate::store::{revised, Changes, Collection, Command, Filter, Outcome, Record, TextField};

verus! {

/// The reply of success with a plain message.
pub open spec fn succeeding(done: &'static str) -> Response {
    Response { status: Status::Success, body: Body::Notice(Notice::Plain(done)) }
}

/// `after` is `before` with one document more, at the end, under a key
/// that was free: what a faithful store holds after an insert.
#[verifier::inline]
pub open spec fn added(
    before: Seq<Record>,
    after: Seq<Record>,
    collection: Collection,
    entity: Entity,
) -> bool {
    follows(before, Command::InsertOne { collection, entity }, after, Outcome::Inserted)
}

/// `after` is `before` but for the record at `place`, whose entity, and
/// nothing else of it, may differ.
pub open spec fn changed_only_at(before: Seq<Record>, after: Seq<Record>, place: int) -> bool {
    &&& 0 <= place < before.len()
    &&& after.len() == before.len()
    &&& after[place].key == before[place].key
    &&& after[place].collection == before[place].collection
    &&& forall|i: int| 0 <= i < before.len() && i != place ==> after[i] == before[i]
}

/// The filter is the natural key of the entity in the collection: the
/// collection keeps `field` unique, the entity holds `value` there, and the
/// filter asks for `value` in `field`.
pub open spec fn is_natural_key(
    collection: Collection,
    key: Filter,
    entity: Entity,
) -> bool {
    &&& key matches Filter::Text { field, value }
    &&& collection.natural_key() == Some(field)
    &&& entity.text(field) == Some(value@)
}

/// Where the lookup by natural key finds nothing, the store takes the entity.
pub proof fn lemma_free_key_does_not_collide(
    records: Seq<Record>,
    collection: Collection,
    key: Filter,
    entity: Entity,
)
    requires
        is_natural_key(collection, key, entity),
    ensures
        first_hit(records, collection, key) is None <==> !collides(
            records,
            collection,
            entity,
            None,
        ),
{
    lemma_first_hit(records, collection, key);
    if first_hit(records, collection, key) is None {
        assert forall|i: int| 0 <= i < records.len() implies !same_key(
            collection,
            #[trigger] records[i],
            entity,
        ) by {
            assert(!key.hits(collection, records[i]));
        }
    } else {
        let place = first_hit(records, collection, key).unwrap();
        assert(same_key(collection, records[place], entity));
    }
}

/// Create if absent. Where a document with the natural key is stored, the
/// reply is `Conflict` and the store is untouched. Where none is, the entity
/// is added and the reply is success; and so it is where a sequel follows
/// and the store takes it too. Where the store refuses the sequel as a
/// duplicate, the entity stays stored without it, and the reply is
/// `StoreFailure` with the sequel's message.
pub proof fn law_create_if_absent(
    before: Seq<Record>,
    collection: Collection,
    key: Filter,
    entity: Entity,
    sequel: Option<Sequel>,
    taken: &'static str,
    done: &'static str,
    failed: &'static str,
    after: Seq<Record>,
    response: Response,
)
    requires
        is_natural_key(collection, key, entity),
        carried_out(
            before,
            creating(collection, key, entity, sequel, taken, done, failed),
            after,
            response,
        ),
    ensures
        first_hit(before, collection, key) is Some ==> after == before && response == noting(
            Status::Conflict,
            taken,
        ),
        first_hit(before, collection, key) is None ==> (match sequel {
            None => added(before, after, collection, entity) && response == succeeding(done),
            Some(next) => exists|between: Seq<Record>|
                added(before, between, collection, entity) && if collides(
                    between,
                    next.collection,
                    next.entity,
                    None,
                ) {
                    after == between && response == noting(Status::StoreFailure, next.orphaned)
                } else {
                    added(between, after, next.collection, next.entity) && response == succeeding(
                        done,
                    )
                },
        }),
{
    reveal_with_fuel(finishes, 4);
    lemma_free_key_does_not_collide(before, collection, key, entity);
}

/// The uniqueness guard. Of two creations with the same natural key, one
/// after the other, into a store that holds no document with that key, the
/// first succeeds and the second ends in `Conflict` and stores nothing:
/// afterwards the store holds exactly one document with the key, the first.
pub proof fn law_second_creation_conflicts(
    before: Seq<Record>,
    between: Seq<Record>,
    after: Seq<Record>,
    collection: Collection,
    key: Filter,
    first: Entity,
    second: Entity,
    taken: &'static str,
    done: &'static str,
    failed: &'static str,
    first_response: Response,
    second_response: Response,
)
    requires
        first_hit(before, collection, key) is None,
        is_natural_key(collection, key, first),
        is_natural_key(collection, key, second),
        carried_out(
            before,
            creating(collection, key, first, None, taken, done, failed),
            between,
            first_response,
        ),
        carried_out(
            between,
            creating(collection, key, second, None, taken, done, failed),
            after,
            second_response,
        ),
    ensures
        first_response == succeeding(done),
        second_response == noting(Status::Conflict, taken),
        after == between,
        selected(after, collection, key) == seq![first],
{
    law_create_if_absent(
        before,
        collection,
        key,
        first,
        None,
        taken,
        done,
        failed,
        between,
        first_response,
    );
    lemma_one_more_selected(before, between, collection, key, first);
    lemma_selected_none(between, collection, key);
    law_create_if_absent(
        between,
        collection,
        key,
        second,
        None,
        taken,
        done,
        failed,
        after,
        second_response,
    );
}

/// After an insert of an entity with a natural key that was free, the key
/// selects that entity and nothing else.
proof fn lemma_one_more_selected(
    before: Seq<Record>,
    after: Seq<Record>,
    collection: Collection,
    key: Filter,
    entity: Entity,
)
    requires
        first_hit(before, collection, key) is None,
        is_natural_key(collection, key, entity),
        added(before, after, collection, entity),
    ensures
        selected(after, collection, key) == seq![entity],
{
    let id = choose|id: RecordId| #[trigger]
        unused(before, id) && after == before.push(Record { key: id, collection, entity });
    lemma_selected_push(before, Record { key: id, collection, entity }, collection, key);
    lemma_selected_none(before, collection, key);
    assert(selected(after, collection, key) =~= seq![entity]);
}

/// The race that the lookup leaves open, and how the store closes it. Two
/// creations with the same natural key both look the key up before either
/// inserts, and both find it free. Then the first insert is taken and the
/// second is refused by the store: the first request ends in success, the
/// second in `Conflict`, and one document with the key is stored, not two.
pub proof fn law_racing_creations(
    before: Seq<Record>,
    between: Seq<Record>,
    after: Seq<Record>,
    collection: Collection,
    key: Filter,
    first: Entity,
    second: Entity,
    taken: &'static str,
    done: &'static str,
    failed: &'static str,
    supplies: Supplies,
    first_answer: Outcome,
    second_answer: Outcome,
)
    requires
        first_hit(before, collection, key) is None,
        is_natural_key(collection, key, first),
        is_natural_key(collection, key, second),
        follows(
            before,
            Command::InsertOne { collection, entity: first },
            between,
            first_answer,
        ),
        follows(
            between,
            Command::InsertOne { collection, entity: second },
            after,
            second_answer,
        ),
    ensures
        ({
            let one = creating(collection, key, first, None, taken, done, failed);
            let other = creating(collection, key, second, None, taken, done, failed);
            let lookup = Command::FindOne { collection, filter: key };
            let free = Outcome::Found(None);
            let one_asks = stepped(Session::Fresh(one), Event::Begin, supplies);
            let other_asks = stepped(Session::Fresh(other), Event::Begin, supplies);
            let one_inserts = stepped(one_asks.0, Event::Answer(free), supplies);
            let other_inserts = stepped(other_asks.0, Event::Answer(free), supplies);
            let one_ends = stepped(one_inserts.0, Event::Answer(first_answer), supplies);
            let other_ends = stepped(other_inserts.0, Event::Answer(second_answer), supplies);
            &&& one_asks.1 == Action::Ask(lookup)
            &&& other_asks.1 == Action::Ask(lookup)
            &&& follows(before, lookup, before, free)
            &&& one_inserts.1 == Action::Ask(Command::InsertOne { collection, entity: first })
            &&& other_inserts.1 == Action::Ask(Command::InsertOne { collection, entity: second })
            &&& one_ends.1 == Action::Reply(succeeding(done))
            &&& other_ends.1 == Action::Reply(noting(Status::Conflict, taken))
            &&& after == between
            &&& selected(after, collection, key) == seq![first]
        }),
{
    lemma_free_key_does_not_collide(before, collection, key, first);
    lemma_one_more_selected(before, between, collection, key, first);
    lemma_selected_none(between, collection, key);
    lemma_free_key_does_not_collide(between, collection, key, second);
}

/// The unique index holds: whatever command a faithful store is given, if no
/// two of its documents shared a natural key before, none do after. So no
/// order of commands, from however many requests at once, stores one key twice.
pub proof fn law_natural_keys_stay_unique(
    before: Seq<Record>,
    command: Command,
    after: Seq<Record>,
    outcome: Outcome,
)
    requires
        distinct(before),
        follows(before, command, after, outcome),
    ensures
        distinct(after),
{
    match command {
        Command::InsertOne { collection, entity } => {
            if !collides(before, collection, entity, None) {
                assert forall|i: int, j: int| 0 <= i < j < after.len() implies !same_key(
                    (#[trigger] after[j]).collection,
                    #[trigger] after[i],
                    after[j].entity,
                ) by {
                    if j == before.len() {
                        assert(!same_key(collection, before[i], entity));
                    } else {
                        assert(!same_key(before[j].collection, before[i], before[j].entity));
                    }
                }
            }
        },
        Command::UpdateOne { collection, filter, changes, at } => {
            lemma_first_hit(before, collection, filter);
            match first_hit(before, collection, filter) {
                Some(place) => {
                    let entity = revised(before[place].entity, changes, at);
                    if !collides(before, collection, entity, Some(place)) {
                        assert forall|i: int, j: int| 0 <= i < j < after.len() implies !same_key(
                            (#[trigger] after[j]).collection,
                            #[trigger] after[i],
                            after[j].entity,
                        ) by {
                            if j == place {
                                assert(!same_key(collection, before[i], entity));
                            } else if i == place {
                                assert(!same_key(collection, before[j], entity));
                            } else {
                                assert(!same_key(
                                    before[j].collection,
                                    before[i],
                                    before[j].entity,
                                ));
                            }
                        }
                    }
                },
                None => {},
            }
        },
        Command::DeleteOne { collection, filter } => {
            lemma_first_hit(before, collection, filter);
            match first_hit(before, collection, filter) {
                Some(place) => {
                    assert forall|i: int, j: int| 0 <= i < j < after.len() implies !same_key(
                        (#[trigger] after[j]).collection,
                        #[trigger] after[i],
                        after[j].entity,
                    ) by {
                        let from = if i < place {
                            i
                        } else {
                            i + 1
                        };
                        let to = if j < place {
                            j
                        } else {
                            j + 1
                        };
                        assert(!same_key(before[to].collection, before[from], before[to].entity));
                    }
                },
                None => {},
            }
        },
        _ => {},
    }
}

/// A write that the store refuses as a duplicate ends the request in
/// `Conflict`: the store's refusal is the last word on uniqueness.
pub proof fn law_duplicate_is_conflict(expect: Expect, failed: &'static str, supplies: Supplies)
    requires
        expect is Inserted || expect is Updated,
    ensures
        stepped(
            Session::Working { expect, failed },
            Event::Answer(Outcome::Duplicate),
            supplies,
        ).0 == Session::Closed,
        stepped(
            Session::Working { expect, failed },
            Event::Answer(Outcome::Duplicate),
            supplies,
        ).1 matches Action::Reply(reply) && reply.status == Status::Conflict,
{
}

/// Mutate if present. Where the filter selects nothing, the reply is
/// `NotFound` and the store is untouched. Where it selects something, the
/// first document selected is changed as [`revised`] says, at some time,
/// and nothing else is; unless the change would repeat a natural key, and
/// then the reply is `Conflict` and the store is untouched.
pub proof fn law_update_if_present(
    before: Seq<Record>,
    collection: Collection,
    filter: Filter,
    changes: Changes,
    done: &'static str,
    missing: &'static str,
    failed: &'static str,
    after: Seq<Record>,
    response: Response,
)
    requires
        carried_out(
            before,
            updating_if_present(collection, filter, changes, done, missing, failed),
            after,
            response,
        ) || carried_out(
            before,
            updating(collection, filter, changes, done, missing, failed),
            after,
            response,
        ),
    ensures
        (match first_hit(before, collection, filter) {
            None => after == before && response == noting(Status::NotFound, missing),
            Some(place) => exists|at: Timestamp|
                if collides(
                    before,
                    collection,
                    #[trigger] revised(before[place].entity, changes, at),
                    Some(place),
                ) {
                    after == before && response == noting(Status::Conflict, TAKEN)
                } else {
                    &&& response == succeeding(done)
                    &&& changed_only_at(before, after, place)
                    &&& after[place].entity == revised(before[place].entity, changes, at)
                },
        }),
{
    reveal_with_fuel(finishes, 4);
    lemma_first_hit(before, collection, filter);
}

/// A delete removes the first document that the filter selects and nothing
/// else; where the filter selects nothing, the reply is `NotFound`.
pub proof fn law_delete_if_present(
    before: Seq<Record>,
    collection: Collection,
    filter: Filter,
    done: Notice,
    missing: &'static str,
    failed: &'static str,
    after: Seq<Record>,
    response: Response,
)
    requires
        carried_out(before, deleting(collection, filter, done, missing, failed), after, response),
    ensures
        (match first_hit(before, collection, filter) {
            None => after == before && response == noting(Status::NotFound, missing),
            Some(place) => after == before.remove(place) && response == (Response {
                status: Status::Success,
                body: Body::Notice(done),
            }),
        }),
{
    reveal_with_fuel(finishes, 4);
}

/// The filter by which a registration looks the name up.
pub open spec fn by_username(request: NewUser) -> Filter {
    Filter::Text { field: TextField::Username, value: request.username }
}

/// Registration. Where the name is taken, the reply is `Conflict` and
/// nothing is stored. Where it is free, the user is added: and then either
/// the profile is added after it and the reply is success, or the store
/// refuses the profile because its email is taken, and the reply is
/// `StoreFailure` with the message that says so. Nothing else changes. The
/// profile names the user, and the two agree on name and email.
pub proof fn law_registration(
    before: Seq<Record>,
    request: NewUser,
    digest: String,
    user_id: Identifier,
    profile_id: Identifier,
    now: Timestamp,
    after: Seq<Record>,
    response: Response,
)
    requires
        carried_out(
            before,
            registration(request, Some(digest), user_id, profile_id, now),
            after,
            response,
        ),
    ensures
        registered_profile(request, user_id, profile_id, now).user_id == registered_user(
            request,
            digest,
            user_id,
            now,
        ).user_id,
        registered_profile(request, user_id, profile_id, now).username == registered_user(
            request,
            digest,
            user_id,
            now,
        ).username,
        registered_profile(request, user_id, profile_id, now).email == registered_user(
            request,
            digest,
            user_id,
            now,
        ).email,
        (match first_hit(before, Collection::Users, by_username(request)) {
            Some(_) => after == before && response == noting(Status::Conflict, USER_EXISTS),
            None => exists|between: Seq<Record>|
                added(
                    before,
                    between,
                    Collection::Users,
                    Entity::User(registered_user(request, digest, user_id, now)),
                ) && if collides(
                    between,
                    Collection::Profiles,
                    Entity::Profile(registered_profile(request, user_id, profile_id, now)),
                    None,
                ) {
                    after == between && response == noting(Status::StoreFailure, PROFILE_ORPHANED)
                } else {
                    added(
                        between,
                        after,
                        Collection::Profiles,
                        Entity::Profile(registered_profile(request, user_id, profile_id, now)),
                    ) && response == succeeding(USER_REGISTERED)
                },
        }),
{
    law_create_if_absent(
        before,
        Collection::Users,
        by_username(request),
        Entity::User(registered_user(request, digest, user_id, now)),
        Some(
            Sequel {
                collection: Collection::Profiles,
                entity: Entity::Profile(registered_profile(request, user_id, profile_id, now)),
                orphaned: PROFILE_ORPHANED,
            },
        ),
        USER_EXISTS,
        USER_REGISTERED,
        USER_NOT_REGISTERED,
        after,
        response,
    );
}

/// The orphan case. Where the store takes the user and then fails on the
/// profile, the registration does not end in success: the reply is
/// `StoreFailure` with the message that says so.
pub proof fn law_orphan_is_reported(
    request: NewUser,
    digest: String,
    user_id: Identifier,
    profile_id: Identifier,
    now: Timestamp,
    supplies: Supplies,
    failure: Outcome,
)
    requires
        failure != Outcome::Inserted,
    ensures
        ({
            let plan = registration(request, Some(digest), user_id, profile_id, now);
            let asked = stepped(Session::Fresh(plan), Event::Begin, supplies);
            let cleared = stepped(asked.0, Event::Answer(Outcome::Found(None)), supplies);
            let stored = stepped(cleared.0, Event::Answer(Outcome::Inserted), supplies);
            let ended = stepped(stored.0, Event::Answer(failure), supplies);
            &&& cleared.1 == Action::Ask(
                Command::InsertOne {
                    collection: Collection::Users,
                    entity: Entity::User(registered_user(request, digest, user_id, now)),
                },
            )
            &&& stored.1 == Action::Ask(
                Command::InsertOne {
                    collection: Collection::Profiles,
                    entity: Entity::Profile(
                        registered_profile(request, user_id, profile_id, now),
                    ),
                },
            )
            &&& ended.1 == Action::Reply(noting(Status::StoreFailure, PROFILE_ORPHANED))
        }),
{
}

/// A store failure ends the request: whatever a session waits for, the
/// answer `Failed` closes it with a reply of `StoreFailure`. Nothing is
/// tried again.
pub proof fn law_failure_is_final(session: Session, supplies: Supplies)
    ensures
        stepped(session, Event::Answer(Outcome::Failed), supplies).0 == Session::Closed,
        stepped(session, Event::Answer(Outcome::Failed), supplies).1 matches Action::Reply(reply)
            && reply.status == Status::StoreFailure,
{
}

/// Confirming is idempotent and has no way back: a confirmed notification
/// is left exactly as it is by every update, a confirmation included, and an
/// unconfirmed one is confirmed by a confirmation.
pub proof fn law_confirmation_is_monotonic(
    notification: Notification,
    changes: Changes,
    at: Timestamp,
)
    ensures
        notification.confirmed ==> revised(Entity::Notification(notification), changes, at)
            == Entity::Notification(notification),
        revised(Entity::Notification(notification), Changes::Confirm, at) matches Entity::Notification(
            after,
        ) && after.confirmed,
        revised(Entity::Notification(notification), changes, at) matches Entity::Notification(
            after,
        ) && (notification.confirmed ==> after.confirmed),
{
}

/// No command but a delete touches a confirmed notification in a faithful store.
pub proof fn law_confirmed_stays_confirmed(
    before: Seq<Record>,
    command: Command,
    after: Seq<Record>,
    outcome: Outcome,
    place: int,
)
    requires
        follows(before, command, after, outcome),
        !(command is DeleteOne),
        0 <= place < before.len(),
        before[place].entity matches Entity::Notification(notification) && notification.confirmed,
    ensures
        place < after.len(),
        after[place] == before[place],
{
    match command {
        Command::UpdateOne { collection, filter, changes, at } => {
            lemma_first_hit(before, collection, filter);
        },
        _ => {},
    }
}

/// A login touches nothing. It succeeds where the user is stored and the
/// digest accepts the password. Where no user has the name, and where the
/// digest refuses the password, the reply is the same: `Unauthorized`, with
/// one message for both.
pub proof fn law_login(
    before: Seq<Record>,
    request: LoginRequest,
    after: Seq<Record>,
    response: Response,
)
    requires
        carried_out(before, login(request), after, response),
    ensures
        after == before,
        response == (match first_hit(
            before,
            Collection::Users,
            Filter::Text { field: TextField::Username, value: request.username },
        ) {
            None => noting(Status::Unauthorized, LOGIN_REFUSED),
            Some(place) => match before[place].entity {
                Entity::User(user) => match judged(request.password@, user.password@) {
                    Verdict::Accepted => succeeding(LOGIN_DONE),
                    Verdict::Refused => noting(Status::Unauthorized, LOGIN_REFUSED),
                    Verdict::Unreadable => noting(Status::StoreFailure, LOGIN_FAILED),
                },
                _ => noting(Status::StoreFailure, LOGIN_FAILED),
            },
        }),
{
    reveal_with_fuel(finishes, 4);
}

/// A change of password that ends in success has replaced the digest of the
/// user with that email by a digest of the new password, has stamped the
/// user, and has touched nothing else; and then the old password was
/// accepted by the digest that was stored before. A change that does not end
/// in success has touched nothing.
pub proof fn law_password_change(
    before: Seq<Record>,
    request: PasswordChangeRequest,
    after: Seq<Record>,
    response: Response,
)
    requires
        carried_out(before, password_change(request), after, response),
    ensures
        response.status != Status::Success ==> after == before,
        response.status == Status::Success ==> ({
            &&& first_hit(
                before,
                Collection::Users,
                Filter::Text { field: TextField::Email, value: request.email },
            ) matches Some(place)
            &&& before[place].entity matches Entity::User(old)
            &&& judged(request.old_password@, old.password@) == Verdict::Accepted
            &&& changed_only_at(before, after, place)
            &&& after[place].entity matches Entity::User(new)
            &&& accepts(request.new_password@, new.password@)
            &&& exists|at: Timestamp|
                after[place].entity == #[trigger] revised(
                    before[place].entity,
                    Changes::Password(new.password),
                    at,
                )
        }),
{
    reveal_with_fuel(finishes, 4);
    lemma_first_hit(
        before,
        Collection::Users,
        Filter::Text { field: TextField::Email, value: request.email },
    );
}

/// Page zero is the first page, and the first page starts at the first item.
pub proof fn law_page_zero_is_page_one(limit: Option<u32>)
    ensures
        (PaginationParams { page: Some(0), limit }).offset() == 0,
        (PaginationParams { page: Some(1), limit }).offset() == 0,
        (PaginationParams { page: None, limit }).offset() == 0,
{
    let size = (PaginationParams { page: None, limit }).page_size();
    assert(0 * size == 0) by (nonlinear_arith);
}

} // verus!

verus! {

/// Where the name and the email are free and the store has two keys to
/// give, a registration can be carried out, and it ends in success with the
/// user and the profile stored.
pub proof fn law_registration_can_succeed(
    before: Seq<Record>,
    request: NewUser,
    digest: String,
    user_id: Identifier,
    profile_id: Identifier,
    now: Timestamp,
    first_key: RecordId,
    second_key: RecordId,
)
    requires
        first_hit(before, Collection::Users, by_username(request)) is None,
        !collides(
            before,
            Collection::Profiles,
            Entity::Profile(registered_profile(request, user_id, profile_id, now)),
            None,
        ),
        unused(before, first_key),
        unused(before, second_key),
        first_key != second_key,
    ensures
        carried_out(
            before,
            registration(request, Some(digest), user_id, profile_id, now),
            before.push(
                Record {
                    key: first_key,
                    collection: Collection::Users,
                    entity: Entity::User(registered_user(request, digest, user_id, now)),
                },
            ).push(
                Record {
                    key: second_key,
                    collection: Collection::Profiles,
                    entity: Entity::Profile(registered_profile(request, user_id, profile_id, now)),
                },
            ),
            succeeding(USER_REGISTERED),
        ),
{
    reveal_with_fuel(finishes, 5);
    let plan = registration(request, Some(digest), user_id, profile_id, now);
    let supplies = Supplies { now, digest: None };
    let user = Entity::User(registered_user(request, digest, user_id, now));
    let profile = Entity::Profile(registered_profile(request, user_id, profile_id, now));
    let name = by_username(request);
    let between = before.push(
        Record { key: first_key, collection: Collection::Users, entity: user },
    );
    let after = between.push(
        Record { key: second_key, collection: Collection::Profiles, entity: profile },
    );
    lemma_free_key_does_not_collide(before, Collection::Users, name, user);
    let lookup = stepped(Session::Fresh(plan), Event::Begin, supplies);
    assert(follows(
        before,
        Command::FindOne { collection: Collection::Users, filter: name },
        before,
        Outcome::Found(None),
    ));
    let first = stepped(lookup.0, Event::Answer(Outcome::Found(None)), supplies);
    assert(follows(
        before,
        Command::InsertOne { collection: Collection::Users, entity: user },
        between,
        Outcome::Inserted,
    ));
    let second = stepped(first.0, Event::Answer(Outcome::Inserted), supplies);
    assert(unused(between, second_key));
    assert(!collides(between, Collection::Profiles, profile, None)) by {
        assert forall|i: int| 0 <= i < between.len() implies !same_key(
            Collection::Profiles,
            #[trigger] between[i],
            profile,
        ) by {
            if i < before.len() {
                assert(between[i] == before[i]);
            }
        }
    }
    assert(follows(
        between,
        Command::InsertOne { collection: Collection::Profiles, entity: profile },
        after,
        Outcome::Inserted,
    ));
    assert(supplied(second.0, supplies));
    assert(finishes(
        after,
        second.0,
        Event::Answer(Outcome::Inserted),
        0,
        after,
        succeeding(USER_REGISTERED),
    ));
    assert(supplied(first.0, supplies));
    assert(finishes(
        between,
        first.0,
        Event::Answer(Outcome::Inserted),
        1,
        after,
        succeeding(USER_REGISTERED),
    ));
    assert(supplied(lookup.0, supplies));
    assert(finishes(
        before,
        lookup.0,
        Event::Answer(Outcome::Found(None)),
        2,
        after,
        succeeding(USER_REGISTERED),
    ));
    assert(supplied(Session::Fresh(plan), supplies));
}

/// The uniqueness guard at registration. Of two registrations under one
/// name, one after the other, into a store where the name is free, the first
/// stores its user and the second ends in `Conflict` and stores nothing:
/// afterwards exactly one user has the name, the first.
pub proof fn law_second_registration_conflicts(
    before: Seq<Record>,
    between: Seq<Record>,
    after: Seq<Record>,
    first: NewUser,
    first_digest: String,
    first_user: Identifier,
    first_profile: Identifier,
    first_time: Timestamp,
    second: NewUser,
    second_digest: String,
    second_user: Identifier,
    second_profile: Identifier,
    second_time: Timestamp,
    first_response: Response,
    second_response: Response,
)
    requires
        first.username@ == second.username@,
        first_hit(before, Collection::Users, by_username(first)) is None,
        carried_out(
            before,
            registration(first, Some(first_digest), first_user, first_profile, first_time),
            between,
            first_response,
        ),
        carried_out(
            between,
            registration(second, Some(second_digest), second_user, second_profile, second_time),
            after,
            second_response,
        ),
    ensures
        first_response == succeeding(USER_REGISTERED) || first_response == noting(
            Status::StoreFailure,
            PROFILE_ORPHANED,
        ),
        second_response == noting(Status::Conflict, USER_EXISTS),
        after == between,
        selected(after, Collection::Users, by_username(first)) == seq![
            Entity::User(registered_user(first, first_digest, first_user, first_time)),
        ],
{
    let name = by_username(first);
    let user = Entity::User(registered_user(first, first_digest, first_user, first_time));
    let profile = Entity::Profile(
        registered_profile(first, first_user, first_profile, first_time),
    );
    law_registration(
        before,
        first,
        first_digest,
        first_user,
        first_profile,
        first_time,
        between,
        first_response,
    );
    let middle = choose|middle: Seq<Record>|
        added(before, middle, Collection::Users, user) && if collides(
            middle,
            Collection::Profiles,
            profile,
            None,
        ) {
            between == middle && first_response == noting(Status::StoreFailure, PROFILE_ORPHANED)
        } else {
            added(middle, between, Collection::Profiles, profile) && first_response == succeeding(
                USER_REGISTERED,
            )
        };
    lemma_one_more_selected(before, middle, Collection::Users, name, user);
    if !collides(middle, Collection::Profiles, profile, None) {
        let profile_key = choose|id: RecordId| #[trigger]
            unused(middle, id) && between == middle.push(
                Record { key: id, collection: Collection::Profiles, entity: profile },
            );
        lemma_selected_push(
            middle,
            Record { key: profile_key, collection: Collection::Profiles, entity: profile },
            Collection::Users,
            name,
        );
    }
    lemma_selected_none(between, Collection::Users, name);
    lemma_same_text_same_hit(
        between,
        Collection::Users,
        TextField::Username,
        first.username,
        second.username,
    );
    law_registration(
        between,
        second,
        second_digest,
        second_user,
        second_profile,
        second_time,
        after,
        second_response,
    );
}

/// Two text filters on one field with the same text select the same records.
proof fn lemma_same_text_same_hit(
    records: Seq<Record>,
    collection: Collection,
    field: TextField,
    one: String,
    other: String,
)
    requires
        one@ == other@,
    ensures
        first_hit(records, collection, Filter::Text { field, value: one }) == first_hit(
            records,
            collection,
            Filter::Text { field, value: other },
        ),
    decreases records.len(),
{
    if records.len() > 0 {
        lemma_same_text_same_hit(records.drop_last(), collection, field, one, other);
    }
}

} // verus!

verus! {

/// A fetch touches nothing and replies with the first document that the
/// filter selects, or with `NotFound`.
pub proof fn law_fetch(
    before: Seq<Record>,
    collection: Collection,
    filter: Filter,
    missing: &'static str,
    failed: &'static str,
    after: Seq<Record>,
    response: Response,
)
    requires
        carried_out(before, fetching(collection, filter, missing, failed), after, response),
    ensures
        after == before,
        response == (match first_hit(before, collection, filter) {
            Some(place) => Response {
                status: Status::Success,
                body: Body::One(before[place].entity),
            },
            None => noting(Status::NotFound, missing),
        }),
{
    reveal_with_fuel(finishes, 4);
}

/// A listing touches nothing and replies with the documents that the filter
/// selects, in the store's order, without the first `skip` of them and at
/// most `limit`.
pub proof fn law_listing(
    before: Seq<Record>,
    collection: Collection,
    filter: Filter,
    skip: u64,
    limit: Option<u64>,
    failed: &'static str,
    after: Seq<Record>,
    response: Response,
)
    requires
        carried_out(before, listing(collection, filter, skip, limit, failed), after, response),
    ensures
        after == before,
        response.status == Status::Success,
        response.body matches Body::Many(entities) && entities@ == window(
            selected(before, collection, filter),
            skip as nat,
            as_count(limit),
        ),
{
    reveal_with_fuel(finishes, 4);
}

/// A listing behind a guard of presence: where the guard's lookup finds
/// nothing, the reply is `NotFound` with the guard's message, and nothing is
/// listed; where it finds something, the listing is given as [`law_listing`]
/// says. So the businesses of a user are listed only if the user is stored.
pub proof fn law_listing_if_present(
    before: Seq<Record>,
    watched: Collection,
    watch: Filter,
    missing: &'static str,
    collection: Collection,
    filter: Filter,
    skip: u64,
    limit: Option<u64>,
    failed: &'static str,
    after: Seq<Record>,
    response: Response,
)
    requires
        carried_out(
            before,
            guarded(
                Guard { collection: watched, filter: watch, check: Check::Present { missing } },
                listing(collection, filter, skip, limit, failed),
            ),
            after,
            response,
        ),
    ensures
        after == before,
        first_hit(before, watched, watch) is None ==> response == noting(
            Status::NotFound,
            missing,
        ),
        first_hit(before, watched, watch) is Some ==> response.status == Status::Success && (
        response.body matches Body::Many(entities) && entities@ == window(
            selected(before, collection, filter),
            skip as nat,
            as_count(limit),
        )),
{
    reveal_with_fuel(finishes, 4);
}

/// An insert without a guard adds the document, unless the store refuses it
/// as a duplicate: then the reply is `Conflict` and the store is untouched.
pub proof fn law_insert(
    before: Seq<Record>,
    collection: Collection,
    entity: Entity,
    done: &'static str,
    failed: &'static str,
    after: Seq<Record>,
    response: Response,
)
    requires
        carried_out(before, inserting(collection, entity, done, failed), after, response),
    ensures
        collides(before, collection, entity, None) ==> after == before && response == noting(
            Status::Conflict,
            TAKEN,
        ),
        !collides(before, collection, entity, None) ==> added(before, after, collection, entity)
            && response == succeeding(done),
{
    reveal_with_fuel(finishes, 4);
}

/// A message is never changed: no update makes another message of it.
pub proof fn law_message_is_immutable(message: Message, changes: Changes, at: Timestamp)
    ensures
        revised(Entity::Message(message), changes, at) == Entity::Message(message),
{
}

/// An update never changes what names an entity or when it was made: the
/// identifier fields and the time of creation of a user, a profile, a
/// business, a payment and a training stay as they were.
pub proof fn law_update_keeps_identity(old: Entity, changes: Changes, at: Timestamp)
    ensures
        (match (old, revised(old, changes, at)) {
            (Entity::User(old), Entity::User(new)) => new.user_id == old.user_id && new.created_at
                == old.created_at,
            (Entity::Profile(old), Entity::Profile(new)) => {
                &&& new.profile_id == old.profile_id
                &&& new.user_id == old.user_id
                &&& new.email == old.email
                &&& new.created_at == old.created_at
            },
            (Entity::Business(old), Entity::Business(new)) => {
                &&& new.business_id == old.business_id
                &&& new.user_ids == old.user_ids
                &&& new.created_at == old.created_at
            },
            (Entity::Payment(old), Entity::Payment(new)) => new.payment_id == old.payment_id
                && new.created_at == old.created_at,
            (Entity::Training(old), Entity::Training(new)) => new.training_id == old.training_id
                && new.created_at == old.created_at,
            (Entity::BusinessReview(old), Entity::BusinessReview(new)) => new.business_review_id
                == old.business_review_id && new.created_at == old.created_at,
            (Entity::Review(old), Entity::Review(new)) => new.id == old.id,
            (Entity::Rating(old), Entity::Rating(new)) => new.rating_id == old.rating_id,
            (Entity::Message(old), Entity::Message(new)) => new == old,
            (Entity::Notification(old), Entity::Notification(new)) => {
                &&& new.user_id == old.user_id
                &&& new.notification_type == old.notification_type
                &&& new.message == old.message
                &&& new.created_at == old.created_at
            },
            _ => false,
        }),
{
}

/// What a session sends to the store to set a password is a digest of the
/// plaintext, never the plaintext: the update carries a text that has the
/// shape of a digest and that accepts the plaintext. Without a digest the
/// session sends nothing.
pub proof fn law_only_a_digest_is_stored(
    collection: Collection,
    filter: Filter,
    plain: String,
    done: Notice,
    missing: &'static str,
    failed: &'static str,
    supplies: Supplies,
)
    requires
        supplied(
            Session::Fresh(
                Plan::Scripted(
                    Script {
                        guard: None,
                        work: Work::Rekey { collection, filter, plain, done, missing },
                        failed,
                    },
                ),
            ),
            supplies,
        ),
    ensures
        (match issued(Work::Rekey { collection, filter, plain, done, missing }, failed, supplies).1 {
            Action::Ask(command) => {
                &&& command matches Command::UpdateOne { changes: Changes::Password(digest), .. }
                &&& accepts(plain@, digest@)
                &&& supplies.digest == Some(digest)
            },
            Action::Reply(reply) => supplies.digest is None && reply.status
                == Status::StoreFailure,
        }),
{
}

} // verus!
