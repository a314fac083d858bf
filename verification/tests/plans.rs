use cucura::clock::Timestamp;
use cucura::identity::{Encoding, Identifier, RecordId};
use cucura::models::business_review::BusinessReview;
use cucura::models::message::Message;
use cucura::models::rating::Rating;
use cucura::models::review::Review;
use cucura::models::training::Training;
use cucura::models::user::User;
use cucura::models::Entity;
use cucura::plan::{
    advance, advance_with, note, Action, Body, Check, Event, Expect, Guard, Notice, Plan,
    Response, Script, Session, Status, Supplies, Work, OUT_OF_TURN, TAKEN,
};
use cucura::recipe::{answer, create, delete, fetch, guard, insert, key, list, update, update_if_present};
use cucura::routes::auth_routes::{change_password, login_user, set_password, LoginRequest, PasswordChangeRequest};
use cucura::routes::business_review_routes;
use cucura::routes::business_routes::{delete_business, find_business, PaginationParams};
use cucura::routes::message_routes::{
    delete_message, delete_notification, find_all_messages, find_message, get_notifications,
    send_message,
};
use cucura::routes::payment_routes::{delete_payment, find_all_payments, find_payment};
use cucura::routes::profile_routes::{delete_profile, find_all_profiles, update_profile};
use cucura::routes::rating_routes::{
    add_rating, delete_rating, find_all_ratings, find_rating, update_rating,
};
use cucura::routes::review_routes;
use cucura::routes::training_routes::{
    add_training, delete_training, find_all_trainings, find_training, update_training,
};
use cucura::routes::user_routes::update_user_with;
use cucura::store::{Changes, Collection, Command, Filter, KeyField, Outcome, TextField};
use cucura::models::profile::Profile;

const EPOCH: Timestamp = Timestamp { seconds: 0, nanos: 0 };

const LATER: Timestamp = Timestamp { seconds: 1_700_000_000, nanos: 5 };

const ONE: &str = "00000000-0000-0000-0000-000000000001";

fn supplies() -> Supplies {
    Supplies { now: LATER, digest: None }
}

fn malformed(text: &'static str) -> Plan {
    Plan::Settled(note(Status::MalformedIdentifier, text))
}

fn rating(score: i32) -> Rating {
    Rating { rating_id: Identifier { value: 1 }, score, description: None }
}

fn training(start: Option<Timestamp>, end: Option<Timestamp>) -> Training {
    Training {
        training_id: Identifier { value: 1 },
        trainer_id: Identifier { value: 2 },
        title: "title".to_string(),
        description: "description".to_string(),
        start_date: start,
        end_date: end,
        duration: "2 hours".to_string(),
        created_at: EPOCH,
        updated_at: EPOCH,
    }
}

fn review(id: Option<RecordId>, rating: i32) -> Review {
    Review {
        id,
        user_id: "user".to_string(),
        product_id: "product".to_string(),
        rating,
        comment: None,
    }
}

fn business_review(score: i32) -> BusinessReview {
    BusinessReview {
        business_review_id: Identifier { value: 1 },
        reviewer_id: Identifier { value: 2 },
        business_id: Identifier { value: 3 },
        rating: rating(score),
        comment: None,
        review_link: None,
        created_at: EPOCH,
        updated_at: EPOCH,
    }
}

fn user() -> User {
    User {
        user_id: Identifier { value: 1 },
        username: "alice".to_string(),
        email: "alice@x.com".to_string(),
        password: "secret".to_string(),
        user_type: "Founder".to_string(),
        created_at: EPOCH,
        updated_at: EPOCH,
    }
}

#[test]
fn statuses_have_their_codes() {
    assert_eq!(Status::Success.code(), 200);
    assert_eq!(Status::Invalid.code(), 400);
    assert_eq!(Status::MalformedIdentifier.code(), 400);
    assert_eq!(Status::Unauthorized.code(), 401);
    assert_eq!(Status::NotFound.code(), 404);
    assert_eq!(Status::Conflict.code(), 409);
    assert_eq!(Status::StoreFailure.code(), 500);
}

#[test]
fn notices_have_their_text() {
    assert_eq!(Notice::Plain("Login successful").text(), "Login successful");
    assert_eq!(Notice::Plain("").text(), "");
    assert_eq!(
        Notice::PaymentDeleted { id: "abc".to_string() }.text(),
        "Payment abc : deleted successfully"
    );
    assert_eq!(
        Notice::PaymentDeleted { id: String::new() }.text(),
        "Payment  : deleted successfully"
    );
}

#[test]
fn collections_have_their_names_and_encodings() {
    let all = [
        (Collection::Users, "users", Encoding::Text),
        (Collection::Profiles, "profiles", Encoding::Binary),
        (Collection::Businesses, "businesses", Encoding::Binary),
        (Collection::Payments, "payments", Encoding::Text),
        (Collection::Trainings, "trainings", Encoding::Text),
        (Collection::Messages, "messages", Encoding::Text),
        (Collection::Notifications, "notifications", Encoding::Text),
        (Collection::Reviews, "reviews", Encoding::Text),
        (Collection::Ratings, "ratings", Encoding::Text),
    ];
    for (collection, name, encoding) in all {
        assert_eq!(collection.name(), name);
        assert_eq!(collection.stored_as(), encoding);
        assert_eq!(
            key(collection, KeyField::UserId, Identifier { value: 9 }),
            Filter::Key { field: KeyField::UserId, id: Identifier { value: 9 }, encoding }
        );
    }
}

#[test]
fn pages_start_where_the_pages_before_them_end() {
    let ask = |page: Option<u32>, limit: Option<u32>| PaginationParams { page, limit };
    assert_eq!(ask(None, None).skip(), 0);
    assert_eq!(ask(None, None).size(), 20);
    assert_eq!(ask(Some(1), Some(20)).skip(), 0);
    assert_eq!(ask(Some(2), Some(20)).skip(), 20);
    assert_eq!(ask(Some(3), Some(7)).skip(), 14);
    assert_eq!(ask(Some(3), None).skip(), 40);
    assert_eq!(ask(None, Some(7)).size(), 7);
    assert_eq!(ask(Some(0), Some(20)).skip(), 0);
    assert_eq!(ask(Some(5), Some(0)).skip(), 0);
    assert_eq!(ask(Some(u32::MAX), Some(u32::MAX)).skip(), 4294967294 * 4294967295);
    assert_eq!(ask(Some(u32::MAX), Some(u32::MAX)).size(), 4294967295);
}

#[test]
fn a_malformed_identifier_ends_every_request_that_names_one() {
    let bad = "not-an-identifier";
    assert_eq!(find_business(bad), malformed("Invalid business ID format"));
    assert_eq!(delete_business(bad), malformed("Invalid business ID format"));
    assert_eq!(find_message(bad), malformed("Invalid message ID format"));
    assert_eq!(delete_message(bad), malformed("Invalid message ID format"));
    assert_eq!(get_notifications(bad), malformed("Invalid user ID format"));
    assert_eq!(delete_notification(bad), malformed("Invalid notification ID format"));
    assert_eq!(find_payment(bad), malformed("Invalid payment ID format"));
    assert_eq!(delete_payment(bad.to_string()), malformed("Invalid payment ID format"));
    assert_eq!(find_rating(bad), malformed("Invalid rating ID format"));
    assert_eq!(delete_rating(bad), malformed("Invalid rating ID format"));
    assert_eq!(find_training(bad), malformed("Invalid training ID format"));
    assert_eq!(delete_training(bad), malformed("Invalid training ID format"));
    assert_eq!(review_routes::find_review(bad), malformed("Invalid review ID format"));
    assert_eq!(review_routes::delete_review(bad), malformed("Invalid review ID format"));
    assert_eq!(business_review_routes::find_review(bad), malformed("Invalid review ID format"));
    assert_eq!(business_review_routes::delete_review(bad), malformed("Invalid review ID format"));
    assert_eq!(review_routes::find_review(ONE), malformed("Invalid review ID format"));
    assert_eq!(find_message("507f1f77bcf86cd799439011"), malformed("Invalid message ID format"));
}

#[test]
fn handlers_of_one_command_plan_that_command() {
    let id = Identifier { value: 1 };
    assert_eq!(
        find_message(ONE),
        fetch(
            Collection::Messages,
            Filter::Key { field: KeyField::MessageId, id, encoding: Encoding::Text },
            "Message not found",
            "Failed to find message",
        )
    );
    assert_eq!(
        find_business(ONE),
        fetch(
            Collection::Businesses,
            Filter::Key { field: KeyField::BusinessId, id, encoding: Encoding::Binary },
            "Business not found",
            "Failed to find business",
        )
    );
    assert_eq!(
        delete_training(ONE),
        delete(
            Collection::Trainings,
            Filter::Key { field: KeyField::TrainingId, id, encoding: Encoding::Text },
            Notice::Plain("training deleted successfully"),
            "training not found",
            "Failed to delete training",
        )
    );
    assert_eq!(
        review_routes::delete_review("507f1f77bcf86cd799439011"),
        delete(
            Collection::Reviews,
            Filter::Record { id: RecordId { value: 0x507f1f77bcf86cd799439011 } },
            Notice::Plain("review deleted successfully"),
            "review not found",
            "Failed to delete review",
        )
    );
    assert_eq!(
        business_review_routes::find_review(ONE),
        fetch(
            Collection::Reviews,
            Filter::Key { field: KeyField::BusinessReviewId, id, encoding: Encoding::Text },
            "review not found",
            "Failed to find review",
        )
    );
    assert_eq!(
        delete_profile("alice".to_string()),
        delete(
            Collection::Profiles,
            Filter::Text { field: TextField::Username, value: "alice".to_string() },
            Notice::Plain("Profile deleted successfully"),
            "Error 10001 : Profile does not exist",
            "Failed to delete profile",
        )
    );
    let message = Message::new(Identifier { value: 1 }, Identifier { value: 2 }, "hi".to_string());
    assert_eq!(
        send_message(message.clone()),
        insert(
            Collection::Messages,
            Entity::Message(message),
            "Message sent successfully",
            "Failed to send message",
        )
    );
    let everything = |collection: Collection, failed: &'static str| {
        list(collection, Filter::Everything, 0, None, failed)
    };
    assert_eq!(find_all_messages(), everything(Collection::Messages, "Failed to list messages"));
    assert_eq!(find_all_payments(), everything(Collection::Payments, "Failed to list payments"));
    assert_eq!(find_all_profiles(), everything(Collection::Profiles, "Failed to list profiles"));
    assert_eq!(find_all_ratings(), everything(Collection::Ratings, "Failed to list ratings"));
    assert_eq!(find_all_trainings(), everything(Collection::Trainings, "Failed to list trainings"));
    assert_eq!(
        review_routes::find_all_reviews(),
        everything(Collection::Reviews, "Failed to list reviews")
    );
    assert_eq!(
        business_review_routes::find_all_reviews(),
        everything(Collection::Reviews, "Failed to list reviews")
    );
}

#[test]
fn a_score_out_of_range_is_turned_away() {
    let invalid = |text: &'static str| Plan::Settled(note(Status::Invalid, text));
    for score in [i32::MIN, -1, 0, 6, 100, i32::MAX] {
        assert_eq!(add_rating(rating(score)), invalid("Invalid rating: the score is out of range"));
        assert_eq!(
            update_rating(rating(score)),
            invalid("Invalid rating: the score is out of range")
        );
        assert_eq!(
            review_routes::add_review(review(None, score)),
            invalid("Invalid review: the rating is out of range")
        );
        assert_eq!(
            review_routes::update_review(review(Some(RecordId { value: 1 }), score)),
            invalid("Invalid review: the rating is out of range")
        );
        assert_eq!(
            business_review_routes::add_review(business_review(score)),
            invalid("Invalid review: the score is out of range")
        );
        assert_eq!(
            business_review_routes::update_review(business_review(score)),
            invalid("Invalid review: the score is out of range")
        );
    }
}

#[test]
fn a_score_in_range_is_stored() {
    for score in 1..=5 {
        assert_eq!(
            add_rating(rating(score)),
            insert(
                Collection::Ratings,
                Entity::Rating(rating(score)),
                "rating added successfully",
                "Failed to add rating",
            )
        );
        assert_eq!(
            update_rating(rating(score)),
            update(
                Collection::Ratings,
                Filter::Key {
                    field: KeyField::RatingId,
                    id: Identifier { value: 1 },
                    encoding: Encoding::Text,
                },
                Changes::Fields(Entity::Rating(rating(score))),
                "rating updated successfully",
                "rating not found",
                "Failed to update rating",
            )
        );
        assert_eq!(
            business_review_routes::update_review(business_review(score)),
            update_if_present(
                Collection::Reviews,
                Filter::Key {
                    field: KeyField::BusinessReviewId,
                    id: Identifier { value: 1 },
                    encoding: Encoding::Text,
                },
                Changes::Fields(Entity::BusinessReview(business_review(score))),
                "review updated successfully",
                "Error 10001 : Review does not exist",
                "Failed to update review",
            )
        );
    }
}

#[test]
fn a_review_is_added_without_a_key_and_updated_under_its_key() {
    let key = RecordId { value: 9 };
    assert_eq!(
        review_routes::add_review(review(Some(key), 4)),
        insert(
            Collection::Reviews,
            Entity::Review(review(None, 4)),
            "review added successfully",
            "Failed to add review",
        )
    );
    assert_eq!(
        review_routes::update_review(review(Some(key), 4)),
        update(
            Collection::Reviews,
            Filter::Record { id: key },
            Changes::Fields(Entity::Review(review(Some(key), 4))),
            "review updated successfully",
            "review not found",
            "Failed to update review",
        )
    );
    assert_eq!(
        review_routes::update_review(review(None, 4)),
        answer(Status::NotFound, "review not found")
    );
}

#[test]
fn a_training_that_ends_before_it_starts_is_turned_away() {
    let early = Timestamp { seconds: 100, nanos: 0 };
    let late = Timestamp { seconds: 100, nanos: 1 };
    let invalid = Plan::Settled(note(Status::Invalid, "Invalid training: it ends before it starts"));
    assert_eq!(add_training(training(Some(late), Some(early))), invalid);
    assert_eq!(update_training(training(Some(late), Some(early))), invalid);
    let backwards = training(Some(Timestamp { seconds: 1, nanos: 0 }), Some(Timestamp { seconds: 0, nanos: 9 }));
    assert_eq!(add_training(backwards), invalid);
    for (start, end) in [
        (Some(early), Some(late)),
        (Some(early), Some(early)),
        (None, Some(early)),
        (Some(late), None),
        (None, None),
    ] {
        assert_eq!(
            add_training(training(start, end)),
            insert(
                Collection::Trainings,
                Entity::Training(training(start, end)),
                "training added successfully",
                "Failed to add training",
            )
        );
    }
}

#[test]
fn a_login_plans_a_guard_and_no_work() {
    let plan = login_user(LoginRequest {
        username: "alice".to_string(),
        password: "secret".to_string(),
    });
    let expected = Plan::Scripted(Script {
        guard: Some(Guard {
            collection: Collection::Users,
            filter: Filter::Text { field: TextField::Username, value: "alice".to_string() },
            check: Check::Password {
                plain: "secret".to_string(),
                unknown: "Invalid username or password",
                mismatch: "Invalid username or password",
            },
        }),
        work: Work::Nothing { done: Notice::Plain("Login successful") },
        failed: "Failed to login",
    });
    assert_eq!(plan, expected);
}

#[test]
fn password_plans_keep_the_plaintext_until_the_update_is_due() {
    let rekey = |done: &'static str, missing: &'static str, plain: &str| Work::Rekey {
        collection: Collection::Users,
        filter: Filter::Text { field: TextField::Email, value: "alice@x.com".to_string() },
        plain: plain.to_string(),
        done: Notice::Plain(done),
        missing,
    };
    assert_eq!(
        set_password(user()),
        Plan::Scripted(Script {
            guard: None,
            work: rekey("Password set successfully", "Error 10001 : User does not exist", "secret"),
            failed: "Failed to set password",
        })
    );
    let request = PasswordChangeRequest {
        email: "alice@x.com".to_string(),
        old_password: "secret".to_string(),
        new_password: "fresh".to_string(),
    };
    assert_eq!(
        change_password(request),
        Plan::Scripted(Script {
            guard: Some(Guard {
                collection: Collection::Users,
                filter: Filter::Text { field: TextField::Email, value: "alice@x.com".to_string() },
                check: Check::Password {
                    plain: "secret".to_string(),
                    unknown: "Invalid username",
                    mismatch: "Invalid old password",
                },
            }),
            work: rekey("Password changed successfully", "Invalid username", "fresh"),
            failed: "Failed to change password",
        })
    );
}

#[test]
fn a_rekey_without_a_digest_stores_nothing() {
    let (session, action) = advance_with(Session::Fresh(set_password(user())), Event::Begin, supplies());
    assert_eq!(session, Session::Closed);
    assert_eq!(action, Action::Reply(note(Status::StoreFailure, "Failed to set password")));
}

#[test]
fn a_rekey_with_a_digest_stores_the_digest_at_the_time_supplied() {
    let given = Supplies { now: LATER, digest: Some("digest".to_string()) };
    let (session, action) = advance_with(Session::Fresh(set_password(user())), Event::Begin, given);
    assert_eq!(
        action,
        Action::Ask(Command::UpdateOne {
            collection: Collection::Users,
            filter: Filter::Text { field: TextField::Email, value: "alice@x.com".to_string() },
            changes: Changes::Password("digest".to_string()),
            at: LATER,
        })
    );
    assert_eq!(
        session,
        Session::Working {
            expect: Expect::Updated {
                done: Notice::Plain("Password set successfully"),
                missing: "Error 10001 : User does not exist",
            },
            failed: "Failed to set password",
        }
    );
}

#[test]
fn an_update_of_a_user_carries_the_digest_in_place_of_the_password() {
    let plan = update_user_with(user(), Some("digest".to_string()));
    let mut stored = user();
    stored.password = "digest".to_string();
    assert_eq!(
        plan,
        update(
            Collection::Users,
            Filter::Key {
                field: KeyField::UserId,
                id: Identifier { value: 1 },
                encoding: Encoding::Text,
            },
            Changes::Fields(Entity::User(stored)),
            "User updated successfully",
            "Error 10001 : User does not exist",
            "Failed to update user",
        )
    );
    assert_eq!(
        update_user_with(user(), None),
        answer(Status::StoreFailure, "Failed to update user")
    );
}

#[test]
fn a_profile_update_is_addressed_by_name() {
    let profile = Profile::new(Identifier { value: 1 }, "a@x.com".to_string(), "alice".to_string());
    assert_eq!(
        update_profile(profile.clone()),
        update(
            Collection::Profiles,
            Filter::Text { field: TextField::Username, value: "alice".to_string() },
            Changes::Fields(Entity::Profile(profile)),
            "profile updated successfully",
            "Error 10001 : Profile does not exist",
            "Failed to update profile",
        )
    );
}

#[test]
fn a_settled_plan_replies_at_once() {
    let plan = answer(Status::Conflict, "taken");
    let (session, action) = advance(Session::Fresh(plan), Event::Begin);
    assert_eq!(session, Session::Closed);
    assert_eq!(action, Action::Reply(note(Status::Conflict, "taken")));
}

#[test]
fn a_guard_sits_before_the_work_and_leaves_a_settled_plan_alone() {
    let first = Guard {
        collection: Collection::Users,
        filter: Filter::Everything,
        check: Check::Present { missing: "missing" },
    };
    let plan = guard(first.clone(), list(Collection::Businesses, Filter::Everything, 0, None, "failed"));
    assert_eq!(
        plan,
        Plan::Scripted(Script {
            guard: Some(first.clone()),
            work: Work::List {
                collection: Collection::Businesses,
                filter: Filter::Everything,
                skip: 0,
                limit: None,
            },
            failed: "failed",
        })
    );
    assert_eq!(guard(first, answer(Status::Invalid, "no")), answer(Status::Invalid, "no"));
}

#[test]
fn a_creation_asks_first_and_inserts_only_into_the_gap() {
    let entity = Entity::Rating(rating(3));
    let name = Filter::Text { field: TextField::Name, value: "acme".to_string() };
    let plan = || create(Collection::Businesses, name.clone(), entity.clone(), None, "taken", "done", "failed");
    let (guarding, asked) = advance_with(Session::Fresh(plan()), Event::Begin, supplies());
    assert_eq!(
        asked,
        Action::Ask(Command::FindOne { collection: Collection::Businesses, filter: name.clone() })
    );
    let (closed, reply) = advance_with(
        guarding.clone(),
        Event::Answer(Outcome::Found(Some(entity.clone()))),
        supplies(),
    );
    assert_eq!(closed, Session::Closed);
    assert_eq!(reply, Action::Reply(note(Status::Conflict, "taken")));
    let (working, insert) =
        advance_with(guarding.clone(), Event::Answer(Outcome::Found(None)), supplies());
    assert_eq!(
        insert,
        Action::Ask(Command::InsertOne { collection: Collection::Businesses, entity: entity.clone() })
    );
    let (closed, done) = advance_with(working.clone(), Event::Answer(Outcome::Inserted), supplies());
    assert_eq!(closed, Session::Closed);
    assert_eq!(done, Action::Reply(note(Status::Success, "done")));
    let (_, failed) = advance_with(working, Event::Answer(Outcome::Failed), supplies());
    assert_eq!(failed, Action::Reply(note(Status::StoreFailure, "failed")));
    let (_, failed) = advance_with(guarding, Event::Answer(Outcome::Failed), supplies());
    assert_eq!(failed, Action::Reply(note(Status::StoreFailure, "failed")));
}

#[test]
fn an_update_that_matched_nothing_is_not_a_success() {
    let plan = || update(Collection::Users, Filter::Everything, Changes::Confirm, "done", "missing", "failed");
    let (working, asked) = advance_with(Session::Fresh(plan()), Event::Begin, supplies());
    assert_eq!(
        asked,
        Action::Ask(Command::UpdateOne {
            collection: Collection::Users,
            filter: Filter::Everything,
            changes: Changes::Confirm,
            at: LATER,
        })
    );
    let (_, none) = advance_with(working.clone(), Event::Answer(Outcome::Updated { matched: 0 }), supplies());
    assert_eq!(none, Action::Reply(note(Status::NotFound, "missing")));
    let (_, one) = advance_with(working.clone(), Event::Answer(Outcome::Updated { matched: 1 }), supplies());
    assert_eq!(one, Action::Reply(note(Status::Success, "done")));
    let (_, odd) = advance_with(working, Event::Answer(Outcome::Deleted { count: 1 }), supplies());
    assert_eq!(odd, Action::Reply(note(Status::StoreFailure, "failed")));
}

#[test]
fn a_delete_that_matched_nothing_is_not_a_success() {
    let plan = || delete(Collection::Users, Filter::Everything, Notice::Plain("done"), "missing", "failed");
    let (working, asked) = advance_with(Session::Fresh(plan()), Event::Begin, supplies());
    assert_eq!(
        asked,
        Action::Ask(Command::DeleteOne { collection: Collection::Users, filter: Filter::Everything })
    );
    let (_, none) = advance_with(working.clone(), Event::Answer(Outcome::Deleted { count: 0 }), supplies());
    assert_eq!(none, Action::Reply(note(Status::NotFound, "missing")));
    let (_, one) = advance_with(working, Event::Answer(Outcome::Deleted { count: 1 }), supplies());
    assert_eq!(one, Action::Reply(note(Status::Success, "done")));
}

#[test]
fn a_fetch_replies_with_the_entity_or_with_not_found() {
    let plan = || fetch(Collection::Ratings, Filter::Everything, "missing", "failed");
    let (working, _) = advance_with(Session::Fresh(plan()), Event::Begin, supplies());
    let (_, found) = advance_with(
        working.clone(),
        Event::Answer(Outcome::Found(Some(Entity::Rating(rating(2))))),
        supplies(),
    );
    assert_eq!(
        found,
        Action::Reply(Response { status: Status::Success, body: Body::One(Entity::Rating(rating(2))) })
    );
    let (_, none) = advance_with(working.clone(), Event::Answer(Outcome::Found(None)), supplies());
    assert_eq!(none, Action::Reply(note(Status::NotFound, "missing")));
    let (_, failed) = advance_with(working, Event::Answer(Outcome::Failed), supplies());
    assert_eq!(failed, Action::Reply(note(Status::StoreFailure, "failed")));
}

#[test]
fn a_listing_is_handed_on_as_the_store_gave_it() {
    let plan = || list(Collection::Ratings, Filter::Everything, 3, Some(2), "failed");
    let (working, asked) = advance_with(Session::Fresh(plan()), Event::Begin, supplies());
    assert_eq!(
        asked,
        Action::Ask(Command::FindMany {
            collection: Collection::Ratings,
            filter: Filter::Everything,
            skip: 3,
            limit: Some(2),
        })
    );
    let entities = vec![Entity::Rating(rating(1)), Entity::Rating(rating(5))];
    let (_, listed) =
        advance_with(working, Event::Answer(Outcome::Listed(entities.clone())), supplies());
    assert_eq!(
        listed,
        Action::Reply(Response { status: Status::Success, body: Body::Many(entities) })
    );
}

#[test]
fn a_password_guard_tells_unknown_from_refused_from_unreadable() {
    let digest = "$2b$04$EGdrhbKUv8Oc9vGiXX0HQOxSg445d458Muh7DAHskb6QbtCvdxcie";
    let guarding = |plain: &str| Session::Guarding {
        check: Check::Password { plain: plain.to_string(), unknown: "unknown", mismatch: "mismatch" },
        work: Work::Nothing { done: Notice::Plain("done") },
        failed: "failed",
    };
    let found = |password: &str| {
        let mut stored = user();
        stored.password = password.to_string();
        Event::Answer(Outcome::Found(Some(Entity::User(stored))))
    };
    let reply = |session: Session, event: Event| advance_with(session, event, supplies()).1;
    assert_eq!(
        reply(guarding("correctbatteryhorsestapler"), found(digest)),
        Action::Reply(note(Status::Success, "done"))
    );
    assert_eq!(
        reply(guarding("wrong"), found(digest)),
        Action::Reply(note(Status::Unauthorized, "mismatch"))
    );
    assert_eq!(
        reply(guarding("wrong"), Event::Answer(Outcome::Found(None))),
        Action::Reply(note(Status::Unauthorized, "unknown"))
    );
    assert_eq!(
        reply(guarding("secret"), found("secret")),
        Action::Reply(note(Status::StoreFailure, "failed"))
    );
    assert_eq!(
        reply(guarding("secret"), Event::Answer(Outcome::Found(Some(Entity::Rating(rating(1)))))),
        Action::Reply(note(Status::StoreFailure, "failed"))
    );
    assert_eq!(
        reply(guarding("secret"), Event::Answer(Outcome::Inserted)),
        Action::Reply(note(Status::StoreFailure, "failed"))
    );
}

#[test]
fn what_comes_out_of_turn_closes_the_session() {
    let out_of_turn = Action::Reply(note(Status::StoreFailure, OUT_OF_TURN));
    let plan = || fetch(Collection::Ratings, Filter::Everything, "missing", "failed");
    let (session, action) = advance(Session::Fresh(plan()), Event::Answer(Outcome::Inserted));
    assert_eq!(session, Session::Closed);
    assert_eq!(action, out_of_turn);
    let (session, action) = advance(Session::Closed, Event::Begin);
    assert_eq!(session, Session::Closed);
    assert_eq!(action, out_of_turn);
    let (_, action) = advance(Session::Closed, Event::Answer(Outcome::Failed));
    assert_eq!(action, out_of_turn);
    let (working, _) = advance(Session::Fresh(plan()), Event::Begin);
    let (session, action) = advance(working, Event::Begin);
    assert_eq!(session, Session::Closed);
    assert_eq!(action, out_of_turn);
    assert_eq!(OUT_OF_TURN, "Unexpected answer from the store");
}

#[test]
fn a_write_that_the_store_refuses_as_a_duplicate_ends_in_conflict() {
    let entity = Entity::Rating(rating(3));
    let name = Filter::Text { field: TextField::Name, value: "acme".to_string() };
    let guarded = create(Collection::Businesses, name, entity.clone(), None, "taken", "done", "failed");
    let (guarding, _) = advance_with(Session::Fresh(guarded), Event::Begin, supplies());
    let (working, _) = advance_with(guarding, Event::Answer(Outcome::Found(None)), supplies());
    assert_eq!(
        working,
        Session::Working {
            expect: Expect::Inserted { sequel: None, done: Notice::Plain("done"), taken: "taken" },
            failed: "failed",
        }
    );
    let (closed, reply) = advance_with(working, Event::Answer(Outcome::Duplicate), supplies());
    assert_eq!(closed, Session::Closed);
    assert_eq!(reply, Action::Reply(note(Status::Conflict, "taken")));
    let plain = insert(Collection::Businesses, entity, "done", "failed");
    let (working, _) = advance_with(Session::Fresh(plain), Event::Begin, supplies());
    let (_, reply) = advance_with(working, Event::Answer(Outcome::Duplicate), supplies());
    assert_eq!(reply, Action::Reply(note(Status::Conflict, TAKEN)));
    assert_eq!(TAKEN, "Error 10001 : Already exists");
    let change = update(Collection::Users, Filter::Everything, Changes::Confirm, "done", "missing", "failed");
    let (working, _) = advance_with(Session::Fresh(change), Event::Begin, supplies());
    let (_, reply) = advance_with(working, Event::Answer(Outcome::Duplicate), supplies());
    assert_eq!(reply, Action::Reply(note(Status::Conflict, TAKEN)));
    let gone = delete(Collection::Users, Filter::Everything, Notice::Plain("done"), "missing", "failed");
    let (working, _) = advance_with(Session::Fresh(gone), Event::Begin, supplies());
    let (_, reply) = advance_with(working, Event::Answer(Outcome::Duplicate), supplies());
    assert_eq!(reply, Action::Reply(note(Status::StoreFailure, "failed")));
}
