use cucura::clock::Timestamp;
use cucura::identity::Identifier;
use cucura::models::business::Business;
use cucura::models::business_review::BusinessReview;
use cucura::models::message::Message;
use cucura::models::notification::{Notification, NotificationType};
use cucura::models::payment::Payment;
use cucura::models::payment_type::PaymentType;
use cucura::models::profile::Profile;
use cucura::models::rating::{is_score_in_range, Rating, HIGHEST_SCORE, LOWEST_SCORE};
use cucura::models::review::Review;
use cucura::models::training::Training;
use cucura::models::user::{NewUser, User};
use cucura::models::Entity;
use cucura::store::{KeyField, TextField};

fn text(value: &str) -> String {
    value.to_string()
}

#[test]
fn a_new_user_request_holds_what_it_was_given() {
    let request = NewUser::new(text("alice"), text("alice@x.com"), text("secret"), text("Founder"));
    assert_eq!(
        request,
        NewUser {
            username: text("alice"),
            email: text("alice@x.com"),
            password: text("secret"),
            user_type: text("Partner").replace("Partner", "Founder"),
        }
    );
}

#[test]
fn a_user_made_from_a_request_repeats_its_fields() {
    let request = NewUser::new(text("alice"), text("alice@x.com"), text("digest"), text("Founder"));
    let user = request.to_user();
    assert_eq!(user.username, "alice");
    assert_eq!(user.email, "alice@x.com");
    assert_eq!(user.password, "digest");
    assert_eq!(user.user_type, "Founder");
    assert_eq!(user.created_at, user.updated_at);
    let other = request.to_user();
    assert_ne!(user.user_id, other.user_id);
}

#[test]
fn a_new_user_has_its_fields_and_a_fresh_identifier() {
    let user = User::new(text("bob"), text("bob@x.com"), text("digest"), text("Partner"));
    let twin = User::new(text("bob"), text("bob@x.com"), text("digest"), text("Partner"));
    assert_eq!(user.username, "bob");
    assert_eq!(user.email, "bob@x.com");
    assert_eq!(user.password, "digest");
    assert_eq!(user.user_type, "Partner");
    assert_eq!(user.created_at, user.updated_at);
    assert!(user.created_at.seconds > 1_600_000_000);
    assert_ne!(user.user_id, twin.user_id);
}

#[test]
fn a_new_profile_is_bare_and_a_detailed_one_is_filled() {
    let user = Identifier { value: 7 };
    let bare = Profile::new(user, text("a@x.com"), text("alice"));
    assert_eq!(bare.user_id, user);
    assert_eq!(bare.email, "a@x.com");
    assert_eq!(bare.username, "alice");
    assert_eq!(bare.bio, None);
    assert_eq!(bare.profile_type, None);
    assert_eq!(bare.business, None);
    assert_eq!(bare.interests, None);
    assert_eq!(bare.created_at, bare.updated_at);
    let full = Profile::new_with_details(
        user,
        text("a@x.com"),
        text("alice"),
        text("bio"),
        text("Founder"),
        text("acme"),
        vec![text("chess"), text("go")],
    );
    assert_eq!(full.user_id, user);
    assert_eq!(full.email, "a@x.com");
    assert_eq!(full.username, "alice");
    assert_eq!(full.bio, Some(text("bio")));
    assert_eq!(full.profile_type, Some(text("Founder")));
    assert_eq!(full.business, Some(text("acme")));
    assert_eq!(full.interests, Some(vec![text("chess"), text("go")]));
    assert_ne!(full.profile_id, bare.profile_id);
}

#[test]
fn a_new_business_leaves_the_details_open() {
    let owners = Some(vec![Identifier { value: 1 }, Identifier { value: 2 }]);
    let business = Business::new(
        owners.clone(),
        text("acme"),
        text("anvils"),
        text("wile"),
        text("tools"),
        text("772-456-7801"),
        text("Zimbabwe"),
    );
    assert_eq!(business.user_ids, owners);
    assert_eq!(business.name, "acme");
    assert_eq!(business.description, "anvils");
    assert_eq!(business.founder, "wile");
    assert_eq!(business.industry, "tools");
    assert_eq!(business.phone, "772-456-7801");
    assert_eq!(business.country, "Zimbabwe");
    assert_eq!(business.logo, None);
    assert_eq!(business.pictures, None);
    assert_eq!(business.address, None);
    assert_eq!(business.city, None);
    assert_eq!(business.region, None);
    assert_eq!(business.website, None);
    assert_eq!(business.contact_email, None);
    assert_eq!(business.created_at, business.updated_at);
    assert!(business.is_owned_by(Identifier { value: 1 }));
    assert!(business.is_owned_by(Identifier { value: 2 }));
    assert!(!business.is_owned_by(Identifier { value: 3 }));
    let nobody = Business::new(None, text("a"), text("b"), text("c"), text("d"), text("e"), text("f"));
    assert!(!nobody.is_owned_by(Identifier { value: 1 }));
}

#[test]
fn a_new_message_has_its_parties_and_content() {
    let message = Message::new(Identifier { value: 1 }, Identifier { value: 2 }, text("hello"));
    assert_eq!(message.sender, Identifier { value: 1 });
    assert_eq!(message.receiver, Identifier { value: 2 });
    assert_eq!(message.content, "hello");
    assert_eq!(message.created_at, message.updated_at);
}

#[test]
fn a_new_notification_is_unconfirmed() {
    let notification =
        Notification::new(NotificationType::SomeoneViewedProfile, Identifier { value: 3 }, text("seen"));
    assert_eq!(notification.notification_type, NotificationType::SomeoneViewedProfile);
    assert_eq!(notification.user_id, Identifier { value: 3 });
    assert_eq!(notification.message, "seen");
    assert!(!notification.confirmed);
    assert_eq!(notification.created_at, notification.updated_at);
}

#[test]
fn the_default_notification_is_an_unconfirmed_message_notice_at_the_epoch() {
    assert_eq!(NotificationType::default(), NotificationType::SomeoneSentMessage);
    let notification = Notification::default();
    assert_eq!(
        notification,
        Notification {
            notification_type: NotificationType::SomeoneSentMessage,
            user_id: Identifier { value: 0 },
            message: String::new(),
            confirmed: false,
            created_at: Timestamp { seconds: 0, nanos: 0 },
            updated_at: Timestamp { seconds: 0, nanos: 0 },
        }
    );
}

#[test]
fn confirming_sets_the_flag_once_and_then_changes_nothing() {
    let at = Timestamp { seconds: 10, nanos: 0 };
    let later = Timestamp { seconds: 20, nanos: 0 };
    let fresh = Notification::default();
    let once = fresh.clone().confirm(at);
    assert_eq!(once, Notification { confirmed: true, updated_at: at, ..fresh });
    let twice = once.clone().confirm(later);
    assert_eq!(twice, once);
}

#[test]
fn a_new_payment_has_its_parties_amount_and_status() {
    let kind = PaymentType::new(text("CASH"));
    assert_eq!(kind.payment_type, "CASH");
    let payment = Payment::new(
        Identifier { value: 1 },
        Identifier { value: 2 },
        kind.clone(),
        Some(text("anvil")),
        1999,
        text("USD"),
        text("COMPLETED"),
    );
    assert_eq!(payment.purchaser_id, Identifier { value: 1 });
    assert_eq!(payment.seller_id, Identifier { value: 2 });
    assert_eq!(payment.payment_type, kind);
    assert_eq!(payment.description, Some(text("anvil")));
    assert_eq!(payment.amount, 1999);
    assert_eq!(payment.currency, "USD");
    assert_eq!(payment.status, "COMPLETED");
    assert_eq!(payment.created_at, payment.updated_at);
    assert_ne!(PaymentType::new(text("CASH")).payment_type_id, kind.payment_type_id);
}

#[test]
fn a_new_rating_has_its_score_and_no_description() {
    let rating = Rating::new(4);
    assert_eq!(rating.score, 4);
    assert_eq!(rating.description, None);
    assert!(rating.is_well_formed());
    assert!(!Rating::new(0).is_well_formed());
    assert!(!Rating::new(6).is_well_formed());
    assert_eq!(LOWEST_SCORE, 1);
    assert_eq!(HIGHEST_SCORE, 5);
    assert!(is_score_in_range(1));
    assert!(is_score_in_range(5));
    assert!(!is_score_in_range(0));
    assert!(!is_score_in_range(-3));
    assert!(!is_score_in_range(6));
}

#[test]
fn a_new_business_review_keeps_the_identifier_it_was_given() {
    let review = BusinessReview::new(
        Identifier { value: 1 },
        Identifier { value: 2 },
        Identifier { value: 3 },
        Rating { rating_id: Identifier { value: 4 }, score: 5, description: Some(text("fine")) },
        Some(text("good")),
        None,
    );
    assert_eq!(review.business_review_id, Identifier { value: 1 });
    assert_eq!(review.reviewer_id, Identifier { value: 2 });
    assert_eq!(review.business_id, Identifier { value: 3 });
    assert_eq!(review.rating.score, 5);
    assert_eq!(review.comment, Some(text("good")));
    assert_eq!(review.review_link, None);
    assert_eq!(review.created_at, review.updated_at);
    assert!(review.is_well_formed());
    let poor = BusinessReview { rating: Rating::new(9), ..review };
    assert!(!poor.is_well_formed());
}

#[test]
fn a_product_review_is_well_formed_with_a_rating_in_range() {
    let review = |rating: i32| Review {
        id: None,
        user_id: text("user"),
        product_id: text("product"),
        rating,
        comment: None,
    };
    assert!(review(1).is_well_formed());
    assert!(review(5).is_well_formed());
    assert!(!review(0).is_well_formed());
    assert!(!review(6).is_well_formed());
    assert!(Entity::Review(review(3)).is_well_formed());
    assert!(!Entity::Review(review(-1)).is_well_formed());
}

#[test]
fn a_new_training_has_its_dates_and_is_checked_for_their_order() {
    let start = Timestamp { seconds: 100, nanos: 500 };
    let end = Timestamp { seconds: 200, nanos: 0 };
    let training = Training::new(
        Identifier { value: 1 },
        text("title"),
        text("description"),
        Some(start),
        Some(end),
        text("3 hours"),
    );
    assert_eq!(training.trainer_id, Identifier { value: 1 });
    assert_eq!(training.title, "title");
    assert_eq!(training.description, "description");
    assert_eq!(training.start_date, Some(start));
    assert_eq!(training.end_date, Some(end));
    assert_eq!(training.duration, "3 hours");
    assert_eq!(training.created_at, training.updated_at);
    assert!(training.is_well_formed());
    let backwards = Training { start_date: Some(end), end_date: Some(start), ..training.clone() };
    assert!(!backwards.is_well_formed());
    assert!(!Entity::Training(backwards).is_well_formed());
    let open = Training { end_date: None, ..training };
    assert!(open.is_well_formed());
}

#[test]
fn timestamps_are_ordered_by_seconds_and_then_by_nanoseconds() {
    let at = |seconds: i64, nanos: u32| Timestamp { seconds, nanos };
    assert!(at(1, 0).is_not_after(&at(1, 0)));
    assert!(at(1, 0).is_not_after(&at(1, 1)));
    assert!(!at(1, 1).is_not_after(&at(1, 0)));
    assert!(at(1, 999).is_not_after(&at(2, 0)));
    assert!(!at(2, 0).is_not_after(&at(1, 999)));
    assert!(at(-5, 7).is_not_after(&at(0, 0)));
    assert!(at(i64::MIN, 0).is_not_after(&at(i64::MAX, u32::MAX)));
    let now = Timestamp::now();
    assert!(at(1_600_000_000, 0).is_not_after(&now));
    assert!(now.is_not_after(&Timestamp::now()));
}

#[test]
fn entities_show_their_keys_and_texts() {
    let user = Entity::User(User {
        user_id: Identifier { value: 1 },
        username: text("alice"),
        email: text("a@x.com"),
        password: text("digest"),
        user_type: text("Founder"),
        created_at: Timestamp { seconds: 0, nanos: 0 },
        updated_at: Timestamp { seconds: 0, nanos: 0 },
    });
    assert_eq!(user.key_of(KeyField::UserId), Some(Identifier { value: 1 }));
    assert_eq!(user.key_of(KeyField::ProfileId), None);
    assert!(user.has_text(TextField::Username, &text("alice")));
    assert!(user.has_text(TextField::Email, &text("a@x.com")));
    assert!(!user.has_text(TextField::Username, &text("Alice")));
    assert!(!user.has_text(TextField::Name, &text("alice")));
    let profile = Entity::Profile(Profile::new(Identifier { value: 1 }, text("a@x.com"), text("alice")));
    assert_eq!(profile.key_of(KeyField::UserId), Some(Identifier { value: 1 }));
    assert!(profile.has_text(TextField::Email, &text("a@x.com")));
    let rating = Entity::Rating(Rating { rating_id: Identifier { value: 5 }, score: 2, description: None });
    assert_eq!(rating.key_of(KeyField::RatingId), Some(Identifier { value: 5 }));
    assert_eq!(rating.key_of(KeyField::UserId), None);
    assert!(!rating.has_text(TextField::Username, &text("")));
    assert!(user.is_well_formed());
}

#[test]
fn the_clock_gives_a_time_after_1970_with_less_than_a_second_of_nanoseconds() {
    for _ in 0..200 {
        let now = Timestamp::now();
        assert!(now.seconds >= 0);
        assert!(now.nanos < 1_000_000_000);
    }
    let user = User::new(text("a"), text("b"), text("c"), text("d"));
    assert!(user.created_at.seconds >= 0);
    assert!(user.created_at.nanos < 1_000_000_000);
}
