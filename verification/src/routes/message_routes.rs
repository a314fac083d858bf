//! Messages and notifications. A message is sent, found and deleted, never
//! changed. A notification is created unconfirmed and can only be confirmed.
use vstd::prelude::*;
use crate::identity::{decoded, record_decoded, Identifier, RecordId};
use crate::models::message::Message;
use crate::models::notification::Notification;
use crate::models::Entity;
use crate::plan::{Notice, Plan, Status};
use crate::recipe::{
    answer, answering, delete, deleting, fetch, fetching, insert, inserting, key, keyed, list,
    listing, update, updating,
};
use crate::store::{Changes, Collection, Filter, KeyField};

verus! {

pub const MESSAGE_SENT: &'static str = "Message sent successfully";

pub const MESSAGE_NOT_SENT: &'static str = "Failed to send message";

pub const MESSAGE_ID_MALFORMED: &'static str = "Invalid message ID format";

pub const MESSAGE_NOT_FOUND: &'static str = "Message not found";

pub const MESSAGE_FIND_FAILED: &'static str = "Failed to find message";

pub const MESSAGE_DELETED: &'static str = "Message deleted successfully";

pub const MESSAGE_NOT_DELETED: &'static str = "Failed to delete message";

pub const MESSAGES_NOT_LISTED: &'static str = "Failed to list messages";

pub const NOTIFICATION_CREATED: &'static str = "Notification created successfully";

pub const NOTIFICATION_NOT_CREATED: &'static str = "Failed to create notification";

pub const NOTIFICATION_ID_MALFORMED: &'static str = "Invalid notification ID format";

pub const NOTIFICATION_NOT_FOUND: &'static str = "Notification not found";

pub const NOTIFICATION_CONFIRMED: &'static str = "Notification confirmed successfully";

pub const NOTIFICATION_NOT_CONFIRMED: &'static str = "Failed to confirm notification";

pub const NOTIFICATION_DELETED: &'static str = "Notification deleted successfully";

pub const NOTIFICATION_NOT_DELETED: &'static str = "Failed to delete notification";

pub const NOTIFICATIONS_NOT_LISTED: &'static str = "Failed to get notifications";

pub const RECIPIENT_ID_MALFORMED: &'static str = "Invalid user ID format";

pub fn send_message(message: Message) -> (plan: Plan)
    ensures
        plan == inserting(
            Collection::Messages,
            Entity::Message(message),
            MESSAGE_SENT,
            MESSAGE_NOT_SENT,
        ),
{
    insert(Collection::Messages, Entity::Message(message), MESSAGE_SENT, MESSAGE_NOT_SENT)
}

/// Finds a message by its identifier, given as text.
pub fn find_message(id: &str) -> (plan: Plan)
    ensures
        plan == (match decoded(id@) {
            Ok(id) => fetching(
                Collection::Messages,
                keyed(Collection::Messages, KeyField::MessageId, id),
                MESSAGE_NOT_FOUND,
                MESSAGE_FIND_FAILED,
            ),
            Err(_) => answering(Status::MalformedIdentifier, MESSAGE_ID_MALFORMED),
        }),
{
    match Identifier::decode(id) {
        Ok(id) => fetch(
            Collection::Messages,
            key(Collection::Messages, KeyField::MessageId, id),
            MESSAGE_NOT_FOUND,
            MESSAGE_FIND_FAILED,
        ),
        Err(_) => answer(Status::MalformedIdentifier, MESSAGE_ID_MALFORMED),
    }
}

/// Deletes a message by its identifier, given as text.
pub fn delete_message(id: &str) -> (plan: Plan)
    ensures
        plan == (match decoded(id@) {
            Ok(id) => deleting(
                Collection::Messages,
                keyed(Collection::Messages, KeyField::MessageId, id),
                Notice::Plain(MESSAGE_DELETED),
                MESSAGE_NOT_FOUND,
                MESSAGE_NOT_DELETED,
            ),
            Err(_) => answering(Status::MalformedIdentifier, MESSAGE_ID_MALFORMED),
        }),
{
    match Identifier::decode(id) {
        Ok(id) => delete(
            Collection::Messages,
            key(Collection::Messages, KeyField::MessageId, id),
            Notice::Plain(MESSAGE_DELETED),
            MESSAGE_NOT_FOUND,
            MESSAGE_NOT_DELETED,
        ),
        Err(_) => answer(Status::MalformedIdentifier, MESSAGE_ID_MALFORMED),
    }
}

pub fn find_all_messages() -> (plan: Plan)
    ensures
        plan == listing(Collection::Messages, Filter::Everything, 0, None, MESSAGES_NOT_LISTED),
{
    list(Collection::Messages, Filter::Everything, 0, None, MESSAGES_NOT_LISTED)
}

/// Creates a notification. Whatever the request says, it starts unconfirmed.
pub fn create_notification(notification: Notification) -> (plan: Plan)
    ensures
        plan == inserting(
            Collection::Notifications,
            Entity::Notification(Notification { confirmed: false, ..notification }),
            NOTIFICATION_CREATED,
            NOTIFICATION_NOT_CREATED,
        ),
{
    insert(
        Collection::Notifications,
        Entity::Notification(Notification { confirmed: false, ..notification }),
        NOTIFICATION_CREATED,
        NOTIFICATION_NOT_CREATED,
    )
}

/// Lists the notifications to a user, whose identifier is given as text.
pub fn get_notifications(user_id: &str) -> (plan: Plan)
    ensures
        plan == (match decoded(user_id@) {
            Ok(id) => listing(
                Collection::Notifications,
                keyed(Collection::Notifications, KeyField::UserId, id),
                0,
                None,
                NOTIFICATIONS_NOT_LISTED,
            ),
            Err(_) => answering(Status::MalformedIdentifier, RECIPIENT_ID_MALFORMED),
        }),
{
    match Identifier::decode(user_id) {
        Ok(id) => list(
            Collection::Notifications,
            key(Collection::Notifications, KeyField::UserId, id),
            0,
            None,
            NOTIFICATIONS_NOT_LISTED,
        ),
        Err(_) => answer(Status::MalformedIdentifier, RECIPIENT_ID_MALFORMED),
    }
}

/// Confirms the notification that the store keeps under a key, given as text.
pub fn confirm_notification(id: &str) -> (plan: Plan)
    ensures
        plan == (match record_decoded(id@) {
            Ok(id) => updating(
                Collection::Notifications,
                Filter::Record { id },
                Changes::Confirm,
                NOTIFICATION_CONFIRMED,
                NOTIFICATION_NOT_FOUND,
                NOTIFICATION_NOT_CONFIRMED,
            ),
            Err(_) => answering(Status::MalformedIdentifier, NOTIFICATION_ID_MALFORMED),
        }),
{
    match RecordId::decode(id) {
        Ok(id) => update(
            Collection::Notifications,
            Filter::Record { id },
            Changes::Confirm,
            NOTIFICATION_CONFIRMED,
            NOTIFICATION_NOT_FOUND,
            NOTIFICATION_NOT_CONFIRMED,
        ),
        Err(_) => answer(Status::MalformedIdentifier, NOTIFICATION_ID_MALFORMED),
    }
}

/// Deletes the notification that the store keeps under a key, given as text.
pub fn delete_notification(id: &str) -> (plan: Plan)
    ensures
        plan == (match record_decoded(id@) {
            Ok(id) => deleting(
                Collection::Notifications,
                Filter::Record { id },
                Notice::Plain(NOTIFICATION_DELETED),
                NOTIFICATION_NOT_FOUND,
                NOTIFICATION_NOT_DELETED,
            ),
            Err(_) => answering(Status::MalformedIdentifier, NOTIFICATION_ID_MALFORMED),
        }),
{
    match RecordId::decode(id) {
        Ok(id) => delete(
            Collection::Notifications,
            Filter::Record { id },
            Notice::Plain(NOTIFICATION_DELETED),
            NOTIFICATION_NOT_FOUND,
            NOTIFICATION_NOT_DELETED,
        ),
        Err(_) => answer(Status::MalformedIdentifier, NOTIFICATION_ID_MALFORMED),
    }
}

} // verus!
