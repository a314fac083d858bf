//! Notifications to a user. A notification starts unconfirmed; confirming
//! it is the only change it knows, and there is no way back.
use vstd::prelude::*;
use crate::clock::Timestamp;
use crate::identity::Identifier;

verus! {

#[derive(Clone, Copy, Debug, PartialEq, Eq, Structural, Hash)]
pub enum NotificationType {
    SomeoneSentMessage,
    SomeoneLikedPost,
    SomeoneViewedProfile,
}

impl Default for NotificationType {
    fn default() -> (kind: NotificationType)
        ensures
            kind == NotificationType::SomeoneSentMessage,
    {
        NotificationType::SomeoneSentMessage
    }
}

#[derive(Clone, Debug, PartialEq, Eq, Hash)]
pub struct Notification {
    pub notification_type: NotificationType,
    pub user_id: Identifier,
    pub message: String,
    pub confirmed: bool,
    pub created_at: Timestamp,
    pub updated_at: Timestamp,
}

impl Default for Notification {
    fn default() -> (notification: Notification)
        ensures
            notification.notification_type == NotificationType::SomeoneSentMessage,
            notification.user_id == (Identifier { value: 0 }),
            notification.message@ == Seq::<char>::empty(),
            !notification.confirmed,
            notification.created_at == (Timestamp { seconds: 0, nanos: 0 }),
            notification.updated_at == notification.created_at,
    {
        let epoch = Timestamp { seconds: 0, nanos: 0 };
        Notification {
            notification_type: NotificationType::SomeoneSentMessage,
            user_id: Identifier { value: 0 },
            message: String::new(),
            confirmed: false,
            created_at: epoch,
            updated_at: epoch,
        }
    }
}

impl Notification {
    /// An unconfirmed notification, created now.
    pub fn new(
        notification_type: NotificationType,
        user_id: Identifier,
        message: String,
    ) -> (notification: Notification)
        ensures
            notification == (Notification {
                notification_type,
                user_id,
                message,
                confirmed: false,
                created_at: notification.created_at,
                updated_at: notification.created_at,
            }),
    {
        let now = Timestamp::now();
        Notification {
            notification_type,
            user_id,
            message,
            confirmed: false,
            created_at: now,
            updated_at: now,
        }
    }

    /// The notification after it was confirmed at `at`: confirmed, and
    /// otherwise untouched if it was confirmed before.
    pub open spec fn confirmed_at(self, at: Timestamp) -> Notification {
        if self.confirmed {
            self
        } else {
            Notification { confirmed: true, updated_at: at, ..self }
        }
    }

    /// Confirms the notification. Confirming a confirmed one changes nothing.
    pub fn confirm(self, at: Timestamp) -> (after: Notification)
        ensures
            after == self.confirmed_at(at),
            after.confirmed,
    {
        if self.confirmed {
            self
        } else {
            Notification { confirmed: true, updated_at: at, ..self }
        }
    }
}

} // verus!
