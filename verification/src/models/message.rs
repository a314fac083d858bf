//! Messages from one user to another. A message is never changed once sent.
use vstd::prelude::*;
use crate::clock::Timestamp;
use crate::identity::Identifier;

verus! {

#[derive(Clone, Debug, PartialEq, Eq)]
pub struct Message {
    pub message_id: Identifier,
    pub sender: Identifier,
    pub receiver: Identifier,
    pub content: String,
    pub created_at: Timestamp,
    pub updated_at: Timestamp,
}

impl Message {
    /// A message with a new identifier, created now.
    pub fn new(sender: Identifier, receiver: Identifier, content: String) -> (message: Message)
        ensures
            message == (Message {
                message_id: message.message_id,
                sender,
                receiver,
                content,
                created_at: message.created_at,
                updated_at: message.created_at,
            }),
    {
        let now = Timestamp::now();
        Message {
            message_id: Identifier::fresh(),
            sender,
            receiver,
            content,
            created_at: now,
            updated_at: now,
        }
    }
}

} // verus!
