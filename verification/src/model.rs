//! The data shapes synchronized through the engine. References
//! between records are carried as record identifiers.

use vstd::prelude::*;

verus! {

/// A person who writes messages.
#[derive(Debug)]
pub struct User {
    /// The name shown beside the user's messages.
    pub display_name: String,
}

/// A chat room.
#[derive(Debug)]
pub struct Room {
    /// The room's name.
    pub name: String,
}

/// One chat message in a room.
#[derive(Debug)]
pub struct Message {
    /// The identifier of the user who wrote the message.
    pub user_id: String,
    /// The identifier of the room the message belongs to.
    pub room_id: String,
    /// The message text.
    pub text: String,
    /// When the message was written, in milliseconds since the Unix
    /// epoch.
    pub timestamp: i64,
    /// Whether the message has been deleted.
    pub deleted: bool,
}

impl Clone for User {
    fn clone(&self) -> (res: Self)
        ensures
            res == *self,
    {
        User { display_name: self.display_name.clone() }
    }
}

impl Clone for Room {
    fn clone(&self) -> (res: Self)
        ensures
            res == *self,
    {
        Room { name: self.name.clone() }
    }
}

impl Clone for Message {
    fn clone(&self) -> (res: Self)
        ensures
            res == *self,
    {
        Message {
            user_id: self.user_id.clone(),
            room_id: self.room_id.clone(),
            text: self.text.clone(),
            timestamp: self.timestamp,
            deleted: self.deleted,
        }
    }
}

} // verus!
