//! Payload shapes received from the messaging platform: only the fields that
//! the dispatch layer reads are modelled.

use vstd::prelude::*;

verus! {

/// A voice note attached to a message.
#[derive(Debug, Clone)]
pub struct Voice {
    pub duration: u32,
    pub mime_type: String,
    pub file_id: String,
    pub file_unique_id: String,
    pub file_size: u32,
}

/// A chat, identified by its numeric id.
#[derive(Debug, Clone)]
pub struct Chat {
    pub id: i64,
}

/// A platform user.
#[derive(Debug, Clone)]
pub struct User {
    pub id: i64,
    pub first_name: String,
}

/// A message in a chat.
#[derive(Debug, Clone)]
pub struct Message {
    pub message_id: i64,
    pub chat: Chat,
    pub from: Option<User>,
    pub text: Option<String>,
}

/// A press on an inline keyboard button.
#[derive(Debug, Clone)]
pub struct CallbackQuery {
    pub id: String,
    pub from: User,
    pub message: Option<Message>,
    pub data: Option<String>,
}

/// An incoming update; the platform fills at most one of the payload fields.
#[derive(Debug, Clone)]
pub struct Update {
    pub update_id: i64,
    pub message: Option<Message>,
    pub edited_message: Option<Message>,
    pub channel_post: Option<Message>,
    pub edited_channel_post: Option<Message>,
    pub callback_query: Option<CallbackQuery>,
}

} // verus!
