//! Classification of updates into events, and typed, fallible access to the
//! payload an event carries.

use std::sync::Arc;

use vstd::prelude::*;

use crate::api::{CallbackQuery, Message, Update};

verus! {

/// The classified payload of an update: exactly one tag is active.
#[derive(Debug, Clone)]
pub enum MessageEvent {
    New(Message),
    Edited(Message),
    Post(Message),
    EditedPost(Message),
    Callback(CallbackQuery),
    Unknown,
}

/// The tag of a `MessageEvent`, without its payload.
#[derive(Debug, Clone, Copy, PartialEq, Eq, Structural)]
pub enum EventKind {
    New,
    Edited,
    Post,
    EditedPost,
    Callback,
    Unknown,
}

/// The payload shape a typed accessor asks for.
#[derive(Debug, Clone, Copy, PartialEq, Eq, Structural)]
pub enum Expected {
    /// A new or an edited message.
    Message,
    NewMessage,
    EditedMessage,
    /// A new or an edited channel post.
    Post,
    NewPost,
    EditedPost,
    CallbackQuery,
}

/// Failures of the event model and of the handlers built on it.
#[derive(Debug, Clone, Copy, PartialEq, Eq, Structural)]
pub enum EventError {
    /// An accessor was called on an event of another kind.
    TypeMismatch { expected: Expected, actual: EventKind },
    /// A nested payload is absent (a callback without its message).
    MissingPayload,
    /// The text, or the callback data, is absent.
    MissingText,
    /// The operation is meaningless on an `Unknown` event.
    InvalidVariant,
    /// A handler was given a kind of event it does not handle.
    UnsupportedEventKind,
}

/// The event that an update classifies as: the first populated field in the
/// order new message, edited message, channel post, edited channel post,
/// callback query; `Unknown` when none is populated.
pub open spec fn classification(u: Update) -> MessageEvent {
    if u.message is Some {
        MessageEvent::New(u.message->0)
    } else if u.edited_message is Some {
        MessageEvent::Edited(u.edited_message->0)
    } else if u.channel_post is Some {
        MessageEvent::Post(u.channel_post->0)
    } else if u.edited_channel_post is Some {
        MessageEvent::EditedPost(u.edited_channel_post->0)
    } else if u.callback_query is Some {
        MessageEvent::Callback(u.callback_query->0)
    } else {
        MessageEvent::Unknown
    }
}

/// Classifies an update into the event it carries.
pub fn classify(update: Update) -> (r: MessageEvent)
    ensures
        r == classification(update),
{
    if let Some(m) = update.message {
        MessageEvent::New(m)
    } else if let Some(m) = update.edited_message {
        MessageEvent::Edited(m)
    } else if let Some(m) = update.channel_post {
        MessageEvent::Post(m)
    } else if let Some(m) = update.edited_channel_post {
        MessageEvent::EditedPost(m)
    } else if let Some(c) = update.callback_query {
        MessageEvent::Callback(c)
    } else {
        MessageEvent::Unknown
    }
}

/// How many of the five payload fields of `u` are populated.
pub open spec fn populated(u: Update) -> nat {
    (if u.message is Some { 1nat } else { 0nat }) + (if u.edited_message is Some {
        1nat
    } else {
        0nat
    }) + (if u.channel_post is Some { 1nat } else { 0nat }) + (if u.edited_channel_post is Some {
        1nat
    } else {
        0nat
    }) + (if u.callback_query is Some { 1nat } else { 0nat })
}

/// An update with exactly one populated payload field classifies as the tag
/// of that field, wrapping its payload.
pub proof fn lemma_classify_single(u: Update)
    requires
        populated(u) == 1,
    ensures
        u.message is Some ==> classification(u) == MessageEvent::New(u.message->0),
        u.edited_message is Some ==> classification(u) == MessageEvent::Edited(
            u.edited_message->0,
        ),
        u.channel_post is Some ==> classification(u) == MessageEvent::Post(u.channel_post->0),
        u.edited_channel_post is Some ==> classification(u) == MessageEvent::EditedPost(
            u.edited_channel_post->0,
        ),
        u.callback_query is Some ==> classification(u) == MessageEvent::Callback(
            u.callback_query->0,
        ),
{
}

/// An update with no populated payload field classifies as `Unknown`.
pub proof fn lemma_classify_empty(u: Update)
    requires
        populated(u) == 0,
    ensures
        classification(u) == MessageEvent::Unknown,
{
}

/// A new message takes priority over a callback query populated beside it.
pub proof fn lemma_message_before_callback(u: Update)
    requires
        u.message is Some,
        u.callback_query is Some,
    ensures
        classification(u) == MessageEvent::New(u.message->0),
{
}

impl From<Update> for MessageEvent {
    fn from(update: Update) -> (r: Self) {
        classify(update)
    }
}

impl vstd::std_specs::convert::FromSpecImpl<Update> for MessageEvent {
    open spec fn obeys_from_spec() -> bool {
        true
    }

    open spec fn from_spec(u: Update) -> Self {
        classification(u)
    }
}

impl MessageEvent {
    pub open spec fn spec_kind(&self) -> EventKind {
        match self {
            MessageEvent::New(_) => EventKind::New,
            MessageEvent::Edited(_) => EventKind::Edited,
            MessageEvent::Post(_) => EventKind::Post,
            MessageEvent::EditedPost(_) => EventKind::EditedPost,
            MessageEvent::Callback(_) => EventKind::Callback,
            MessageEvent::Unknown => EventKind::Unknown,
        }
    }

    /// The tag of this event.
    #[verifier::when_used_as_spec(spec_kind)]
    pub fn kind(&self) -> (r: EventKind)
        ensures
            r == self.spec_kind(),
    {
        match self {
            MessageEvent::New(_) => EventKind::New,
            MessageEvent::Edited(_) => EventKind::Edited,
            MessageEvent::Post(_) => EventKind::Post,
            MessageEvent::EditedPost(_) => EventKind::EditedPost,
            MessageEvent::Callback(_) => EventKind::Callback,
            MessageEvent::Unknown => EventKind::Unknown,
        }
    }

    /// The message a message-like event carries, or the message embedded in
    /// a callback.
    pub fn into_message(self) -> (r: Result<Message, EventError>)
        ensures
            r == (match self {
                MessageEvent::New(m) => Ok(m),
                MessageEvent::Edited(m) => Ok(m),
                MessageEvent::Post(m) => Ok(m),
                MessageEvent::EditedPost(m) => Ok(m),
                MessageEvent::Callback(q) => match q.message {
                    Some(m) => Ok(m),
                    None => Err(EventError::MissingPayload),
                },
                MessageEvent::Unknown => Err(EventError::InvalidVariant),
            }),
    {
        match self {
            MessageEvent::New(m) => Ok(m),
            MessageEvent::Edited(m) => Ok(m),
            MessageEvent::Post(m) => Ok(m),
            MessageEvent::EditedPost(m) => Ok(m),
            MessageEvent::Callback(q) => match q.message {
                Some(m) => Ok(m),
                None => Err(EventError::MissingPayload),
            },
            MessageEvent::Unknown => Err(EventError::InvalidVariant),
        }
    }

    /// The callback query a callback event carries.
    pub fn into_callback_query(self) -> (r: Result<CallbackQuery, EventError>)
        ensures
            r == (match self {
                MessageEvent::Callback(q) => Ok(q),
                _ => Err(
                    EventError::TypeMismatch { expected: Expected::CallbackQuery, actual: self.kind() },
                ),
            }),
    {
        let actual = self.kind();
        match self {
            MessageEvent::Callback(q) => Ok(q),
            _ => Err(EventError::TypeMismatch { expected: Expected::CallbackQuery, actual }),
        }
    }

    /// What text extraction gives: the text of a message-like event, the data
    /// of a callback.
    pub open spec fn spec_text(&self) -> Result<String, EventError> {
        match self {
            MessageEvent::New(m) | MessageEvent::Edited(m) | MessageEvent::Post(m)
            | MessageEvent::EditedPost(m) => match m.text {
                Some(t) => Ok(t),
                None => Err(EventError::MissingText),
            },
            MessageEvent::Callback(q) => match q.data {
                Some(d) => Ok(d),
                None => Err(EventError::MissingText),
            },
            MessageEvent::Unknown => Err(EventError::InvalidVariant),
        }
    }

    /// The text of a message-like event, or the data of a callback.
    pub fn text(&self) -> (r: Result<String, EventError>)
        ensures
            r == self.spec_text(),
    {
        let field = match self {
            MessageEvent::New(m) | MessageEvent::Edited(m) | MessageEvent::Post(m)
            | MessageEvent::EditedPost(m) => &m.text,
            MessageEvent::Callback(q) => &q.data,
            MessageEvent::Unknown => {
                return Err(EventError::InvalidVariant);
            },
        };
        match field {
            Some(t) => Ok(t.clone()),
            None => Err(EventError::MissingText),
        }
    }
}

/// An event handed to a handler: the classified payload, and a shared handle
/// on the client that talks to the platform.
#[derive(Clone)]
pub struct Event<A> {
    pub api: Arc<A>,
    pub message: MessageEvent,
}

impl<A> Event<A> {
    /// The failure of an accessor that asks this event for `expected`.
    pub open spec fn mismatch(&self, expected: Expected) -> EventError {
        EventError::TypeMismatch { expected, actual: self.message.kind() }
    }

    /// A new or an edited message.
    pub fn get_message(&self) -> (r: Result<&Message, EventError>)
        ensures
            match self.message {
                MessageEvent::New(m) | MessageEvent::Edited(m) => r == Ok::<&Message, EventError>(&m),
                _ => r == Err::<&Message, EventError>(self.mismatch(Expected::Message)),
            },
    {
        match &self.message {
            MessageEvent::New(msg) => Ok(msg),
            MessageEvent::Edited(msg) => Ok(msg),
            _ => Err(EventError::TypeMismatch { expected: Expected::Message, actual: self.message.kind() }),
        }
    }

    /// A new message.
    pub fn get_new_message(&self) -> (r: Result<&Message, EventError>)
        ensures
            match self.message {
                MessageEvent::New(m) => r == Ok::<&Message, EventError>(&m),
                _ => r == Err::<&Message, EventError>(self.mismatch(Expected::NewMessage)),
            },
    {
        match &self.message {
            MessageEvent::New(msg) => Ok(msg),
            _ => Err(EventError::TypeMismatch { expected: Expected::NewMessage, actual: self.message.kind() }),
        }
    }

    /// An edited message.
    pub fn get_edited_message(&self) -> (r: Result<&Message, EventError>)
        ensures
            match self.message {
                MessageEvent::Edited(m) => r == Ok::<&Message, EventError>(&m),
                _ => r == Err::<&Message, EventError>(self.mismatch(Expected::EditedMessage)),
            },
    {
        match &self.message {
            MessageEvent::Edited(msg) => Ok(msg),
            _ => Err(EventError::TypeMismatch { expected: Expected::EditedMessage, actual: self.message.kind() }),
        }
    }

    /// A new or an edited channel post.
    pub fn get_post(&self) -> (r: Result<&Message, EventError>)
        ensures
            match self.message {
                MessageEvent::Post(m) | MessageEvent::EditedPost(m) => r == Ok::<&Message, EventError>(&m),
                _ => r == Err::<&Message, EventError>(self.mismatch(Expected::Post)),
            },
    {
        match &self.message {
            MessageEvent::Post(msg) => Ok(msg),
            MessageEvent::EditedPost(msg) => Ok(msg),
            _ => Err(EventError::TypeMismatch { expected: Expected::Post, actual: self.message.kind() }),
        }
    }

    /// A new channel post.
    pub fn get_new_post(&self) -> (r: Result<&Message, EventError>)
        ensures
            match self.message {
                MessageEvent::Post(m) => r == Ok::<&Message, EventError>(&m),
                _ => r == Err::<&Message, EventError>(self.mismatch(Expected::NewPost)),
            },
    {
        match &self.message {
            MessageEvent::Post(msg) => Ok(msg),
            _ => Err(EventError::TypeMismatch { expected: Expected::NewPost, actual: self.message.kind() }),
        }
    }

    /// An edited channel post.
    pub fn get_edited_post(&self) -> (r: Result<&Message, EventError>)
        ensures
            match self.message {
                MessageEvent::EditedPost(m) => r == Ok::<&Message, EventError>(&m),
                _ => r == Err::<&Message, EventError>(self.mismatch(Expected::EditedPost)),
            },
    {
        match &self.message {
            MessageEvent::EditedPost(msg) => Ok(msg),
            _ => Err(EventError::TypeMismatch { expected: Expected::EditedPost, actual: self.message.kind() }),
        }
    }

    /// A callback query.
    pub fn get_callback_query(&self) -> (r: Result<&CallbackQuery, EventError>)
        ensures
            match self.message {
                MessageEvent::Callback(q) => r == Ok::<&CallbackQuery, EventError>(&q),
                _ => r == Err::<&CallbackQuery, EventError>(self.mismatch(Expected::CallbackQuery)),
            },
    {
        match &self.message {
            MessageEvent::Callback(query) => Ok(query),
            _ => Err(EventError::TypeMismatch { expected: Expected::CallbackQuery, actual: self.message.kind() }),
        }
    }
}

} // verus!
