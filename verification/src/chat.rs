//! Conversations between users, and the messages sent in them.

use std::rc::Rc;

use vstd::prelude::*;

use crate::datetime::DateTime;
use crate::platform::PlatformId;
use crate::user::User;

verus! {

/// A private or group conversation between users.
///
/// A chat does not own its participants: a user may take part in many chats
/// and send many messages, so entries are shared, reference-counted handles.
/// Insertion order is join order; this layer does not prevent duplicate
/// entries — participant-management policy is a caller responsibility.
pub struct Chat {
    id: PlatformId,
    pub participants: Vec<Rc<User>>,
}

impl Chat {
    /// The chat's identity on the platform where it exists, fixed at
    /// construction. Every message in the chat is assumed to originate
    /// from this platform.
    pub closed spec fn spec_id(self) -> PlatformId {
        self.id
    }

    /// The ordered participant list, in join order.
    pub closed spec fn spec_participants(self) -> Seq<Rc<User>> {
        self.participants@
    }

    /// Creates a chat with the given platform identity and initial
    /// participants.
    pub fn new(id: PlatformId, participants: Vec<Rc<User>>) -> (c: Chat)
        ensures
            c.spec_id() == id,
            c.spec_participants() == participants@,
    {
        Chat { id, participants }
    }

    /// Returns the chat's identity on its platform.
    pub fn id(&self) -> (r: &PlatformId)
        ensures
            *r == self.spec_id(),
    {
        &self.id
    }
}

/// A single text communication: a platform-local identity, the chat it was
/// sent in, its sender, the text payload, and a timezone-naive timestamp.
///
/// Immutable by convention once constructed, except for `text`. The sender
/// is expected to be one of the chat's participants: a caller contract,
/// not enforced structurally by this layer.
pub struct Message {
    id: PlatformId,
    pub chat: Rc<Chat>,
    pub sender: Rc<User>,
    pub text: String,
    pub datetime: DateTime,
}

impl Message {
    /// The message's platform-local identity, fixed at construction.
    pub closed spec fn spec_id(self) -> PlatformId {
        self.id
    }

    /// The chat the message was sent in, fixed at construction.
    pub closed spec fn spec_chat(self) -> Rc<Chat> {
        self.chat
    }

    /// The sending user, fixed at construction.
    pub closed spec fn spec_sender(self) -> Rc<User> {
        self.sender
    }

    /// The text payload.
    pub closed spec fn spec_text(self) -> Seq<char> {
        self.text@
    }

    /// The timestamp, fixed at construction.
    pub closed spec fn spec_datetime(self) -> DateTime {
        self.datetime
    }

    /// Records one communication event.
    pub fn new(
        id: PlatformId,
        chat: Rc<Chat>,
        sender: Rc<User>,
        text: String,
        datetime: DateTime,
    ) -> (m: Message)
        ensures
            m.spec_id() == id,
            m.spec_chat() == chat,
            m.spec_sender() == sender,
            m.spec_text() == text@,
            m.spec_datetime() == datetime,
    {
        Message { id, chat, sender, text, datetime }
    }

    /// Returns the message's platform-local identity.
    pub fn id(&self) -> (r: &PlatformId)
        ensures
            *r == self.spec_id(),
    {
        &self.id
    }
}

} // verus!
