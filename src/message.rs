use vstd::prelude::*;

verus! {

/// A chat message as it travels through the hub.
///
/// `id` and `timestamp` are assigned by the server when the message is
/// published; `content` and `user` are passed through as the client sent them.
#[derive(Debug)]
pub struct ChatMessage {
    pub id: String,
    pub content: String,
    pub timestamp: u64,
    pub user: String,
}

/// The length of a hyphenated UUID in its textual form.
pub const MESSAGE_ID_LEN: usize = 36;

/// Relies on uuid::Uuid::new_v4 and its Display impl, which writes the
/// hyphenated form: 32 hex digits and four hyphens. The value is random.
#[verifier::external_body]
fn random_uuid_string() -> (r: String)
    ensures
        r@.len() == MESSAGE_ID_LEN,
{
    uuid::Uuid::new_v4().to_string()
}

/// A fresh server-side identifier: a random hyphenated UUID.
pub fn new_message_id() -> (r: String)
    ensures
        r@.len() == MESSAGE_ID_LEN,
{
    random_uuid_string()
}

impl ChatMessage {
    /// Builds a message from its four fields.
    pub fn new(id: String, content: String, timestamp: u64, user: String) -> (r: ChatMessage)
        ensures
            r.id == id,
            r.content == content,
            r.timestamp == timestamp,
            r.user == user,
    {
        ChatMessage { id, content, timestamp, user }
    }

    /// A copy equal to this message in every field.
    pub fn duplicate(&self) -> (r: ChatMessage)
        ensures
            r == *self,
    {
        ChatMessage {
            id: self.id.clone(),
            content: self.content.clone(),
            timestamp: self.timestamp,
            user: self.user.clone(),
        }
    }

    /// Replaces the identifier and timestamp with server-assigned values,
    /// discarding whatever the client put there.
    pub fn restamp(self, id: String, timestamp: u64) -> (r: ChatMessage)
        ensures
            r.id == id,
            r.timestamp == timestamp,
            r.content == self.content,
            r.user == self.user,
    {
        ChatMessage { id, content: self.content, timestamp, user: self.user }
    }
}

} // verus!
