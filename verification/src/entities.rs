use vstd::prelude::*;

verus! {

// ---------------------------------------------------------------------------
// Ghost images.
//
// Every stored row and every value the API hands out is described in
// contracts through one of these mathematical records: identifiers and text
// as `Seq<char>`, the creation instant of a message as an unbounded integer.
// ---------------------------------------------------------------------------

/// Ghost image of a stored user row.
pub ghost struct UserRecordV {
    pub id: Seq<char>,
    pub username: Seq<char>,
    pub password_hash: Seq<char>,
    pub profile_picture: Option<Seq<char>>,
}

/// Ghost image of a stored session row.
pub ghost struct SessionRecordV {
    pub id: Seq<char>,
    pub user_id: Seq<char>,
}

/// Ghost image of a channel.
pub ghost struct ChannelV {
    pub id: Seq<char>,
    pub name: Seq<char>,
}

/// Ghost image of a channel-membership row.
pub ghost struct MembershipRecordV {
    pub channel_id: Seq<char>,
    pub user_id: Seq<char>,
}

/// Ghost image of a message.
pub ghost struct MessageV {
    pub message_id: Seq<char>,
    pub user_id: Seq<char>,
    pub message: Seq<char>,
    pub channel_id: Seq<char>,
    pub timestamp: int,
}

/// Ghost image of the public projection of a user.
pub ghost struct UserV {
    pub id: Seq<char>,
    pub username: Seq<char>,
    pub profile_picture: Option<Seq<char>>,
}

// ---------------------------------------------------------------------------
// Stored rows.
// ---------------------------------------------------------------------------

/// A stored user row: identity, unique username, bcrypt hash of the
/// password, optional picture reference.  The hash never appears in the
/// public `User` projection.
pub struct UserRecord {
    pub id: String,
    pub username: String,
    pub password_hash: String,
    pub profile_picture: Option<String>,
}

impl View for UserRecord {
    type V = UserRecordV;

    open spec fn view(&self) -> UserRecordV {
        UserRecordV {
            id: self.id@,
            username: self.username@,
            password_hash: self.password_hash@,
            profile_picture: self.profile_picture.deep_view(),
        }
    }
}

/// A stored session row: an opaque bearer token and the user it stands
/// for.  Sessions are only ever inserted and looked up, never updated,
/// and never expire.
pub struct SessionRecord {
    pub id: String,
    pub user_id: String,
}

impl View for SessionRecord {
    type V = SessionRecordV;

    open spec fn view(&self) -> SessionRecordV {
        SessionRecordV { id: self.id@, user_id: self.user_id@ }
    }
}

/// A membership row: the user may read and write messages of the channel.
pub struct MembershipRecord {
    pub channel_id: String,
    pub user_id: String,
}

impl View for MembershipRecord {
    type V = MembershipRecordV;

    open spec fn view(&self) -> MembershipRecordV {
        MembershipRecordV { channel_id: self.channel_id@, user_id: self.user_id@ }
    }
}

// ---------------------------------------------------------------------------
// Entities the API hands out.
// ---------------------------------------------------------------------------

/// A chat channel.
pub struct Channel {
    pub id: String,
    pub name: String,
}

impl View for Channel {
    type V = ChannelV;

    open spec fn view(&self) -> ChannelV {
        ChannelV { id: self.id@, name: self.name@ }
    }
}

impl Channel {
    pub fn new(id: String, name: String) -> (r: Self)
        ensures
            r@.id == id@,
            r@.name == name@,
    {
        Self { id, name }
    }

    pub fn id(&self) -> (r: &String)
        ensures
            r@ == self@.id,
    {
        &self.id
    }

    pub fn name(&self) -> (r: &str)
        ensures
            r@ == self@.name,
    {
        self.name.as_str()
    }
}

impl Clone for Channel {
    fn clone(&self) -> (r: Self)
        ensures
            r@ == self@,
    {
        Channel { id: self.id.clone(), name: self.name.clone() }
    }
}

/// A message posted to a channel by a member.
pub struct Message {
    pub message_id: String,
    pub user_id: String,
    pub message: String,
    pub channel_id: String,
    pub timestamp: i64,
}

impl View for Message {
    type V = MessageV;

    open spec fn view(&self) -> MessageV {
        MessageV {
            message_id: self.message_id@,
            user_id: self.user_id@,
            message: self.message@,
            channel_id: self.channel_id@,
            timestamp: self.timestamp as int,
        }
    }
}

impl Message {
    pub fn new(
        message_id: String,
        message: String,
        user_id: String,
        channel_id: String,
        timestamp: i64,
    ) -> (r: Self)
        ensures
            r@.message_id == message_id@,
            r@.message == message@,
            r@.user_id == user_id@,
            r@.channel_id == channel_id@,
            r@.timestamp == timestamp as int,
    {
        Self { message_id, user_id, message, channel_id, timestamp }
    }

    pub fn message_id(&self) -> (r: &String)
        ensures
            r@ == self@.message_id,
    {
        &self.message_id
    }

    pub fn user_id(&self) -> (r: &String)
        ensures
            r@ == self@.user_id,
    {
        &self.user_id
    }

    pub fn message(&self) -> (r: &String)
        ensures
            r@ == self@.message,
    {
        &self.message
    }

    pub fn channel_id(&self) -> (r: &String)
        ensures
            r@ == self@.channel_id,
    {
        &self.channel_id
    }

    pub fn timestamp(&self) -> (r: i64)
        ensures
            r as int == self@.timestamp,
    {
        self.timestamp
    }
}

impl Clone for Message {
    fn clone(&self) -> (r: Self)
        ensures
            r@ == self@,
    {
        Message {
            message_id: self.message_id.clone(),
            user_id: self.user_id.clone(),
            message: self.message.clone(),
            channel_id: self.channel_id.clone(),
            timestamp: self.timestamp,
        }
    }
}

/// The public projection of a user: what queries may see.  The stored
/// password hash never appears here.
pub struct User {
    pub id: String,
    pub username: String,
    pub profile_picture: Option<String>,
}

impl View for User {
    type V = UserV;

    open spec fn view(&self) -> UserV {
        UserV {
            id: self.id@,
            username: self.username@,
            profile_picture: self.profile_picture.deep_view(),
        }
    }
}

impl User {
    pub fn new(id: String, username: String, profile_picture: Option<String>) -> (r: Self)
        ensures
            r@.id == id@,
            r@.username == username@,
            r@.profile_picture == profile_picture.deep_view(),
    {
        Self { id, username, profile_picture }
    }

    pub fn id(&self) -> (r: &String)
        ensures
            r@ == self@.id,
    {
        &self.id
    }

    pub fn username(&self) -> (r: &String)
        ensures
            r@ == self@.username,
    {
        &self.username
    }

    pub fn profile_picture(&self) -> (r: Option<&String>)
        ensures
            r is Some <==> self@.profile_picture is Some,
            r is Some ==> r.unwrap()@ == self@.profile_picture.unwrap(),
    {
        self.profile_picture.as_ref()
    }
}

} // verus!
