use vstd::prelude::*;

use crate::entities::{
    Channel, ChannelV, MembershipRecord, Message, SessionRecord, UserRecord, UserRecordV,
};
use crate::outside::bcrypt_matches;

verus! {

/// Messages ordered by creation time, oldest first.
pub open spec fn sorted_by_time(msgs: Seq<Message>) -> bool {
    forall|i: int, j: int|
        0 <= i <= j < msgs.len() ==> #[trigger] msgs[i]@.timestamp <= #[trigger] msgs[j]@.timestamp
}

/// The whole persistent state of the application: the five relations the
/// API works on.  Stands in for the relational store; every row is a plain
/// record, and all cross-row rules are gathered in [`ChatStore::wf`].
pub struct ChatStore {
    pub users: Vec<UserRecord>,
    pub sessions: Vec<SessionRecord>,
    pub channels: Vec<Channel>,
    pub memberships: Vec<MembershipRecord>,
    pub messages: Vec<Message>,
}

impl ChatStore {
    // -----------------------------------------------------------------
    // What the relations contain, as mathematics.
    // -----------------------------------------------------------------

    /// Some stored user carries this identifier.
    pub open spec fn has_user_id(self, id: Seq<char>) -> bool {
        exists|k: int| 0 <= k < self.users@.len() && #[trigger] self.users@[k]@.id == id
    }

    /// Some stored user carries this username.
    pub open spec fn has_username(self, name: Seq<char>) -> bool {
        exists|k: int| 0 <= k < self.users@.len() && #[trigger] self.users@[k]@.username == name
    }

    /// The stored user with this username (unique under [`Self::wf`]).
    pub open spec fn user_named(self, name: Seq<char>) -> UserRecordV {
        self.users@[choose|k: int|
            0 <= k < self.users@.len() && #[trigger] self.users@[k]@.username == name]@
    }

    /// The stored user with this identifier (unique under [`Self::wf`]).
    pub open spec fn user_with_id(self, id: Seq<char>) -> UserRecordV {
        self.users@[choose|k: int|
            0 <= k < self.users@.len() && #[trigger] self.users@[k]@.id == id]@
    }

    /// Some session carries this token.
    pub open spec fn has_session(self, token: Seq<char>) -> bool {
        exists|k: int| 0 <= k < self.sessions@.len() && #[trigger] self.sessions@[k]@.id == token
    }

    /// The user the session with this token stands for (unique under
    /// [`Self::wf`]).
    pub open spec fn session_user_id(self, token: Seq<char>) -> Seq<char> {
        self.sessions@[choose|k: int|
            0 <= k < self.sessions@.len() && #[trigger] self.sessions@[k]@.id == token]@.user_id
    }

    /// Some channel carries this identifier.
    pub open spec fn has_channel(self, id: Seq<char>) -> bool {
        exists|k: int| 0 <= k < self.channels@.len() && #[trigger] self.channels@[k]@.id == id
    }

    /// The channel with this identifier (unique under [`Self::wf`]).
    pub open spec fn channel_with_id(self, id: Seq<char>) -> ChannelV {
        self.channels@[choose|k: int|
            0 <= k < self.channels@.len() && #[trigger] self.channels@[k]@.id == id]@
    }

    /// A membership row grants this user access to this channel.
    pub open spec fn is_member(self, user_id: Seq<char>, channel_id: Seq<char>) -> bool {
        exists|k: int|
            0 <= k < self.memberships@.len() && #[trigger] self.memberships@[k]@.channel_id
                == channel_id && self.memberships@[k]@.user_id == user_id
    }

    /// Some message carries this identifier.
    pub open spec fn has_message(self, id: Seq<char>) -> bool {
        exists|k: int| 0 <= k < self.messages@.len() && #[trigger] self.messages@[k]@.message_id == id
    }

    /// The position of the message with this identifier (unique under
    /// [`Self::wf`]).
    pub open spec fn message_pos(self, id: Seq<char>) -> int {
        choose|k: int| 0 <= k < self.messages@.len() && #[trigger] self.messages@[k]@.message_id == id
    }

    /// The message with this identifier (unique under [`Self::wf`]).
    pub open spec fn message_with_id(self, id: Seq<char>) -> crate::entities::MessageV {
        self.messages@[self.message_pos(id)]@
    }

    /// A stored user carries this username and bcrypt accepts the password
    /// against that user's stored hash: exactly the pairs sign-in admits.
    pub open spec fn credentials_ok(self, username: Seq<char>, password: Seq<char>) -> bool {
        exists|k: int|
            0 <= k < self.users@.len() && #[trigger] self.users@[k]@.username == username
                && bcrypt_matches(password, self.users@[k]@.password_hash)
    }

    // -----------------------------------------------------------------
    // Well-formedness: the rules the relational schema would enforce.
    // -----------------------------------------------------------------

    /// Some membership row names this channel: the channel is not empty.
    pub open spec fn channel_has_member(self, channel_id: Seq<char>) -> bool {
        exists|m: int|
            0 <= m < self.memberships@.len() && #[trigger] self.memberships@[m]@.channel_id
                == channel_id
    }

    /// User identifiers and usernames are unique.
    pub open spec fn users_wf(self) -> bool {
        &&& forall|i: int, j: int|
            0 <= i < j < self.users@.len() ==> #[trigger] self.users@[i]@.id != #[trigger] self
                .users@[j]@.id
        &&& forall|i: int, j: int|
            0 <= i < j < self.users@.len() ==> #[trigger] self.users@[i]@.username
                != #[trigger] self.users@[j]@.username
    }

    /// Session tokens are unique and every session points at a stored user.
    pub open spec fn sessions_wf(self) -> bool {
        &&& forall|i: int, j: int|
            0 <= i < j < self.sessions@.len() ==> #[trigger] self.sessions@[i]@.id
                != #[trigger] self.sessions@[j]@.id
        &&& forall|k: int|
            0 <= k < self.sessions@.len() ==> self.has_user_id(
                #[trigger] self.sessions@[k]@.user_id,
            )
    }

    /// Channel identifiers are unique, and no channel is without a member:
    /// creation inserts the channel and its creator's membership as one
    /// unit, and memberships are never removed.
    pub open spec fn channels_wf(self) -> bool {
        &&& forall|i: int, j: int|
            0 <= i < j < self.channels@.len() ==> #[trigger] self.channels@[i]@.id
                != #[trigger] self.channels@[j]@.id
        &&& forall|k: int|
            0 <= k < self.channels@.len() ==> self.channel_has_member(
                #[trigger] self.channels@[k]@.id,
            )
    }

    /// Every membership points at a stored channel and user, and no pair
    /// is recorded twice.
    pub open spec fn memberships_wf(self) -> bool {
        &&& forall|k: int|
            0 <= k < self.memberships@.len() ==> self.has_channel(
                #[trigger] self.memberships@[k]@.channel_id,
            ) && self.has_user_id(self.memberships@[k]@.user_id)
        &&& forall|i: int, j: int|
            0 <= i < j < self.memberships@.len() ==> !(#[trigger] self.memberships@[i]@.channel_id
                == #[trigger] self.memberships@[j]@.channel_id && self.memberships@[i]@.user_id
                == self.memberships@[j]@.user_id)
    }

    /// Message identifiers are unique, every message's author is a stored
    /// user and a member of the message's channel (checked when the
    /// message is sent; members are never removed), the channel is stored,
    /// and the relation is kept ordered by creation time.
    pub open spec fn messages_wf(self) -> bool {
        &&& forall|i: int, j: int|
            0 <= i < j < self.messages@.len() ==> #[trigger] self.messages@[i]@.message_id
                != #[trigger] self.messages@[j]@.message_id
        &&& forall|k: int|
            0 <= k < self.messages@.len() ==> self.has_user_id(
                #[trigger] self.messages@[k]@.user_id,
            ) && self.is_member(self.messages@[k]@.user_id, self.messages@[k]@.channel_id)
                && self.has_channel(self.messages@[k]@.channel_id)
        &&& sorted_by_time(self.messages@)
    }

    /// Everything the relational schema would enforce, in one place.
    pub open spec fn wf(self) -> bool {
        self.users_wf() && self.sessions_wf() && self.channels_wf() && self.memberships_wf()
            && self.messages_wf()
    }

    // -----------------------------------------------------------------
    // Construction and row lookup.
    // -----------------------------------------------------------------

    /// An empty store: no users, no sessions, no channels, no messages.
    pub fn new() -> (r: Self)
        ensures
            r.wf(),
            r.users@.len() == 0,
            r.sessions@.len() == 0,
            r.channels@.len() == 0,
            r.memberships@.len() == 0,
            r.messages@.len() == 0,
    {
        ChatStore {
            users: Vec::new(),
            sessions: Vec::new(),
            channels: Vec::new(),
            memberships: Vec::new(),
            messages: Vec::new(),
        }
    }

    /// Position of the session row carrying `token`, if any.
    pub(crate) fn session_index(&self, token: &String) -> (r: Option<usize>)
        ensures
            r is Some <==> self.has_session(token@),
            r is Some ==> r.unwrap() < self.sessions@.len() && self.sessions@[r.unwrap() as int]@.id
                == token@,
    {
        let n = self.sessions.len();
        let mut i: usize = 0;
        while i < n
            invariant
                n == self.sessions@.len(),
                i <= n,
                forall|k: int| 0 <= k < i ==> #[trigger] self.sessions@[k]@.id != token@,
            decreases n - i,
        {
            if self.sessions[i].id == *token {
                proof {
                    assert(self.sessions@[i as int]@.id == token@);
                }
                return Some(i);
            }
            i += 1;
        }
        None
    }

    /// Position of the user row carrying `username`, if any.
    pub(crate) fn user_index_by_name(&self, username: &String) -> (r: Option<usize>)
        ensures
            r is Some <==> self.has_username(username@),
            r is Some ==> r.unwrap() < self.users@.len() && self.users@[r.unwrap() as int]@.username
                == username@,
    {
        let n = self.users.len();
        let mut i: usize = 0;
        while i < n
            invariant
                n == self.users@.len(),
                i <= n,
                forall|k: int| 0 <= k < i ==> #[trigger] self.users@[k]@.username != username@,
            decreases n - i,
        {
            if self.users[i].username == *username {
                proof {
                    assert(self.users@[i as int]@.username == username@);
                }
                return Some(i);
            }
            i += 1;
        }
        None
    }

    /// Position of the user row carrying `id`, if any.
    pub(crate) fn user_index_by_id(&self, id: &String) -> (r: Option<usize>)
        ensures
            r is Some <==> self.has_user_id(id@),
            r is Some ==> r.unwrap() < self.users@.len() && self.users@[r.unwrap() as int]@.id
                == id@,
    {
        let n = self.users.len();
        let mut i: usize = 0;
        while i < n
            invariant
                n == self.users@.len(),
                i <= n,
                forall|k: int| 0 <= k < i ==> #[trigger] self.users@[k]@.id != id@,
            decreases n - i,
        {
            if self.users[i].id == *id {
                proof {
                    assert(self.users@[i as int]@.id == id@);
                }
                return Some(i);
            }
            i += 1;
        }
        None
    }

    /// Position of the channel row carrying `id`, if any.
    pub(crate) fn channel_index(&self, id: &String) -> (r: Option<usize>)
        ensures
            r is Some <==> self.has_channel(id@),
            r is Some ==> r.unwrap() < self.channels@.len() && self.channels@[r.unwrap() as int]@.id
                == id@,
    {
        let n = self.channels.len();
        let mut i: usize = 0;
        while i < n
            invariant
                n == self.channels@.len(),
                i <= n,
                forall|k: int| 0 <= k < i ==> #[trigger] self.channels@[k]@.id != id@,
            decreases n - i,
        {
            if self.channels[i].id == *id {
                proof {
                    assert(self.channels@[i as int]@.id == id@);
                }
                return Some(i);
            }
            i += 1;
        }
        None
    }

    /// Position of the message row carrying `id`, if any.
    pub(crate) fn message_index(&self, id: &String) -> (r: Option<usize>)
        ensures
            r is Some <==> self.has_message(id@),
            r is Some ==> r.unwrap() < self.messages@.len()
                && self.messages@[r.unwrap() as int]@.message_id == id@,
    {
        let n = self.messages.len();
        let mut i: usize = 0;
        while i < n
            invariant
                n == self.messages@.len(),
                i <= n,
                forall|k: int| 0 <= k < i ==> #[trigger] self.messages@[k]@.message_id != id@,
            decreases n - i,
        {
            if self.messages[i].message_id == *id {
                proof {
                    assert(self.messages@[i as int]@.message_id == id@);
                }
                return Some(i);
            }
            i += 1;
        }
        None
    }

    /// Whether a membership row grants `user_id` access to `channel_id`.
    pub(crate) fn member_exists(&self, user_id: &String, channel_id: &String) -> (r: bool)
        ensures
            r == self.is_member(user_id@, channel_id@),
    {
        let n = self.memberships.len();
        let mut i: usize = 0;
        while i < n
            invariant
                n == self.memberships@.len(),
                i <= n,
                forall|k: int|
                    0 <= k < i ==> !(#[trigger] self.memberships@[k]@.channel_id == channel_id@
                        && self.memberships@[k]@.user_id == user_id@),
            decreases n - i,
        {
            if self.memberships[i].channel_id == *channel_id && self.memberships[i].user_id
                == *user_id {
                proof {
                    assert(self.memberships@[i as int]@.channel_id == channel_id@
                        && self.memberships@[i as int]@.user_id == user_id@);
                }
                return true;
            }
            i += 1;
        }
        false
    }

    // -----------------------------------------------------------------
    // The spec-level selectors pick the row a lookup finds.
    // -----------------------------------------------------------------

    /// Unique usernames make `user_named` pick exactly row `k`.
    pub proof fn lemma_user_named_at(self, k: int)
        requires
            self.users_wf(),
            0 <= k < self.users@.len(),
        ensures
            self.has_username(self.users@[k]@.username),
            self.user_named(self.users@[k]@.username) == self.users@[k]@,
    {
        let name = self.users@[k]@.username;
        assert(self.has_username(name));
        let j = choose|j: int| 0 <= j < self.users@.len() && #[trigger] self.users@[j]@.username
            == name;
        if j < k {
            assert(self.users@[j]@.username != self.users@[k]@.username);
        } else if k < j {
            assert(self.users@[k]@.username != self.users@[j]@.username);
        }
    }

    /// Unique user identifiers make `user_with_id` pick exactly row `k`.
    pub proof fn lemma_user_with_id_at(self, k: int)
        requires
            self.users_wf(),
            0 <= k < self.users@.len(),
        ensures
            self.has_user_id(self.users@[k]@.id),
            self.user_with_id(self.users@[k]@.id) == self.users@[k]@,
    {
        let id = self.users@[k]@.id;
        assert(self.has_user_id(id));
        let j = choose|j: int| 0 <= j < self.users@.len() && #[trigger] self.users@[j]@.id == id;
        if j < k {
            assert(self.users@[j]@.id != self.users@[k]@.id);
        } else if k < j {
            assert(self.users@[k]@.id != self.users@[j]@.id);
        }
    }

    /// Unique tokens make `session_user_id` read exactly row `k`.
    pub proof fn lemma_session_at(self, k: int)
        requires
            self.sessions_wf(),
            0 <= k < self.sessions@.len(),
        ensures
            self.has_session(self.sessions@[k]@.id),
            self.session_user_id(self.sessions@[k]@.id) == self.sessions@[k]@.user_id,
    {
        let token = self.sessions@[k]@.id;
        assert(self.has_session(token));
        let j = choose|j: int| 0 <= j < self.sessions@.len() && #[trigger] self.sessions@[j]@.id
            == token;
        if j < k {
            assert(self.sessions@[j]@.id != self.sessions@[k]@.id);
        } else if k < j {
            assert(self.sessions@[k]@.id != self.sessions@[j]@.id);
        }
    }

    /// Unique channel identifiers make `channel_with_id` pick exactly row `k`.
    pub proof fn lemma_channel_at(self, k: int)
        requires
            self.channels_wf(),
            0 <= k < self.channels@.len(),
        ensures
            self.has_channel(self.channels@[k]@.id),
            self.channel_with_id(self.channels@[k]@.id) == self.channels@[k]@,
    {
        let id = self.channels@[k]@.id;
        assert(self.has_channel(id));
        let j = choose|j: int| 0 <= j < self.channels@.len() && #[trigger] self.channels@[j]@.id
            == id;
        if j < k {
            assert(self.channels@[j]@.id != self.channels@[k]@.id);
        } else if k < j {
            assert(self.channels@[k]@.id != self.channels@[j]@.id);
        }
    }

    /// Unique message identifiers make `message_pos` pick exactly row `k`.
    pub proof fn lemma_message_at(self, k: int)
        requires
            self.messages_wf(),
            0 <= k < self.messages@.len(),
        ensures
            self.has_message(self.messages@[k]@.message_id),
            self.message_pos(self.messages@[k]@.message_id) == k,
            self.message_with_id(self.messages@[k]@.message_id) == self.messages@[k]@,
    {
        let id = self.messages@[k]@.message_id;
        assert(self.has_message(id));
        let j = choose|j: int| 0 <= j < self.messages@.len() && #[trigger] self.messages@[j]@.message_id
            == id;
        if j < k {
            assert(self.messages@[j]@.message_id != self.messages@[k]@.message_id);
        } else if k < j {
            assert(self.messages@[k]@.message_id != self.messages@[j]@.message_id);
        }
    }

    /// Files `m` at its place in creation order, older messages first; a
    /// message never overtakes an already stored one of the same instant.
    pub(crate) fn insert_message_sorted(&mut self, m: Message)
        requires
            sorted_by_time(old(self).messages@),
        ensures
            final(self).users == old(self).users,
            final(self).sessions == old(self).sessions,
            final(self).channels == old(self).channels,
            final(self).memberships == old(self).memberships,
            exists|p: int|
                0 <= p <= old(self).messages@.len() && final(self).messages@ == old(
                    self,
                ).messages@.insert(p, m),
            sorted_by_time(final(self).messages@),
            final(self).messages@.len() == old(self).messages@.len() + 1,
    {
        let n = self.messages.len();
        let mut p: usize = 0;
        while p < n && self.messages[p].timestamp <= m.timestamp
            invariant
                n == self.messages@.len(),
                p <= n,
                *self == *old(self),
                forall|k: int| 0 <= k < p ==> #[trigger] self.messages@[k]@.timestamp <= m@.timestamp,
            decreases n - p,
        {
            p += 1;
        }
        proof {
            assert forall|k: int| p <= k < n implies #[trigger] self.messages@[k]@.timestamp
                > m@.timestamp by {
                assert(self.messages@[p as int]@.timestamp > m@.timestamp);
                assert(self.messages@[p as int]@.timestamp <= self.messages@[k]@.timestamp);
            }
            old(self).messages@.insert_ensures(p as int, m);
        }
        self.messages.insert(p, m);
        proof {
            let s = old(self).messages@;
            let t = self.messages@;
            assert forall|i: int, j: int| 0 <= i <= j < t.len() implies #[trigger] t[i]@.timestamp
                <= #[trigger] t[j]@.timestamp by {
                if i < p && j < p {
                } else if i == p as int && j == p as int {
                } else if i < p && j == p as int {
                } else if j > p {
                    assert(t[j] == s[j - 1]);
                    if i < p {
                    } else if i == p as int {
                    } else {
                        assert(t[i] == s[i - 1]);
                    }
                }
            }
        }
    }
}

// ---------------------------------------------------------------------------
// How each kind of write keeps the store well-formed.
// ---------------------------------------------------------------------------

/// A stored user keeps being stored when rows are only appended.
pub proof fn lemma_has_user_id_extend(pre: ChatStore, post: ChatStore, id: Seq<char>)
    requires
        pre.has_user_id(id),
        pre.users@.len() <= post.users@.len(),
        forall|k: int| 0 <= k < pre.users@.len() ==> post.users@[k] == pre.users@[k],
    ensures
        post.has_user_id(id),
{
    let w = choose|w: int| 0 <= w < pre.users@.len() && #[trigger] pre.users@[w]@.id == id;
    assert(post.users@[w] == pre.users@[w]);
    assert(post.users@[w]@.id == id);
}

/// A stored channel keeps being stored when rows are only appended.
pub proof fn lemma_has_channel_extend(pre: ChatStore, post: ChatStore, id: Seq<char>)
    requires
        pre.has_channel(id),
        pre.channels@.len() <= post.channels@.len(),
        forall|k: int| 0 <= k < pre.channels@.len() ==> post.channels@[k] == pre.channels@[k],
    ensures
        post.has_channel(id),
{
    let w = choose|w: int| 0 <= w < pre.channels@.len() && #[trigger] pre.channels@[w]@.id == id;
    assert(post.channels@[w] == pre.channels@[w]);
    assert(post.channels@[w]@.id == id);
}

/// A granted membership keeps being granted when rows are only appended.
pub proof fn lemma_is_member_extend(
    pre: ChatStore,
    post: ChatStore,
    user_id: Seq<char>,
    channel_id: Seq<char>,
)
    requires
        pre.is_member(user_id, channel_id),
        pre.memberships@.len() <= post.memberships@.len(),
        forall|k: int| 0 <= k < pre.memberships@.len() ==> post.memberships@[k] == pre.memberships@[k],
    ensures
        post.is_member(user_id, channel_id),
{
    let w = choose|w: int|
        0 <= w < pre.memberships@.len() && #[trigger] pre.memberships@[w]@.channel_id == channel_id
            && pre.memberships@[w]@.user_id == user_id;
    assert(post.memberships@[w] == pre.memberships@[w]);
    assert(post.memberships@[w]@.channel_id == channel_id && post.memberships@[w]@.user_id
        == user_id);
}

/// A channel with a member keeps one when rows are only appended.
pub proof fn lemma_channel_has_member_extend(pre: ChatStore, post: ChatStore, channel_id: Seq<char>)
    requires
        pre.channel_has_member(channel_id),
        pre.memberships@.len() <= post.memberships@.len(),
        forall|k: int| 0 <= k < pre.memberships@.len() ==> post.memberships@[k] == pre.memberships@[k],
    ensures
        post.channel_has_member(channel_id),
{
    let w = choose|w: int|
        0 <= w < pre.memberships@.len() && #[trigger] pre.memberships@[w]@.channel_id == channel_id;
    assert(post.memberships@[w] == pre.memberships@[w]);
    assert(post.memberships@[w]@.channel_id == channel_id);
}

/// Registration: appending a user whose identifier and username are fresh
/// keeps the store well-formed.
pub proof fn lemma_wf_after_user_push(pre: ChatStore, post: ChatStore, u: UserRecord)
    requires
        pre.wf(),
        post.users@ == pre.users@.push(u),
        !pre.has_user_id(u@.id),
        !pre.has_username(u@.username),
        post.sessions == pre.sessions,
        post.channels == pre.channels,
        post.memberships == pre.memberships,
        post.messages == pre.messages,
    ensures
        post.wf(),
{
    let n = pre.users@.len() as int;
    assert forall|i: int, j: int| 0 <= i < j < post.users@.len() implies #[trigger] post.users@[i]@.id
        != #[trigger] post.users@[j]@.id && post.users@[i]@.username != post.users@[j]@.username by {
        assert(post.users@[i] == pre.users@[i]);
        if j < n {
            assert(post.users@[j] == pre.users@[j]);
        } else {
            assert(post.users@[j] == u);
            assert(pre.users@[i]@.id != u@.id);
            assert(pre.users@[i]@.username != u@.username);
        }
    }
    assert forall|k: int| 0 <= k < post.sessions@.len() implies post.has_user_id(
        #[trigger] post.sessions@[k]@.user_id,
    ) by {
        assert(pre.has_user_id(pre.sessions@[k]@.user_id));
        lemma_has_user_id_extend(pre, post, pre.sessions@[k]@.user_id);
    }
    assert forall|k: int| 0 <= k < post.memberships@.len() implies post.has_channel(
        #[trigger] post.memberships@[k]@.channel_id,
    ) && post.has_user_id(post.memberships@[k]@.user_id) by {
        assert(pre.has_channel(pre.memberships@[k]@.channel_id));
        assert(pre.has_user_id(pre.memberships@[k]@.user_id));
        lemma_has_user_id_extend(pre, post, pre.memberships@[k]@.user_id);
    }
    assert forall|k: int| 0 <= k < post.channels@.len() implies post.channel_has_member(
        #[trigger] post.channels@[k]@.id,
    ) by {
        assert(pre.channel_has_member(pre.channels@[k]@.id));
        lemma_channel_has_member_extend(pre, post, pre.channels@[k]@.id);
    }
    assert forall|k: int| 0 <= k < post.messages@.len() implies post.has_user_id(
        #[trigger] post.messages@[k]@.user_id,
    ) && post.is_member(post.messages@[k]@.user_id, post.messages@[k]@.channel_id)
        && post.has_channel(post.messages@[k]@.channel_id) by {
        assert(pre.has_user_id(pre.messages@[k]@.user_id));
        assert(pre.is_member(pre.messages@[k]@.user_id, pre.messages@[k]@.channel_id));
        assert(pre.has_channel(pre.messages@[k]@.channel_id));
        lemma_has_user_id_extend(pre, post, pre.messages@[k]@.user_id);
    }
}

/// Sign-in: appending a session with a fresh token for a stored user keeps
/// the store well-formed.
pub proof fn lemma_wf_after_session_push(pre: ChatStore, post: ChatStore, s: SessionRecord)
    requires
        pre.wf(),
        post.sessions@ == pre.sessions@.push(s),
        !pre.has_session(s@.id),
        pre.has_user_id(s@.user_id),
        post.users == pre.users,
        post.channels == pre.channels,
        post.memberships == pre.memberships,
        post.messages == pre.messages,
    ensures
        post.wf(),
{
    let n = pre.sessions@.len() as int;
    assert forall|i: int, j: int| 0 <= i < j < post.sessions@.len() implies
        #[trigger] post.sessions@[i]@.id != #[trigger] post.sessions@[j]@.id by {
        assert(post.sessions@[i] == pre.sessions@[i]);
        if j < n {
            assert(post.sessions@[j] == pre.sessions@[j]);
        } else {
            assert(post.sessions@[j] == s);
            assert(pre.sessions@[i]@.id != s@.id);
        }
    }
    assert forall|k: int| 0 <= k < post.sessions@.len() implies post.has_user_id(
        #[trigger] post.sessions@[k]@.user_id,
    ) by {
        if k < n {
            assert(post.sessions@[k] == pre.sessions@[k]);
            assert(pre.has_user_id(pre.sessions@[k]@.user_id));
        } else {
            assert(post.sessions@[k] == s);
        }
    }
    assert forall|k: int| 0 <= k < post.memberships@.len() implies post.has_channel(
        #[trigger] post.memberships@[k]@.channel_id,
    ) && post.has_user_id(post.memberships@[k]@.user_id) by {
        assert(pre.has_channel(pre.memberships@[k]@.channel_id));
        assert(pre.has_user_id(pre.memberships@[k]@.user_id));
    }
    assert forall|k: int| 0 <= k < post.channels@.len() implies post.channel_has_member(
        #[trigger] post.channels@[k]@.id,
    ) by {
        assert(pre.channel_has_member(pre.channels@[k]@.id));
        lemma_channel_has_member_extend(pre, post, pre.channels@[k]@.id);
    }
}

/// Channel creation: appending a fresh channel together with its creator's
/// membership, as one unit, keeps the store well-formed.
pub proof fn lemma_wf_after_channel_create(
    pre: ChatStore,
    post: ChatStore,
    c: Channel,
    mb: MembershipRecord,
)
    requires
        pre.wf(),
        post.channels@ == pre.channels@.push(c),
        post.memberships@ == pre.memberships@.push(mb),
        mb@.channel_id == c@.id,
        pre.has_user_id(mb@.user_id),
        !pre.has_channel(c@.id),
        post.users == pre.users,
        post.sessions == pre.sessions,
        post.messages == pre.messages,
    ensures
        post.wf(),
{
    let nc = pre.channels@.len() as int;
    let nm = pre.memberships@.len() as int;
    assert forall|i: int, j: int| 0 <= i < j < post.channels@.len() implies
        #[trigger] post.channels@[i]@.id != #[trigger] post.channels@[j]@.id by {
        assert(post.channels@[i] == pre.channels@[i]);
        if j < nc {
            assert(post.channels@[j] == pre.channels@[j]);
        } else {
            assert(post.channels@[j] == c);
            assert(pre.channels@[i]@.id != c@.id);
        }
    }
    assert forall|k: int| 0 <= k < post.channels@.len() implies post.channel_has_member(
        #[trigger] post.channels@[k]@.id,
    ) by {
        if k < nc {
            assert(post.channels@[k] == pre.channels@[k]);
            assert(pre.channel_has_member(pre.channels@[k]@.id));
            lemma_channel_has_member_extend(pre, post, pre.channels@[k]@.id);
        } else {
            assert(post.channels@[k] == c);
            assert(post.memberships@[nm] == mb);
            assert(post.memberships@[nm]@.channel_id == post.channels@[k]@.id);
        }
    }
    assert forall|k: int| 0 <= k < post.memberships@.len() implies post.has_channel(
        #[trigger] post.memberships@[k]@.channel_id,
    ) && post.has_user_id(post.memberships@[k]@.user_id) by {
        if k < nm {
            assert(post.memberships@[k] == pre.memberships@[k]);
            assert(pre.has_channel(pre.memberships@[k]@.channel_id));
            lemma_has_channel_extend(pre, post, pre.memberships@[k]@.channel_id);
            assert(pre.has_user_id(pre.memberships@[k]@.user_id));
        } else {
            assert(post.memberships@[k] == mb);
            assert(post.channels@[nc] == c);
            assert(post.channels@[nc]@.id == mb@.channel_id);
        }
    }
    assert forall|i: int, j: int| 0 <= i < j < post.memberships@.len() implies !(
    #[trigger] post.memberships@[i]@.channel_id == #[trigger] post.memberships@[j]@.channel_id
        && post.memberships@[i]@.user_id == post.memberships@[j]@.user_id) by {
        assert(post.memberships@[i] == pre.memberships@[i]);
        if j < nm {
            assert(post.memberships@[j] == pre.memberships@[j]);
        } else {
            assert(post.memberships@[j] == mb);
            assert(pre.has_channel(pre.memberships@[i]@.channel_id));
            assert(pre.memberships@[i]@.channel_id != c@.id);
        }
    }
    assert forall|k: int| 0 <= k < post.messages@.len() implies post.has_user_id(
        #[trigger] post.messages@[k]@.user_id,
    ) && post.is_member(post.messages@[k]@.user_id, post.messages@[k]@.channel_id)
        && post.has_channel(post.messages@[k]@.channel_id) by {
        assert(pre.has_user_id(pre.messages@[k]@.user_id));
        assert(pre.is_member(pre.messages@[k]@.user_id, pre.messages@[k]@.channel_id));
        assert(pre.has_channel(pre.messages@[k]@.channel_id));
        lemma_is_member_extend(pre, post, pre.messages@[k]@.user_id, pre.messages@[k]@.channel_id);
        lemma_has_channel_extend(pre, post, pre.messages@[k]@.channel_id);
    }
}

/// Sending: inserting a message with a fresh identifier, a stored author
/// who is a member of a stored channel, at a place that keeps creation
/// order, keeps the store well-formed.
pub proof fn lemma_wf_after_message_insert(pre: ChatStore, post: ChatStore, m: Message, p: int)
    requires
        pre.wf(),
        0 <= p <= pre.messages@.len(),
        post.messages@ == pre.messages@.insert(p, m),
        sorted_by_time(post.messages@),
        !pre.has_message(m@.message_id),
        pre.has_user_id(m@.user_id),
        pre.is_member(m@.user_id, m@.channel_id),
        pre.has_channel(m@.channel_id),
        post.users == pre.users,
        post.sessions == pre.sessions,
        post.channels == pre.channels,
        post.memberships == pre.memberships,
    ensures
        post.wf(),
{
    pre.messages@.insert_ensures(p, m);
    assert forall|i: int, j: int| 0 <= i < j < post.messages@.len() implies
        #[trigger] post.messages@[i]@.message_id != #[trigger] post.messages@[j]@.message_id by {
        if i < p && j < p {
            assert(post.messages@[i] == pre.messages@[i]);
            assert(post.messages@[j] == pre.messages@[j]);
        } else if i < p && j == p {
            assert(post.messages@[i] == pre.messages@[i]);
            assert(post.messages@[j] == m);
            assert(pre.messages@[i]@.message_id != m@.message_id);
        } else if i < p && j > p {
            assert(post.messages@[i] == pre.messages@[i]);
            assert(post.messages@[j] == pre.messages@[j - 1]);
        } else if i == p {
            assert(post.messages@[i] == m);
            assert(post.messages@[j] == pre.messages@[j - 1]);
            assert(pre.messages@[j - 1]@.message_id != m@.message_id);
        } else {
            assert(post.messages@[i] == pre.messages@[i - 1]);
            assert(post.messages@[j] == pre.messages@[j - 1]);
        }
    }
    assert forall|k: int| 0 <= k < post.messages@.len() implies post.has_user_id(
        #[trigger] post.messages@[k]@.user_id,
    ) && post.is_member(post.messages@[k]@.user_id, post.messages@[k]@.channel_id)
        && post.has_channel(post.messages@[k]@.channel_id) by {
        if k < p {
            assert(post.messages@[k] == pre.messages@[k]);
            assert(pre.has_user_id(pre.messages@[k]@.user_id));
            assert(pre.is_member(pre.messages@[k]@.user_id, pre.messages@[k]@.channel_id));
            assert(pre.has_channel(pre.messages@[k]@.channel_id));
        } else if k == p {
            assert(post.messages@[k] == m);
        } else {
            assert(post.messages@[k] == pre.messages@[k - 1]);
            assert(pre.has_user_id(pre.messages@[k - 1]@.user_id));
            assert(pre.is_member(pre.messages@[k - 1]@.user_id, pre.messages@[k - 1]@.channel_id));
            assert(pre.has_channel(pre.messages@[k - 1]@.channel_id));
        }
    }
    assert forall|k: int| 0 <= k < post.memberships@.len() implies post.has_channel(
        #[trigger] post.memberships@[k]@.channel_id,
    ) && post.has_user_id(post.memberships@[k]@.user_id) by {
        assert(pre.has_channel(pre.memberships@[k]@.channel_id));
        assert(pre.has_user_id(pre.memberships@[k]@.user_id));
    }
    assert forall|k: int| 0 <= k < post.channels@.len() implies post.channel_has_member(
        #[trigger] post.channels@[k]@.id,
    ) by {
        assert(pre.channel_has_member(pre.channels@[k]@.id));
        lemma_channel_has_member_extend(pre, post, pre.channels@[k]@.id);
    }
}

/// Editing: replacing a message's body in place — identifier, author,
/// channel and instant untouched — keeps the store well-formed.
pub proof fn lemma_wf_after_message_body_update(pre: ChatStore, post: ChatStore, k: int)
    requires
        pre.wf(),
        0 <= k < pre.messages@.len(),
        post.messages@.len() == pre.messages@.len(),
        forall|j: int| 0 <= j < pre.messages@.len() && j != k ==> #[trigger] post.messages@[j]
            == pre.messages@[j],
        post.messages@[k]@.message_id == pre.messages@[k]@.message_id,
        post.messages@[k]@.user_id == pre.messages@[k]@.user_id,
        post.messages@[k]@.channel_id == pre.messages@[k]@.channel_id,
        post.messages@[k]@.timestamp == pre.messages@[k]@.timestamp,
        post.users == pre.users,
        post.sessions == pre.sessions,
        post.channels == pre.channels,
        post.memberships == pre.memberships,
    ensures
        post.wf(),
{
    assert forall|j: int| 0 <= j < post.messages@.len() implies #[trigger] post.messages@[j]@.message_id
        == pre.messages@[j]@.message_id && post.messages@[j]@.user_id == pre.messages@[j]@.user_id
        && post.messages@[j]@.channel_id == pre.messages@[j]@.channel_id
        && post.messages@[j]@.timestamp == pre.messages@[j]@.timestamp by {
        if j != k {
            assert(post.messages@[j] == pre.messages@[j]);
        }
    }
    assert forall|k2: int| 0 <= k2 < post.messages@.len() implies post.has_user_id(
        #[trigger] post.messages@[k2]@.user_id,
    ) && post.is_member(post.messages@[k2]@.user_id, post.messages@[k2]@.channel_id)
        && post.has_channel(post.messages@[k2]@.channel_id) by {
        assert(pre.has_user_id(pre.messages@[k2]@.user_id));
        assert(pre.is_member(pre.messages@[k2]@.user_id, pre.messages@[k2]@.channel_id));
        assert(pre.has_channel(pre.messages@[k2]@.channel_id));
    }
    assert forall|k: int| 0 <= k < post.memberships@.len() implies post.has_channel(
        #[trigger] post.memberships@[k]@.channel_id,
    ) && post.has_user_id(post.memberships@[k]@.user_id) by {
        assert(pre.has_channel(pre.memberships@[k]@.channel_id));
        assert(pre.has_user_id(pre.memberships@[k]@.user_id));
    }
    assert forall|k2: int| 0 <= k2 < post.channels@.len() implies post.channel_has_member(
        #[trigger] post.channels@[k2]@.id,
    ) by {
        assert(pre.channel_has_member(pre.channels@[k2]@.id));
        lemma_channel_has_member_extend(pre, post, pre.channels@[k2]@.id);
    }
}

/// Deletion: removing one message keeps the store well-formed.
pub proof fn lemma_wf_after_message_remove(pre: ChatStore, post: ChatStore, k: int)
    requires
        pre.wf(),
        0 <= k < pre.messages@.len(),
        post.messages@ == pre.messages@.remove(k),
        post.users == pre.users,
        post.sessions == pre.sessions,
        post.channels == pre.channels,
        post.memberships == pre.memberships,
    ensures
        post.wf(),
{
    pre.messages@.remove_ensures(k);
    assert forall|i: int, j: int| 0 <= i < j < post.messages@.len() implies
        #[trigger] post.messages@[i]@.message_id != #[trigger] post.messages@[j]@.message_id by {
        if i < k {
            assert(post.messages@[i] == pre.messages@[i]);
        } else {
            assert(post.messages@[i] == pre.messages@[i + 1]);
        }
        if j < k {
            assert(post.messages@[j] == pre.messages@[j]);
        } else {
            assert(post.messages@[j] == pre.messages@[j + 1]);
        }
    }
    assert forall|k2: int| 0 <= k2 < post.messages@.len() implies post.has_user_id(
        #[trigger] post.messages@[k2]@.user_id,
    ) && post.is_member(post.messages@[k2]@.user_id, post.messages@[k2]@.channel_id)
        && post.has_channel(post.messages@[k2]@.channel_id) by {
        let k3: int = if k2 < k {
            k2
        } else {
            k2 + 1
        };
        assert(post.messages@[k2] == pre.messages@[k3]);
        assert(pre.has_user_id(pre.messages@[k3]@.user_id));
        assert(pre.is_member(pre.messages@[k3]@.user_id, pre.messages@[k3]@.channel_id));
        assert(pre.has_channel(pre.messages@[k3]@.channel_id));
    }
    assert forall|i: int, j: int| 0 <= i <= j < post.messages@.len() implies
        #[trigger] post.messages@[i]@.timestamp <= #[trigger] post.messages@[j]@.timestamp by {
        let i2: int = if i < k {
            i
        } else {
            i + 1
        };
        let j2: int = if j < k {
            j
        } else {
            j + 1
        };
        assert(post.messages@[i] == pre.messages@[i2]);
        assert(post.messages@[j] == pre.messages@[j2]);
        assert(pre.messages@[i2]@.timestamp <= pre.messages@[j2]@.timestamp);
    }
    assert forall|k: int| 0 <= k < post.memberships@.len() implies post.has_channel(
        #[trigger] post.memberships@[k]@.channel_id,
    ) && post.has_user_id(post.memberships@[k]@.user_id) by {
        assert(pre.has_channel(pre.memberships@[k]@.channel_id));
        assert(pre.has_user_id(pre.memberships@[k]@.user_id));
    }
    assert forall|k2: int| 0 <= k2 < post.channels@.len() implies post.channel_has_member(
        #[trigger] post.channels@[k2]@.id,
    ) by {
        assert(pre.channel_has_member(pre.channels@[k2]@.id));
        lemma_channel_has_member_extend(pre, post, pre.channels@[k2]@.id);
    }
}

} // verus!
