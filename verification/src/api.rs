use vstd::prelude::*;

use crate::entities::{
    Channel, ChannelV, MembershipRecord, Message, MessageV, SessionRecord, User, UserRecord,
};
use crate::errors::ApiError;
use crate::outside::{bcrypt_hash, bcrypt_matches, bcrypt_verify, fresh_uuid, now_timestamp};
use crate::store::{
    lemma_wf_after_channel_create, lemma_wf_after_message_body_update, lemma_wf_after_message_insert,
    lemma_wf_after_message_remove, lemma_wf_after_session_push, lemma_wf_after_user_push,
    sorted_by_time, ChatStore,
};

verus! {

// ---------------------------------------------------------------------------
// What a request may do, as mathematics.
// ---------------------------------------------------------------------------

/// The token names a session whose user may read the channel.
pub open spec fn can_see_channel(store: ChatStore, token: Seq<char>, channel_id: Seq<char>) -> bool {
    store.has_session(token) && store.has_channel(channel_id) && store.is_member(
        store.session_user_id(token),
        channel_id,
    )
}

/// The token names a session whose user may read the message: the user is
/// a member of the channel the message was posted to.
pub open spec fn can_see_message(store: ChatStore, token: Seq<char>, message_id: Seq<char>) -> bool {
    store.has_session(token) && store.has_message(message_id) && store.is_member(
        store.session_user_id(token),
        store.message_with_id(message_id).channel_id,
    )
}

/// The token names a session whose user may post to the channel: the user
/// is a member.  A channel nobody ever created has no members, so posting
/// to it is refused by this same predicate.
pub open spec fn can_post(store: ChatStore, token: Seq<char>, channel_id: Seq<char>) -> bool {
    store.has_session(token) && store.is_member(store.session_user_id(token), channel_id)
}

/// The token names a session whose user wrote the message: only the author
/// may edit or delete it.  A missing message fails this predicate just as
/// somebody else's message does.
pub open spec fn can_touch_message(
    store: ChatStore,
    token: Seq<char>,
    message_id: Seq<char>,
) -> bool {
    store.has_session(token) && store.has_message(message_id) && store.message_with_id(
        message_id,
    ).user_id == store.session_user_id(token)
}

/// The messages of one channel, in stored (creation) order.
pub open spec fn channel_messages(msgs: Seq<Message>, channel_id: Seq<char>) -> Seq<MessageV>
    decreases msgs.len(),
{
    if msgs.len() == 0 {
        Seq::empty()
    } else {
        let rest = channel_messages(msgs.drop_last(), channel_id);
        if msgs.last()@.channel_id == channel_id {
            rest.push(msgs.last()@)
        } else {
            rest
        }
    }
}

/// Listing a channel of a store kept in creation order yields messages of
/// that channel only, each a stored one, in ascending order of creation
/// time.
pub proof fn lemma_channel_messages_sorted(msgs: Seq<Message>, channel_id: Seq<char>)
    requires
        sorted_by_time(msgs),
    ensures
        forall|i: int|
            0 <= i < channel_messages(msgs, channel_id).len() ==> #[trigger] channel_messages(
                msgs,
                channel_id,
            )[i].channel_id == channel_id,
        forall|i: int|
            0 <= i < channel_messages(msgs, channel_id).len() ==> exists|k: int|
                0 <= k < msgs.len() && #[trigger] msgs[k]@ == #[trigger] channel_messages(
                    msgs,
                    channel_id,
                )[i],
        forall|i: int, j: int|
            0 <= i <= j < channel_messages(msgs, channel_id).len() ==> #[trigger] channel_messages(
                msgs,
                channel_id,
            )[i].timestamp <= #[trigger] channel_messages(msgs, channel_id)[j].timestamp,
    decreases msgs.len(),
{
    if msgs.len() == 0 {
    } else {
        let rest = msgs.drop_last();
        let n = msgs.len() as int;
        assert forall|i: int, j: int| 0 <= i <= j < rest.len() implies #[trigger] rest[i]@.timestamp
            <= #[trigger] rest[j]@.timestamp by {
            assert(rest[i] == msgs[i]);
            assert(rest[j] == msgs[j]);
        }
        lemma_channel_messages_sorted(rest, channel_id);
        let cr = channel_messages(rest, channel_id);
        let cm = channel_messages(msgs, channel_id);
        assert forall|i: int| 0 <= i < cr.len() implies exists|k: int|
            0 <= k < msgs.len() && #[trigger] msgs[k]@ == #[trigger] cr[i] by {
            let k = choose|k: int| 0 <= k < rest.len() && #[trigger] rest[k]@ == cr[i];
            assert(rest[k] == msgs[k]);
            assert(msgs[k]@ == cr[i]);
        }
        if msgs.last()@.channel_id == channel_id {
            assert(cm == cr.push(msgs.last()@));
            assert forall|i: int| 0 <= i < cm.len() implies exists|k: int|
                0 <= k < msgs.len() && #[trigger] msgs[k]@ == #[trigger] cm[i] by {
                if i < cr.len() {
                    assert(cm[i] == cr[i]);
                    let k = choose|k: int| 0 <= k < msgs.len() && #[trigger] msgs[k]@ == cr[i];
                    assert(msgs[k]@ == cm[i]);
                } else {
                    assert(cm[i] == msgs[n - 1]@);
                }
            }
            assert forall|i: int, j: int| 0 <= i <= j < cm.len() implies #[trigger] cm[i].timestamp
                <= #[trigger] cm[j].timestamp by {
                if j < cr.len() {
                    assert(cm[i] == cr[i] && cm[j] == cr[j]);
                } else if i < cr.len() {
                    assert(cm[i] == cr[i]);
                    assert(cm[j] == msgs[n - 1]@);
                    let k = choose|k: int| 0 <= k < msgs.len() && #[trigger] msgs[k]@ == cr[i];
                    assert(msgs[k]@.timestamp <= msgs[n - 1]@.timestamp);
                } else {
                    assert(cm[i] == msgs[n - 1]@ && cm[j] == msgs[n - 1]@);
                }
            }
        } else {
            assert(cm == cr);
        }
    }
}

// ---------------------------------------------------------------------------
// Session resolution.
// ---------------------------------------------------------------------------

/// The version tag the query surface reports.
pub fn api_version() -> (r: &'static str)
    ensures
        r@ == "0.1"@,
{
    "0.1"
}

/// Resolves a session token to the identifier of the user it stands for.
/// A miss is an ordinary absence, not a fault.
pub fn get_user(store: &ChatStore, auth_token: &String) -> (r: Option<String>)
    requires
        store.wf(),
    ensures
        r is Some <==> store.has_session(auth_token@),
        r is Some ==> r.unwrap()@ == store.session_user_id(auth_token@),
{
    match store.session_index(auth_token) {
        Some(i) => {
            proof {
                store.lemma_session_at(i as int);
            }
            Some(store.sessions[i].user_id.clone())
        },
        None => None,
    }
}

/// Like [`get_user`], but a miss becomes the authorization failure every
/// mutation reports for a bad token.
pub fn get_user_res(store: &ChatStore, auth_token: &String) -> (r: Result<
    String,
    crate::errors::ApiError,
>)
    requires
        store.wf(),
    ensures
        r is Ok <==> store.has_session(auth_token@),
        r is Ok ==> r.unwrap()@ == store.session_user_id(auth_token@),
        r is Err ==> r == Err::<String, crate::errors::ApiError>(
            crate::errors::ApiError::AuthorizationFailure,
        ),
{
    match get_user(store, auth_token) {
        Some(uid) => Ok(uid),
        None => Err(crate::errors::ApiError::AuthorizationFailure),
    }
}

// ---------------------------------------------------------------------------
// Queries.
// ---------------------------------------------------------------------------

/// The channels the token's user belongs to, in stored order.  An unknown
/// token sees an empty list, not an error.
pub open spec fn user_channels(channels: Seq<Channel>, store: ChatStore, user_id: Seq<char>) -> Seq<
    ChannelV,
>
    decreases channels.len(),
{
    if channels.len() == 0 {
        Seq::empty()
    } else {
        let rest = user_channels(channels.drop_last(), store, user_id);
        if store.is_member(user_id, channels.last()@.id) {
            rest.push(channels.last()@)
        } else {
            rest
        }
    }
}

/// All the channels the token's user is a member of.
pub fn channels(store: &ChatStore, token: &String) -> (r: Vec<Channel>)
    requires
        store.wf(),
    ensures
        !store.has_session(token@) ==> r@.len() == 0,
        store.has_session(token@) ==> {
            let uc = user_channels(store.channels@, *store, store.session_user_id(token@));
            r@.len() == uc.len() && forall|k: int| 0 <= k < r@.len() ==> #[trigger] r@[k]@ == uc[k]
        },
{
    let uid = match get_user(store, token) {
        Some(uid) => uid,
        None => {
            return Vec::new();
        },
    };
    let ghost uidv = store.session_user_id(token@);
    let n = store.channels.len();
    let mut out: Vec<Channel> = Vec::new();
    let mut i: usize = 0;
    while i < n
        invariant
            store.wf(),
            n == store.channels@.len(),
            i <= n,
            uid@ == uidv,
            out@.len() == user_channels(store.channels@.take(i as int), *store, uidv).len(),
            forall|k: int|
                0 <= k < out@.len() ==> #[trigger] out@[k]@ == user_channels(
                    store.channels@.take(i as int),
                    *store,
                    uidv,
                )[k],
        decreases n - i,
    {
        proof {
            assert(store.channels@.take(i + 1).drop_last() =~= store.channels@.take(i as int));
            assert(store.channels@.take(i + 1).last() == store.channels@[i as int]);
        }
        if store.member_exists(&uid, &store.channels[i].id) {
            out.push(store.channels[i].clone());
        }
        i += 1;
    }
    proof {
        assert(store.channels@.take(n as int) =~= store.channels@);
    }
    out
}

/// The requested channel, if the token's user may see it.
pub fn get_channel(store: &ChatStore, token: &String, channel_id: &String) -> (r: Option<Channel>)
    requires
        store.wf(),
    ensures
        r is Some <==> can_see_channel(*store, token@, channel_id@),
        r is Some ==> r.unwrap()@ == store.channel_with_id(channel_id@),
{
    let uidx = match store.session_index(token) {
        Some(i) => i,
        None => {
            return None;
        },
    };
    proof {
        store.lemma_session_at(uidx as int);
    }
    let cidx = match store.channel_index(channel_id) {
        Some(i) => i,
        None => {
            return None;
        },
    };
    proof {
        store.lemma_channel_at(cidx as int);
    }
    if store.member_exists(&store.sessions[uidx].user_id, channel_id) {
        Some(store.channels[cidx].clone())
    } else {
        None
    }
}

/// The requested message, if the token's user may see its channel.
pub fn get_message(store: &ChatStore, token: &String, message_id: &String) -> (r: Option<Message>)
    requires
        store.wf(),
    ensures
        r is Some <==> can_see_message(*store, token@, message_id@),
        r is Some ==> r.unwrap()@ == store.message_with_id(message_id@),
{
    let uidx = match store.session_index(token) {
        Some(i) => i,
        None => {
            return None;
        },
    };
    proof {
        store.lemma_session_at(uidx as int);
    }
    let midx = match store.message_index(message_id) {
        Some(i) => i,
        None => {
            return None;
        },
    };
    proof {
        store.lemma_message_at(midx as int);
    }
    if store.member_exists(&store.sessions[uidx].user_id, &store.messages[midx].channel_id) {
        Some(store.messages[midx].clone())
    } else {
        None
    }
}

impl Channel {
    /// All the messages of this channel, ordered by creation time
    /// ascending.
    pub fn messages(&self, store: &ChatStore) -> (r: Vec<Message>)
        requires
            store.wf(),
        ensures
            r@.len() == channel_messages(store.messages@, self@.id).len(),
            forall|k: int|
                0 <= k < r@.len() ==> #[trigger] r@[k]@ == channel_messages(
                    store.messages@,
                    self@.id,
                )[k],
            forall|i: int, j: int|
                0 <= i <= j < r@.len() ==> #[trigger] r@[i]@.timestamp <= #[trigger] r@[j]@.timestamp,
    {
        let n = store.messages.len();
        let mut out: Vec<Message> = Vec::new();
        let mut i: usize = 0;
        while i < n
            invariant
                n == store.messages@.len(),
                i <= n,
                out@.len() == channel_messages(store.messages@.take(i as int), self@.id).len(),
                forall|k: int|
                    0 <= k < out@.len() ==> #[trigger] out@[k]@ == channel_messages(
                        store.messages@.take(i as int),
                        self@.id,
                    )[k],
            decreases n - i,
        {
            proof {
                assert(store.messages@.take(i + 1).drop_last() =~= store.messages@.take(i as int));
                assert(store.messages@.take(i + 1).last() == store.messages@[i as int]);
            }
            if store.messages[i].channel_id == self.id {
                out.push(store.messages[i].clone());
            }
            i += 1;
        }
        proof {
            assert(store.messages@.take(n as int) =~= store.messages@);
            lemma_channel_messages_sorted(store.messages@, self@.id);
        }
        out
    }
}

impl Message {
    /// The user who wrote this message, as the public projection the query
    /// surface exposes (no picture is resolved here).  For a message held
    /// in a well-formed store the author is always found.
    pub fn author(&self, store: &ChatStore) -> (r: Option<User>)
        requires
            store.wf(),
        ensures
            r is Some <==> store.has_user_id(self@.user_id),
            r is Some ==> r.unwrap()@.id == store.user_with_id(self@.user_id).id
                && r.unwrap()@.username == store.user_with_id(self@.user_id).username
                && r.unwrap()@.profile_picture is None,
            store.has_message(self@.message_id) && store.message_with_id(self@.message_id).user_id
                == self@.user_id ==> r is Some,
    {
        proof {
            if store.has_message(self@.message_id) && store.message_with_id(
                self@.message_id,
            ).user_id == self@.user_id {
                let p = store.message_pos(self@.message_id);
                assert(store.has_user_id(store.messages@[p]@.user_id));
            }
        }
        match store.user_index_by_id(&self.user_id) {
            Some(i) => {
                proof {
                    store.lemma_user_with_id_at(i as int);
                }
                Some(
                    User::new(store.users[i].id.clone(), store.users[i].username.clone(), None),
                )
            },
            None => None,
        }
    }
}

// ---------------------------------------------------------------------------
// Mutations.  Each one either commits — leaving the store well-formed and
// changed exactly as stated — or fails, leaving the store untouched: no
// partial write is ever observable.
// ---------------------------------------------------------------------------

/// Registration: rejects a confirmation mismatch or a taken username as
/// invalid input, hashes the password, and stores the new user under a
/// fresh identifier, which it returns.  A hashing failure or an identifier
/// collision is a system failure.
pub fn create_user(
    store: &mut ChatStore,
    username: String,
    password: String,
    password_confirm: String,
) -> (r: Result<String, ApiError>)
    requires
        old(store).wf(),
    ensures
        final(store).wf(),
        r is Err ==> *final(store) == *old(store),
        r == Err::<String, ApiError>(ApiError::ValidationFailure) <==> (password@
            != password_confirm@ || old(store).has_username(username@)),
        r is Err ==> r == Err::<String, ApiError>(ApiError::ValidationFailure) || r == Err::<
            String,
            ApiError,
        >(ApiError::SystemFailure),
        r is Ok ==> {
            &&& password@ == password_confirm@
            &&& !old(store).has_username(username@)
            &&& !old(store).has_user_id(r.unwrap()@)
            &&& final(store).users@.len() == old(store).users@.len() + 1
            &&& forall|k: int|
                0 <= k < old(store).users@.len() ==> #[trigger] final(store).users@[k] == old(
                    store,
                ).users@[k]
            &&& final(store).users@.last()@.id == r.unwrap()@
            &&& final(store).users@.last()@.username == username@
            &&& bcrypt_matches(password@, final(store).users@.last()@.password_hash)
            &&& final(store).users@.last()@.profile_picture is None
            &&& final(store).sessions == old(store).sessions
            &&& final(store).channels == old(store).channels
            &&& final(store).memberships == old(store).memberships
            &&& final(store).messages == old(store).messages
        },
{
    if !(password == password_confirm) {
        return Err(ApiError::ValidationFailure);
    }
    if store.user_index_by_name(&username).is_some() {
        return Err(ApiError::ValidationFailure);
    }
    let hash = match bcrypt_hash(&password) {
        Some(h) => h,
        None => {
            return Err(ApiError::SystemFailure);
        },
    };
    let id = fresh_uuid();
    if store.user_index_by_id(&id).is_some() {
        return Err(ApiError::SystemFailure);
    }
    let u = UserRecord {
        id: id.clone(),
        username,
        password_hash: hash,
        profile_picture: None,
    };
    let ghost pre = *store;
    let ghost gu = u;
    store.users.push(u);
    proof {
        lemma_wf_after_user_push(pre, *store, gu);
    }
    Ok(id)
}

/// Sign-in against a caller-supplied token: checks the credentials and, on
/// success, stores a session under `token`.  Split out so that everything
/// after the token was drawn is deterministic and fully stated.  A bad
/// username and a bad password fail with the one same error; a token
/// collision is a system failure.
pub fn sign_in_with_token(
    store: &mut ChatStore,
    username: &String,
    password: &String,
    token: String,
) -> (r: Result<String, ApiError>)
    requires
        old(store).wf(),
    ensures
        final(store).wf(),
        r is Err ==> *final(store) == *old(store),
        r == Err::<String, ApiError>(ApiError::AuthenticationFailure) <==> !old(
            store,
        ).credentials_ok(username@, password@),
        r is Err ==> r == Err::<String, ApiError>(ApiError::AuthenticationFailure) || r == Err::<
            String,
            ApiError,
        >(ApiError::SystemFailure),
        old(store).credentials_ok(username@, password@) && !old(store).has_session(token@)
            ==> r is Ok,
        r is Ok ==> {
            &&& old(store).credentials_ok(username@, password@)
            &&& !old(store).has_session(token@)
            &&& r.unwrap()@ == token@
            &&& final(store).sessions@.len() == old(store).sessions@.len() + 1
            &&& forall|k: int|
                0 <= k < old(store).sessions@.len() ==> #[trigger] final(store).sessions@[k] == old(
                    store,
                ).sessions@[k]
            &&& final(store).sessions@.last()@.id == token@
            &&& final(store).sessions@.last()@.user_id == old(store).user_named(username@).id
            &&& final(store).has_session(token@)
            &&& final(store).session_user_id(token@) == old(store).user_named(username@).id
            &&& final(store).users == old(store).users
            &&& final(store).channels == old(store).channels
            &&& final(store).memberships == old(store).memberships
            &&& final(store).messages == old(store).messages
        },
{
    let uidx = match store.user_index_by_name(username) {
        Some(i) => i,
        None => {
            proof {
                if store.credentials_ok(username@, password@) {
                    let k = choose|k: int|
                        0 <= k < store.users@.len() && #[trigger] store.users@[k]@.username
                            == username@ && bcrypt_matches(
                            password@,
                            store.users@[k]@.password_hash,
                        );
                    assert(store.has_username(username@));
                }
            }
            return Err(ApiError::AuthenticationFailure);
        },
    };
    let ok = bcrypt_verify(password, &store.users[uidx].password_hash);
    if !ok {
        proof {
            if store.credentials_ok(username@, password@) {
                let k = choose|k: int|
                    0 <= k < store.users@.len() && #[trigger] store.users@[k]@.username == username@
                        && bcrypt_matches(password@, store.users@[k]@.password_hash);
                if k < uidx {
                    assert(store.users@[k]@.username != store.users@[uidx as int]@.username);
                } else if uidx < k {
                    assert(store.users@[uidx as int]@.username != store.users@[k]@.username);
                }
            }
        }
        return Err(ApiError::AuthenticationFailure);
    }
    proof {
        assert(store.users@[uidx as int]@.username == username@ && bcrypt_matches(
            password@,
            store.users@[uidx as int]@.password_hash,
        ));
    }
    if store.session_index(&token).is_some() {
        return Err(ApiError::SystemFailure);
    }
    let uid = store.users[uidx].id.clone();
    let s = SessionRecord { id: token.clone(), user_id: uid };
    let ghost pre = *store;
    let ghost gs = s;
    store.sessions.push(s);
    proof {
        assert(pre.users@[uidx as int]@.id == gs@.user_id);
        pre.lemma_user_named_at(uidx as int);
        lemma_wf_after_session_push(pre, *store, gs);
        store.lemma_session_at(store.sessions@.len() - 1);
    }
    Ok(token)
}

/// Sign-in: checks username and password and, on success, issues a fresh
/// session token for the user.  A bad username and a bad password fail
/// with the one same error, so a caller learns nothing about which was
/// wrong.
pub fn sign_in(store: &mut ChatStore, username: String, password: String) -> (r: Result<
    String,
    ApiError,
>)
    requires
        old(store).wf(),
    ensures
        final(store).wf(),
        r is Err ==> *final(store) == *old(store),
        r == Err::<String, ApiError>(ApiError::AuthenticationFailure) <==> !old(
            store,
        ).credentials_ok(username@, password@),
        r is Err ==> r == Err::<String, ApiError>(ApiError::AuthenticationFailure) || r == Err::<
            String,
            ApiError,
        >(ApiError::SystemFailure),
        r is Ok ==> {
            &&& old(store).credentials_ok(username@, password@)
            &&& final(store).sessions@.len() == old(store).sessions@.len() + 1
            &&& forall|k: int|
                0 <= k < old(store).sessions@.len() ==> #[trigger] final(store).sessions@[k] == old(
                    store,
                ).sessions@[k]
            &&& final(store).sessions@.last()@.id == r.unwrap()@
            &&& final(store).sessions@.last()@.user_id == old(store).user_named(username@).id
            &&& final(store).has_session(r.unwrap()@)
            &&& final(store).session_user_id(r.unwrap()@) == old(store).user_named(username@).id
            &&& final(store).users == old(store).users
            &&& final(store).channels == old(store).channels
            &&& final(store).memberships == old(store).memberships
            &&& final(store).messages == old(store).messages
        },
{
    let token = fresh_uuid();
    sign_in_with_token(store, &username, &password, token)
}

/// Posting against caller-supplied identifier and instant: checks the
/// session and the channel membership, then files the message.  Split out
/// so that everything after the identifier and the clock were drawn is
/// deterministic and fully stated.  An identifier collision is a system
/// failure.
pub fn send_message_with(
    store: &mut ChatStore,
    token: &String,
    message: String,
    channel_id: &String,
    message_id: String,
    timestamp: i64,
) -> (r: Result<Message, ApiError>)
    requires
        old(store).wf(),
    ensures
        final(store).wf(),
        r is Err ==> *final(store) == *old(store),
        r == Err::<Message, ApiError>(ApiError::AuthorizationFailure) <==> !can_post(
            *old(store),
            token@,
            channel_id@,
        ),
        r is Err ==> r == Err::<Message, ApiError>(ApiError::AuthorizationFailure) || r == Err::<
            Message,
            ApiError,
        >(ApiError::SystemFailure),
        can_post(*old(store), token@, channel_id@) && !old(store).has_message(message_id@)
            ==> r is Ok,
        r is Ok ==> {
            &&& can_post(*old(store), token@, channel_id@)
            &&& !old(store).has_message(message_id@)
            &&& r.unwrap()@.message_id == message_id@
            &&& r.unwrap()@.message == message@
            &&& r.unwrap()@.user_id == old(store).session_user_id(token@)
            &&& r.unwrap()@.channel_id == channel_id@
            &&& r.unwrap()@.timestamp == timestamp as int
            &&& final(store).has_message(message_id@)
            &&& final(store).message_with_id(message_id@) == r.unwrap()@
            &&& final(store).messages@.len() == old(store).messages@.len() + 1
            &&& exists|p: int|
                #![trigger final(store).messages@[p]]
                0 <= p < final(store).messages@.len() && final(store).messages@ == old(
                    store,
                ).messages@.insert(p, final(store).messages@[p]) && final(store).messages@[p]@
                    == r.unwrap()@
            &&& final(store).users == old(store).users
            &&& final(store).sessions == old(store).sessions
            &&& final(store).channels == old(store).channels
            &&& final(store).memberships == old(store).memberships
        },
{
    let uidx = match store.session_index(token) {
        Some(i) => i,
        None => {
            return Err(ApiError::AuthorizationFailure);
        },
    };
    proof {
        store.lemma_session_at(uidx as int);
    }
    let uid = store.sessions[uidx].user_id.clone();
    if !store.member_exists(&uid, channel_id) {
        return Err(ApiError::AuthorizationFailure);
    }
    if store.message_index(&message_id).is_some() {
        return Err(ApiError::SystemFailure);
    }
    proof {
        let w = choose|w: int|
            0 <= w < store.memberships@.len() && #[trigger] store.memberships@[w]@.channel_id
                == channel_id@ && store.memberships@[w]@.user_id == uid@;
        assert(store.has_channel(store.memberships@[w]@.channel_id));
    }
    let m = Message {
        message_id,
        user_id: uid,
        message,
        channel_id: channel_id.clone(),
        timestamp,
    };
    let ret = m.clone();
    let ghost pre = *store;
    let ghost gm = m;
    store.insert_message_sorted(m);
    proof {
        let p = choose|p: int|
            0 <= p <= pre.messages@.len() && store.messages@ == pre.messages@.insert(p, gm);
        pre.messages@.insert_ensures(p, gm);
        lemma_wf_after_message_insert(pre, *store, gm, p);
        store.lemma_message_at(p);
        assert(store.messages@ == pre.messages@.insert(p, store.messages@[p]));
    }
    Ok(ret)
}

/// Posting: resolves the session, checks that its user is a member of the
/// channel, and files the message under a fresh identifier with the
/// instant of posting.  A token nobody signed in, or a channel the user is
/// no member of, is an authorization failure.
pub fn send_message(
    store: &mut ChatStore,
    token: &String,
    message: String,
    channel_id: &String,
) -> (r: Result<Message, ApiError>)
    requires
        old(store).wf(),
    ensures
        final(store).wf(),
        r is Err ==> *final(store) == *old(store),
        r == Err::<Message, ApiError>(ApiError::AuthorizationFailure) <==> !can_post(
            *old(store),
            token@,
            channel_id@,
        ),
        r is Err ==> r == Err::<Message, ApiError>(ApiError::AuthorizationFailure) || r == Err::<
            Message,
            ApiError,
        >(ApiError::SystemFailure),
        r is Ok ==> {
            &&& can_post(*old(store), token@, channel_id@)
            &&& r.unwrap()@.message == message@
            &&& r.unwrap()@.user_id == old(store).session_user_id(token@)
            &&& r.unwrap()@.channel_id == channel_id@
            &&& !old(store).has_message(r.unwrap()@.message_id)
            &&& final(store).has_message(r.unwrap()@.message_id)
            &&& final(store).message_with_id(r.unwrap()@.message_id) == r.unwrap()@
            &&& final(store).messages@.len() == old(store).messages@.len() + 1
            &&& exists|p: int|
                #![trigger final(store).messages@[p]]
                0 <= p < final(store).messages@.len() && final(store).messages@ == old(
                    store,
                ).messages@.insert(p, final(store).messages@[p]) && final(store).messages@[p]@
                    == r.unwrap()@
            &&& final(store).users == old(store).users
            &&& final(store).sessions == old(store).sessions
            &&& final(store).channels == old(store).channels
            &&& final(store).memberships == old(store).memberships
        },
{
    let message_id = fresh_uuid();
    let timestamp = now_timestamp();
    send_message_with(store, token, message, channel_id, message_id, timestamp)
}

/// Editing: only the author's own session may change a message's body, and
/// nothing but the body changes.  A missing message and somebody else's
/// message fail with the one same error, and the store is untouched — so a
/// failed edit can be retried harmlessly.
pub fn update_message(
    store: &mut ChatStore,
    token: &String,
    message_id: &String,
    message: String,
) -> (r: Result<Message, ApiError>)
    requires
        old(store).wf(),
    ensures
        final(store).wf(),
        r is Ok <==> can_touch_message(*old(store), token@, message_id@),
        r is Err ==> r == Err::<Message, ApiError>(ApiError::AuthorizationFailure) && *final(store)
            == *old(store),
        r is Ok ==> {
            let k = old(store).message_pos(message_id@);
            &&& final(store).messages@.len() == old(store).messages@.len()
            &&& forall|j: int|
                0 <= j < old(store).messages@.len() && j != k ==> #[trigger] final(store).messages@[j]
                    == old(store).messages@[j]
            &&& final(store).messages@[k]@.message == message@
            &&& final(store).messages@[k]@.message_id == message_id@
            &&& final(store).messages@[k]@.user_id == old(store).messages@[k]@.user_id
            &&& final(store).messages@[k]@.channel_id == old(store).messages@[k]@.channel_id
            &&& final(store).messages@[k]@.timestamp == old(store).messages@[k]@.timestamp
            &&& r.unwrap()@ == final(store).messages@[k]@
            &&& final(store).has_message(message_id@)
            &&& final(store).message_with_id(message_id@) == r.unwrap()@
            &&& final(store).users == old(store).users
            &&& final(store).sessions == old(store).sessions
            &&& final(store).channels == old(store).channels
            &&& final(store).memberships == old(store).memberships
        },
{
    let uidx = match store.session_index(token) {
        Some(i) => i,
        None => {
            return Err(ApiError::AuthorizationFailure);
        },
    };
    proof {
        store.lemma_session_at(uidx as int);
    }
    let midx = match store.message_index(message_id) {
        Some(i) => i,
        None => {
            return Err(ApiError::AuthorizationFailure);
        },
    };
    proof {
        store.lemma_message_at(midx as int);
    }
    if !(store.messages[midx].user_id == store.sessions[uidx].user_id) {
        return Err(ApiError::AuthorizationFailure);
    }
    let ghost pre = *store;
    let m_old = store.messages.remove(midx);
    let m_new = Message {
        message_id: m_old.message_id,
        user_id: m_old.user_id,
        message,
        channel_id: m_old.channel_id,
        timestamp: m_old.timestamp,
    };
    let ret = m_new.clone();
    let ghost gm = m_new;
    store.messages.insert(midx, m_new);
    proof {
        pre.messages@.remove_ensures(midx as int);
        pre.messages@.remove(midx as int).insert_ensures(midx as int, gm);
        assert forall|j: int|
            0 <= j < pre.messages@.len() && j != midx implies #[trigger] store.messages@[j]
            == pre.messages@[j] by {
            if j < midx {
                assert(store.messages@[j] == pre.messages@.remove(midx as int)[j]);
            } else {
                assert(store.messages@[j] == pre.messages@.remove(midx as int)[j - 1]);
            }
        }
        lemma_wf_after_message_body_update(pre, *store, midx as int);
        store.lemma_message_at(midx as int);
    }
    Ok(ret)
}

/// Deletion: only the author's own session may delete a message; the
/// message is then gone, and its identifier is returned.  A missing
/// message and somebody else's message fail with the one same error, and
/// the store is untouched — so a failed or repeated delete is harmless.
pub fn delete_message(store: &mut ChatStore, token: &String, message_id: &String) -> (r: Result<
    String,
    ApiError,
>)
    requires
        old(store).wf(),
    ensures
        final(store).wf(),
        r is Ok <==> can_touch_message(*old(store), token@, message_id@),
        r is Err ==> r == Err::<String, ApiError>(ApiError::AuthorizationFailure) && *final(store)
            == *old(store),
        r is Ok ==> {
            &&& r.unwrap()@ == message_id@
            &&& final(store).messages@ == old(store).messages@.remove(
                old(store).message_pos(message_id@),
            )
            &&& !final(store).has_message(message_id@)
            &&& final(store).users == old(store).users
            &&& final(store).sessions == old(store).sessions
            &&& final(store).channels == old(store).channels
            &&& final(store).memberships == old(store).memberships
        },
{
    let uidx = match store.session_index(token) {
        Some(i) => i,
        None => {
            return Err(ApiError::AuthorizationFailure);
        },
    };
    proof {
        store.lemma_session_at(uidx as int);
    }
    let midx = match store.message_index(message_id) {
        Some(i) => i,
        None => {
            return Err(ApiError::AuthorizationFailure);
        },
    };
    proof {
        store.lemma_message_at(midx as int);
    }
    if !(store.messages[midx].user_id == store.sessions[uidx].user_id) {
        return Err(ApiError::AuthorizationFailure);
    }
    let ghost pre = *store;
    let _removed = store.messages.remove(midx);
    proof {
        pre.messages@.remove_ensures(midx as int);
        lemma_wf_after_message_remove(pre, *store, midx as int);
        if store.has_message(message_id@) {
            let j = choose|j: int|
                0 <= j < store.messages@.len() && #[trigger] store.messages@[j]@.message_id
                    == message_id@;
            if j < midx {
                assert(store.messages@[j] == pre.messages@[j]);
                assert(pre.messages@[j]@.message_id != pre.messages@[midx as int]@.message_id);
            } else {
                assert(store.messages@[j] == pre.messages@[j + 1]);
                assert(pre.messages@[midx as int]@.message_id != pre.messages@[j
                    + 1]@.message_id);
            }
        }
    }
    Ok(message_id.clone())
}

/// Channel creation against a caller-supplied identifier: checks the
/// session, then stores the channel and its creator's membership as one
/// unit.  Split out so that everything after the identifier was drawn is
/// deterministic and fully stated.  An identifier collision is a system
/// failure.
pub fn create_channel_with(
    store: &mut ChatStore,
    token: &String,
    channel_name: String,
    channel_id: String,
) -> (r: Result<Channel, ApiError>)
    requires
        old(store).wf(),
    ensures
        final(store).wf(),
        r is Err ==> *final(store) == *old(store),
        r == Err::<Channel, ApiError>(ApiError::AuthorizationFailure) <==> !old(store).has_session(
            token@,
        ),
        r is Err ==> r == Err::<Channel, ApiError>(ApiError::AuthorizationFailure) || r == Err::<
            Channel,
            ApiError,
        >(ApiError::SystemFailure),
        old(store).has_session(token@) && !old(store).has_channel(channel_id@) ==> r is Ok,
        r is Ok ==> {
            &&& old(store).has_session(token@)
            &&& !old(store).has_channel(channel_id@)
            &&& r.unwrap()@.id == channel_id@
            &&& r.unwrap()@.name == channel_name@
            &&& final(store).channels@.len() == old(store).channels@.len() + 1
            &&& forall|k: int|
                0 <= k < old(store).channels@.len() ==> #[trigger] final(store).channels@[k] == old(
                    store,
                ).channels@[k]
            &&& final(store).channels@.last()@ == r.unwrap()@
            &&& final(store).has_channel(channel_id@)
            &&& final(store).channel_with_id(channel_id@) == r.unwrap()@
            &&& final(store).memberships@.len() == old(store).memberships@.len() + 1
            &&& forall|k: int|
                0 <= k < old(store).memberships@.len() ==> #[trigger] final(store).memberships@[k]
                    == old(store).memberships@[k]
            &&& final(store).memberships@.last()@.channel_id == channel_id@
            &&& final(store).memberships@.last()@.user_id == old(store).session_user_id(token@)
            &&& final(store).is_member(old(store).session_user_id(token@), channel_id@)
            &&& final(store).users == old(store).users
            &&& final(store).sessions == old(store).sessions
            &&& final(store).messages == old(store).messages
        },
{
    let uidx = match store.session_index(token) {
        Some(i) => i,
        None => {
            return Err(ApiError::AuthorizationFailure);
        },
    };
    proof {
        store.lemma_session_at(uidx as int);
    }
    if store.channel_index(&channel_id).is_some() {
        return Err(ApiError::SystemFailure);
    }
    let uid = store.sessions[uidx].user_id.clone();
    let c = Channel { id: channel_id.clone(), name: channel_name.clone() };
    let mb = MembershipRecord { channel_id: channel_id.clone(), user_id: uid };
    let ghost pre = *store;
    let ghost gc = c;
    let ghost gmb = mb;
    store.channels.push(c);
    store.memberships.push(mb);
    proof {
        assert(pre.has_user_id(pre.sessions@[uidx as int]@.user_id));
        lemma_wf_after_channel_create(pre, *store, gc, gmb);
        store.lemma_channel_at(store.channels@.len() - 1);
        assert(store.memberships@[store.memberships@.len() - 1]@.channel_id == channel_id@
            && store.memberships@[store.memberships@.len() - 1]@.user_id == pre.session_user_id(
            token@,
        ));
    }
    Ok(Channel { id: channel_id, name: channel_name })
}

/// Channel creation: resolves the session and stores a channel under a
/// fresh identifier, with the creating user as its first member — one
/// atomic unit, so no channel ever exists without its creator as a member.
pub fn create_channel(store: &mut ChatStore, token: &String, channel_name: String) -> (r: Result<
    Channel,
    ApiError,
>)
    requires
        old(store).wf(),
    ensures
        final(store).wf(),
        r is Err ==> *final(store) == *old(store),
        r == Err::<Channel, ApiError>(ApiError::AuthorizationFailure) <==> !old(store).has_session(
            token@,
        ),
        r is Err ==> r == Err::<Channel, ApiError>(ApiError::AuthorizationFailure) || r == Err::<
            Channel,
            ApiError,
        >(ApiError::SystemFailure),
        r is Ok ==> {
            &&& old(store).has_session(token@)
            &&& r.unwrap()@.name == channel_name@
            &&& !old(store).has_channel(r.unwrap()@.id)
            &&& final(store).channels@.len() == old(store).channels@.len() + 1
            &&& forall|k: int|
                0 <= k < old(store).channels@.len() ==> #[trigger] final(store).channels@[k] == old(
                    store,
                ).channels@[k]
            &&& final(store).channels@.last()@ == r.unwrap()@
            &&& final(store).has_channel(r.unwrap()@.id)
            &&& final(store).channel_with_id(r.unwrap()@.id) == r.unwrap()@
            &&& final(store).memberships@.len() == old(store).memberships@.len() + 1
            &&& forall|k: int|
                0 <= k < old(store).memberships@.len() ==> #[trigger] final(store).memberships@[k]
                    == old(store).memberships@[k]
            &&& final(store).memberships@.last()@.channel_id == r.unwrap()@.id
            &&& final(store).memberships@.last()@.user_id == old(store).session_user_id(token@)
            &&& final(store).is_member(old(store).session_user_id(token@), r.unwrap()@.id)
            &&& final(store).users == old(store).users
            &&& final(store).sessions == old(store).sessions
            &&& final(store).messages == old(store).messages
        },
{
    let channel_id = fresh_uuid();
    create_channel_with(store, token, channel_name, channel_id)
}

} // verus!
