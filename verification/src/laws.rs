use vstd::prelude::*;

use crate::api::{can_see_message, channel_messages, lemma_channel_messages_sorted};
use crate::entities::{Message, MessageV};
use crate::outside::bcrypt_matches;
use crate::store::{sorted_by_time, ChatStore};

verus! {

// ---------------------------------------------------------------------------
// The laws of the library: what holds across calls, proved once and for
// all states.  Together with the contracts of the functions they speak
// of, they pin the behaviour the API promises.
// ---------------------------------------------------------------------------

/// Registering makes the credentials good: once a user stands in the store
/// with a hash that bcrypt accepts against `password` — exactly what a
/// successful `create_user` leaves behind — sign-in with that username and
/// password is owed a session (see `sign_in_with_token`: good credentials
/// and a fresh token give `Ok`).
pub proof fn lemma_register_then_credentials_ok(
    store: ChatStore,
    username: Seq<char>,
    password: Seq<char>,
)
    requires
        store.users@.len() > 0,
        store.users@.last()@.username == username,
        bcrypt_matches(password, store.users@.last()@.password_hash),
    ensures
        store.credentials_ok(username, password),
{
    let k = store.users@.len() - 1;
    assert(store.users@[k]@.username == username && bcrypt_matches(
        password,
        store.users@[k]@.password_hash,
    ));
}

/// With a stored username, sign-in is decided by that one user's stored
/// hash alone: the credentials are good exactly when bcrypt accepts the
/// password against it.  Any other password draws
/// `AuthenticationFailure` — the very error an unknown username draws
/// (see `sign_in`) — so a caller cannot tell a wrong password from a
/// username that was never registered.
pub proof fn lemma_credentials_decided_by_stored_hash(
    store: ChatStore,
    username: Seq<char>,
    password: Seq<char>,
)
    requires
        store.wf(),
        store.has_username(username),
    ensures
        store.credentials_ok(username, password) <==> bcrypt_matches(
            password,
            store.user_named(username).password_hash,
        ),
{
    let k = choose|k: int|
        0 <= k < store.users@.len() && #[trigger] store.users@[k]@.username == username;
    if store.credentials_ok(username, password) {
        let j = choose|j: int|
            0 <= j < store.users@.len() && #[trigger] store.users@[j]@.username == username
                && bcrypt_matches(password, store.users@[j]@.password_hash);
        if j < k {
            assert(store.users@[j]@.username != store.users@[k]@.username);
        } else if k < j {
            assert(store.users@[k]@.username != store.users@[j]@.username);
        }
    }
    if bcrypt_matches(password, store.user_named(username).password_hash) {
        assert(store.users@[k]@.username == username && bcrypt_matches(
            password,
            store.users@[k]@.password_hash,
        ));
    }
}

/// A username nobody registered has no good credentials, whatever the
/// password: sign-in refuses it with the same `AuthenticationFailure` as a
/// wrong password (see `sign_in`).
pub proof fn lemma_unknown_username_rejected(
    store: ChatStore,
    username: Seq<char>,
    password: Seq<char>,
)
    requires
        !store.has_username(username),
    ensures
        !store.credentials_ok(username, password),
{
    if store.credentials_ok(username, password) {
        let j = choose|j: int|
            0 <= j < store.users@.len() && #[trigger] store.users@[j]@.username == username
                && bcrypt_matches(password, store.users@[j]@.password_hash);
        assert(store.has_username(username));
    }
}

/// No channel exists without a member.  Creation stores the channel and
/// its creator's membership as one unit and memberships are never removed,
/// so this holds of every well-formed store.
pub proof fn lemma_no_channel_without_member(store: ChatStore, channel_id: Seq<char>)
    requires
        store.wf(),
        store.has_channel(channel_id),
    ensures
        store.channel_has_member(channel_id),
{
    let k = choose|k: int|
        0 <= k < store.channels@.len() && #[trigger] store.channels@[k]@.id == channel_id;
    assert(store.channel_has_member(store.channels@[k]@.id));
}

/// Listing a channel is strictly ascending in creation time wherever no
/// two of its messages share an instant: the clock gives microseconds, but
/// two posts in the same microsecond tie, so strictness needs the
/// distinctness hypothesis.
pub proof fn lemma_listing_strictly_ascending(msgs: Seq<Message>, channel_id: Seq<char>)
    requires
        sorted_by_time(msgs),
        forall|i: int, j: int|
            0 <= i < j < msgs.len() && #[trigger] msgs[i]@.channel_id == channel_id
                && #[trigger] msgs[j]@.channel_id == channel_id ==> msgs[i]@.timestamp
                != msgs[j]@.timestamp,
    ensures
        forall|i: int, j: int|
            0 <= i < j < channel_messages(msgs, channel_id).len() ==> #[trigger] channel_messages(
                msgs,
                channel_id,
            )[i].timestamp < #[trigger] channel_messages(msgs, channel_id)[j].timestamp,
    decreases msgs.len(),
{
    lemma_channel_messages_sorted(msgs, channel_id);
    if msgs.len() > 0 {
        let n = msgs.len() as int;
        let rest = msgs.drop_last();
        assert forall|i: int, j: int| 0 <= i <= j < rest.len() implies #[trigger] rest[i]@.timestamp
            <= #[trigger] rest[j]@.timestamp by {
            assert(rest[i] == msgs[i]);
            assert(rest[j] == msgs[j]);
        }
        assert forall|i: int, j: int|
            0 <= i < j < rest.len() && #[trigger] rest[i]@.channel_id == channel_id
                && #[trigger] rest[j]@.channel_id == channel_id implies rest[i]@.timestamp
            != rest[j]@.timestamp by {
            assert(rest[i] == msgs[i]);
            assert(rest[j] == msgs[j]);
            assert(msgs[i]@.channel_id == channel_id && msgs[j]@.channel_id == channel_id);
        }
        lemma_listing_strictly_ascending(rest, channel_id);
        lemma_channel_messages_sorted(rest, channel_id);
        let cr = channel_messages(rest, channel_id);
        let cm = channel_messages(msgs, channel_id);
        if msgs.last()@.channel_id == channel_id {
            assert(cm == cr.push(msgs.last()@));
            assert forall|i: int, j: int| 0 <= i < j < cm.len() implies #[trigger] cm[i].timestamp
                < #[trigger] cm[j].timestamp by {
                if j < cr.len() {
                    assert(cm[i] == cr[i] && cm[j] == cr[j]);
                } else {
                    assert(cm[i] == cr[i]);
                    assert(cm[j] == msgs[n - 1]@);
                    let k = choose|k: int| 0 <= k < rest.len() && #[trigger] rest[k]@ == cr[i];
                    assert(rest[k] == msgs[k]);
                    assert(cr[i].channel_id == channel_id);
                    assert(msgs[k]@.channel_id == channel_id);
                    assert(msgs[n - 1]@.channel_id == channel_id);
                    assert(msgs[k]@.timestamp != msgs[n - 1]@.timestamp);
                    assert(msgs[k]@.timestamp <= msgs[n - 1]@.timestamp);
                }
            }
        } else {
            assert(cm == cr);
        }
    }
}

/// Round trip: right after a send, fetching by the returned identifier
/// with the sender's own token is owed the very message that was stored —
/// same body, same author, same channel.  The hypotheses are exactly what
/// `send_message` ensures about the new store; the conclusion makes
/// `get_message` return it (see `get_message`).
pub proof fn lemma_send_then_get_round_trip(
    pre: ChatStore,
    post: ChatStore,
    token: Seq<char>,
    m: MessageV,
)
    requires
        pre.wf(),
        post.wf(),
        pre.has_session(token),
        post.sessions@ == pre.sessions@,
        post.memberships@ == pre.memberships@,
        post.has_message(m.message_id),
        post.message_with_id(m.message_id) == m,
        m.user_id == pre.session_user_id(token),
        pre.is_member(m.user_id, m.channel_id),
    ensures
        can_see_message(post, token, m.message_id),
        post.message_with_id(m.message_id) == m,
        post.session_user_id(token) == pre.session_user_id(token),
{
    let k = choose|k: int|
        0 <= k < pre.sessions@.len() && #[trigger] pre.sessions@[k]@.id == token;
    assert(post.sessions@[k] == pre.sessions@[k]);
    assert(post.sessions@[k]@.id == token);
    pre.lemma_session_at(k);
    post.lemma_session_at(k);
    let w = choose|w: int|
        0 <= w < pre.memberships@.len() && #[trigger] pre.memberships@[w]@.channel_id
            == m.channel_id && pre.memberships@[w]@.user_id == m.user_id;
    assert(post.memberships@[w] == pre.memberships@[w]);
    assert(post.memberships@[w]@.channel_id == m.channel_id && post.memberships@[w]@.user_id
        == m.user_id);
}

} // verus!

