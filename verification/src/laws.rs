use vstd::prelude::*;

verus! {

use crate::registry::{Participant, ParticipantView, has_id, name_of, room_of, view_of};
use crate::router::{all_ids, id_set, members};
use crate::lifecycle::{
    Notification, disconnect_post, join_post, leave_post, send_post,
};

/// A participant occupies at most one room at a time: the member sets of
/// two distinct rooms are disjoint, whatever the registry holds.
pub proof fn lemma_rooms_disjoint(s: Seq<Participant>, r1: Seq<char>, r2: Seq<char>)
    requires
        r1 != r2,
    ensures
        members(s, r1).disjoint(members(s, r2)),
{
    assert forall|id: Seq<char>| members(s, r1).contains(id) implies !members(s, r2).contains(
        id,
    ) by {
        assert(room_of(s, id) == Some(r1));
    }
}

/// Joining room B right after joining room A moves the participant: it is
/// absent from A's member set and present in B's.
pub proof fn lemma_rejoin_moves(
    s0: Seq<Participant>,
    s1: Seq<Participant>,
    s2: Seq<Participant>,
    id: Seq<char>,
    room_a: Seq<char>,
    room_b: Seq<char>,
    name_a: Seq<char>,
    name_b: Seq<char>,
    notes1: Seq<Notification>,
    notes2: Seq<Notification>,
)
    requires
        has_id(s0, id),
        join_post(s0, s1, id, room_a, name_a, notes1),
        join_post(s1, s2, id, room_b, name_b, notes2),
        room_a != room_b,
    ensures
        !members(s2, room_a).contains(id),
        members(s2, room_b).contains(id),
{
    assert(room_of(s2, id) == Some(room_b));
}

/// A message with no explicit target from a sender whose current room is
/// `r` goes to exactly the other members of `r`.
pub proof fn lemma_send_falls_back_to_room(
    s: Seq<Participant>,
    id: Seq<char>,
    content: Seq<char>,
    mid: Seq<char>,
    ts: u64,
    r: Seq<char>,
    notes: Seq<Notification>,
)
    requires
        has_id(s, id),
        room_of(s, id) == Some(r),
        send_post(s, id, content, None, mid, ts, notes),
    ensures
        notes.len() == 1,
        notes[0] matches Notification::NewMessage { recipients, message } && id_set(recipients@)
            == members(s, r).remove(id),
{
}

/// A message with no explicit target from a roomless sender goes to every
/// connected participant but the sender.
pub proof fn lemma_send_broadcasts_from_lobby(
    s: Seq<Participant>,
    id: Seq<char>,
    content: Seq<char>,
    mid: Seq<char>,
    ts: u64,
    notes: Seq<Notification>,
)
    requires
        has_id(s, id),
        room_of(s, id) is None,
        send_post(s, id, content, None, mid, ts, notes),
    ensures
        notes.len() == 1,
        notes[0] matches Notification::NewMessage { recipients, message } && id_set(recipients@)
            == all_ids(s).remove(id),
{
}

/// A disconnect removes the participant from the listing and from every
/// room's member set.
pub proof fn lemma_disconnect_removes(
    s0: Seq<Participant>,
    s1: Seq<Participant>,
    id: Seq<char>,
    notes: Seq<Notification>,
)
    requires
        disconnect_post(s0, s1, id, notes),
    ensures
        !all_ids(s1).contains(id),
        forall|r: Seq<char>| !(#[trigger] members(s1, r)).contains(id),
{
}

/// After the record for `id` is gone, a send from `id` emits nothing and a
/// leave by `id` changes nothing and emits nothing.
pub proof fn lemma_stale_id_is_silent(
    s1: Seq<Participant>,
    s2: Seq<Participant>,
    id: Seq<char>,
    content: Seq<char>,
    target: Option<Seq<char>>,
    mid: Seq<char>,
    ts: u64,
    notes_send: Seq<Notification>,
    notes_leave: Seq<Notification>,
)
    requires
        !has_id(s1, id),
        send_post(s1, id, content, target, mid, ts, notes_send),
        leave_post(s1, s2, id, notes_leave),
    ensures
        notes_send.len() == 0,
        notes_leave.len() == 0,
        s2 == s1,
{
}

/// A join followed at once by a lookup of the same id shows exactly the
/// joined room and the given display name.
pub proof fn lemma_join_then_get(
    s0: Seq<Participant>,
    s1: Seq<Participant>,
    id: Seq<char>,
    room: Seq<char>,
    username: Seq<char>,
    notes: Seq<Notification>,
)
    requires
        has_id(s0, id),
        join_post(s0, s1, id, room, username, notes),
    ensures
        has_id(s1, id),
        view_of(s1, id) == (ParticipantView { id: id, username: username, room: Some(room) }),
        room_of(s1, id) == Some(room),
        name_of(s1, id) == username,
{
}

} // verus!
