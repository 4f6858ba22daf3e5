use vstd::prelude::*;

verus! {

use crate::registry::{
    Participant, ParticipantView, Registry, RegistryError, has_id, name_of, opt_view, room_of,
    lemma_others_same_trans, others_same, view_of,
};
use crate::router::{distinct_ids, id_set, members, recipient_set, recipients_for};
use vstd::string::StringExecFns;

/// One routed chat message, snapshotted from the sender at send time.
pub struct Message {
    /// Unique per message, generated at send time.
    pub id: String,
    /// The sender's connection id, copied at send time.
    pub user_id: String,
    /// The sender's display name, copied at send time.
    pub username: String,
    /// Opaque text payload; the relay neither validates nor changes it.
    pub content: String,
    /// Seconds since a fixed epoch, captured at send time.
    pub timestamp: u64,
    /// The resolved target room; `None` means a global broadcast.
    pub room: Option<String>,
}

/// The mathematical image of one message.
pub ghost struct MessageView {
    pub id: Seq<char>,
    pub user_id: Seq<char>,
    pub username: Seq<char>,
    pub content: Seq<char>,
    pub timestamp: u64,
    pub room: Option<Seq<char>>,
}

impl View for Message {
    type V = MessageView;

    open spec fn view(&self) -> MessageView {
        MessageView {
            id: self.id@,
            user_id: self.user_id@,
            username: self.username@,
            content: self.content@,
            timestamp: self.timestamp,
            room: opt_view(self.room),
        }
    }
}

/// One emission the relay asks its transport to perform. Recipient lists
/// are explicit so that who-receives-what is part of each contract.
#[allow(inconsistent_fields)]
pub enum Notification {
    /// Private acknowledgment to a freshly connected participant.
    Welcome { to: String, socket_id: String, message: String },
    /// Told to the other members of the room someone just joined.
    UserJoined { recipients: Vec<String>, username: String, message: String },
    /// Private confirmation to the participant who just joined.
    RoomJoined { to: String, room: String, message: String },
    /// A chat message, fanned out to its resolved recipient set.
    NewMessage { recipients: Vec<String>, message: Message },
    /// Told to the remaining members of the room someone left.
    UserLeft { recipients: Vec<String>, username: String, message: String },
}

/// The private greeting sent to every new connection.
pub open spec fn welcome_text() -> Seq<char> {
    "Welcome to Axum Socket.IO server!"@
}

/// The private confirmation sent after a join.
pub open spec fn room_joined_text() -> Seq<char> {
    "Successfully joined room"@
}

/// The room announcement for a participant who joined.
pub open spec fn joined_message(u: Seq<char>) -> Seq<char> {
    u + " joined the room"@
}

/// The room announcement for a participant who left.
pub open spec fn left_message(u: Seq<char>) -> Seq<char> {
    u + " left the room"@
}

fn make_welcome_message() -> (r: String)
    ensures
        r@ == welcome_text(),
{
    String::from_str("Welcome to Axum Socket.IO server!")
}

fn make_room_joined_message() -> (r: String)
    ensures
        r@ == room_joined_text(),
{
    String::from_str("Successfully joined room")
}

fn make_joined_message(u: &String) -> (r: String)
    ensures
        r@ == joined_message(u@),
{
    u.clone().concat(" joined the room")
}

fn make_left_message(u: &String) -> (r: String)
    ensures
        r@ == left_message(u@),
{
    u.clone().concat(" left the room")
}

/// Relies on uuid::Uuid::new_v4, printed in its hyphenated text form:
/// a fresh random version-4 UUID, 36 characters long. Nothing further is
/// assumed of the drawn value.
#[verifier::external_body]
fn fresh_message_id() -> (r: String)
    ensures
        r@.len() == 36,
{
    uuid::Uuid::new_v4().to_string()
}

/// `n` is the private welcome for connection `id`.
pub open spec fn is_welcome(n: Notification, id: Seq<char>) -> bool {
    n matches Notification::Welcome { to, socket_id, message } && to@ == id && socket_id@ == id
        && message@ == welcome_text()
}

/// `n` announces that `u` joined, to exactly the recipient set `rcpts`.
pub open spec fn is_user_joined(n: Notification, rcpts: Set<Seq<char>>, u: Seq<char>) -> bool {
    n matches Notification::UserJoined { recipients, username, message } && id_set(recipients@)
        == rcpts && distinct_ids(recipients@) && username@ == u && message@ == joined_message(u)
}

/// `n` is the private join confirmation for `id` about `room`.
pub open spec fn is_room_joined(n: Notification, id: Seq<char>, rm: Seq<char>) -> bool {
    n matches Notification::RoomJoined { to, room, message } && to@ == id && room@ == rm
        && message@ == room_joined_text()
}

/// `n` announces that `u` left, to exactly the recipient set `rcpts`.
pub open spec fn is_user_left(n: Notification, rcpts: Set<Seq<char>>, u: Seq<char>) -> bool {
    n matches Notification::UserLeft { recipients, username, message } && id_set(recipients@)
        == rcpts && distinct_ids(recipients@) && username@ == u && message@ == left_message(u)
}

/// `n` carries the message `m` to exactly the recipient set `rcpts`.
pub open spec fn is_new_message(n: Notification, rcpts: Set<Seq<char>>, m: MessageView) -> bool {
    n matches Notification::NewMessage { recipients, message } && id_set(recipients@) == rcpts
        && distinct_ids(recipients@) && message@ == m
}

/// The room a message resolves to: its explicit target when present, else
/// the sender's current room, else none (global broadcast).
pub open spec fn eff_room(target: Option<Seq<char>>, own: Option<Seq<char>>) -> Option<
    Seq<char>,
> {
    if target is Some {
        target
    } else {
        own
    }
}

/// What a connect by `id` does: a fresh lobby record and a private welcome.
pub open spec fn connect_ok_post(
    s0: Seq<Participant>,
    s1: Seq<Participant>,
    id: Seq<char>,
    notes: Seq<Notification>,
) -> bool {
    &&& !has_id(s0, id)
    &&& has_id(s1, id)
    &&& view_of(s1, id) == (ParticipantView {
        id: id,
        username: Seq::<char>::empty(),
        room: None,
    })
    &&& others_same(s0, s1, id)
    &&& notes.len() == 1
    &&& is_welcome(notes[0], id)
}

/// What a join does: for a registered `id`, move it into `room` under the
/// given name and announce; for a stale `id`, a silent no-op.
pub open spec fn join_post(
    s0: Seq<Participant>,
    s1: Seq<Participant>,
    id: Seq<char>,
    room: Seq<char>,
    username: Seq<char>,
    notes: Seq<Notification>,
) -> bool {
    if !has_id(s0, id) {
        s1 == s0 && notes.len() == 0
    } else {
        &&& has_id(s1, id)
        &&& view_of(s1, id) == (ParticipantView { id: id, username: username, room: Some(room) })
        &&& others_same(s0, s1, id)
        &&& notes.len() == 2
        &&& is_user_joined(notes[0], members(s1, room).remove(id), username)
        &&& is_room_joined(notes[1], id, room)
    }
}

/// What a send does: for a registered sender, one message snapshot fanned
/// out to its resolved recipients; for a stale sender, a silent drop.
pub open spec fn send_post(
    s: Seq<Participant>,
    id: Seq<char>,
    content: Seq<char>,
    target: Option<Seq<char>>,
    mid: Seq<char>,
    ts: u64,
    notes: Seq<Notification>,
) -> bool {
    if !has_id(s, id) {
        notes.len() == 0
    } else {
        notes.len() == 1 && is_new_message(
            notes[0],
            recipient_set(s, id, eff_room(target, room_of(s, id))),
            MessageView {
                id: mid,
                user_id: id,
                username: name_of(s, id),
                content: content,
                timestamp: ts,
                room: eff_room(target, room_of(s, id)),
            },
        )
    }
}

/// What a leave does: for a participant in a room, clear the room and
/// announce to its remaining members; otherwise a silent no-op.
pub open spec fn leave_post(
    s0: Seq<Participant>,
    s1: Seq<Participant>,
    id: Seq<char>,
    notes: Seq<Notification>,
) -> bool {
    if !has_id(s0, id) {
        s1 == s0 && notes.len() == 0
    } else {
        match room_of(s0, id) {
            None => s1 == s0 && notes.len() == 0,
            Some(r) => {
                &&& has_id(s1, id)
                &&& view_of(s1, id) == (ParticipantView {
                    id: id,
                    username: name_of(s0, id),
                    room: None,
                })
                &&& others_same(s0, s1, id)
                &&& notes.len() == 1
                &&& is_user_left(notes[0], members(s0, r).remove(id), name_of(s0, id))
            },
        }
    }
}

/// What a disconnect does: the record is gone; if the participant was in a
/// room, its remaining members hear a departure first; repeated disconnects
/// change nothing.
pub open spec fn disconnect_post(
    s0: Seq<Participant>,
    s1: Seq<Participant>,
    id: Seq<char>,
    notes: Seq<Notification>,
) -> bool {
    &&& !has_id(s1, id)
    &&& others_same(s0, s1, id)
    &&& if !has_id(s0, id) {
        s1 == s0 && notes.len() == 0
    } else {
        match room_of(s0, id) {
            None => notes.len() == 0,
            Some(r) => notes.len() == 1 && is_user_left(
                notes[0],
                members(s0, r).remove(id),
                name_of(s0, id),
            ),
        }
    }
}

/// What a send with a generated message id does: `send_post` for some id,
/// whatever value the generator drew.
pub open spec fn send_any_post(
    s: Seq<Participant>,
    id: Seq<char>,
    content: Seq<char>,
    target: Option<Seq<char>>,
    ts: u64,
    notes: Seq<Notification>,
) -> bool {
    exists|mid: Seq<char>| send_post(s, id, content, target, mid, ts, notes)
}

/// Connect: register `id` and greet it privately. A duplicate id is a
/// defect, refused loudly and without any state change or emission.
pub fn handle_connect(reg: &mut Registry, id: &String) -> (r: Result<
    Vec<Notification>,
    RegistryError,
>)
    requires
        old(reg).wf(),
    ensures
        final(reg).wf(),
        r is Ok <==> !has_id(old(reg)@, id@),
        match r {
            Ok(notes) => connect_ok_post(old(reg)@, final(reg)@, id@, notes@),
            Err(e) => e == RegistryError::DuplicateIdentity && final(reg)@ == old(reg)@,
        },
{
    match reg.register(id) {
        Err(e) => Err(e),
        Ok(u) => {
            let mut notes: Vec<Notification> = Vec::new();
            notes.push(
                Notification::Welcome {
                    to: id.clone(),
                    socket_id: id.clone(),
                    message: make_welcome_message(),
                },
            );
            Ok(notes)
        },
    }
}

/// Join: move the registered participant `id` into `room` under
/// `username`, announce it to the room's other members and confirm
/// privately. A stale `id` makes this a silent no-op.
///
/// A participant already in another room leaves it implicitly; the old
/// room is abandoned silently, on purpose: only an explicit leave or a
/// disconnect announces a departure.
pub fn handle_join(reg: &mut Registry, id: &String, room: String, username: String) -> (notes:
    Vec<Notification>)
    requires
        old(reg).wf(),
    ensures
        final(reg).wf(),
        join_post(old(reg)@, final(reg)@, id@, room@, username@, notes@),
{
    let mut notes: Vec<Notification> = Vec::new();
    match reg.set_profile(id, username.clone(), room.clone()) {
        Err(e) => notes,
        Ok(u) => {
            let target: Option<String> = Some(room.clone());
            let recipients = recipients_for(reg, id, &target);
            let message = make_joined_message(&username);
            notes.push(Notification::UserJoined { recipients, username, message });
            notes.push(
                Notification::RoomJoined {
                    to: id.clone(),
                    room,
                    message: make_room_joined_message(),
                },
            );
            notes
        },
    }
}

/// Send: snapshot the registered sender, resolve the target room (explicit
/// target, else the sender's room, else global) and fan the message out to
/// everyone there but the sender. A stale sender drops the message silently.
pub fn handle_send(
    reg: &Registry,
    id: &String,
    content: String,
    target_room: Option<String>,
    message_id: String,
    timestamp: u64,
) -> (notes: Vec<Notification>)
    requires
        reg.wf(),
    ensures
        send_post(reg@, id@, content@, opt_view(target_room), message_id@, timestamp, notes@),
{
    let ghost tv = opt_view(target_room);
    let mut notes: Vec<Notification> = Vec::new();
    match reg.get(id) {
        None => notes,
        Some(user) => {
            let ghost uv = user@;
            let room: Option<String> = match target_room {
                Some(r) => Some(r),
                None => user.room,
            };
            proof {
                assert(opt_view(room) == eff_room(tv, uv.room));
            }
            let recipients = recipients_for(reg, id, &room);
            let message = Message {
                id: message_id,
                user_id: user.id,
                username: user.username,
                content,
                timestamp,
                room,
            };
            notes.push(Notification::NewMessage { recipients, message });
            notes
        },
    }
}

/// Send with a freshly generated message id. The contract promises the
/// same routing as `handle_send` for some message id, whatever value the
/// generator drew.
pub fn handle_send_at(
    reg: &Registry,
    id: &String,
    content: String,
    target_room: Option<String>,
    timestamp: u64,
) -> (notes: Vec<Notification>)
    requires
        reg.wf(),
    ensures
        send_any_post(reg@, id@, content@, opt_view(target_room), timestamp, notes@),
{
    let mid = fresh_message_id();
    let ghost m = mid@;
    let notes = handle_send(reg, id, content, target_room, mid, timestamp);
    proof {
        assert(send_post(reg@, id@, content@, opt_view(target_room), m, timestamp, notes@));
    }
    notes
}

/// Leave: announce the departure to the room's remaining members, then put
/// the participant back in the lobby. Roomless or stale ids are silent
/// no-ops.
pub fn handle_leave(reg: &mut Registry, id: &String) -> (notes: Vec<Notification>)
    requires
        old(reg).wf(),
    ensures
        final(reg).wf(),
        leave_post(old(reg)@, final(reg)@, id@, notes@),
{
    let mut notes: Vec<Notification> = Vec::new();
    match reg.get(id) {
        None => notes,
        Some(user) => {
            match user.room {
                None => notes,
                Some(room) => {
                    let target: Option<String> = Some(room);
                    let recipients = recipients_for(reg, id, &target);
                    let message = make_left_message(&user.username);
                    reg.clear_room(id);
                    notes.push(
                        Notification::UserLeft { recipients, username: user.username, message },
                    );
                    notes
                },
            }
        },
    }
}

/// Disconnect: behave as a leave first, then remove the record entirely.
/// Repeating a disconnect for the same id changes nothing.
pub fn handle_disconnect(reg: &mut Registry, id: &String) -> (notes: Vec<Notification>)
    requires
        old(reg).wf(),
    ensures
        final(reg).wf(),
        disconnect_post(old(reg)@, final(reg)@, id@, notes@),
{
    let ghost s0 = old(reg)@;
    let notes = handle_leave(reg, id);
    let ghost s1 = reg@;
    reg.unregister(id);
    proof {
        if has_id(s0, id@) && room_of(s0, id@) is Some {
            lemma_others_same_trans(s0, s1, reg@, id@);
        }
    }
    notes
}

/// One inbound lifecycle event, as issued by a connection.
pub enum Event {
    /// The connection has just been established.
    Connect,
    /// The connection is gone.
    Disconnect,
    /// Enter `room` under the display name `username`.
    Join { room: String, username: String },
    /// Route `content`, to `target_room` when given; `timestamp` is the
    /// send time in seconds since a fixed epoch, captured on arrival.
    Send { content: String, target_room: Option<String>, timestamp: u64 },
    /// Leave the current room, staying connected.
    Leave,
}

/// Feed one event from connection `id` through the relay. Every event is
/// handled as by the matching `handle_` function; only a duplicate connect
/// is refused.
pub fn dispatch(reg: &mut Registry, id: &String, event: Event) -> (r: Result<
    Vec<Notification>,
    RegistryError,
>)
    requires
        old(reg).wf(),
    ensures
        final(reg).wf(),
        event is Connect ==> (match r {
            Ok(notes) => connect_ok_post(old(reg)@, final(reg)@, id@, notes@),
            Err(e) => e == RegistryError::DuplicateIdentity && final(reg)@ == old(reg)@,
        }),
        event is Disconnect ==> (r matches Ok(notes) && disconnect_post(
            old(reg)@,
            final(reg)@,
            id@,
            notes@,
        )),
        event matches Event::Join { room, username } ==> (r matches Ok(notes) && join_post(
            old(reg)@,
            final(reg)@,
            id@,
            room@,
            username@,
            notes@,
        )),
        event matches Event::Send { content, target_room, timestamp } ==> (final(reg)@ == old(
            reg,
        )@ && (r matches Ok(notes) && send_any_post(
            old(reg)@,
            id@,
            content@,
            opt_view(target_room),
            timestamp,
            notes@,
        ))),
        event is Leave ==> (r matches Ok(notes) && leave_post(
            old(reg)@,
            final(reg)@,
            id@,
            notes@,
        )),
{
    match event {
        Event::Connect => handle_connect(reg, id),
        Event::Disconnect => Ok(handle_disconnect(reg, id)),
        Event::Join { room, username } => Ok(handle_join(reg, id, room, username)),
        Event::Send { content, target_room, timestamp } => Ok(
            handle_send_at(reg, id, content, target_room, timestamp),
        ),
        Event::Leave => Ok(handle_leave(reg, id)),
    }
}

} // verus!
