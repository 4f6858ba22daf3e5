use vstd::prelude::*;

verus! {

use crate::registry::{
    Participant, Registry, has_id, idx_of, lemma_idx_of, lemma_view_of, opt_view, room_of,
    unique_ids,
};

/// The connection ids a delivery list reaches, as a set.
pub open spec fn id_set(rs: Seq<String>) -> Set<Seq<char>> {
    Set::new(|id: Seq<char>| exists|i: int| 0 <= i < rs.len() && rs[i]@ == id)
}

/// No connection id appears twice in a delivery list.
pub open spec fn distinct_ids(rs: Seq<String>) -> bool {
    forall|i: int, j: int|
        0 <= i < rs.len() && 0 <= j < rs.len() && i != j ==> rs[i]@ != rs[j]@
}

/// The member set of `room`: every participant whose current room is `room`.
pub open spec fn members(s: Seq<Participant>, room: Seq<char>) -> Set<Seq<char>> {
    Set::new(|id: Seq<char>| has_id(s, id) && room_of(s, id) == Some(room))
}

/// The ids of all connected participants.
pub open spec fn all_ids(s: Seq<Participant>) -> Set<Seq<char>> {
    Set::new(|id: Seq<char>| has_id(s, id))
}

/// Who receives a message from `sender` resolved to `room`: the room's
/// other members, or, with no room, everybody else.
pub open spec fn recipient_set(
    s: Seq<Participant>,
    sender: Seq<char>,
    room: Option<Seq<char>>,
) -> Set<Seq<char>> {
    match room {
        Some(r) => members(s, r).remove(sender),
        None => all_ids(s).remove(sender),
    }
}

/// The participant `id` passes the fan-out filter: in `room` when one is
/// given, and not the excluded id when one is given.
pub open spec fn selected(
    s: Seq<Participant>,
    id: Seq<char>,
    room: Option<Seq<char>>,
    excl: Option<Seq<char>>,
) -> bool {
    has_id(s, id) && (match room {
        Some(r) => room_of(s, id) == Some(r),
        None => true,
    }) && (match excl {
        Some(e) => id != e,
        None => true,
    })
}

/// The record at index `k` passes the fan-out filter.
pub open spec fn selected_at(
    s: Seq<Participant>,
    k: int,
    room: Option<Seq<char>>,
    excl: Option<Seq<char>>,
) -> bool {
    (match room {
        Some(r) => s[k]@.room == Some(r),
        None => true,
    }) && (match excl {
        Some(e) => s[k]@.id != e,
        None => true,
    })
}

/// Collect the ids of every record that passes the fan-out filter.
fn collect_ids(reg: &Registry, room: &Option<String>, excl: &Option<String>) -> (r: Vec<String>)
    requires
        reg.wf(),
    ensures
        id_set(r@) == Set::new(
            |id: Seq<char>| selected(reg@, id, opt_view(*room), opt_view(*excl)),
        ),
        distinct_ids(r@),
{
    let ghost rv = opt_view(*room);
    let ghost ev = opt_view(*excl);
    let mut out: Vec<String> = Vec::new();
    let ghost mut src = Seq::<int>::empty();
    let mut i: usize = 0;
    while i < reg.users.len()
        invariant
            reg.wf(),
            i <= reg@.len(),
            rv == opt_view(*room),
            ev == opt_view(*excl),
            distinct_ids(out@),
            src.len() == out@.len(),
            forall|j: int| #![trigger src[j]]
                0 <= j < out@.len() ==> 0 <= src[j] < i && reg@[src[j]]@.id == out@[j]@
                    && selected_at(reg@, src[j], rv, ev),
            forall|k: int| #![trigger reg@[k]]
                0 <= k < i && selected_at(reg@, k, rv, ev) ==> exists|j: int|
                    #![trigger out@[j]]
                    0 <= j < out@.len() && out@[j]@ == reg@[k]@.id,
        decreases reg@.len() - i,
    {
        let p = &reg.users[i];
        let room_ok: bool = match room {
            Some(r) => match &p.room {
                Some(pr) => *pr == *r,
                None => false,
            },
            None => true,
        };
        let excl_ok: bool = match excl {
            Some(e) => !(p.id == *e),
            None => true,
        };
        if room_ok && excl_ok {
            assert(selected_at(reg@, i as int, rv, ev));
            assert forall|j: int| 0 <= j < out@.len() implies out@[j]@ != reg@[i as int]@.id by {
                assert(0 <= src[j] < i && reg@[src[j]]@.id == out@[j]@);
            }
            let ghost out0 = out@;
            out.push(p.id.clone());
            proof {
                src = src.push(i as int);
                assert(out@[out0.len() as int]@ == reg@[i as int]@.id);
                assert forall|k: int| #![trigger reg@[k]]
                    0 <= k < i + 1 && selected_at(reg@, k, rv, ev) implies exists|j: int|
                    #![trigger out@[j]]
                    0 <= j < out@.len() && out@[j]@ == reg@[k]@.id by {
                    if k < i {
                        let j = choose|j: int| 0 <= j < out0.len() && out0[j]@ == reg@[k]@.id;
                        assert(out@[j] == out0[j]);
                        assert(out@[j]@ == reg@[k]@.id);
                    } else {
                        assert(out@[out0.len() as int]@ == reg@[k]@.id);
                    }
                }
            }
        } else {
            assert(!selected_at(reg@, i as int, rv, ev));
            proof {
                assert forall|k: int| #![trigger reg@[k]]
                    0 <= k < i + 1 && selected_at(reg@, k, rv, ev) implies exists|j: int|
                    #![trigger out@[j]]
                    0 <= j < out@.len() && out@[j]@ == reg@[k]@.id by {
                    assert(k != i);
                }
            }
        }
        i += 1;
    }
    proof {
        assert forall|id: Seq<char>| id_set(out@).contains(id) implies selected(
            reg@,
            id,
            rv,
            ev,
        ) by {
            let j = choose|j: int| 0 <= j < out@.len() && out@[j]@ == id;
            assert(0 <= src[j] < reg@.len() && reg@[src[j]]@.id == out@[j]@ && selected_at(
                reg@,
                src[j],
                rv,
                ev,
            ));
            lemma_idx_of(reg@, src[j]);
        }
        assert forall|id: Seq<char>| selected(reg@, id, rv, ev) implies id_set(out@).contains(
            id,
        ) by {
            lemma_view_of(reg@, id);
            let k = idx_of(reg@, id);
            assert(selected_at(reg@, k, rv, ev));
        }
        assert(id_set(out@) =~= Set::new(|id: Seq<char>| selected(reg@, id, rv, ev)));
    }
    out
}

/// Every participant whose current room is `room`, read off the registry.
pub fn members_of(reg: &Registry, room: &String) -> (r: Vec<String>)
    requires
        reg.wf(),
    ensures
        id_set(r@) == members(reg@, room@),
        distinct_ids(r@),
{
    let target: Option<String> = Some(room.clone());
    let none_excl: Option<String> = None;
    let r = collect_ids(reg, &target, &none_excl);
    proof {
        assert(id_set(r@) =~= members(reg@, room@));
    }
    r
}

/// The delivery list for a message from `sender` whose resolved target is
/// `room`: the room's other members, or everybody but the sender when no
/// room is given.
pub fn recipients_for(reg: &Registry, sender: &String, room: &Option<String>) -> (r: Vec<String>)
    requires
        reg.wf(),
    ensures
        id_set(r@) == recipient_set(reg@, sender@, opt_view(*room)),
        distinct_ids(r@),
{
    let excl: Option<String> = Some(sender.clone());
    let r = collect_ids(reg, room, &excl);
    proof {
        assert(id_set(r@) =~= recipient_set(reg@, sender@, opt_view(*room)));
    }
    r
}

} // verus!
