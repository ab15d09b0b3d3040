//! The ids that each side of a packet-stream gives to the requests and duplexes
//! that it opens: 1, 2, 3 and so on, and after the largest one from 1 again.
use vstd::prelude::*;

use crate::wire::PacketId;

verus! {

/// The id after `id`.
pub open spec fn following(id: PacketId) -> PacketId {
    if id == i32::MAX {
        1
    } else {
        (id + 1) as PacketId
    }
}

/// The id `n` places after `id`.
pub open spec fn nth_after(id: PacketId, n: nat) -> PacketId
    decreases n,
{
    if n == 0 {
        id
    } else {
        following(nth_after(id, (n - 1) as nat))
    }
}

/// The id of the packets that answer those with `id`.
pub open spec fn answering(id: PacketId) -> PacketId {
    (-id) as PacketId
}

/// Returns the id after `id`.
pub(crate) fn increment(id: PacketId) -> (r: PacketId)
    requires
        1 <= id,
    ensures
        r == following(id),
        1 <= r,
{
    if id == i32::MAX {
        1
    } else {
        id + 1
    }
}

/// An id and the one that answers it add up to zero. What answers an answer has the id
/// that was answered. An id that opens something is positive, one that answers it is
/// not.
pub proof fn law_answering(id: PacketId)
    requires
        1 <= id,
    ensures
        answering(id) + id == 0,
        answering(answering(id)) == id,
        answering(id) < 0,
{
}

/// Ids count from 1 to the largest one, over and over.
pub proof fn law_ids_count(n: nat)
    ensures
        nth_after(1, n) == n % (i32::MAX as nat) + 1,
    decreases n,
{
    if n > 0 {
        law_ids_count((n - 1) as nat);
    }
}

/// No id is used again before all of them have been.
pub proof fn law_ids_distinct(n: nat, m: nat)
    requires
        n < m < n + i32::MAX,
    ensures
        nth_after(1, n) != nth_after(1, m),
{
    law_ids_count(n);
    law_ids_count(m);
}

} // verus!
