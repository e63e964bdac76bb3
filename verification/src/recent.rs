//! The recent-payload memory: the last raw datagrams accepted from the peer,
//! oldest first, by which a datagram that arrives twice is recognised.

use crate::bytes::{copy_range, same_bytes};
use vstd::prelude::*;

verus! {

/// How many datagrams the memory holds at most.
pub const RECENT_CAPACITY: usize = 32;

/// The memory after a datagram was offered to it: unchanged if it holds the
/// datagram already; else the datagram is added at the end, and the oldest
/// entry leaves once there are more than `RECENT_CAPACITY`.
pub open spec fn remembered(seen: Seq<Seq<u8>>, datagram: Seq<u8>) -> Seq<Seq<u8>> {
    if seen.contains(datagram) {
        seen
    } else if seen.len() + 1 > RECENT_CAPACITY {
        seen.push(datagram).remove(0)
    } else {
        seen.push(datagram)
    }
}

/// A bounded first-in, first-out memory of raw datagrams.
pub struct RecentPayloads {
    entries: Vec<Vec<u8>>,
}

impl View for RecentPayloads {
    type V = Seq<Seq<u8>>;

    closed spec fn view(&self) -> Seq<Seq<u8>> {
        Seq::new(self.entries@.len(), |i: int| self.entries@[i]@)
    }
}

impl RecentPayloads {
    /// The memory never holds more than `RECENT_CAPACITY` datagrams, and
    /// none of them twice.
    pub open spec fn wf(&self) -> bool {
        self@.len() <= RECENT_CAPACITY && self@.no_duplicates()
    }

    /// An empty memory.
    pub fn new() -> (recent: RecentPayloads)
        ensures
            recent@ == Seq::<Seq<u8>>::empty(),
            recent.wf(),
    {
        let recent = RecentPayloads { entries: Vec::new() };
        proof {
            assert(recent@ =~= Seq::<Seq<u8>>::empty());
        }
        recent
    }

    /// The number of datagrams held.
    pub fn len(&self) -> (n: usize)
        ensures
            n == self@.len(),
    {
        self.entries.len()
    }

    /// Tells whether the memory holds these very bytes.
    pub fn contains(&self, datagram: &Vec<u8>) -> (found: bool)
        ensures
            found == self@.contains(datagram@),
    {
        let mut x: usize = 0;
        while x < self.entries.len()
            invariant
                x <= self.entries@.len(),
                forall|i: int| 0 <= i < x ==> self@[i] != datagram@,
            decreases self.entries@.len() - x,
        {
            if same_bytes(&self.entries[x], datagram) {
                proof {
                    assert(self@[x as int] == datagram@);
                }
                return true;
            }
            x += 1;
        }
        false
    }

    /// Offers a datagram to the memory. Returns `false`, and changes nothing,
    /// if the memory holds it already; else remembers it, lets the oldest
    /// entry go where the memory is full, and returns `true`.
    pub fn remember(&mut self, datagram: &Vec<u8>) -> (fresh: bool)
        requires
            old(self).wf(),
        ensures
            final(self).wf(),
            fresh == !old(self)@.contains(datagram@),
            final(self)@ == remembered(old(self)@, datagram@),
    {
        if self.contains(datagram) {
            return false;
        }
        let ghost before = self@;
        proof {
            remembered_stays_distinct(before, datagram@);
        }
        self.entries.push(copy_range(datagram, 0, datagram.len()));
        proof {
            assert(datagram@.subrange(0, datagram@.len() as int) =~= datagram@);
            assert(self@ =~= before.push(datagram@));
        }
        if self.entries.len() > RECENT_CAPACITY {
            let _ = self.entries.remove(0);
            proof {
                assert(self@ =~= before.push(datagram@).remove(0));
            }
        }
        true
    }

    /// Forgets every datagram.
    pub fn clear(&mut self)
        ensures
            final(self)@ == Seq::<Seq<u8>>::empty(),
            final(self).wf(),
    {
        self.entries = Vec::new();
        proof {
            assert(self@ =~= Seq::<Seq<u8>>::empty());
        }
    }
}

/// Duplicate suppression: once a datagram was offered to a memory of at most
/// `RECENT_CAPACITY` entries, the memory holds it, so offering the same bytes
/// again changes nothing and is answered as a duplicate.
pub proof fn offered_is_held(seen: Seq<Seq<u8>>, datagram: Seq<u8>)
    requires
        seen.len() <= RECENT_CAPACITY,
    ensures
        remembered(seen, datagram).contains(datagram),
        remembered(remembered(seen, datagram), datagram) == remembered(seen, datagram),
        remembered(seen, datagram).len() <= RECENT_CAPACITY,
{
    if !seen.contains(datagram) {
        let grown = seen.push(datagram);
        if seen.len() + 1 > RECENT_CAPACITY {
            assert(grown.remove(0)[seen.len() - 1] == datagram);
        } else {
            assert(grown[seen.len() as int] == datagram);
        }
    }
}

/// The memory holds no datagram twice: offering one to a memory of distinct
/// datagrams leaves a memory of distinct datagrams.
pub proof fn remembered_stays_distinct(seen: Seq<Seq<u8>>, datagram: Seq<u8>)
    requires
        seen.no_duplicates(),
    ensures
        remembered(seen, datagram).no_duplicates(),
{
    if !seen.contains(datagram) {
        let grown = seen.push(datagram);
        assert forall|i: int, j: int| 0 <= i < grown.len() && 0 <= j < grown.len() && i != j implies
            grown[i] != grown[j] by {
            if i < seen.len() {
                assert(seen.contains(seen[i]));
            }
            if j < seen.len() {
                assert(seen.contains(seen[j]));
            }
        }
        if seen.len() + 1 > RECENT_CAPACITY {
            let rest = grown.remove(0);
            assert forall|i: int, j: int| 0 <= i < rest.len() && 0 <= j < rest.len() && i
                != j implies rest[i] != rest[j] by {
                assert(rest[i] == grown[i + 1]);
                assert(rest[j] == grown[j + 1]);
            }
        }
    }
}

/// First in, first out: in a full memory that does not hold the datagram,
/// every entry moves one place towards the front, the oldest leaves, and the
/// datagram comes last.
pub proof fn full_memory_evicts_oldest(seen: Seq<Seq<u8>>, datagram: Seq<u8>)
    requires
        seen.len() == RECENT_CAPACITY,
        !seen.contains(datagram),
    ensures
        remembered(seen, datagram).len() == RECENT_CAPACITY,
        remembered(seen, datagram).last() == datagram,
        forall|i: int| 0 <= i < RECENT_CAPACITY - 1 ==> remembered(seen, datagram)[i] == seen[i + 1],
{
}

} // verus!
