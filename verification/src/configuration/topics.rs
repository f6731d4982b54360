//! The topics over which activities exchange data, as far as the runtime
//! looks at them: who writes and who reads.
use vstd::prelude::*;
use crate::ids::ActivityId;

verus! {

/// The direction of the data flow for one topic of one activity.
#[derive(Debug, Clone, Copy, PartialEq, Eq, Structural)]
pub enum Direction {
    /// Incoming: the activity reads the topic.
    Incoming,
    /// Outgoing: the activity writes the topic.
    Outgoing,
}

impl Default for Direction {
    fn default() -> (d: Self)
        ensures
            d == Direction::Incoming,
    {
        Direction::Incoming
    }
}

/// The number of peers of a topic with the given direction.
pub open spec fn spec_count(peers: Seq<(ActivityId, Direction)>, direction: Direction) -> nat
    decreases peers.len(),
{
    if peers.len() == 0 {
        0
    } else if peers.last().1 == direction {
        spec_count(peers.drop_last(), direction) + 1
    } else {
        spec_count(peers.drop_last(), direction)
    }
}

/// Counts the writers and the readers among the peers of a topic: the topic
/// is initialized for that many of each.
pub fn count_peers(peers: &Vec<(ActivityId, Direction)>) -> (r: (usize, usize))
    ensures
        r.0 == spec_count(peers@, Direction::Outgoing),
        r.1 == spec_count(peers@, Direction::Incoming),
        r.0 + r.1 == peers@.len(),
{
    let mut writers: usize = 0;
    let mut readers: usize = 0;
    let mut i: usize = 0;
    assert(peers@.take(0) =~= Seq::empty());
    while i < peers.len()
        invariant
            i <= peers@.len(),
            writers == spec_count(peers@.take(i as int), Direction::Outgoing),
            readers == spec_count(peers@.take(i as int), Direction::Incoming),
            writers + readers == i,
        decreases peers@.len() - i,
    {
        match peers[i].1 {
            Direction::Outgoing => {
                writers += 1;
            },
            Direction::Incoming => {
                readers += 1;
            },
        }
        i += 1;
        proof {
            assert(peers@.take(i as int).drop_last() =~= peers@.take(i - 1));
            assert(peers@.take(i as int).last() == peers@[i - 1]);
        }
    }
    assert(peers@.take(peers@.len() as int) =~= peers@);
    (writers, readers)
}

} // verus!
