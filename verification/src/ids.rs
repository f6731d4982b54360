//! Identifiers of agents, workers and activities.
//!
//! The three kinds live in disjoint namespaces: an `AgentId` names a process,
//! a `WorkerId` a thread inside a process, an `ActivityId` a unit of work.
use vstd::prelude::*;
use vstd::std_specs::convert::FromSpecImpl;
use vstd::string::StringExecFns;
use crate::text::{decimal, spec_decimal};

verus! {

/// Identifies an agent (a process of the deployment).
#[derive(Debug, Clone, Copy, Hash, PartialEq, Eq, Structural)]
pub struct AgentId(pub usize);

/// Identifies a worker (a thread inside an agent).
#[derive(Debug, Clone, Copy, Hash, PartialEq, Eq, Structural)]
pub struct WorkerId(pub usize);

/// Identifies an activity (a unit of cyclic work).
#[derive(Debug, Clone, Copy, Hash, PartialEq, Eq, PartialOrd, Ord, Structural)]
pub struct ActivityId(pub usize);

impl AgentId {
    /// Wraps a raw number as an agent id.
    pub fn new(i: usize) -> (id: Self)
        ensures
            id == AgentId(i),
    {
        AgentId(i)
    }

    /// The raw number of this id.
    pub fn value(&self) -> (v: usize)
        ensures
            v == self.0,
    {
        self.0
    }
}

impl WorkerId {
    /// Wraps a raw number as a worker id.
    pub fn new(i: usize) -> (id: Self)
        ensures
            id == WorkerId(i),
    {
        WorkerId(i)
    }

    /// The raw number of this id.
    pub fn value(&self) -> (v: usize)
        ensures
            v == self.0,
    {
        self.0
    }
}

impl ActivityId {
    /// Wraps a raw number as an activity id.
    pub fn new(i: usize) -> (id: Self)
        ensures
            id == ActivityId(i),
    {
        ActivityId(i)
    }

    /// The raw number of this id.
    pub fn value(&self) -> (v: usize)
        ensures
            v == self.0,
    {
        self.0
    }
}

impl From<usize> for AgentId {
    fn from(value: usize) -> (id: Self) {
        AgentId(value)
    }
}

impl FromSpecImpl<usize> for AgentId {
    open spec fn obeys_from_spec() -> bool {
        true
    }

    open spec fn from_spec(value: usize) -> Self {
        AgentId(value)
    }
}

impl From<usize> for WorkerId {
    fn from(value: usize) -> (id: Self) {
        WorkerId(value)
    }
}

impl FromSpecImpl<usize> for WorkerId {
    open spec fn obeys_from_spec() -> bool {
        true
    }

    open spec fn from_spec(value: usize) -> Self {
        WorkerId(value)
    }
}

impl From<usize> for ActivityId {
    fn from(value: usize) -> (id: Self) {
        ActivityId(value)
    }
}

impl FromSpecImpl<usize> for ActivityId {
    open spec fn obeys_from_spec() -> bool {
        true
    }

    open spec fn from_spec(value: usize) -> Self {
        ActivityId(value)
    }
}

impl From<AgentId> for usize {
    fn from(value: AgentId) -> (v: Self) {
        value.0
    }
}

impl FromSpecImpl<AgentId> for usize {
    open spec fn obeys_from_spec() -> bool {
        true
    }

    open spec fn from_spec(value: AgentId) -> Self {
        value.0
    }
}

impl From<WorkerId> for usize {
    fn from(value: WorkerId) -> (v: Self) {
        value.0
    }
}

impl FromSpecImpl<WorkerId> for usize {
    open spec fn obeys_from_spec() -> bool {
        true
    }

    open spec fn from_spec(value: WorkerId) -> Self {
        value.0
    }
}

impl From<ActivityId> for usize {
    fn from(value: ActivityId) -> (v: Self) {
        value.0
    }
}

impl FromSpecImpl<ActivityId> for usize {
    open spec fn obeys_from_spec() -> bool {
        true
    }

    open spec fn from_spec(value: ActivityId) -> Self {
        value.0
    }
}

} // verus!

verus! {

/// Whether a list holds an agent.
pub fn contains_agent(list: &Vec<AgentId>, id: AgentId) -> (b: bool)
    ensures
        b == list@.contains(id),
{
    let mut i: usize = 0;
    while i < list.len()
        invariant
            i <= list@.len(),
            forall|k: int| 0 <= k < i ==> list@[k] != id,
        decreases list@.len() - i,
    {
        if list[i].0 == id.0 {
            return true;
        }
        i += 1;
    }
    false
}

/// Finds the place of an agent in a list: the first at which it stands.
pub fn position_of_agent(list: &Vec<AgentId>, id: AgentId) -> (r: Option<usize>)
    ensures
        match r {
            Some(i) => i < list@.len() && list@[i as int] == id && forall|k: int|
                0 <= k < i ==> list@[k] != id,
            None => !list@.contains(id),
        },
{
    let mut i: usize = 0;
    while i < list.len()
        invariant
            i <= list@.len(),
            forall|k: int| 0 <= k < i ==> list@[k] != id,
        decreases list@.len() - i,
    {
        if list[i].0 == id.0 {
            return Some(i);
        }
        i += 1;
    }
    None
}

} // verus!

verus! {

impl AgentId {
    /// The id as it is shown: the letter `A` and the number.
    pub open spec fn spec_to_string(&self) -> Seq<char> {
        "A"@ + spec_decimal(self.0 as nat)
    }

    /// Returns the id as it is shown.
    pub fn to_string(&self) -> (s: String)
        ensures
            s@ == self.spec_to_string(),
    {
        String::from_str("A").concat(decimal(self.0 as u64).as_str())
    }
}

impl ActivityId {
    /// The id as it is shown: the letter `A` and the number.
    pub open spec fn spec_to_string(&self) -> Seq<char> {
        "A"@ + spec_decimal(self.0 as nat)
    }

    /// Returns the id as it is shown.
    pub fn to_string(&self) -> (s: String)
        ensures
            s@ == self.spec_to_string(),
    {
        String::from_str("A").concat(decimal(self.0 as u64).as_str())
    }
}

impl WorkerId {
    /// The id as it is shown: the letter `W` and the number.
    pub open spec fn spec_to_string(&self) -> Seq<char> {
        "W"@ + spec_decimal(self.0 as nat)
    }

    /// The name of the worker's thread: `feo-w` and the number.
    pub open spec fn spec_thread_name(&self) -> Seq<char> {
        "feo-w"@ + spec_decimal(self.0 as nat)
    }

    /// Returns the id as it is shown.
    pub fn to_string(&self) -> (s: String)
        ensures
            s@ == self.spec_to_string(),
    {
        String::from_str("W").concat(decimal(self.0 as u64).as_str())
    }

    /// Returns the name of the worker's thread.
    pub fn thread_name(&self) -> (s: String)
        ensures
            s@ == self.spec_thread_name(),
    {
        String::from_str("feo-w").concat(decimal(self.0 as u64).as_str())
    }
}

} // verus!

verus! {

/// Whether no activity stands twice in a list.
pub open spec fn spec_distinct_activities(ids: Seq<ActivityId>) -> bool {
    forall|i: int, j: int| 0 <= i < ids.len() && 0 <= j < ids.len() && i != j ==> ids[i] != ids[j]
}

/// Checks whether no activity stands twice in a list.
pub fn distinct_activities(ids: &[ActivityId]) -> (b: bool)
    ensures
        b == spec_distinct_activities(ids@),
{
    let mut i: usize = 0;
    while i < ids.len()
        invariant
            i <= ids@.len(),
            forall|x: int, y: int| 0 <= x < i && x < y < ids@.len() ==> ids@[x] != ids@[y],
        decreases ids@.len() - i,
    {
        let mut j: usize = i + 1;
        while j < ids.len()
            invariant
                i < ids@.len(),
                i < j <= ids@.len(),
                forall|y: int| i < y < j ==> ids@[i as int] != ids@[y],
            decreases ids@.len() - j,
        {
            if ids[i].0 == ids[j].0 {
                assert(ids@[i as int] == ids@[j as int]);
                return false;
            }
            j += 1;
        }
        i += 1;
    }
    assert forall|x: int, y: int| 0 <= x < ids@.len() && 0 <= y < ids@.len() && x != y implies ids@[x]
        != ids@[y] by {
        if y < x {
            assert(ids@[y] != ids@[x]);
        }
    }
    true
}

/// Checks whether no agent stands twice in a list.
pub fn distinct_agents(ids: &Vec<AgentId>) -> (b: bool)
    ensures
        b == ids@.no_duplicates(),
{
    let mut i: usize = 0;
    while i < ids.len()
        invariant
            i <= ids@.len(),
            forall|x: int, y: int| 0 <= x < i && x < y < ids@.len() ==> ids@[x] != ids@[y],
        decreases ids@.len() - i,
    {
        let mut j: usize = i + 1;
        while j < ids.len()
            invariant
                i < ids@.len(),
                i < j <= ids@.len(),
                forall|y: int| i < y < j ==> ids@[i as int] != ids@[y],
            decreases ids@.len() - j,
        {
            if ids[i].0 == ids[j].0 {
                assert(ids@[i as int] == ids@[j as int]);
                return false;
            }
            j += 1;
        }
        i += 1;
    }
    assert forall|x: int, y: int| 0 <= x < ids@.len() && 0 <= y < ids@.len() && x != y implies ids@[x]
        != ids@[y] by {
        if y < x {
            assert(ids@[y] != ids@[x]);
        }
    }
    true
}

} // verus!
