//! The decisions of the loops that poll the node until expected notes show up: after each
//! sync, the caller reports what it sees and is told whether to stop or to wait and poll
//! again.
use vstd::prelude::*;

verus! {

/// What a polling loop does next.
#[derive(Clone, Copy, Debug, PartialEq, Eq, Structural)]
pub enum PollStep {
    /// What was waited for is there: stop polling.
    Done,
    /// Not yet: wait, sync and poll again.
    Wait,
}

/// Waiting for an account's notes: done once at least `expected` consumable notes are seen.
pub fn consumable_notes_step(found: usize, expected: usize) -> (step: PollStep)
    ensures
        step == (if found >= expected { PollStep::Done } else { PollStep::Wait }),
{
    if found >= expected {
        PollStep::Done
    } else {
        PollStep::Wait
    }
}

/// Whether two note ids (digests, as four field elements) are the same.
fn same_id(a: &[u64; 4], b: &[u64; 4]) -> (same: bool)
    ensures
        same == (a@ == b@),
{
    let same = a[0] == b[0] && a[1] == b[1] && a[2] == b[2] && a[3] == b[3];
    proof {
        if same {
            assert(a@ =~= b@);
        }
    }
    same
}

/// Whether the note id `target` is among `ids`.
pub open spec fn has_note_id(ids: Seq<[u64; 4]>, target: Seq<u64>) -> bool {
    exists|i: int| 0 <= i < ids.len() && (#[trigger] ids[i])@ == target
}

/// Waiting for a given note: done once its id is among the ids of the consumable notes seen.
pub fn note_search_step(ids: &Vec<[u64; 4]>, target: &[u64; 4]) -> (step: PollStep)
    ensures
        step == (if has_note_id(ids@, target@) { PollStep::Done } else { PollStep::Wait }),
{
    let mut i: usize = 0;
    while i < ids.len()
        invariant
            i <= ids.len(),
            forall|j: int| 0 <= j < i ==> (#[trigger] ids@[j])@ != target@,
        decreases ids.len() - i,
    {
        if same_id(&ids[i], target) {
            return PollStep::Done;
        }
        i = i + 1;
    }
    PollStep::Wait
}

} // verus!
