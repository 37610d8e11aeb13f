//! Integer bookkeeping of the audio thread's pad voices and sequencer clock:
//! which voice slot a pad trigger takes, and when the clock crosses a step
//! boundary.
use vstd::prelude::*;

verus! {

/// The voice slot a new pad trigger takes, given which voices are playing:
/// the first free one, or `None` when every voice plays (the trigger is
/// then dropped).
pub fn free_voice_slot(active: &[bool]) -> (r: Option<usize>)
    ensures
        match r {
            Some(v) => v < active@.len() && !active@[v as int] && forall|j: int|
                0 <= j < v ==> #[trigger] active@[j],
            None => forall|j: int| 0 <= j < active@.len() ==> #[trigger] active@[j],
        },
{
    let mut v: usize = 0;
    while v < active.len()
        invariant
            v <= active@.len(),
            forall|j: int| 0 <= j < v ==> #[trigger] active@[j],
        decreases active@.len() - v,
    {
        if !active[v] {
            return Some(v);
        }
        v = v + 1;
    }
    None
}

/// Note the step the sequencer clock is on: a step boundary was crossed
/// exactly when it differs from the last step noted, and it becomes the
/// step noted.
pub fn note_step(last: &mut usize, step: usize) -> (crossed: bool)
    ensures
        crossed == (step != *old(last)),
        *final(last) == step,
{
    let crossed = step != *last;
    if crossed {
        *last = step;
    }
    crossed
}

} // verus!
