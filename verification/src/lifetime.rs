//! Things that last for a time and are then gone.

use vstd::prelude::*;

verus! {

/// The entities whose time is up, in order: each row holds an entity and
/// whether its timer ran out in this tick.
pub open spec fn spec_expired(rows: Seq<(u64, bool)>) -> Seq<u64>
    decreases rows.len(),
{
    if rows.len() == 0 {
        Seq::empty()
    } else if rows.last().1 {
        spec_expired(rows.drop_last()).push(rows.last().0)
    } else {
        spec_expired(rows.drop_last())
    }
}

/// Takes out of the world each entity whose timer ran out in this tick, and
/// no other: returns those entities, in order.
pub fn apply_lifetime(rows: &Vec<(u64, bool)>) -> (gone: Vec<u64>)
    ensures
        gone@ == spec_expired(rows@),
{
    let mut gone: Vec<u64> = Vec::new();
    let mut i: usize = 0;
    while i < rows.len()
        invariant
            i <= rows@.len(),
            gone@ == spec_expired(rows@.take(i as int)),
        decreases rows@.len() - i,
    {
        proof {
            assert(rows@.take(i + 1).drop_last() =~= rows@.take(i as int));
        }
        if rows[i].1 {
            gone.push(rows[i].0);
        }
        i += 1;
    }
    assert(rows@.take(i as int) =~= rows@);
    gone
}

} // verus!
