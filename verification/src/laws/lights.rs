//! Laws of the light cycle.

use crate::controller::{IntersectionController, Phase};
use crate::demand::lemma_one_leader;
use crate::geometry::Direction;
use vstd::prelude::*;

verus! {

/// A look at the clock leaves a controller as it has to be; in particular at
/// most one light is green afterwards.
pub proof fn law_look_keeps_lights_exclusive(
    c: IntersectionController,
    now: u64,
    fallback: Direction,
)
    requires
        c.wf(),
    ensures
        c.advanced(now, fallback).wf(),
        c.advanced(now, fallback).green_count() <= 1,
{
}

/// Looking at the clock twice at the same reading does what looking once
/// does: the second look finds the phase it may have begun not yet due.
pub proof fn law_second_look_changes_nothing(
    c: IntersectionController,
    now: u64,
    first: Direction,
    second: Direction,
)
    requires
        c.wf(),
    ensures
        c.advanced(now, first).advanced(now, second) == c.advanced(now, first),
{
}

/// The green hold ends with every light red, and the all-red dwell ends with
/// exactly one light green: the one that governs the heading with the most
/// waiting vehicles, or the fallback.
pub proof fn law_cycle(c: IntersectionController, now: u64, fallback: Direction)
    requires
        c.wf(),
        c.spec_due(now),
    ensures
        c.phase == Phase::GreenHold ==> c.advanced(now, fallback).phase == Phase::AllRed
            && c.advanced(now, fallback).green_count() == 0,
        c.phase == Phase::AllRed ==> c.advanced(now, fallback).phase == Phase::GreenHold
            && c.advanced(now, fallback).green_count() == 1 && c.advanced(
            now,
            fallback,
        ).spec_light(c.demand.spec_next_green(fallback)).green,
        forall|heading: Direction|
            c.phase == Phase::AllRed && c.demand.spec_leads(heading) ==> c.advanced(
                now,
                fallback,
            ).spec_green_for(heading),
{
    assert forall|heading: Direction|
        c.phase == Phase::AllRed && c.demand.spec_leads(heading) implies c.advanced(
        now,
        fallback,
    ).spec_green_for(heading) by {
        lemma_one_leader(c.demand);
    }
}

} // verus!
