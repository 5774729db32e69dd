//! Decisions of the maintenance systems.
use vstd::prelude::*;
use crate::components::maintenance::UnderConstruction;
use crate::components::nature::DisasterType;

verus! {

/// Counts a construction site down by `ticks_to_remove` ticks. Returns true,
/// leaving the site as it is, when that many ticks or more were left: the
/// site is then finished and its marker removed.
pub fn construction_countdown(site: &mut UnderConstruction, ticks_to_remove: u32) -> (finished:
    bool)
    ensures
        finished == (old(site).remaining_ticks <= ticks_to_remove),
        finished ==> final(site).remaining_ticks == old(site).remaining_ticks,
        !finished ==> final(site).remaining_ticks == old(site).remaining_ticks - ticks_to_remove,
{
    if site.remaining_ticks <= ticks_to_remove {
        true
    } else {
        site.remaining_ticks = site.remaining_ticks - ticks_to_remove;
        false
    }
}

/// The kind of a randomly spawned disaster, from a random draw: its
/// remainder modulo 4 picks fire, tornado, earthquake or flood.
pub fn disaster_type_for(roll: u32) -> (d: DisasterType)
    ensures
        d == if roll % 4 == 0 {
            DisasterType::Fire
        } else if roll % 4 == 1 {
            DisasterType::Tornado
        } else if roll % 4 == 2 {
            DisasterType::Earthquake
        } else {
            DisasterType::Flood
        },
{
    match roll % 4 {
        0 => DisasterType::Fire,
        1 => DisasterType::Tornado,
        2 => DisasterType::Earthquake,
        _ => DisasterType::Flood,
    }
}

} // verus!
