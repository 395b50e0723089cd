//! Links between itineraries and flight plans.

use vstd::prelude::*;

verus! {

/// The data of a link between an itinerary and a flight plan: a link
/// carries no data of its own.
#[derive(Clone, Copy, Debug, PartialEq, Eq, Structural, Default)]
pub struct Data {}

} // verus!
