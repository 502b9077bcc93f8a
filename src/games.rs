use vstd::prelude::*;

verus! {

/// The number of a game within a match.
#[derive(Clone, Copy, Debug, PartialEq, Eq, PartialOrd, Ord, Hash, Structural)]
pub struct GameNumber(pub i64);

} // verus!
