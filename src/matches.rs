use vstd::prelude::*;

verus! {

/// A match identity.
#[derive(Clone, Debug, Default, PartialEq, Eq, PartialOrd, Ord, Hash)]
pub struct MatchId(pub String);

/// A match type.
#[derive(Clone, Copy, Debug, PartialEq, Eq, PartialOrd, Ord, Hash, Structural)]
pub enum MatchType {
    /// Two opponents.
    Duel,
    /// More than two opponents.
    FreeForAll,
}

/// A match status.
#[derive(Clone, Copy, Debug, PartialEq, Eq, PartialOrd, Ord, Hash, Structural)]
pub enum MatchStatus {
    /// Not started yet.
    Pending,
    /// In progress.
    Running,
    /// Finished.
    Completed,
}

/// A match format.
#[derive(Clone, Copy, Debug, PartialEq, Eq, PartialOrd, Ord, Hash, Structural)]
pub enum MatchFormat {
    /// No format (the service's `none`).
    NoFormat,
    /// A single game.
    One,
    /// A home game and an away game.
    HomeAway,
    /// Best of 3.
    BestOf3,
    /// Best of 5.
    BestOf5,
    /// Best of 7.
    BestOf7,
    /// Best of 9.
    BestOf9,
    /// Best of 11.
    BestOf11,
}

} // verus!
