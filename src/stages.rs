use vstd::prelude::*;

verus! {

/// The number of a stage within a tournament.
#[derive(Clone, Copy, Debug, PartialEq, Eq, PartialOrd, Ord, Hash, Structural)]
pub struct StageNumber(pub i64);

/// A stage type.
#[derive(Clone, Copy, Debug, PartialEq, Eq, PartialOrd, Ord, Hash, Structural)]
pub enum StageType {
    /// Groups.
    Group,
    /// A league.
    League,
    /// Swiss system.
    Swiss,
    /// Single elimination bracket.
    SingleElimination,
    /// Double elimination bracket.
    DoubleElimination,
    /// Bracket groups.
    BracketGroup,
}

/// A stage of a tournament.
#[derive(Clone, Debug, PartialEq, Eq, PartialOrd, Ord, Hash)]
pub struct Stage {
    /// The stage's number.
    pub number: StageNumber,
    /// The stage's name.
    pub name: String,
    /// The stage's type.
    pub stage_type: StageType,
    /// The stage's size.
    pub size: i64,
}

/// A list of stages.
#[derive(Clone, Debug, PartialEq, Eq, PartialOrd, Ord, Hash)]
pub struct Stages(pub Vec<Stage>);

} // verus!
