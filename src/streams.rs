use vstd::prelude::*;

verus! {

/// A stream identity.
#[derive(Clone, Debug, Default, PartialEq, Eq, PartialOrd, Ord, Hash)]
pub struct StreamId(pub String);

/// A stream of a tournament.
#[derive(Clone, Debug, Default, PartialEq, Eq, PartialOrd, Ord, Hash)]
pub struct Stream {
    /// The stream's identifier.
    pub id: StreamId,
    /// The stream's name.
    pub name: String,
    /// The stream's address.
    pub url: String,
    /// The stream's language.
    pub language: String,
}

/// A list of streams.
#[derive(Clone, Debug, Default, PartialEq, Eq, PartialOrd, Ord, Hash)]
pub struct Streams(pub Vec<Stream>);

} // verus!
