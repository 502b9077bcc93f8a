use crate::common::TeamSize;
use std::collections::HashMap;
use vstd::prelude::*;

verus! {

/// Additional fields of a discipline: for each field, its allowed values and their labels.
#[derive(Clone, Debug, Default)]
pub struct AdditionalFields(pub HashMap<String, HashMap<String, String>>);

/// A game discipline identity.
#[derive(Clone, Debug, Default, PartialEq, Eq, PartialOrd, Ord, Hash)]
pub struct DisciplineId(pub String);

/// A game discipline.
#[derive(Clone, Debug, Default)]
pub struct Discipline {
    /// An identifier for the discipline, such as "counterstrike_go".
    pub id: DisciplineId,
    /// The official name, such as "Counter-Strike: GO".
    pub name: String,
    /// The short name, such as "CS:GO".
    pub short_name: String,
    /// The complete name, such as "Counter-Strike: Global Offensive".
    pub full_name: String,
    /// The publisher or other owner of the rights, such as "Valve Software".
    pub copyrights: String,
    /// The smallest and the largest team size, if set.
    pub team_size: Option<TeamSize>,
    /// Additional fields concerning the discipline, if any.
    pub additional_fields: Option<AdditionalFields>,
}

impl Discipline {
    /// A discipline with the given identity and names, without team size or additional fields.
    pub fn new<S: Into<String>>(
        id: DisciplineId,
        name: S,
        short_name: S,
        full_name: S,
        copyrights: S,
    ) -> (r: Discipline)
        ensures
            r.id == id,
            call_ensures(S::into, (name,), r.name),
            call_ensures(S::into, (short_name,), r.short_name),
            call_ensures(S::into, (full_name,), r.full_name),
            call_ensures(S::into, (copyrights,), r.copyrights),
            r.team_size is None,
            r.additional_fields is None,
    {
        Discipline {
            id,
            name: name.into(),
            short_name: short_name.into(),
            full_name: full_name.into(),
            copyrights: copyrights.into(),
            team_size: None,
            additional_fields: None,
        }
    }

    /// Sets `id`.
    pub fn id(self, id: DisciplineId) -> (r: Discipline)
        ensures
            r == (Discipline { id, ..self }),
    {
        Discipline { id, ..self }
    }

    /// Sets `name`.
    pub fn name<S: Into<String>>(self, name: S) -> (r: Discipline)
        ensures
            call_ensures(S::into, (name,), r.name),
            r == (Discipline { name: r.name, ..self }),
    {
        Discipline { name: name.into(), ..self }
    }

    /// Sets `short_name`.
    pub fn short_name<S: Into<String>>(self, short_name: S) -> (r: Discipline)
        ensures
            call_ensures(S::into, (short_name,), r.short_name),
            r == (Discipline { short_name: r.short_name, ..self }),
    {
        Discipline { short_name: short_name.into(), ..self }
    }

    /// Sets `full_name`.
    pub fn full_name<S: Into<String>>(self, full_name: S) -> (r: Discipline)
        ensures
            call_ensures(S::into, (full_name,), r.full_name),
            r == (Discipline { full_name: r.full_name, ..self }),
    {
        Discipline { full_name: full_name.into(), ..self }
    }

    /// Sets `copyrights`.
    pub fn copyrights<S: Into<String>>(self, copyrights: S) -> (r: Discipline)
        ensures
            call_ensures(S::into, (copyrights,), r.copyrights),
            r == (Discipline { copyrights: r.copyrights, ..self }),
    {
        Discipline { copyrights: copyrights.into(), ..self }
    }

    /// Sets `team_size`.
    pub fn team_size(self, team_size: Option<TeamSize>) -> (r: Discipline)
        ensures
            r == (Discipline { team_size, ..self }),
    {
        Discipline { team_size, ..self }
    }

    /// Sets `additional_fields`.
    pub fn additional_fields(self, additional_fields: Option<AdditionalFields>) -> (r: Discipline)
        ensures
            r == (Discipline { additional_fields, ..self }),
    {
        Discipline { additional_fields, ..self }
    }
}

/// A list of disciplines.
#[derive(Clone, Debug, Default)]
pub struct Disciplines(pub Vec<Discipline>);

} // verus!
