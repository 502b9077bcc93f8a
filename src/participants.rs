use vstd::prelude::*;

verus! {

/// A participant identity.
#[derive(Clone, Debug, Default, PartialEq, Eq, PartialOrd, Ord, Hash)]
pub struct ParticipantId(pub String);

/// A participant type.
#[derive(Clone, Copy, Debug, PartialEq, Eq, PartialOrd, Ord, Hash, Structural)]
pub enum ParticipantType {
    /// A team of players.
    Team,
    /// A single player.
    Single,
}

/// The images of a participant's logo, by size.
#[derive(Clone, Debug, PartialEq, Eq, PartialOrd, Ord, Hash)]
pub struct ParticipantLogo {
    /// Large square icon.
    pub icon_large_square: Option<String>,
    /// Extra small square image.
    pub extra_small_square: Option<String>,
    /// Medium small square image.
    pub medium_small_square: Option<String>,
    /// Medium large square image.
    pub medium_large_square: Option<String>,
}

/// The type of a custom field.
#[derive(Clone, Copy, Debug, PartialEq, Eq, PartialOrd, Ord, Hash, Structural)]
pub enum CustomFieldType {
    /// A Steam player id.
    SteamId,
    /// A birth date.
    Birthdate,
    /// A Facebook account.
    Facebook,
    /// A full name.
    Fullname,
    /// An Instagram account.
    Instagram,
    /// A Snapchat account.
    Snapchat,
    /// Free text.
    Text,
    /// A Twitch account.
    Twitch,
    /// A Twitter account.
    Twitter,
    /// A Vimeo account.
    Vimeo,
    /// A website.
    Website,
    /// A YouTube account.
    Youtube,
}

/// A custom field of a participant.
#[derive(Clone, Debug, PartialEq, Eq, PartialOrd, Ord, Hash)]
pub struct CustomField {
    /// The field's type.
    pub field_type: CustomFieldType,
    /// The field's label.
    pub label: String,
    /// The field's value.
    pub value: String,
}

/// A list of custom fields.
#[derive(Clone, Debug, Default, PartialEq, Eq, PartialOrd, Ord, Hash)]
pub struct CustomFields(pub Vec<CustomField>);

} // verus!
