use vstd::prelude::*;

verus! {

/// The numeric type that a field was expected to hold.
#[derive(Debug, Clone, Copy, PartialEq, Eq, Structural)]
pub enum NumberKind {
    U8,
    U64,
    I8,
    I64,
    Decimal,
}

/// The enumeration that a field was expected to name.
#[derive(Debug, Clone, Copy, PartialEq, Eq, Structural)]
pub enum EnumKind {
    MissType,
    AuraType,
    EnvironmentalType,
    Faction,
}

/// Why one line, or one of its fields, could not be decoded.
#[derive(Debug, Clone)]
pub enum ParseError {
    InvalidNumber { field: String, expected: NumberKind },
    InvalidBool { field: String },
    InvalidHex { field: String },
    UnknownGuidKind { token: String },
    /// A GUID with fewer dash-separated parts than its kind has.
    MalformedGuid { guid: String },
    UnknownEnumValue { kind: EnumKind, raw: String },
    UnknownPowerType { code: i8 },
    UnknownPrefix { event_type: String },
    UnknownSuffix { event_type: String },
    MalformedPowerInfo,
    MalformedCombatantInfo,
    DateParseFailure { text: String },
    FieldSplitFailure { text: String },
    /// A record had a number of fields that its shape does not allow.
    FieldCount { wanted: usize, found: usize },
    /// An actor block that must name an actor held the empty GUID.
    MissingActor,
}

} // verus!
