use vstd::prelude::*;

verus! {

/// A format-independent image of one wire value, as a textual reader
/// delivers it. The adapter decides everything from this tree.
#[derive(Debug)]
pub enum WireValue {
    /// The format's "no value" scalar.
    Null,
    /// A boolean scalar.
    Bool(bool),
    /// A numeric scalar, held as the raw bits of the 64-bit binary
    /// floating-point value it denotes; the adapter carries the bits
    /// and never computes on them.
    Num(u64),
    /// A text scalar.
    Text(String),
    /// A sequence of values.
    List(Vec<WireValue>),
    /// Key/value pairs in delivery order. Keys stay whole values, so a
    /// key that is not text reaches the walker and is rejected there
    /// rather than being lost in conversion.
    Mapping(Vec<(WireValue, WireValue)>),
    /// A value of a kind the schema has no field for (a tagged node, a
    /// date-time scalar): always a type mismatch where a field reads it.
    Other,
}

} // verus!
