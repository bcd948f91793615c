use vstd::prelude::*;
use crate::error::DecodeError;
use crate::json::Json;

verus! {

/// Official and vendor extensions: one payload type per extensible entity kind.
pub trait Extensions: Sized {
    /// The payload of an accessor's `extensions` slot.
    type Accessor;

    /// Whether `j` decodes to an accessor's extensions payload.
    spec fn accessor_decodes(j: Json) -> bool;

    /// Decodes an accessor's `extensions` slot.
    fn decode_accessor(j: Json) -> (r: Result<Self::Accessor, DecodeError>)
        ensures
            r is Ok <==> Self::accessor_decodes(j),
    ;

    /// Encodes an accessor's `extensions` slot.
    fn encode_accessor(p: &Self::Accessor) -> Json;
}

/// Application data: one payload type per extensible entity kind.
pub trait Extras: Sized {
    /// The payload of an accessor's `extras` slot.
    type Accessor;

    /// Whether `j` decodes to an accessor's extras payload.
    spec fn accessor_decodes(j: Json) -> bool;

    /// Decodes an accessor's `extras` slot.
    fn decode_accessor(j: Json) -> (r: Result<Self::Accessor, DecodeError>)
        ensures
            r is Ok <==> Self::accessor_decodes(j),
    ;

    /// Encodes an accessor's `extras` slot.
    fn encode_accessor(p: &Self::Accessor) -> Json;
}

/// An entity kind that decodes from one JSON value.
pub trait Decode: Sized {
    /// Whether `j` decodes to an entity of this kind.
    spec fn decodes(j: Json) -> bool;

    /// Whether `self` is what `j` decodes to.
    spec fn decoded_from(&self, j: Json) -> bool;

    fn from_json(j: Json) -> (r: Result<Self, DecodeError>)
        ensures
            r is Ok <==> Self::decodes(j),
            r matches Ok(e) ==> e.decoded_from(j),
    ;
}

/// An entity kind that encodes to one JSON value.
pub trait Encode: Sized {
    /// Whether `j` is what `self` encodes to.
    spec fn encodes_to(&self, j: Json) -> bool;

    fn into_json(self) -> (r: Json)
        ensures
            self.encodes_to(r),
    ;
}

/// The capability with no extensions: every payload is the unit value, read
/// from any object and written as an empty one.
#[derive(Clone, Copy, Debug, PartialEq, Eq, Structural)]
pub struct NoExtensions;

/// The capability with no extras: every payload is the unit value, read from
/// any object and written as an empty one.
#[derive(Clone, Copy, Debug, PartialEq, Eq, Structural)]
pub struct NoExtras;

/// Reads an ignorable slot: any object is accepted and dropped.
pub fn read_empty_slot(j: Json, name: &str) -> (r: Result<(), DecodeError>)
    ensures
        r is Ok <==> j is Object,
        r matches Err(e) ==> (e matches DecodeError::WrongShape { field: f } && f@ == name@),
{
    match j {
        Json::Object(_) => Ok(()),
        _ => Err(DecodeError::WrongShape { field: name.to_owned() }),
    }
}

/// The empty object.
pub fn empty_object() -> (r: Json)
    ensures
        r matches Json::Object(fs) && fs@.len() == 0,
{
    Json::Object(Vec::new())
}

impl Extensions for NoExtensions {
    type Accessor = ();

    open spec fn accessor_decodes(j: Json) -> bool {
        j is Object
    }

    fn decode_accessor(j: Json) -> Result<(), DecodeError> {
        read_empty_slot(j, "extensions")
    }

    fn encode_accessor(p: &()) -> Json {
        empty_object()
    }
}

impl Extras for NoExtras {
    type Accessor = ();

    open spec fn accessor_decodes(j: Json) -> bool {
        j is Object
    }

    fn decode_accessor(j: Json) -> Result<(), DecodeError> {
        read_empty_slot(j, "extras")
    }

    fn encode_accessor(p: &()) -> Json {
        empty_object()
    }
}

} // verus!
