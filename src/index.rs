use vstd::prelude::*;
use crate::error::DecodeError;
use crate::json::Json;

verus! {

/// A reference to a slot of one entity collection of a document.
///
/// The type parameter names the collection, so that a reference into one
/// collection cannot be used to address another.
pub struct Index<T> {
    value: u32,
    kind: std::marker::PhantomData<T>,
}

impl<T> Clone for Index<T> {
    fn clone(&self) -> (r: Self)
        ensures
            r == *self,
    {
        Index { value: self.value, kind: std::marker::PhantomData }
    }
}

impl<T> Copy for Index<T> {}

impl<T> Index<T> {
    /// The position this reference designates.
    pub closed spec fn view(&self) -> nat {
        self.value as nat
    }

    pub fn new(value: u32) -> (r: Self)
        ensures
            r@ == value as nat,
    {
        Index { value, kind: std::marker::PhantomData }
    }

    /// The raw position, for use as an array index.
    pub fn value(&self) -> (r: u32)
        ensures
            r as nat == self@,
    {
        self.value
    }
}

/// The position an external value denotes, if it is an integer that fits in
/// 32 bits.
pub open spec fn index_value(j: Json) -> Option<nat> {
    match j {
        Json::UInt(n) => if n <= u32::MAX {
            Some(n as nat)
        } else {
            None
        },
        _ => None,
    }
}

/// What an optional reference field decodes to: `None` where it does not
/// decode, `Some(None)` where it is absent.
pub open spec fn opt_index_value(v: Option<Json>) -> Option<Option<nat>> {
    match v {
        None => Some(None),
        Some(j) => match index_value(j) {
            Some(n) => Some(Some(n)),
            None => None,
        },
    }
}

/// What a list-of-references field decodes to: `None` where it does not
/// decode; an absent field is an empty list.
pub open spec fn index_list_value(v: Option<Json>) -> Option<Seq<nat>> {
    match v {
        None => Some(Seq::empty()),
        Some(Json::Array(items)) => if forall|i: int|
            0 <= i < items@.len() ==> (#[trigger] index_value(items@[i])) is Some {
            Some(Seq::new(items@.len(), |i: int| index_value(items@[i])->0))
        } else {
            None
        },
        _ => None,
    }
}

/// The positions of an optional reference.
pub open spec fn opt_view<T>(o: Option<Index<T>>) -> Option<nat> {
    match o {
        Some(i) => Some(i@),
        None => None,
    }
}

/// The positions of a list of references.
pub open spec fn list_view<T>(v: Seq<Index<T>>) -> Seq<nat> {
    v.map_values(|i: Index<T>| i@)
}

impl<T> Index<T> {
    /// Decodes a reference from a non-negative integer of at most 32 bits.
    pub fn from_json(j: &Json, field: &str) -> (r: Result<Index<T>, DecodeError>)
        ensures
            match r {
                Ok(i) => index_value(*j) == Some(i@),
                Err(e) => index_value(*j) is None && (e matches DecodeError::WrongShape { field: f } && f@ == field@),
            },
    {
        match j {
            Json::UInt(n) => if *n <= u32::MAX as u64 {
                Ok(Index::new(*n as u32))
            } else {
                Err(DecodeError::WrongShape { field: field.to_owned() })
            },
            _ => Err(DecodeError::WrongShape { field: field.to_owned() }),
        }
    }

    /// Encodes a reference as its raw integer.
    pub fn to_json(&self) -> (r: Json)
        ensures
            r == Json::UInt(self@ as u64),
    {
        Json::UInt(self.value as u64)
    }
}

/// Decodes an optional reference field.
pub fn read_opt_index<T>(v: Option<Json>, field: &str) -> (r: Result<Option<Index<T>>, DecodeError>)
    ensures
        r is Ok <==> opt_index_value(v) is Some,
        r matches Ok(o) ==> opt_index_value(v) == Some(opt_view(o)),
{
    match v {
        None => Ok(None),
        Some(j) => match Index::from_json(&j, field) {
            Ok(i) => Ok(Some(i)),
            Err(e) => Err(e),
        },
    }
}

/// Decodes a required reference field.
pub fn read_index<T>(v: Option<Json>, field: &str) -> (r: Result<Index<T>, DecodeError>)
    ensures
        r is Ok <==> (v is Some && index_value(v->0) is Some),
        r matches Ok(i) ==> index_value(v->0) == Some(i@),
        v is None ==> (r matches Err(DecodeError::MissingField { field: f }) && f@ == field@),
{
    match v {
        None => Err(DecodeError::MissingField { field: field.to_owned() }),
        Some(j) => Index::from_json(&j, field),
    }
}

/// Decodes a list-of-references field; an absent field is an empty list.
pub fn read_index_list<T>(v: Option<Json>, field: &str) -> (r: Result<Vec<Index<T>>, DecodeError>)
    ensures
        r is Ok <==> index_list_value(v) is Some,
        r matches Ok(l) ==> index_list_value(v) == Some(list_view(l@)),
{
    match v {
        None => {
            let out: Vec<Index<T>> = Vec::new();
            assert(list_view(out@) =~= Seq::empty());
            Ok(out)
        },
        Some(Json::Array(items)) => {
            let mut out: Vec<Index<T>> = Vec::new();
            let mut i: usize = 0;
            while i < items.len()
                invariant
                    i <= items.len(),
                    v == Some(Json::Array(items)),
                    out@.len() == i,
                    forall|m: int| 0 <= m < i ==> index_value(items@[m]) == Some(#[trigger] out@[m]@),
                decreases items.len() - i,
            {
                match Index::from_json(&items[i], field) {
                    Ok(x) => out.push(x),
                    Err(e) => {
                        assert(index_value(items@[i as int]) is None);
                        return Err(e);
                    },
                }
                i = i + 1;
            }
            assert forall|m: int| 0 <= m < items@.len() implies (#[trigger] index_value(items@[m])) is Some by {
                assert(index_value(items@[m]) == Some(out@[m]@));
            }
            assert(list_view(out@) =~= Seq::new(items@.len(), |m: int| index_value(items@[m])->0));
            Ok(out)
        },
        Some(_) => Err(DecodeError::WrongShape { field: field.to_owned() }),
    }
}

/// Encodes a list of references as an array of integers.
pub fn index_list_to_json<T>(l: &Vec<Index<T>>) -> (r: Json)
    ensures
        r matches Json::Array(items) && items@.len() == l@.len() && forall|m: int|
            0 <= m < l@.len() ==> #[trigger] items@[m] == Json::UInt(l@[m]@ as u64),
{
    let mut out: Vec<Json> = Vec::new();
    let mut i: usize = 0;
    while i < l.len()
        invariant
            i <= l.len(),
            out@.len() == i,
            forall|m: int| 0 <= m < i ==> #[trigger] out@[m] == Json::UInt(l@[m]@ as u64),
        decreases l.len() - i,
    {
        out.push(l[i].to_json());
        i = i + 1;
    }
    Json::Array(out)
}

} // verus!

verus! {

/// Every 32-bit value decodes to a reference whose raw value is that value.
pub proof fn lemma_index_round_trip(v: u32)
    ensures
        index_value(Json::UInt(v as u64)) == Some(v as nat),
{
}

} // verus!

verus! {

/// What an object of named references decodes to: `None` where it is not
/// an object or a value is not a reference.
pub open spec fn index_map_value(j: Json) -> Option<Seq<(Seq<char>, nat)>> {
    match j {
        Json::Object(fs) => if forall|i: int| 0 <= i < fs@.len() ==> (#[trigger] index_value(fs@[i].1)) is Some {
            Some(Seq::new(fs@.len(), |i: int| (fs@[i].0@, index_value(fs@[i].1)->0)))
        } else {
            None
        },
        _ => None,
    }
}

/// The names and positions of a list of named references.
pub open spec fn map_view<T>(m: Seq<(String, Index<T>)>) -> Seq<(Seq<char>, nat)> {
    m.map_values(|e: (String, Index<T>)| (e.0@, e.1@))
}

/// Decodes an object whose every value is a reference, keeping the order of
/// its entries.
pub fn read_index_map<T>(j: Json, field: &str) -> (r: Result<Vec<(String, Index<T>)>, DecodeError>)
    ensures
        r is Ok <==> index_map_value(j) is Some,
        r matches Ok(m) ==> index_map_value(j) == Some(map_view(m@)),
{
    match j {
        Json::Object(fs) => {
            let mut out: Vec<(String, Index<T>)> = Vec::new();
            let mut i: usize = 0;
            while i < fs.len()
                invariant
                    i <= fs.len(),
                    j == Json::Object(fs),
                    out@.len() == i,
                    forall|m: int| 0 <= m < i ==> index_value(fs@[m].1) == Some((#[trigger] out@[m]).1@)
                        && out@[m].0@ == fs@[m].0@,
                decreases fs.len() - i,
            {
                match Index::from_json(&fs[i].1, field) {
                    Ok(x) => out.push((fs[i].0.clone(), x)),
                    Err(e) => {
                        assert(index_value(fs@[i as int].1) is None);
                        return Err(e);
                    },
                }
                i = i + 1;
            }
            assert forall|m: int| 0 <= m < fs@.len() implies (#[trigger] index_value(fs@[m].1)) is Some by {
                assert(index_value(fs@[m].1) == Some(out@[m].1@));
            }
            assert(map_view(out@) =~= Seq::new(fs@.len(), |m: int| (fs@[m].0@, index_value(fs@[m].1)->0)));
            Ok(out)
        },
        _ => Err(DecodeError::WrongShape { field: field.to_owned() }),
    }
}

} // verus!

verus! {

/// The external form of an optional reference: absent, or its raw value.
pub open spec fn opt_index_json(o: Option<nat>) -> Option<Json> {
    match o {
        Some(n) => Some(Json::UInt(n as u64)),
        None => None,
    }
}

/// Whether `v` is the external form of a list of references: `absent`
/// where the list is empty, else an array of their raw values.
pub open spec fn index_list_json(v: Option<Json>, l: Seq<nat>, absent: Option<Json>) -> bool {
    if l.len() == 0 {
        v == absent
    } else {
        v matches Some(Json::Array(items)) && items@ == l.map_values(|n: nat| Json::UInt(n as u64))
    }
}

/// Encodes an optional reference as a field value.
pub fn opt_index_to_json<T>(o: Option<Index<T>>) -> (r: Option<Json>)
    ensures
        r == opt_index_json(opt_view(o)),
{
    match o {
        Some(i) => Some(i.to_json()),
        None => None,
    }
}

/// A decoded optional reference encodes back to the value it came from.
pub proof fn lemma_opt_index_back(v: Option<Json>, o: Option<nat>)
    requires
        opt_index_value(v) == Some(o),
    ensures
        opt_index_json(o) == v,
{
}

/// A decoded list of references encodes back to the value it came from, or
/// to nothing where that value is an empty array.
pub proof fn lemma_index_list_back(v: Option<Json>, l: Seq<nat>, w: Option<Json>)
    requires
        index_list_value(v) == Some(l),
        index_list_json(w, l, None),
    ensures
        crate::object::same_field(w, v),
{
    if let Some(Json::Array(items)) = v {
        if l.len() > 0 {
            let out = w->0->Array_0;
            assert forall|i: int| 0 <= i < items@.len() implies out@[i] == items@[i] by {
                assert(index_value(items@[i]) is Some);
            }
            assert(out@ =~= items@);
        }
    }
}

} // verus!
