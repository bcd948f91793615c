use vstd::prelude::*;
use crate::buffer::BufferView;
use crate::codec::{CodeEnum, TokenEnum, code_of, decode_code, decode_token, token_of, views};
use crate::error::DecodeError;
use crate::index::{Index, opt_index_value, opt_view, read_opt_index};
use crate::json::Json;
use crate::object::{field, keeps_others, object_ok, entries, read_object, take};
use crate::traits::{Decode, Extensions, Extras};

verus! {

/// The numeric type of an accessor's components, written as its GL code.
#[derive(Clone, Copy, Debug, PartialEq, Eq, Structural)]
pub enum ComponentType {
    I8,
    U8,
    I16,
    U16,
    U32,
    F32,
}

impl CodeEnum for ComponentType {
    open spec fn spec_codes() -> Seq<u64> {
        seq![5120u64, 5121u64, 5122u64, 5123u64, 5125u64, 5126u64]
    }

    open spec fn spec_position(&self) -> nat {
        match self {
            ComponentType::I8 => 0,
            ComponentType::U8 => 1,
            ComponentType::I16 => 2,
            ComponentType::U16 => 3,
            ComponentType::U32 => 4,
            ComponentType::F32 => 5,
        }
    }

    fn codes() -> (r: Vec<u64>) {
        let r = vec![5120u64, 5121u64, 5122u64, 5123u64, 5125u64, 5126u64];
        assert(r@ =~= Self::spec_codes());
        r
    }

    fn from_position(i: usize) -> (r: Self) {
        if i == 0 {
            ComponentType::I8
        } else if i == 1 {
            ComponentType::U8
        } else if i == 2 {
            ComponentType::I16
        } else if i == 3 {
            ComponentType::U16
        } else if i == 4 {
            ComponentType::U32
        } else {
            ComponentType::F32
        }
    }

    fn position(&self) -> (r: usize) {
        match self {
            ComponentType::I8 => 0,
            ComponentType::U8 => 1,
            ComponentType::I16 => 2,
            ComponentType::U16 => 3,
            ComponentType::U32 => 4,
            ComponentType::F32 => 5,
        }
    }

    proof fn table_is_exact() {
    }
}

/// The shape of an accessor's elements, written `"SCALAR"`, `"VEC2"`, ...
#[derive(Clone, Copy, Debug, PartialEq, Eq, Structural)]
pub enum AccessorType {
    Scalar,
    Vec2,
    Vec3,
    Vec4,
    Mat2,
    Mat3,
    Mat4,
}

impl TokenEnum for AccessorType {
    open spec fn spec_labels() -> Seq<Seq<char>> {
        seq!["SCALAR"@, "VEC2"@, "VEC3"@, "VEC4"@, "MAT2"@, "MAT3"@, "MAT4"@]
    }

    open spec fn spec_position(&self) -> nat {
        match self {
            AccessorType::Scalar => 0,
            AccessorType::Vec2 => 1,
            AccessorType::Vec3 => 2,
            AccessorType::Vec4 => 3,
            AccessorType::Mat2 => 4,
            AccessorType::Mat3 => 5,
            AccessorType::Mat4 => 6,
        }
    }

    fn labels() -> (r: Vec<String>) {
        let r = vec![
            "SCALAR".to_owned(), "VEC2".to_owned(), "VEC3".to_owned(), "VEC4".to_owned(),
            "MAT2".to_owned(), "MAT3".to_owned(), "MAT4".to_owned(),
        ];
        assert(views(r@) =~= Self::spec_labels());
        r
    }

    fn from_position(i: usize) -> (r: Self) {
        if i == 0 {
            AccessorType::Scalar
        } else if i == 1 {
            AccessorType::Vec2
        } else if i == 2 {
            AccessorType::Vec3
        } else if i == 3 {
            AccessorType::Vec4
        } else if i == 4 {
            AccessorType::Mat2
        } else if i == 5 {
            AccessorType::Mat3
        } else {
            AccessorType::Mat4
        }
    }

    fn position(&self) -> (r: usize) {
        match self {
            AccessorType::Scalar => 0,
            AccessorType::Vec2 => 1,
            AccessorType::Vec3 => 2,
            AccessorType::Vec4 => 3,
            AccessorType::Mat2 => 4,
            AccessorType::Mat3 => 5,
            AccessorType::Mat4 => 6,
        }
    }

    proof fn table_is_exact() {
        reveal_strlit("SCALAR");
        reveal_strlit("VEC2");
        reveal_strlit("VEC3");
        reveal_strlit("VEC4");
        reveal_strlit("MAT2");
        reveal_strlit("MAT3");
        reveal_strlit("MAT4");
        let l = Self::spec_labels();
        assert forall|i: int, j: int| 0 <= i < l.len() && 0 <= j < l.len() && i != j implies l[i] != l[j] by {
            if l[i].len() == 4 && l[j].len() == 4 {
                assert(l[i][0] != l[j][0] || l[i][3] != l[j][3]);
            }
        }
    }
}

/// The fields an accessor may have.
pub open spec fn accessor_keys() -> Seq<Seq<char>> {
    seq![
        "bufferView"@, "componentType"@, "type"@, "extensions"@, "extras"@, "byteOffset"@,
        "count"@, "normalized"@, "max"@, "min"@, "sparse"@, "name"@,
    ]
}

/// The fields of an accessor that the accessor reads itself.
pub open spec fn accessor_typed() -> Seq<Seq<char>> {
    seq!["bufferView"@, "componentType"@, "type"@, "extensions"@, "extras"@]
}

/// Whether an optional capability slot decodes, by the capability's own test.
pub open spec fn slot_ok(v: Option<Json>, ok: spec_fn(Json) -> bool) -> bool {
    match v {
        None => true,
        Some(j) => ok(j),
    }
}

/// A typed view into a buffer view.
pub struct Accessor<E: Extensions, X: Extras> {
    /// The buffer view the data lies in.
    pub buffer_view: Option<Index<BufferView>>,
    /// The numeric type of each component.
    pub component_type: ComponentType,
    /// The shape of each element.
    pub type_: AccessorType,
    /// The extensions payload.
    pub extensions: Option<E::Accessor>,
    /// The extras payload.
    pub extras: Option<X::Accessor>,
    /// The other fields (offset, count, bounds, sparse storage, name), as given.
    pub rest: Vec<(String, Json)>,
}

impl<E: Extensions, X: Extras> Decode for Accessor<E, X> {
    open spec fn decodes(j: Json) -> bool {
        let fs = entries(j);
        object_ok(j, accessor_keys()) && opt_index_value(field(fs, "bufferView"@)) is Some
            && (field(fs, "componentType"@) matches Some(Json::UInt(c)) && ComponentType::spec_codes().contains(c))
            && (field(fs, "type"@) matches Some(Json::Str(t)) && AccessorType::spec_labels().contains(t@))
            && slot_ok(field(fs, "extensions"@), |j: Json| E::accessor_decodes(j))
            && slot_ok(field(fs, "extras"@), |j: Json| X::accessor_decodes(j))
    }

    open spec fn decoded_from(&self, j: Json) -> bool {
        let fs = entries(j);
        opt_index_value(field(fs, "bufferView"@)) == Some(opt_view(self.buffer_view))
            && field(fs, "componentType"@) == Some(Json::UInt(code_of(self.component_type)))
            && (field(fs, "type"@) matches Some(Json::Str(t)) && t@ == token_of(self.type_))
            && (self.extensions is Some <==> field(fs, "extensions"@) is Some)
            && (self.extras is Some <==> field(fs, "extras"@) is Some)
            && keeps_others(self.rest@, fs, accessor_typed())
    }

    fn from_json(j: Json) -> (r: Result<Self, DecodeError>) {
        let known = vec![
            "bufferView".to_owned(), "componentType".to_owned(), "type".to_owned(),
            "extensions".to_owned(), "extras".to_owned(), "byteOffset".to_owned(),
            "count".to_owned(), "normalized".to_owned(), "max".to_owned(), "min".to_owned(),
            "sparse".to_owned(), "name".to_owned(),
        ];
        assert(views(known@) =~= accessor_keys());
        let mut fs = read_object(j, &known, "accessor")?;
        proof {
            reveal_strlit("bufferView");
            reveal_strlit("componentType");
            reveal_strlit("type");
            reveal_strlit("extensions");
            reveal_strlit("extras");
            assert("bufferView"@.len() != "componentType"@.len());
            assert("bufferView"@.len() != "type"@.len());
            assert("bufferView"@[0] != "extensions"@[0]);
            assert("bufferView"@.len() != "extras"@.len());
            assert("componentType"@.len() != "type"@.len());
            assert("componentType"@.len() != "extensions"@.len());
            assert("componentType"@.len() != "extras"@.len());
            assert("type"@.len() != "extensions"@.len());
            assert("type"@.len() != "extras"@.len());
            assert("extensions"@.len() != "extras"@.len());
        }
        let buffer_view = read_opt_index(take(&mut fs, "bufferView"), "bufferView")?;
        let component_type = match take(&mut fs, "componentType") {
            Some(v) => decode_code::<ComponentType>(&v, &"componentType".to_owned())?,
            None => return Err(DecodeError::MissingField { field: "componentType".to_owned() }),
        };
        let type_ = match take(&mut fs, "type") {
            Some(v) => decode_token::<AccessorType>(&v, &"type".to_owned())?,
            None => return Err(DecodeError::MissingField { field: "type".to_owned() }),
        };
        let extensions = match take(&mut fs, "extensions") {
            Some(v) => Some(E::decode_accessor(v)?),
            None => None,
        };
        let extras = match take(&mut fs, "extras") {
            Some(v) => Some(X::decode_accessor(v)?),
            None => None,
        };
        proof {
            ComponentType::table_is_exact();
        }
        Ok(Accessor { buffer_view, component_type, type_, extensions, extras, rest: fs })
    }
}

} // verus!
