use vstd::prelude::*;
use crate::accessor::Accessor;
use crate::codec::views;
use crate::error::DecodeError;
use crate::index::{Index, index_map_value, map_view, opt_index_value, opt_view, read_index_map, read_opt_index};
use crate::json::Json;
use crate::material::Material;
use crate::object::{field, keeps_others, list_decoded, list_ok, object_ok, entries, read_list, read_object, take};
use crate::traits::{Decode, Extensions, Extras};

verus! {

/// Attribute names bound to the accessors that hold their data.
pub struct MorphTarget<E: Extensions, X: Extras> {
    /// The attributes, in document order.
    pub attributes: Vec<(String, Index<Accessor<E, X>>)>,
}

impl<E: Extensions, X: Extras> Decode for MorphTarget<E, X> {
    open spec fn decodes(j: Json) -> bool {
        index_map_value(j) is Some
    }

    open spec fn decoded_from(&self, j: Json) -> bool {
        index_map_value(j) == Some(map_view(self.attributes@))
    }

    fn from_json(j: Json) -> (r: Result<Self, DecodeError>) {
        let attributes = read_index_map(j, "targets")?;
        Ok(MorphTarget { attributes })
    }
}

/// The fields a primitive may have.
pub open spec fn primitive_keys() -> Seq<Seq<char>> {
    seq!["attributes"@, "indices"@, "material"@, "targets"@, "mode"@, "extensions"@, "extras"@]
}

/// The fields of a primitive that hold references.
pub open spec fn primitive_refs() -> Seq<Seq<char>> {
    seq!["attributes"@, "indices"@, "material"@, "targets"@]
}

/// Geometry to be rendered with one material.
pub struct Primitive<E: Extensions, X: Extras> {
    /// Attribute names bound to the accessors that hold their data.
    pub attributes: Vec<(String, Index<Accessor<E, X>>)>,
    /// The accessor holding the vertex indices.
    pub indices: Option<Index<Accessor<E, X>>>,
    /// The material to render with.
    pub material: Option<Index<Material>>,
    /// The morph targets.
    pub targets: Vec<MorphTarget<E, X>>,
    /// The other fields (mode, extensions, extras), as given.
    pub rest: Vec<(String, Json)>,
}

impl<E: Extensions, X: Extras> Decode for Primitive<E, X> {
    open spec fn decodes(j: Json) -> bool {
        let fs = entries(j);
        object_ok(j, primitive_keys()) && (field(fs, "attributes"@) matches Some(a) && index_map_value(a) is Some)
            && opt_index_value(field(fs, "indices"@)) is Some
            && opt_index_value(field(fs, "material"@)) is Some
            && list_ok::<MorphTarget<E, X>>(field(fs, "targets"@))
    }

    open spec fn decoded_from(&self, j: Json) -> bool {
        let fs = entries(j);
        (field(fs, "attributes"@) matches Some(a) && index_map_value(a) == Some(map_view(self.attributes@)))
            && opt_index_value(field(fs, "indices"@)) == Some(opt_view(self.indices))
            && opt_index_value(field(fs, "material"@)) == Some(opt_view(self.material))
            && list_decoded(self.targets@, field(fs, "targets"@))
            && keeps_others(self.rest@, fs, primitive_refs())
    }

    fn from_json(j: Json) -> (r: Result<Self, DecodeError>) {
        let known = vec![
            "attributes".to_owned(), "indices".to_owned(), "material".to_owned(),
            "targets".to_owned(), "mode".to_owned(), "extensions".to_owned(), "extras".to_owned(),
        ];
        assert(views(known@) =~= primitive_keys());
        let mut fs = read_object(j, &known, "primitive")?;
        proof {
            reveal_strlit("attributes");
            reveal_strlit("indices");
            reveal_strlit("material");
            reveal_strlit("targets");
            assert("attributes"@.len() != "indices"@.len());
            assert("attributes"@.len() != "material"@.len());
            assert("attributes"@.len() != "targets"@.len());
            assert("indices"@.len() != "material"@.len());
            assert("indices"@[0] != "targets"@[0]);
            assert("material"@.len() != "targets"@.len());
        }
        let attributes = match take(&mut fs, "attributes") {
            Some(a) => read_index_map(a, "attributes")?,
            None => return Err(DecodeError::MissingField { field: "attributes".to_owned() }),
        };
        let indices = read_opt_index(take(&mut fs, "indices"), "indices")?;
        let material = read_opt_index(take(&mut fs, "material"), "material")?;
        let targets = read_list(take(&mut fs, "targets"), "targets")?;
        Ok(Primitive { attributes, indices, material, targets, rest: fs })
    }
}

/// The fields a mesh may have.
pub open spec fn mesh_keys() -> Seq<Seq<char>> {
    seq!["primitives"@, "weights"@, "name"@, "extensions"@, "extras"@]
}

/// A set of primitives to be rendered.
pub struct Mesh<E: Extensions, X: Extras> {
    /// The primitives.
    pub primitives: Vec<Primitive<E, X>>,
    /// The other fields (weights, name, extensions, extras), as given.
    pub rest: Vec<(String, Json)>,
}

impl<E: Extensions, X: Extras> Decode for Mesh<E, X> {
    open spec fn decodes(j: Json) -> bool {
        object_ok(j, mesh_keys()) && list_ok::<Primitive<E, X>>(field(entries(j), "primitives"@))
    }

    open spec fn decoded_from(&self, j: Json) -> bool {
        let fs = entries(j);
        list_decoded(self.primitives@, field(fs, "primitives"@))
            && keeps_others(self.rest@, fs, seq!["primitives"@])
    }

    fn from_json(j: Json) -> (r: Result<Self, DecodeError>) {
        let known = vec![
            "primitives".to_owned(), "weights".to_owned(), "name".to_owned(),
            "extensions".to_owned(), "extras".to_owned(),
        ];
        assert(views(known@) =~= mesh_keys());
        let mut fs = read_object(j, &known, "mesh")?;
        let primitives = read_list(take(&mut fs, "primitives"), "primitives")?;
        assert(seq!["primitives"@][0] == "primitives"@);
        Ok(Mesh { primitives, rest: fs })
    }
}

} // verus!
