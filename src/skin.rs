use vstd::prelude::*;
use crate::accessor::Accessor;
use crate::codec::views;
use crate::error::DecodeError;
use crate::index::{
    Index, index_list_json, index_list_to_json, index_list_value, lemma_index_list_back, lemma_opt_index_back,
    list_view, opt_index_json, opt_index_to_json, opt_index_value, opt_view, read_index_list, read_opt_index,
};
use crate::json::Json;
use crate::object::{
    field, first_of, keeps_others, lemma_field_append, lemma_field_push, object_ok, entries, read_object, same_field, take,
};
use crate::scene::Node;
use crate::traits::{Decode, Encode, Extensions, Extras};

verus! {

/// The fields a skin may have.
pub open spec fn skin_keys() -> Seq<Seq<char>> {
    seq!["inverseBindMatrices"@, "joints"@, "skeleton"@, "name"@, "extensions"@, "extras"@]
}

/// The fields of a skin that hold references.
pub open spec fn skin_refs() -> Seq<Seq<char>> {
    seq!["inverseBindMatrices"@, "joints"@, "skeleton"@]
}

/// Joints and matrices defining a skin.
pub struct Skin<E: Extensions, X: Extras> {
    /// The accessor holding the 4x4 inverse-bind matrices.
    pub inverse_bind_matrices: Option<Index<Accessor<E, X>>>,
    /// The nodes used as joints.
    pub joints: Vec<Index<Node<E, X>>>,
    /// The node used as the skeleton root.
    pub skeleton: Option<Index<Node<E, X>>>,
    /// The other fields (name, extensions, extras), as given.
    pub rest: Vec<(String, Json)>,
}

impl<E: Extensions, X: Extras> Decode for Skin<E, X> {
    open spec fn decodes(j: Json) -> bool {
        object_ok(j, skin_keys())
            && opt_index_value(field(entries(j), "inverseBindMatrices"@)) is Some
            && index_list_value(field(entries(j), "joints"@)) is Some
            && opt_index_value(field(entries(j), "skeleton"@)) is Some
    }

    open spec fn decoded_from(&self, j: Json) -> bool {
        let fs = entries(j);
        opt_index_value(field(fs, "inverseBindMatrices"@)) == Some(opt_view(self.inverse_bind_matrices))
            && index_list_value(field(fs, "joints"@)) == Some(list_view(self.joints@))
            && opt_index_value(field(fs, "skeleton"@)) == Some(opt_view(self.skeleton))
            && keeps_others(self.rest@, fs, skin_refs())
    }

    fn from_json(j: Json) -> (r: Result<Self, DecodeError>) {
        let known = vec![
            "inverseBindMatrices".to_owned(), "joints".to_owned(), "skeleton".to_owned(),
            "name".to_owned(), "extensions".to_owned(), "extras".to_owned(),
        ];
        assert(views(known@) =~= skin_keys());
        let mut fs = read_object(j, &known, "skin")?;
        proof {
            reveal_strlit("inverseBindMatrices");
            reveal_strlit("joints");
            reveal_strlit("skeleton");
            assert("inverseBindMatrices"@.len() != "joints"@.len());
            assert("inverseBindMatrices"@.len() != "skeleton"@.len());
            assert("joints"@.len() != "skeleton"@.len());
        }
        let inverse_bind_matrices = read_opt_index(take(&mut fs, "inverseBindMatrices"), "inverseBindMatrices")?;
        let joints = read_index_list(take(&mut fs, "joints"), "joints")?;
        let skeleton = read_opt_index(take(&mut fs, "skeleton"), "skeleton")?;
        Ok(Skin { inverse_bind_matrices, joints, skeleton, rest: fs })
    }
}

} // verus!

verus! {

impl<E: Extensions, X: Extras> Encode for Skin<E, X> {
    open spec fn encodes_to(&self, j: Json) -> bool {
        let fs = entries(j);
        &&& j is Object
        &&& field(fs, "inverseBindMatrices"@) == first_of(opt_index_json(opt_view(self.inverse_bind_matrices)), field(self.rest@, "inverseBindMatrices"@))
        &&& index_list_json(field(fs, "joints"@), list_view(self.joints@), field(self.rest@, "joints"@))
        &&& field(fs, "skeleton"@) == first_of(opt_index_json(opt_view(self.skeleton)), field(self.rest@, "skeleton"@))
        &&& forall|k: Seq<char>| !skin_refs().contains(k) ==> #[trigger] field(fs, k) == field(self.rest@, k)
    }

    fn into_json(self) -> (r: Json) {
        proof {
            reveal_strlit("inverseBindMatrices");
            reveal_strlit("joints");
            reveal_strlit("skeleton");
            assert("inverseBindMatrices"@.len() != "joints"@.len());
            assert("inverseBindMatrices"@.len() != "skeleton"@.len());
            assert("joints"@.len() != "skeleton"@.len());
        }
        let ghost me = self;
        let mut out: Vec<(String, Json)> = Vec::new();
        if let Some(v) = opt_index_to_json(self.inverse_bind_matrices) {
            let e = ("inverseBindMatrices".to_owned(), v);
            proof {
                lemma_field_push(out@, e);
            }
            out.push(e);
        }
        if self.joints.len() > 0 {
            let v = index_list_to_json(&self.joints);
            assert(v->Array_0@ =~= list_view(self.joints@).map_values(|n: nat| Json::UInt(n as u64)));
            let e = ("joints".to_owned(), v);
            proof {
                lemma_field_push(out@, e);
            }
            out.push(e);
        }
        if let Some(v) = opt_index_to_json(self.skeleton) {
            let e = ("skeleton".to_owned(), v);
            proof {
                lemma_field_push(out@, e);
            }
            out.push(e);
        }
        let ghost typed = out@;
        let mut rest = self.rest;
        out.append(&mut rest);
        proof {
            assert forall|k: Seq<char>| true implies #[trigger] field(out@, k) == match field(typed, k) {
                Some(v) => Some(v),
                None => field(me.rest@, k),
            } by {
                assert(out@ =~= typed + me.rest@);
                lemma_field_append(typed, me.rest@, k);
            }
            assert(skin_refs() =~= seq!["inverseBindMatrices"@, "joints"@, "skeleton"@]);
            assert forall|k: Seq<char>| !skin_refs().contains(k) implies #[trigger] field(out@, k) == field(me.rest@, k) by {
                assert(skin_refs()[0] == "inverseBindMatrices"@);
                assert(skin_refs()[1] == "joints"@);
                assert(skin_refs()[2] == "skeleton"@);
                assert(field(typed, k) is None);
            }
        }
        Json::Object(out)
    }
}

/// Encoding a decoded skin gives back, under every name, what the skin was
/// decoded from; an empty `joints` array may come back absent.
pub proof fn lemma_skin_round_trip<E: Extensions, X: Extras>(n: Skin<E, X>, j: Json, r: Json)
    requires
        Skin::<E, X>::decodes(j),
        n.decoded_from(j),
        n.encodes_to(r),
    ensures
        forall|k: Seq<char>| same_field(#[trigger] field(entries(r), k), field(entries(j), k)),
{
    let fs = entries(j);
    let rest = n.rest@;
    assert(skin_refs()[0] == "inverseBindMatrices"@);
    assert(skin_refs()[1] == "joints"@);
    assert(skin_refs()[2] == "skeleton"@);
    assert(field(rest, "inverseBindMatrices"@) is None);
    assert(field(rest, "joints"@) is None);
    assert(field(rest, "skeleton"@) is None);
    lemma_opt_index_back(field(fs, "inverseBindMatrices"@), opt_view(n.inverse_bind_matrices));
    lemma_index_list_back(field(fs, "joints"@), list_view(n.joints@), field(entries(r), "joints"@));
    lemma_opt_index_back(field(fs, "skeleton"@), opt_view(n.skeleton));
    assert forall|k: Seq<char>| same_field(#[trigger] field(entries(r), k), field(entries(j), k)) by {
        if !skin_refs().contains(k) {
            assert(field(entries(r), k) == field(rest, k));
        } else {
            let i = choose|i: int| 0 <= i < skin_refs().len() && skin_refs()[i] == k;
            assert(i == 0 || i == 1 || i == 2);
        }
    }
}

} // verus!
