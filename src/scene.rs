use vstd::prelude::*;
use crate::camera::Camera;
use crate::codec::views;
use crate::error::DecodeError;
use crate::index::{
    Index, index_list_json, index_list_to_json, index_list_value, lemma_index_list_back, lemma_opt_index_back,
    list_view, opt_index_json, opt_index_to_json, opt_index_value, opt_view, read_index_list, read_opt_index,
};
use crate::json::Json;
use crate::mesh::Mesh;
use crate::object::{
    field, first_of, keeps_others, lemma_field_append, lemma_field_push, object_ok, entries, read_object, same_field, take,
};
use crate::skin::Skin;
use crate::traits::{Decode, Encode, Extensions, Extras};

verus! {

/// The fields a node may have.
pub open spec fn node_keys() -> Seq<Seq<char>> {
    seq![
        "camera"@, "children"@, "mesh"@, "skin"@, "matrix"@, "rotation"@, "scale"@,
        "translation"@, "weights"@, "name"@, "extensions"@, "extras"@,
    ]
}

/// The fields of a node that hold references.
pub open spec fn node_refs() -> Seq<Seq<char>> {
    seq!["camera"@, "children"@, "mesh"@, "skin"@]
}

/// A node of the scene graph.
pub struct Node<E: Extensions, X: Extras> {
    /// The camera attached to this node.
    pub camera: Option<Index<Camera>>,
    /// The children of this node.
    pub children: Vec<Index<Node<E, X>>>,
    /// The mesh attached to this node.
    pub mesh: Option<Index<Mesh<E, X>>>,
    /// The skin that the mesh of this node uses.
    pub skin: Option<Index<Skin<E, X>>>,
    /// The other fields (transform, weights, name, extensions, extras), as given.
    pub rest: Vec<(String, Json)>,
}

impl<E: Extensions, X: Extras> Decode for Node<E, X> {
    open spec fn decodes(j: Json) -> bool {
        object_ok(j, node_keys()) && opt_index_value(field(entries(j), "camera"@)) is Some
            && index_list_value(field(entries(j), "children"@)) is Some
            && opt_index_value(field(entries(j), "mesh"@)) is Some
            && opt_index_value(field(entries(j), "skin"@)) is Some
    }

    open spec fn decoded_from(&self, j: Json) -> bool {
        let fs = entries(j);
        opt_index_value(field(fs, "camera"@)) == Some(opt_view(self.camera))
            && index_list_value(field(fs, "children"@)) == Some(list_view(self.children@))
            && opt_index_value(field(fs, "mesh"@)) == Some(opt_view(self.mesh))
            && opt_index_value(field(fs, "skin"@)) == Some(opt_view(self.skin))
            && keeps_others(self.rest@, fs, node_refs())
    }

    fn from_json(j: Json) -> (r: Result<Self, DecodeError>) {
        let ghost g = j;
        let known = vec![
            "camera".to_owned(), "children".to_owned(), "mesh".to_owned(), "skin".to_owned(),
            "matrix".to_owned(), "rotation".to_owned(), "scale".to_owned(),
            "translation".to_owned(), "weights".to_owned(), "name".to_owned(),
            "extensions".to_owned(), "extras".to_owned(),
        ];
        assert(views(known@) =~= node_keys());
        let mut fs = read_object(j, &known, "node")?;
        proof {
            reveal_strlit("camera");
            reveal_strlit("children");
            reveal_strlit("mesh");
            reveal_strlit("skin");
            assert("camera"@.len() != "children"@.len());
            assert("camera"@.len() != "mesh"@.len());
            assert("camera"@.len() != "skin"@.len());
            assert("children"@.len() != "mesh"@.len());
            assert("children"@.len() != "skin"@.len());
            assert("mesh"@[0] != "skin"@[0]);
        }
        let camera = read_opt_index(take(&mut fs, "camera"), "camera")?;
        let children = read_index_list(take(&mut fs, "children"), "children")?;
        let mesh = read_opt_index(take(&mut fs, "mesh"), "mesh")?;
        let skin = read_opt_index(take(&mut fs, "skin"), "skin")?;
        Ok(Node { camera, children, mesh, skin, rest: fs })
    }
}

} // verus!

verus! {

/// The fields a scene may have.
pub open spec fn scene_keys() -> Seq<Seq<char>> {
    seq!["nodes"@, "name"@, "extensions"@, "extras"@]
}

/// The fields of a scene that hold references.
pub open spec fn scene_refs() -> Seq<Seq<char>> {
    seq!["nodes"@]
}

/// A set of root nodes.
pub struct Scene<E: Extensions, X: Extras> {
    /// The root nodes of the scene.
    pub nodes: Vec<Index<Node<E, X>>>,
    /// The other fields (name, extensions, extras), as given.
    pub rest: Vec<(String, Json)>,
}

impl<E: Extensions, X: Extras> Decode for Scene<E, X> {
    open spec fn decodes(j: Json) -> bool {
        object_ok(j, scene_keys()) && index_list_value(field(entries(j), "nodes"@)) is Some
    }

    open spec fn decoded_from(&self, j: Json) -> bool {
        let fs = entries(j);
        index_list_value(field(fs, "nodes"@)) == Some(list_view(self.nodes@))
            && keeps_others(self.rest@, fs, scene_refs())
    }

    fn from_json(j: Json) -> (r: Result<Self, DecodeError>) {
        let known = vec!["nodes".to_owned(), "name".to_owned(), "extensions".to_owned(), "extras".to_owned()];
        assert(views(known@) =~= scene_keys());
        let mut fs = read_object(j, &known, "scene")?;
        let nodes = read_index_list(take(&mut fs, "nodes"), "nodes")?;
        assert(seq!["nodes"@][0] == "nodes"@);
        Ok(Scene { nodes, rest: fs })
    }
}

} // verus!

verus! {

impl<E: Extensions, X: Extras> Encode for Node<E, X> {
    open spec fn encodes_to(&self, j: Json) -> bool {
        let fs = entries(j);
        &&& j is Object
        &&& field(fs, "camera"@) == first_of(opt_index_json(opt_view(self.camera)), field(self.rest@, "camera"@))
        &&& index_list_json(field(fs, "children"@), list_view(self.children@), field(self.rest@, "children"@))
        &&& field(fs, "mesh"@) == first_of(opt_index_json(opt_view(self.mesh)), field(self.rest@, "mesh"@))
        &&& field(fs, "skin"@) == first_of(opt_index_json(opt_view(self.skin)), field(self.rest@, "skin"@))
        &&& forall|k: Seq<char>| !node_refs().contains(k) ==> #[trigger] field(fs, k) == field(self.rest@, k)
    }

    fn into_json(self) -> (r: Json) {
        proof {
            reveal_strlit("camera");
            reveal_strlit("children");
            reveal_strlit("mesh");
            reveal_strlit("skin");
            assert("camera"@.len() != "children"@.len());
            assert("camera"@.len() != "mesh"@.len());
            assert("camera"@.len() != "skin"@.len());
            assert("children"@.len() != "mesh"@.len());
            assert("children"@.len() != "skin"@.len());
            assert("mesh"@[0] != "skin"@[0]);
        }
        let ghost me = self;
        let mut out: Vec<(String, Json)> = Vec::new();
        if let Some(v) = opt_index_to_json(self.camera) {
            let e = ("camera".to_owned(), v);
            proof {
                lemma_field_push(out@, e);
            }
            out.push(e);
        }
        if self.children.len() > 0 {
            let v = index_list_to_json(&self.children);
            assert(v->Array_0@ =~= list_view(self.children@).map_values(|n: nat| Json::UInt(n as u64)));
            let e = ("children".to_owned(), v);
            proof {
                lemma_field_push(out@, e);
            }
            out.push(e);
        }
        if let Some(v) = opt_index_to_json(self.mesh) {
            let e = ("mesh".to_owned(), v);
            proof {
                lemma_field_push(out@, e);
            }
            out.push(e);
        }
        if let Some(v) = opt_index_to_json(self.skin) {
            let e = ("skin".to_owned(), v);
            proof {
                lemma_field_push(out@, e);
            }
            out.push(e);
        }
        let ghost typed = out@;
        let mut rest = self.rest;
        out.append(&mut rest);
        proof {
            assert forall|k: Seq<char>| true implies #[trigger] field(out@, k) == match field(typed, k) {
                Some(v) => Some(v),
                None => field(me.rest@, k),
            } by {
                assert(out@ =~= typed + me.rest@);
                lemma_field_append(typed, me.rest@, k);
            }
            assert(node_refs() =~= seq!["camera"@, "children"@, "mesh"@, "skin"@]);
            assert(field(typed, "camera"@) == opt_index_json(opt_view(me.camera)));
            assert forall|k: Seq<char>| !node_refs().contains(k) implies #[trigger] field(out@, k) == field(me.rest@, k) by {
                assert(node_refs()[0] == "camera"@);
                assert(node_refs()[1] == "children"@);
                assert(node_refs()[2] == "mesh"@);
                assert(node_refs()[3] == "skin"@);
                assert(field(typed, k) is None);
            }
        }
        Json::Object(out)
    }
}

} // verus!

verus! {

/// Encoding a decoded node gives back, under every name, what the node was
/// decoded from; an empty `children` array may come back absent.
pub proof fn lemma_node_round_trip<E: Extensions, X: Extras>(n: Node<E, X>, j: Json, r: Json)
    requires
        Node::<E, X>::decodes(j),
        n.decoded_from(j),
        n.encodes_to(r),
    ensures
        forall|k: Seq<char>| same_field(#[trigger] field(entries(r), k), field(entries(j), k)),
{
    let fs = entries(j);
    let rest = n.rest@;
    assert(node_refs()[0] == "camera"@);
    assert(node_refs()[1] == "children"@);
    assert(node_refs()[2] == "mesh"@);
    assert(node_refs()[3] == "skin"@);
    assert(field(rest, "camera"@) is None);
    assert(field(rest, "children"@) is None);
    assert(field(rest, "mesh"@) is None);
    assert(field(rest, "skin"@) is None);
    lemma_opt_index_back(field(fs, "camera"@), opt_view(n.camera));
    lemma_opt_index_back(field(fs, "mesh"@), opt_view(n.mesh));
    lemma_opt_index_back(field(fs, "skin"@), opt_view(n.skin));
    lemma_index_list_back(field(fs, "children"@), list_view(n.children@), field(entries(r), "children"@));
    assert forall|k: Seq<char>| same_field(#[trigger] field(entries(r), k), field(entries(j), k)) by {
        if !node_refs().contains(k) {
            assert(field(entries(r), k) == field(rest, k));
        } else {
            let i = choose|i: int| 0 <= i < node_refs().len() && node_refs()[i] == k;
            assert(i == 0 || i == 1 || i == 2 || i == 3);
        }
    }
}

} // verus!

verus! {

impl<E: Extensions, X: Extras> Encode for Scene<E, X> {
    open spec fn encodes_to(&self, j: Json) -> bool {
        let fs = entries(j);
        &&& j is Object
        &&& index_list_json(field(fs, "nodes"@), list_view(self.nodes@), field(self.rest@, "nodes"@))
        &&& forall|k: Seq<char>| !scene_refs().contains(k) ==> #[trigger] field(fs, k) == field(self.rest@, k)
    }

    fn into_json(self) -> (r: Json) {
        proof {
            reveal_strlit("nodes");
        }
        let ghost me = self;
        let mut out: Vec<(String, Json)> = Vec::new();
        if self.nodes.len() > 0 {
            let v = index_list_to_json(&self.nodes);
            assert(v->Array_0@ =~= list_view(self.nodes@).map_values(|n: nat| Json::UInt(n as u64)));
            let e = ("nodes".to_owned(), v);
            proof {
                lemma_field_push(out@, e);
            }
            out.push(e);
        }
        let ghost typed = out@;
        let mut rest = self.rest;
        out.append(&mut rest);
        proof {
            assert forall|k: Seq<char>| true implies #[trigger] field(out@, k) == match field(typed, k) {
                Some(v) => Some(v),
                None => field(me.rest@, k),
            } by {
                assert(out@ =~= typed + me.rest@);
                lemma_field_append(typed, me.rest@, k);
            }
            assert(scene_refs() =~= seq!["nodes"@]);
            assert forall|k: Seq<char>| !scene_refs().contains(k) implies #[trigger] field(out@, k) == field(me.rest@, k) by {
                assert(scene_refs()[0] == "nodes"@);
                assert(field(typed, k) is None);
            }
        }
        Json::Object(out)
    }
}

/// Encoding a decoded scene gives back, under every name, what the scene was
/// decoded from; an empty `nodes` array may come back absent.
pub proof fn lemma_scene_round_trip<E: Extensions, X: Extras>(n: Scene<E, X>, j: Json, r: Json)
    requires
        Scene::<E, X>::decodes(j),
        n.decoded_from(j),
        n.encodes_to(r),
    ensures
        forall|k: Seq<char>| same_field(#[trigger] field(entries(r), k), field(entries(j), k)),
{
    let fs = entries(j);
    let rest = n.rest@;
    assert(scene_refs()[0] == "nodes"@);
    assert(field(rest, "nodes"@) is None);
    lemma_index_list_back(field(fs, "nodes"@), list_view(n.nodes@), field(entries(r), "nodes"@));
    assert forall|k: Seq<char>| same_field(#[trigger] field(entries(r), k), field(entries(j), k)) by {
        if !scene_refs().contains(k) {
            assert(field(entries(r), k) == field(rest, k));
        } else {
            let i = choose|i: int| 0 <= i < scene_refs().len() && scene_refs()[i] == k;
            assert(i == 0);
        }
    }
}

} // verus!
