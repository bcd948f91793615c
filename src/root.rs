use vstd::prelude::*;
use crate::accessor::Accessor;
use crate::animation::Animation;
use crate::material::TextureInfo;
use crate::mesh::Primitive;
use crate::buffer::{Buffer, BufferView};
use crate::camera::Camera;
use crate::codec::views;
use crate::error::{DecodeError, ImportError, InvalidReference, Kind};
use crate::index::{Index, opt_index_value, opt_view, read_opt_index};
use crate::json::{Json, json_of, parse};
use crate::material::Material;
use crate::mesh::Mesh;
use crate::object::{
    field, keeps_others, list_decoded, list_item, list_len, list_ok, object_ok, entries, read_list, read_object,
    take,
};
use crate::scene::{Node, Scene};
use crate::skin::Skin;
use crate::texture::{Image, Sampler, Texture};
use crate::traits::{Decode, Extensions, Extras};

verus! {

/// The fields the asset record may have.
pub open spec fn asset_keys() -> Seq<Seq<char>> {
    seq!["copyright"@, "extensions"@, "extras"@, "generator"@, "version"@]
}

/// What the version field decodes to: `None` where it is not a string; an
/// absent version is `"2.0"`.
pub open spec fn version_value(v: Option<Json>) -> Option<Seq<char>> {
    match v {
        None => Some("2.0"@),
        Some(Json::Str(s)) => Some(s@),
        _ => None,
    }
}

/// Metadata about the asset.
pub struct Asset {
    /// The schema version the asset targets.
    pub version: String,
    /// The other fields (copyright, generator, extensions, extras), as given.
    pub rest: Vec<(String, Json)>,
}

/// The version an asset has when its record names none.
fn asset_version_default() -> (r: String)
    ensures
        r@ == "2.0"@,
{
    "2.0".to_owned()
}

impl Decode for Asset {
    open spec fn decodes(j: Json) -> bool {
        object_ok(j, asset_keys()) && version_value(field(entries(j), "version"@)) is Some
    }

    open spec fn decoded_from(&self, j: Json) -> bool {
        let fs = entries(j);
        version_value(field(fs, "version"@)) == Some(self.version@)
            && keeps_others(self.rest@, fs, seq!["version"@])
    }

    fn from_json(j: Json) -> (r: Result<Self, DecodeError>) {
        let known = vec![
            "copyright".to_owned(), "extensions".to_owned(), "extras".to_owned(),
            "generator".to_owned(), "version".to_owned(),
        ];
        assert(views(known@) =~= asset_keys());
        let mut fs = read_object(j, &known, "asset")?;
        let version = match take(&mut fs, "version") {
            None => asset_version_default(),
            Some(Json::Str(s)) => s,
            Some(_) => return Err(DecodeError::WrongShape { field: "version".to_owned() }),
        };
        assert(seq!["version"@][0] == "version"@);
        Ok(Asset { version, rest: fs })
    }
}

/// The active scene of a document whose root names none: the first slot.
fn root_scene_default<E: Extensions, X: Extras>() -> (r: Index<Scene<E, X>>)
    ensures
        r@ == 0,
{
    Index::new(0)
}

/// What a list-of-strings field decodes to; an absent field is an empty list.
pub open spec fn string_list_value(v: Option<Json>) -> Option<Seq<Seq<char>>> {
    match v {
        None => Some(Seq::empty()),
        Some(Json::Array(items)) => if forall|i: int| 0 <= i < items@.len() ==> (#[trigger] items@[i]) is Str {
            Some(Seq::new(items@.len(), |i: int| items@[i]->Str_0@))
        } else {
            None
        },
        _ => None,
    }
}

/// Decodes a list of strings; an absent field is an empty list.
pub fn read_string_list(v: Option<Json>, name: &str) -> (r: Result<Vec<String>, DecodeError>)
    ensures
        r is Ok <==> string_list_value(v) is Some,
        r matches Ok(l) ==> string_list_value(v) == Some(views(l@)),
{
    match v {
        None => {
            let out: Vec<String> = Vec::new();
            assert(views(out@) =~= Seq::empty());
            Ok(out)
        },
        Some(Json::Array(items)) => {
            let mut out: Vec<String> = Vec::new();
            let mut i: usize = 0;
            while i < items.len()
                invariant
                    i <= items.len(),
                    v == Some(Json::Array(items)),
                    out@.len() == i,
                    forall|m: int| 0 <= m < i ==> (#[trigger] items@[m]) is Str && items@[m]->Str_0@ == out@[m]@,
                decreases items.len() - i,
            {
                match &items[i] {
                    Json::Str(s) => out.push(s.clone()),
                    _ => return Err(DecodeError::WrongShape { field: name.to_owned() }),
                }
                i = i + 1;
            }
            assert(views(out@) =~= Seq::new(items@.len(), |m: int| items@[m]->Str_0@));
            Ok(out)
        },
        Some(_) => Err(DecodeError::WrongShape { field: name.to_owned() }),
    }
}

} // verus!

verus! {

/// The fields the root object may have.
pub open spec fn root_keys() -> Seq<Seq<char>> {
    seq![
        "accessors"@, "animations"@, "buffers"@, "bufferViews"@, "cameras"@, "images"@,
        "materials"@, "meshes"@, "nodes"@, "samplers"@, "scenes"@, "skins"@, "textures"@,
        "asset"@, "extensionsUsed"@, "extensionsRequired"@, "scene"@,
    ]
}
/// Whether `j` decodes to a document root, before its references are checked.
pub open spec fn root_decodes<E: Extensions, X: Extras>(j: Json) -> bool {
    let fs = entries(j);
    object_ok(j, root_keys())
        && (field(fs, "asset"@) matches Some(a) && Asset::decodes(a))
        && opt_index_value(field(fs, "scene"@)) is Some
        && string_list_value(field(fs, "extensionsUsed"@)) is Some
        && string_list_value(field(fs, "extensionsRequired"@)) is Some
        && list_ok::<Accessor<E, X>>(field(fs, "accessors"@))
        && list_ok::<Animation<E, X>>(field(fs, "animations"@))
        && list_ok::<Buffer>(field(fs, "buffers"@))
        && list_ok::<BufferView>(field(fs, "bufferViews"@))
        && list_ok::<Camera>(field(fs, "cameras"@))
        && list_ok::<Image>(field(fs, "images"@))
        && list_ok::<Material>(field(fs, "materials"@))
        && list_ok::<Mesh<E, X>>(field(fs, "meshes"@))
        && list_ok::<Node<E, X>>(field(fs, "nodes"@))
        && list_ok::<Sampler>(field(fs, "samplers"@))
        && list_ok::<Scene<E, X>>(field(fs, "scenes"@))
        && list_ok::<Skin<E, X>>(field(fs, "skins"@))
        && list_ok::<Texture>(field(fs, "textures"@))
}

/// The root of a document: one collection per entity kind, the asset
/// record, the active scene and the extension names.
///
/// A root is only made by [`Root::import_from_json`] and
/// [`Root::import_from_str`], which check that every reference in it
/// designates an element of its target collection.
pub struct Root<E: Extensions, X: Extras> {
    accessors: Vec<Accessor<E, X>>,
    animations: Vec<Animation<E, X>>,
    buffers: Vec<Buffer>,
    buffer_views: Vec<BufferView>,
    cameras: Vec<Camera>,
    images: Vec<Image>,
    materials: Vec<Material>,
    meshes: Vec<Mesh<E, X>>,
    nodes: Vec<Node<E, X>>,
    samplers: Vec<Sampler>,
    scenes: Vec<Scene<E, X>>,
    skins: Vec<Skin<E, X>>,
    textures: Vec<Texture>,
    asset: Asset,
    extensions_used: Vec<String>,
    extensions_required: Vec<String>,
    scene: Option<Index<Scene<E, X>>>,
}

/// Whether an optional reference lies below `n`.
pub open spec fn opt_below<T>(o: Option<Index<T>>, n: nat) -> bool {
    match o {
        Some(i) => i@ < n,
        None => true,
    }
}

/// Whether every reference of a list lies below `n`.
pub open spec fn all_below<T>(l: Seq<Index<T>>, n: nat) -> bool {
    forall|i: int| 0 <= i < l.len() ==> (#[trigger] l[i])@ < n
}

impl<E: Extensions, X: Extras> Root<E, X> {
    /// The accessors, in document order.
    pub closed spec fn spec_accessors(&self) -> Seq<Accessor<E, X>> {
        self.accessors@
    }

    /// The animations, in document order.
    pub closed spec fn spec_animations(&self) -> Seq<Animation<E, X>> {
        self.animations@
    }

    /// The buffers, in document order.
    pub closed spec fn spec_buffers(&self) -> Seq<Buffer> {
        self.buffers@
    }

    /// The bufferViews, in document order.
    pub closed spec fn spec_buffer_views(&self) -> Seq<BufferView> {
        self.buffer_views@
    }

    /// The cameras, in document order.
    pub closed spec fn spec_cameras(&self) -> Seq<Camera> {
        self.cameras@
    }

    /// The images, in document order.
    pub closed spec fn spec_images(&self) -> Seq<Image> {
        self.images@
    }

    /// The materials, in document order.
    pub closed spec fn spec_materials(&self) -> Seq<Material> {
        self.materials@
    }

    /// The meshes, in document order.
    pub closed spec fn spec_meshes(&self) -> Seq<Mesh<E, X>> {
        self.meshes@
    }

    /// The nodes, in document order.
    pub closed spec fn spec_nodes(&self) -> Seq<Node<E, X>> {
        self.nodes@
    }

    /// The samplers, in document order.
    pub closed spec fn spec_samplers(&self) -> Seq<Sampler> {
        self.samplers@
    }

    /// The scenes, in document order.
    pub closed spec fn spec_scenes(&self) -> Seq<Scene<E, X>> {
        self.scenes@
    }

    /// The skins, in document order.
    pub closed spec fn spec_skins(&self) -> Seq<Skin<E, X>> {
        self.skins@
    }

    /// The textures, in document order.
    pub closed spec fn spec_textures(&self) -> Seq<Texture> {
        self.textures@
    }

    /// The asset record.
    pub closed spec fn spec_asset(&self) -> Asset {
        self.asset
    }

    /// The names of the extensions the document uses.
    pub closed spec fn spec_extensions_used(&self) -> Seq<Seq<char>> {
        views(self.extensions_used@)
    }

    /// The names of the extensions needed to load the document.
    pub closed spec fn spec_extensions_required(&self) -> Seq<Seq<char>> {
        views(self.extensions_required@)
    }

    /// The active scene, where the document names one.
    pub closed spec fn spec_scene(&self) -> Option<nat> {
        opt_view(self.scene)
    }

    /// Whether this root is what `j` decodes to.
    pub open spec fn decoded_from(&self, j: Json) -> bool {
        let fs = entries(j);
        (field(fs, "asset"@) matches Some(a) && self.spec_asset().decoded_from(a))
            && opt_index_value(field(fs, "scene"@)) == Some(self.spec_scene())
            && string_list_value(field(fs, "extensionsUsed"@)) == Some(self.spec_extensions_used())
            && string_list_value(field(fs, "extensionsRequired"@)) == Some(self.spec_extensions_required())
            && list_decoded(self.spec_accessors(), field(fs, "accessors"@))
            && list_decoded(self.spec_animations(), field(fs, "animations"@))
            && list_decoded(self.spec_buffers(), field(fs, "buffers"@))
            && list_decoded(self.spec_buffer_views(), field(fs, "bufferViews"@))
            && list_decoded(self.spec_cameras(), field(fs, "cameras"@))
            && list_decoded(self.spec_images(), field(fs, "images"@))
            && list_decoded(self.spec_materials(), field(fs, "materials"@))
            && list_decoded(self.spec_meshes(), field(fs, "meshes"@))
            && list_decoded(self.spec_nodes(), field(fs, "nodes"@))
            && list_decoded(self.spec_samplers(), field(fs, "samplers"@))
            && list_decoded(self.spec_scenes(), field(fs, "scenes"@))
            && list_decoded(self.spec_skins(), field(fs, "skins"@))
            && list_decoded(self.spec_textures(), field(fs, "textures"@))
    }

    /// Whether every reference in the document designates an element of its
    /// target collection.
    pub open spec fn valid(&self) -> bool {
        &&& (self.spec_scene() matches Some(n) ==> n < self.spec_scenes().len())
        &&& forall|i: int| 0 <= i < self.spec_accessors().len() ==> opt_below((#[trigger] self.spec_accessors()[i]).buffer_view, self.spec_buffer_views().len())
        &&& forall|i: int| 0 <= i < self.spec_buffer_views().len() ==> (#[trigger] self.spec_buffer_views()[i]).buffer@ < self.spec_buffers().len()
        &&& forall|i: int| 0 <= i < self.spec_images().len() ==> opt_below((#[trigger] self.spec_images()[i]).buffer_view, self.spec_buffer_views().len())
        &&& forall|i: int| 0 <= i < self.spec_nodes().len() ==> {
            &&& opt_below((#[trigger] self.spec_nodes()[i]).camera, self.spec_cameras().len())
            &&& all_below(self.spec_nodes()[i].children@, self.spec_nodes().len())
            &&& opt_below(self.spec_nodes()[i].mesh, self.spec_meshes().len())
            &&& opt_below(self.spec_nodes()[i].skin, self.spec_skins().len())
        }
        &&& forall|i: int| 0 <= i < self.spec_scenes().len() ==> all_below((#[trigger] self.spec_scenes()[i]).nodes@, self.spec_nodes().len())
        &&& forall|i: int| 0 <= i < self.spec_skins().len() ==> {
            &&& opt_below((#[trigger] self.spec_skins()[i]).inverse_bind_matrices, self.spec_accessors().len())
            &&& all_below(self.spec_skins()[i].joints@, self.spec_nodes().len())
            &&& opt_below(self.spec_skins()[i].skeleton, self.spec_nodes().len())
        }
        &&& forall|i: int| 0 <= i < self.spec_textures().len() ==> {
            &&& opt_below((#[trigger] self.spec_textures()[i]).sampler, self.spec_samplers().len())
            &&& opt_below(self.spec_textures()[i].source, self.spec_images().len())
        }
        &&& forall|i: int| 0 <= i < self.spec_animations().len() ==> animation_below(#[trigger] self.spec_animations()[i], self.spec_nodes().len(), self.spec_accessors().len())
        &&& forall|i: int| 0 <= i < self.spec_materials().len() ==> material_below(#[trigger] self.spec_materials()[i], self.spec_textures().len())
        &&& forall|i: int| 0 <= i < self.spec_meshes().len() ==> mesh_below(#[trigger] self.spec_meshes()[i], self.spec_accessors().len(), self.spec_materials().len())
    }

    /// Decodes a document root from JSON, without checking its references.
    fn decode(j: Json) -> (r: Result<Self, DecodeError>)
        ensures
            r is Ok <==> root_decodes::<E, X>(j),
            r matches Ok(root) ==> root.decoded_from(j),
    {
        let known = vec![
            "accessors".to_owned(), "animations".to_owned(), "buffers".to_owned(),
            "bufferViews".to_owned(), "cameras".to_owned(), "images".to_owned(),
            "materials".to_owned(), "meshes".to_owned(), "nodes".to_owned(), "samplers".to_owned(),
            "scenes".to_owned(), "skins".to_owned(), "textures".to_owned(), "asset".to_owned(),
            "extensionsUsed".to_owned(), "extensionsRequired".to_owned(), "scene".to_owned(),
        ];
        assert(views(known@) =~= root_keys());
        let mut fs = read_object(j, &known, "root")?;
        proof {
            reveal_strlit("accessors");
            reveal_strlit("animations");
            reveal_strlit("buffers");
            reveal_strlit("bufferViews");
            reveal_strlit("cameras");
            reveal_strlit("images");
            reveal_strlit("materials");
            reveal_strlit("meshes");
            reveal_strlit("nodes");
            reveal_strlit("samplers");
            reveal_strlit("scenes");
            reveal_strlit("skins");
            reveal_strlit("textures");
            reveal_strlit("asset");
            reveal_strlit("extensionsUsed");
            reveal_strlit("extensionsRequired");
            reveal_strlit("scene");
            assert("accessors"@.len() != "animations"@.len());
            assert("accessors"@.len() != "buffers"@.len());
            assert("accessors"@.len() != "bufferViews"@.len());
            assert("accessors"@.len() != "cameras"@.len());
            assert("accessors"@.len() != "images"@.len());
            assert("accessors"@[0] != "materials"@[0]);
            assert("accessors"@.len() != "meshes"@.len());
            assert("accessors"@.len() != "nodes"@.len());
            assert("accessors"@.len() != "samplers"@.len());
            assert("accessors"@.len() != "scenes"@.len());
            assert("accessors"@.len() != "skins"@.len());
            assert("accessors"@.len() != "textures"@.len());
            assert("accessors"@.len() != "asset"@.len());
            assert("accessors"@.len() != "extensionsUsed"@.len());
            assert("accessors"@.len() != "extensionsRequired"@.len());
            assert("accessors"@.len() != "scene"@.len());
            assert("animations"@.len() != "buffers"@.len());
            assert("animations"@.len() != "bufferViews"@.len());
            assert("animations"@.len() != "cameras"@.len());
            assert("animations"@.len() != "images"@.len());
            assert("animations"@.len() != "materials"@.len());
            assert("animations"@.len() != "meshes"@.len());
            assert("animations"@.len() != "nodes"@.len());
            assert("animations"@.len() != "samplers"@.len());
            assert("animations"@.len() != "scenes"@.len());
            assert("animations"@.len() != "skins"@.len());
            assert("animations"@.len() != "textures"@.len());
            assert("animations"@.len() != "asset"@.len());
            assert("animations"@.len() != "extensionsUsed"@.len());
            assert("animations"@.len() != "extensionsRequired"@.len());
            assert("animations"@.len() != "scene"@.len());
            assert("buffers"@.len() != "bufferViews"@.len());
            assert("buffers"@[0] != "cameras"@[0]);
            assert("buffers"@.len() != "images"@.len());
            assert("buffers"@.len() != "materials"@.len());
            assert("buffers"@.len() != "meshes"@.len());
            assert("buffers"@.len() != "nodes"@.len());
            assert("buffers"@.len() != "samplers"@.len());
            assert("buffers"@.len() != "scenes"@.len());
            assert("buffers"@.len() != "skins"@.len());
            assert("buffers"@.len() != "textures"@.len());
            assert("buffers"@.len() != "asset"@.len());
            assert("buffers"@.len() != "extensionsUsed"@.len());
            assert("buffers"@.len() != "extensionsRequired"@.len());
            assert("buffers"@.len() != "scene"@.len());
            assert("bufferViews"@.len() != "cameras"@.len());
            assert("bufferViews"@.len() != "images"@.len());
            assert("bufferViews"@.len() != "materials"@.len());
            assert("bufferViews"@.len() != "meshes"@.len());
            assert("bufferViews"@.len() != "nodes"@.len());
            assert("bufferViews"@.len() != "samplers"@.len());
            assert("bufferViews"@.len() != "scenes"@.len());
            assert("bufferViews"@.len() != "skins"@.len());
            assert("bufferViews"@.len() != "textures"@.len());
            assert("bufferViews"@.len() != "asset"@.len());
            assert("bufferViews"@.len() != "extensionsUsed"@.len());
            assert("bufferViews"@.len() != "extensionsRequired"@.len());
            assert("bufferViews"@.len() != "scene"@.len());
            assert("cameras"@.len() != "images"@.len());
            assert("cameras"@.len() != "materials"@.len());
            assert("cameras"@.len() != "meshes"@.len());
            assert("cameras"@.len() != "nodes"@.len());
            assert("cameras"@.len() != "samplers"@.len());
            assert("cameras"@.len() != "scenes"@.len());
            assert("cameras"@.len() != "skins"@.len());
            assert("cameras"@.len() != "textures"@.len());
            assert("cameras"@.len() != "asset"@.len());
            assert("cameras"@.len() != "extensionsUsed"@.len());
            assert("cameras"@.len() != "extensionsRequired"@.len());
            assert("cameras"@.len() != "scene"@.len());
            assert("images"@.len() != "materials"@.len());
            assert("images"@[0] != "meshes"@[0]);
            assert("images"@.len() != "nodes"@.len());
            assert("images"@.len() != "samplers"@.len());
            assert("images"@[0] != "scenes"@[0]);
            assert("images"@.len() != "skins"@.len());
            assert("images"@.len() != "textures"@.len());
            assert("images"@.len() != "asset"@.len());
            assert("images"@.len() != "extensionsUsed"@.len());
            assert("images"@.len() != "extensionsRequired"@.len());
            assert("images"@.len() != "scene"@.len());
            assert("materials"@.len() != "meshes"@.len());
            assert("materials"@.len() != "nodes"@.len());
            assert("materials"@.len() != "samplers"@.len());
            assert("materials"@.len() != "scenes"@.len());
            assert("materials"@.len() != "skins"@.len());
            assert("materials"@.len() != "textures"@.len());
            assert("materials"@.len() != "asset"@.len());
            assert("materials"@.len() != "extensionsUsed"@.len());
            assert("materials"@.len() != "extensionsRequired"@.len());
            assert("materials"@.len() != "scene"@.len());
            assert("meshes"@.len() != "nodes"@.len());
            assert("meshes"@.len() != "samplers"@.len());
            assert("meshes"@[0] != "scenes"@[0]);
            assert("meshes"@.len() != "skins"@.len());
            assert("meshes"@.len() != "textures"@.len());
            assert("meshes"@.len() != "asset"@.len());
            assert("meshes"@.len() != "extensionsUsed"@.len());
            assert("meshes"@.len() != "extensionsRequired"@.len());
            assert("meshes"@.len() != "scene"@.len());
            assert("nodes"@.len() != "samplers"@.len());
            assert("nodes"@.len() != "scenes"@.len());
            assert("nodes"@[0] != "skins"@[0]);
            assert("nodes"@.len() != "textures"@.len());
            assert("nodes"@[0] != "asset"@[0]);
            assert("nodes"@.len() != "extensionsUsed"@.len());
            assert("nodes"@.len() != "extensionsRequired"@.len());
            assert("nodes"@[0] != "scene"@[0]);
            assert("samplers"@.len() != "scenes"@.len());
            assert("samplers"@.len() != "skins"@.len());
            assert("samplers"@[0] != "textures"@[0]);
            assert("samplers"@.len() != "asset"@.len());
            assert("samplers"@.len() != "extensionsUsed"@.len());
            assert("samplers"@.len() != "extensionsRequired"@.len());
            assert("samplers"@.len() != "scene"@.len());
            assert("scenes"@.len() != "skins"@.len());
            assert("scenes"@.len() != "textures"@.len());
            assert("scenes"@.len() != "asset"@.len());
            assert("scenes"@.len() != "extensionsUsed"@.len());
            assert("scenes"@.len() != "extensionsRequired"@.len());
            assert("scenes"@.len() != "scene"@.len());
            assert("skins"@.len() != "textures"@.len());
            assert("skins"@[0] != "asset"@[0]);
            assert("skins"@.len() != "extensionsUsed"@.len());
            assert("skins"@.len() != "extensionsRequired"@.len());
            assert("skins"@[1] != "scene"@[1]);
            assert("textures"@.len() != "asset"@.len());
            assert("textures"@.len() != "extensionsUsed"@.len());
            assert("textures"@.len() != "extensionsRequired"@.len());
            assert("textures"@.len() != "scene"@.len());
            assert("asset"@.len() != "extensionsUsed"@.len());
            assert("asset"@.len() != "extensionsRequired"@.len());
            assert("asset"@[0] != "scene"@[0]);
            assert("extensionsUsed"@.len() != "extensionsRequired"@.len());
            assert("extensionsUsed"@.len() != "scene"@.len());
            assert("extensionsRequired"@.len() != "scene"@.len());
        }
        let asset = match take(&mut fs, "asset") {
            Some(a) => Asset::from_json(a)?,
            None => return Err(DecodeError::MissingField { field: "asset".to_owned() }),
        };
        let scene = read_opt_index(take(&mut fs, "scene"), "scene")?;
        let extensions_used = read_string_list(take(&mut fs, "extensionsUsed"), "extensionsUsed")?;
        let extensions_required = read_string_list(take(&mut fs, "extensionsRequired"), "extensionsRequired")?;
        let accessors = read_list(take(&mut fs, "accessors"), "accessors")?;
        let animations = read_list(take(&mut fs, "animations"), "animations")?;
        let buffers = read_list(take(&mut fs, "buffers"), "buffers")?;
        let buffer_views = read_list(take(&mut fs, "bufferViews"), "bufferViews")?;
        let cameras = read_list(take(&mut fs, "cameras"), "cameras")?;
        let images = read_list(take(&mut fs, "images"), "images")?;
        let materials = read_list(take(&mut fs, "materials"), "materials")?;
        let meshes = read_list(take(&mut fs, "meshes"), "meshes")?;
        let nodes = read_list(take(&mut fs, "nodes"), "nodes")?;
        let samplers = read_list(take(&mut fs, "samplers"), "samplers")?;
        let scenes = read_list(take(&mut fs, "scenes"), "scenes")?;
        let skins = read_list(take(&mut fs, "skins"), "skins")?;
        let textures = read_list(take(&mut fs, "textures"), "textures")?;
        Ok(Root {
            accessors,
            animations,
            buffers,
            buffer_views,
            cameras,
            images,
            materials,
            meshes,
            nodes,
            samplers,
            scenes,
            skins,
            textures,
            asset,
            extensions_used,
            extensions_required,
            scene,
        })
    }
}

} // verus!

verus! {

/// Checks an optional reference against the length of its target collection.
fn check_opt<T>(o: &Option<Index<T>>, n: usize, holder: Kind, position: usize, target: Kind) -> (r: Result<(), InvalidReference>)
    ensures
        r is Ok <==> opt_below(*o, n as nat),
        r matches Err(e) ==> e == (InvalidReference { holder, position, target, value: e.value })
            && opt_view(*o) == Some(e.value as nat) && e.value >= n,
{
    match o {
        Some(i) => if (i.value() as usize) < n {
            Ok(())
        } else {
            Err(InvalidReference { holder, position, target, value: i.value() })
        },
        None => Ok(()),
    }
}

/// Checks a list of references against the length of their target collection.
fn check_all<T>(l: &Vec<Index<T>>, n: usize, holder: Kind, position: usize, target: Kind) -> (r: Result<(), InvalidReference>)
    ensures
        r is Ok <==> all_below(l@, n as nat),
        r matches Err(e) ==> e == (InvalidReference { holder, position, target, value: e.value })
            && e.value >= n && exists|i: int| 0 <= i < l@.len() && (#[trigger] l@[i])@ == e.value,
{
    let mut i: usize = 0;
    while i < l.len()
        invariant
            i <= l.len(),
            forall|m: int| 0 <= m < i ==> (#[trigger] l@[m])@ < n,
        decreases l.len() - i,
    {
        let v = l[i].value();
        if (v as usize) >= n {
            assert(l@[i as int]@ == v);
            return Err(InvalidReference { holder, position, target, value: v });
        }
        i = i + 1;
    }
    Ok(())
}

/// Whether every reference of an animation is in range.
pub open spec fn animation_below<E: Extensions, X: Extras>(a: Animation<E, X>, nodes: nat, accessors: nat) -> bool {
    &&& forall|c: int| 0 <= c < a.channels@.len() ==> {
        &&& (#[trigger] a.channels@[c]).sampler@ < a.samplers@.len()
        &&& opt_below(a.channels@[c].target.node, nodes)
    }
    &&& forall|s: int| 0 <= s < a.samplers@.len() ==> {
        &&& (#[trigger] a.samplers@[s]).input@ < accessors
        &&& a.samplers@[s].output@ < accessors
    }
}

/// Whether an optional texture reference is in range.
pub open spec fn info_below(t: Option<TextureInfo>, textures: nat) -> bool {
    match t {
        Some(info) => info.index@ < textures,
        None => true,
    }
}

/// Whether every texture reference of a material is in range.
pub open spec fn material_below(m: Material, textures: nat) -> bool {
    &&& match m.pbr_metallic_roughness {
        Some(p) => info_below(p.base_color_texture, textures) && info_below(p.metallic_roughness_texture, textures),
        None => true,
    }
    &&& info_below(m.normal_texture, textures)
    &&& info_below(m.occlusion_texture, textures)
    &&& info_below(m.emissive_texture, textures)
}

/// Whether every reference of a list of named references is in range.
pub open spec fn map_below<T>(m: Seq<(String, Index<T>)>, n: nat) -> bool {
    forall|i: int| 0 <= i < m.len() ==> (#[trigger] m[i]).1@ < n
}

/// Whether every reference of a primitive is in range.
pub open spec fn primitive_below<E: Extensions, X: Extras>(p: Primitive<E, X>, accessors: nat, materials: nat) -> bool {
    &&& map_below(p.attributes@, accessors)
    &&& opt_below(p.indices, accessors)
    &&& opt_below(p.material, materials)
    &&& forall|t: int| 0 <= t < p.targets@.len() ==> map_below((#[trigger] p.targets@[t]).attributes@, accessors)
}

/// Whether every reference of a mesh is in range.
pub open spec fn mesh_below<E: Extensions, X: Extras>(m: Mesh<E, X>, accessors: nat, materials: nat) -> bool {
    forall|p: int| 0 <= p < m.primitives@.len() ==> primitive_below(#[trigger] m.primitives@[p], accessors, materials)
}

/// Checks a list of named references against the length of their target collection.
fn check_map<T>(m: &Vec<(String, Index<T>)>, n: usize, holder: Kind, position: usize, target: Kind) -> (r: Result<(), InvalidReference>)
    ensures
        r is Ok <==> map_below(m@, n as nat),
        r matches Err(e) ==> e == (InvalidReference { holder, position, target, value: e.value }) && e.value >= n,
{
    let mut i: usize = 0;
    while i < m.len()
        invariant
            i <= m.len(),
            forall|k: int| 0 <= k < i ==> (#[trigger] m@[k]).1@ < n,
        decreases m.len() - i,
    {
        let v = m[i].1.value();
        if (v as usize) >= n {
            return Err(InvalidReference { holder, position, target, value: v });
        }
        i = i + 1;
    }
    Ok(())
}

/// Checks an optional texture reference.
fn check_info(t: &Option<TextureInfo>, textures: usize, position: usize) -> (r: Result<(), InvalidReference>)
    ensures
        r is Ok <==> info_below(*t, textures as nat),
        r matches Err(e) ==> e == (InvalidReference { holder: Kind::Material, position, target: Kind::Texture, value: e.value })
            && e.value >= textures,
{
    match t {
        Some(info) => check_opt(&Some(info.index), textures, Kind::Material, position, Kind::Texture),
        None => Ok(()),
    }
}

/// Checks every texture reference of a material.
fn check_material(m: &Material, textures: usize, position: usize) -> (r: Result<(), InvalidReference>)
    ensures
        r is Ok <==> material_below(*m, textures as nat),
        r matches Err(e) ==> e == (InvalidReference { holder: Kind::Material, position, target: Kind::Texture, value: e.value })
            && e.value >= textures,
{
    match &m.pbr_metallic_roughness {
        Some(p) => {
            check_info(&p.base_color_texture, textures, position)?;
            check_info(&p.metallic_roughness_texture, textures, position)?;
        },
        None => {},
    }
    check_info(&m.normal_texture, textures, position)?;
    check_info(&m.occlusion_texture, textures, position)?;
    check_info(&m.emissive_texture, textures, position)?;
    Ok(())
}

/// Checks every reference of an animation.
fn check_animation<E: Extensions, X: Extras>(a: &Animation<E, X>, nodes: usize, accessors: usize, position: usize) -> (r: Result<(), InvalidReference>)
    ensures
        r is Ok <==> animation_below(*a, nodes as nat, accessors as nat),
        r matches Err(e) ==> e.holder == Kind::Animation && e.position == position
            && (e.target == Kind::AnimationSampler && e.value >= a.samplers@.len()
            || e.target == Kind::Node && e.value >= nodes
            || e.target == Kind::Accessor && e.value >= accessors),
{
    let mut c: usize = 0;
    while c < a.channels.len()
        invariant
            c <= a.channels@.len(),
            forall|k: int| 0 <= k < c ==> {
                &&& (#[trigger] a.channels@[k]).sampler@ < a.samplers@.len()
                &&& opt_below(a.channels@[k].target.node, nodes as nat)
            },
        decreases a.channels@.len() - c,
    {
        let channel = &a.channels[c];
        let v = channel.sampler.value();
        if (v as usize) >= a.samplers.len() {
            return Err(InvalidReference { holder: Kind::Animation, position, target: Kind::AnimationSampler, value: v });
        }
        check_opt(&channel.target.node, nodes, Kind::Animation, position, Kind::Node)?;
        c = c + 1;
    }
    let mut s: usize = 0;
    while s < a.samplers.len()
        invariant
            s <= a.samplers@.len(),
            forall|k: int| 0 <= k < c ==> {
                &&& (#[trigger] a.channels@[k]).sampler@ < a.samplers@.len()
                &&& opt_below(a.channels@[k].target.node, nodes as nat)
            },
            c == a.channels@.len(),
            forall|k: int| 0 <= k < s ==> {
                &&& (#[trigger] a.samplers@[k]).input@ < accessors
                &&& a.samplers@[k].output@ < accessors
            },
        decreases a.samplers@.len() - s,
    {
        let sampler = &a.samplers[s];
        check_opt(&Some(sampler.input), accessors, Kind::Animation, position, Kind::Accessor)?;
        check_opt(&Some(sampler.output), accessors, Kind::Animation, position, Kind::Accessor)?;
        s = s + 1;
    }
    Ok(())
}

/// Checks every reference of a mesh.
fn check_mesh<E: Extensions, X: Extras>(m: &Mesh<E, X>, accessors: usize, materials: usize, position: usize) -> (r: Result<(), InvalidReference>)
    ensures
        r is Ok <==> mesh_below(*m, accessors as nat, materials as nat),
        r matches Err(e) ==> e.holder == Kind::Mesh && e.position == position
            && (e.target == Kind::Accessor && e.value >= accessors || e.target == Kind::Material && e.value >= materials),
{
    let mut p: usize = 0;
    while p < m.primitives.len()
        invariant
            p <= m.primitives@.len(),
            forall|k: int| 0 <= k < p ==> primitive_below(#[trigger] m.primitives@[k], accessors as nat, materials as nat),
        decreases m.primitives@.len() - p,
    {
        let prim = &m.primitives[p];
        check_map(&prim.attributes, accessors, Kind::Mesh, position, Kind::Accessor)?;
        check_opt(&prim.indices, accessors, Kind::Mesh, position, Kind::Accessor)?;
        check_opt(&prim.material, materials, Kind::Mesh, position, Kind::Material)?;
        let mut t: usize = 0;
        while t < prim.targets.len()
            invariant
                t <= prim.targets@.len(),
                p < m.primitives@.len(),
                *prim == m.primitives@[p as int],
                forall|k: int| 0 <= k < t ==> map_below((#[trigger] prim.targets@[k]).attributes@, accessors as nat),
            decreases prim.targets@.len() - t,
        {
            check_map(&prim.targets[t].attributes, accessors, Kind::Mesh, position, Kind::Accessor)?;
            t = t + 1;
        }
        p = p + 1;
    }
    Ok(())
}

impl<E: Extensions, X: Extras> Root<E, X> {
    /// The length of the collection of kind `k`; the root counts as one, and
    /// the samplers of an animation, which no root collection holds, as none.
    pub open spec fn len_of(&self, k: Kind) -> nat {
        match k {
            Kind::Root => 1,
            Kind::Accessor => self.spec_accessors().len(),
            Kind::Animation => self.spec_animations().len(),
            Kind::AnimationSampler => 0,
            Kind::Buffer => self.spec_buffers().len(),
            Kind::BufferView => self.spec_buffer_views().len(),
            Kind::Camera => self.spec_cameras().len(),
            Kind::Image => self.spec_images().len(),
            Kind::Material => self.spec_materials().len(),
            Kind::Mesh => self.spec_meshes().len(),
            Kind::Node => self.spec_nodes().len(),
            Kind::Sampler => self.spec_samplers().len(),
            Kind::Scene => self.spec_scenes().len(),
            Kind::Skin => self.spec_skins().len(),
            Kind::Texture => self.spec_textures().len(),
        }
    }

    /// Checks every reference of the document against the length of its
    /// target collection, and names the first one that is out of range.
    pub fn check_references(&self) -> (r: Result<(), InvalidReference>)
        ensures
            r is Ok <==> self.valid(),
            r matches Err(e) ==> e.position < self.len_of(e.holder) && if e.target == Kind::AnimationSampler {
                e.value >= self.spec_animations()[e.position as int].samplers@.len()
            } else {
                e.value >= self.len_of(e.target)
            },
    {
        proof {
            assert(self.spec_accessors() == self.accessors@);
            assert(self.spec_animations() == self.animations@);
            assert(self.spec_buffers() == self.buffers@);
            assert(self.spec_buffer_views() == self.buffer_views@);
            assert(self.spec_cameras() == self.cameras@);
            assert(self.spec_images() == self.images@);
            assert(self.spec_materials() == self.materials@);
            assert(self.spec_meshes() == self.meshes@);
            assert(self.spec_nodes() == self.nodes@);
            assert(self.spec_samplers() == self.samplers@);
            assert(self.spec_scenes() == self.scenes@);
            assert(self.spec_skins() == self.skins@);
            assert(self.spec_textures() == self.textures@);
        }
        check_opt(&self.scene, self.scenes.len(), Kind::Root, 0, Kind::Scene)?;
        let mut i: usize = 0;
        while i < self.accessors.len()
            invariant
                i <= self.accessors@.len(),
                forall|m: int| 0 <= m < i ==> opt_below(#[trigger] self.accessors@[m].buffer_view, self.buffer_views@.len()),
            decreases self.accessors@.len() - i,
        {
            proof {
                assert(self.spec_accessors() == self.accessors@);
                assert(self.spec_animations() == self.animations@);
                assert(self.spec_buffers() == self.buffers@);
                assert(self.spec_buffer_views() == self.buffer_views@);
                assert(self.spec_cameras() == self.cameras@);
                assert(self.spec_images() == self.images@);
                assert(self.spec_materials() == self.materials@);
                assert(self.spec_meshes() == self.meshes@);
                assert(self.spec_nodes() == self.nodes@);
                assert(self.spec_samplers() == self.samplers@);
                assert(self.spec_scenes() == self.scenes@);
                assert(self.spec_skins() == self.skins@);
                assert(self.spec_textures() == self.textures@);
            }
            check_opt(&self.accessors[i].buffer_view, self.buffer_views.len(), Kind::Accessor, i, Kind::BufferView)?;
            i = i + 1;
        }
        let mut i: usize = 0;
        while i < self.buffer_views.len()
            invariant
                i <= self.buffer_views@.len(),
                forall|m: int| 0 <= m < i ==> (#[trigger] self.buffer_views@[m]).buffer@ < self.buffers@.len(),
            decreases self.buffer_views@.len() - i,
        {
            proof {
                assert(self.spec_accessors() == self.accessors@);
                assert(self.spec_animations() == self.animations@);
                assert(self.spec_buffers() == self.buffers@);
                assert(self.spec_buffer_views() == self.buffer_views@);
                assert(self.spec_cameras() == self.cameras@);
                assert(self.spec_images() == self.images@);
                assert(self.spec_materials() == self.materials@);
                assert(self.spec_meshes() == self.meshes@);
                assert(self.spec_nodes() == self.nodes@);
                assert(self.spec_samplers() == self.samplers@);
                assert(self.spec_scenes() == self.scenes@);
                assert(self.spec_skins() == self.skins@);
                assert(self.spec_textures() == self.textures@);
            }
            let v = self.buffer_views[i].buffer.value();
            if (v as usize) >= self.buffers.len() {
                return Err(InvalidReference { holder: Kind::BufferView, position: i, target: Kind::Buffer, value: v });
            }
            i = i + 1;
        }
        let mut i: usize = 0;
        while i < self.images.len()
            invariant
                i <= self.images@.len(),
                forall|m: int| 0 <= m < i ==> opt_below(#[trigger] self.images@[m].buffer_view, self.buffer_views@.len()),
            decreases self.images@.len() - i,
        {
            proof {
                assert(self.spec_accessors() == self.accessors@);
                assert(self.spec_animations() == self.animations@);
                assert(self.spec_buffers() == self.buffers@);
                assert(self.spec_buffer_views() == self.buffer_views@);
                assert(self.spec_cameras() == self.cameras@);
                assert(self.spec_images() == self.images@);
                assert(self.spec_materials() == self.materials@);
                assert(self.spec_meshes() == self.meshes@);
                assert(self.spec_nodes() == self.nodes@);
                assert(self.spec_samplers() == self.samplers@);
                assert(self.spec_scenes() == self.scenes@);
                assert(self.spec_skins() == self.skins@);
                assert(self.spec_textures() == self.textures@);
            }
            check_opt(&self.images[i].buffer_view, self.buffer_views.len(), Kind::Image, i, Kind::BufferView)?;
            i = i + 1;
        }
        let mut i: usize = 0;
        while i < self.nodes.len()
            invariant
                i <= self.nodes@.len(),
                forall|m: int| 0 <= m < i ==> {
                    &&& opt_below(#[trigger] self.nodes@[m].camera, self.cameras@.len())
                    &&& all_below(self.nodes@[m].children@, self.nodes@.len())
                    &&& opt_below(self.nodes@[m].mesh, self.meshes@.len())
                    &&& opt_below(self.nodes@[m].skin, self.skins@.len())
                },
            decreases self.nodes@.len() - i,
        {
            proof {
                assert(self.spec_accessors() == self.accessors@);
                assert(self.spec_animations() == self.animations@);
                assert(self.spec_buffers() == self.buffers@);
                assert(self.spec_buffer_views() == self.buffer_views@);
                assert(self.spec_cameras() == self.cameras@);
                assert(self.spec_images() == self.images@);
                assert(self.spec_materials() == self.materials@);
                assert(self.spec_meshes() == self.meshes@);
                assert(self.spec_nodes() == self.nodes@);
                assert(self.spec_samplers() == self.samplers@);
                assert(self.spec_scenes() == self.scenes@);
                assert(self.spec_skins() == self.skins@);
                assert(self.spec_textures() == self.textures@);
            }
            let node = &self.nodes[i];
            check_opt(&node.camera, self.cameras.len(), Kind::Node, i, Kind::Camera)?;
            check_all(&node.children, self.nodes.len(), Kind::Node, i, Kind::Node)?;
            check_opt(&node.mesh, self.meshes.len(), Kind::Node, i, Kind::Mesh)?;
            check_opt(&node.skin, self.skins.len(), Kind::Node, i, Kind::Skin)?;
            i = i + 1;
        }
        let mut i: usize = 0;
        while i < self.scenes.len()
            invariant
                i <= self.scenes@.len(),
                forall|m: int| 0 <= m < i ==> all_below((#[trigger] self.scenes@[m]).nodes@, self.nodes@.len()),
            decreases self.scenes@.len() - i,
        {
            proof {
                assert(self.spec_accessors() == self.accessors@);
                assert(self.spec_animations() == self.animations@);
                assert(self.spec_buffers() == self.buffers@);
                assert(self.spec_buffer_views() == self.buffer_views@);
                assert(self.spec_cameras() == self.cameras@);
                assert(self.spec_images() == self.images@);
                assert(self.spec_materials() == self.materials@);
                assert(self.spec_meshes() == self.meshes@);
                assert(self.spec_nodes() == self.nodes@);
                assert(self.spec_samplers() == self.samplers@);
                assert(self.spec_scenes() == self.scenes@);
                assert(self.spec_skins() == self.skins@);
                assert(self.spec_textures() == self.textures@);
            }
            check_all(&self.scenes[i].nodes, self.nodes.len(), Kind::Scene, i, Kind::Node)?;
            i = i + 1;
        }
        let mut i: usize = 0;
        while i < self.skins.len()
            invariant
                i <= self.skins@.len(),
                forall|m: int| 0 <= m < i ==> {
                    &&& opt_below(#[trigger] self.skins@[m].inverse_bind_matrices, self.accessors@.len())
                    &&& all_below(self.skins@[m].joints@, self.nodes@.len())
                    &&& opt_below(self.skins@[m].skeleton, self.nodes@.len())
                },
            decreases self.skins@.len() - i,
        {
            proof {
                assert(self.spec_accessors() == self.accessors@);
                assert(self.spec_animations() == self.animations@);
                assert(self.spec_buffers() == self.buffers@);
                assert(self.spec_buffer_views() == self.buffer_views@);
                assert(self.spec_cameras() == self.cameras@);
                assert(self.spec_images() == self.images@);
                assert(self.spec_materials() == self.materials@);
                assert(self.spec_meshes() == self.meshes@);
                assert(self.spec_nodes() == self.nodes@);
                assert(self.spec_samplers() == self.samplers@);
                assert(self.spec_scenes() == self.scenes@);
                assert(self.spec_skins() == self.skins@);
                assert(self.spec_textures() == self.textures@);
            }
            let skin = &self.skins[i];
            check_opt(&skin.inverse_bind_matrices, self.accessors.len(), Kind::Skin, i, Kind::Accessor)?;
            check_all(&skin.joints, self.nodes.len(), Kind::Skin, i, Kind::Node)?;
            check_opt(&skin.skeleton, self.nodes.len(), Kind::Skin, i, Kind::Node)?;
            i = i + 1;
        }
        let mut i: usize = 0;
        while i < self.textures.len()
            invariant
                i <= self.textures@.len(),
                forall|m: int| 0 <= m < i ==> {
                    &&& opt_below(#[trigger] self.textures@[m].sampler, self.samplers@.len())
                    &&& opt_below(self.textures@[m].source, self.images@.len())
                },
            decreases self.textures@.len() - i,
        {
            proof {
                assert(self.spec_accessors() == self.accessors@);
                assert(self.spec_animations() == self.animations@);
                assert(self.spec_buffers() == self.buffers@);
                assert(self.spec_buffer_views() == self.buffer_views@);
                assert(self.spec_cameras() == self.cameras@);
                assert(self.spec_images() == self.images@);
                assert(self.spec_materials() == self.materials@);
                assert(self.spec_meshes() == self.meshes@);
                assert(self.spec_nodes() == self.nodes@);
                assert(self.spec_samplers() == self.samplers@);
                assert(self.spec_scenes() == self.scenes@);
                assert(self.spec_skins() == self.skins@);
                assert(self.spec_textures() == self.textures@);
            }
            let texture = &self.textures[i];
            check_opt(&texture.sampler, self.samplers.len(), Kind::Texture, i, Kind::Sampler)?;
            check_opt(&texture.source, self.images.len(), Kind::Texture, i, Kind::Image)?;
            i = i + 1;
        }
        let mut i: usize = 0;
        while i < self.animations.len()
            invariant
                i <= self.animations@.len(),
                forall|m: int| 0 <= m < i ==> animation_below(#[trigger] self.animations@[m], self.nodes@.len(), self.accessors@.len()),
            decreases self.animations@.len() - i,
        {
            proof {
                assert(self.spec_accessors() == self.accessors@);
                assert(self.spec_animations() == self.animations@);
                assert(self.spec_buffers() == self.buffers@);
                assert(self.spec_buffer_views() == self.buffer_views@);
                assert(self.spec_cameras() == self.cameras@);
                assert(self.spec_images() == self.images@);
                assert(self.spec_materials() == self.materials@);
                assert(self.spec_meshes() == self.meshes@);
                assert(self.spec_nodes() == self.nodes@);
                assert(self.spec_samplers() == self.samplers@);
                assert(self.spec_scenes() == self.scenes@);
                assert(self.spec_skins() == self.skins@);
                assert(self.spec_textures() == self.textures@);
            }
            check_animation(&self.animations[i], self.nodes.len(), self.accessors.len(), i)?;
            i = i + 1;
        }
        let mut i: usize = 0;
        while i < self.materials.len()
            invariant
                i <= self.materials@.len(),
                forall|m: int| 0 <= m < i ==> material_below(#[trigger] self.materials@[m], self.textures@.len()),
            decreases self.materials@.len() - i,
        {
            proof {
                assert(self.spec_accessors() == self.accessors@);
                assert(self.spec_animations() == self.animations@);
                assert(self.spec_buffers() == self.buffers@);
                assert(self.spec_buffer_views() == self.buffer_views@);
                assert(self.spec_cameras() == self.cameras@);
                assert(self.spec_images() == self.images@);
                assert(self.spec_materials() == self.materials@);
                assert(self.spec_meshes() == self.meshes@);
                assert(self.spec_nodes() == self.nodes@);
                assert(self.spec_samplers() == self.samplers@);
                assert(self.spec_scenes() == self.scenes@);
                assert(self.spec_skins() == self.skins@);
                assert(self.spec_textures() == self.textures@);
            }
            check_material(&self.materials[i], self.textures.len(), i)?;
            i = i + 1;
        }
        let mut i: usize = 0;
        while i < self.meshes.len()
            invariant
                i <= self.meshes@.len(),
                forall|m: int| 0 <= m < i ==> mesh_below(#[trigger] self.meshes@[m], self.accessors@.len(), self.materials@.len()),
            decreases self.meshes@.len() - i,
        {
            proof {
                assert(self.spec_accessors() == self.accessors@);
                assert(self.spec_animations() == self.animations@);
                assert(self.spec_buffers() == self.buffers@);
                assert(self.spec_buffer_views() == self.buffer_views@);
                assert(self.spec_cameras() == self.cameras@);
                assert(self.spec_images() == self.images@);
                assert(self.spec_materials() == self.materials@);
                assert(self.spec_meshes() == self.meshes@);
                assert(self.spec_nodes() == self.nodes@);
                assert(self.spec_samplers() == self.samplers@);
                assert(self.spec_scenes() == self.scenes@);
                assert(self.spec_skins() == self.skins@);
                assert(self.spec_textures() == self.textures@);
            }
            check_mesh(&self.meshes[i], self.accessors.len(), self.materials.len(), i)?;
            i = i + 1;
        }
        Ok(())
    }

    /// Whether every reference of the document is in range.
    fn indices_are_valid(&self) -> (r: bool)
        ensures
            r == self.valid(),
    {
        self.check_references().is_ok()
    }
}

} // verus!

verus! {

/// Lookup of an element by a reference into its collection, for every
/// entity kind that a root holds.
pub trait Get<T> {
    /// The collection that references of type `Index<T>` point into.
    spec fn items(&self) -> Seq<T>;

    /// The element that `index` designates.
    fn get(&self, index: Index<T>) -> (r: &T)
        requires
            index@ < self.items().len(),
        ensures
            *r == self.items()[index@ as int],
    ;
}

impl<E: Extensions, X: Extras> Get<Accessor<E, X>> for Root<E, X> {
    open spec fn items(&self) -> Seq<Accessor<E, X>> {
        self.spec_accessors()
    }

    fn get(&self, index: Index<Accessor<E, X>>) -> (r: &Accessor<E, X>) {
        self.accessor(index)
    }
}

impl<E: Extensions, X: Extras> Get<Animation<E, X>> for Root<E, X> {
    open spec fn items(&self) -> Seq<Animation<E, X>> {
        self.spec_animations()
    }

    fn get(&self, index: Index<Animation<E, X>>) -> (r: &Animation<E, X>) {
        self.animation(index)
    }
}

impl<E: Extensions, X: Extras> Get<Buffer> for Root<E, X> {
    open spec fn items(&self) -> Seq<Buffer> {
        self.spec_buffers()
    }

    fn get(&self, index: Index<Buffer>) -> (r: &Buffer) {
        self.buffer(index)
    }
}

impl<E: Extensions, X: Extras> Get<BufferView> for Root<E, X> {
    open spec fn items(&self) -> Seq<BufferView> {
        self.spec_buffer_views()
    }

    fn get(&self, index: Index<BufferView>) -> (r: &BufferView) {
        self.buffer_view(index)
    }
}

impl<E: Extensions, X: Extras> Get<Camera> for Root<E, X> {
    open spec fn items(&self) -> Seq<Camera> {
        self.spec_cameras()
    }

    fn get(&self, index: Index<Camera>) -> (r: &Camera) {
        self.camera(index)
    }
}

impl<E: Extensions, X: Extras> Get<Image> for Root<E, X> {
    open spec fn items(&self) -> Seq<Image> {
        self.spec_images()
    }

    fn get(&self, index: Index<Image>) -> (r: &Image) {
        self.image(index)
    }
}

impl<E: Extensions, X: Extras> Get<Material> for Root<E, X> {
    open spec fn items(&self) -> Seq<Material> {
        self.spec_materials()
    }

    fn get(&self, index: Index<Material>) -> (r: &Material) {
        self.material(index)
    }
}

impl<E: Extensions, X: Extras> Get<Mesh<E, X>> for Root<E, X> {
    open spec fn items(&self) -> Seq<Mesh<E, X>> {
        self.spec_meshes()
    }

    fn get(&self, index: Index<Mesh<E, X>>) -> (r: &Mesh<E, X>) {
        self.mesh(index)
    }
}

impl<E: Extensions, X: Extras> Get<Node<E, X>> for Root<E, X> {
    open spec fn items(&self) -> Seq<Node<E, X>> {
        self.spec_nodes()
    }

    fn get(&self, index: Index<Node<E, X>>) -> (r: &Node<E, X>) {
        self.node(index)
    }
}

impl<E: Extensions, X: Extras> Get<Sampler> for Root<E, X> {
    open spec fn items(&self) -> Seq<Sampler> {
        self.spec_samplers()
    }

    fn get(&self, index: Index<Sampler>) -> (r: &Sampler) {
        self.sampler(index)
    }
}

impl<E: Extensions, X: Extras> Get<Scene<E, X>> for Root<E, X> {
    open spec fn items(&self) -> Seq<Scene<E, X>> {
        self.spec_scenes()
    }

    fn get(&self, index: Index<Scene<E, X>>) -> (r: &Scene<E, X>) {
        self.scene(index)
    }
}

impl<E: Extensions, X: Extras> Get<Skin<E, X>> for Root<E, X> {
    open spec fn items(&self) -> Seq<Skin<E, X>> {
        self.spec_skins()
    }

    fn get(&self, index: Index<Skin<E, X>>) -> (r: &Skin<E, X>) {
        self.skin(index)
    }
}

impl<E: Extensions, X: Extras> Get<Texture> for Root<E, X> {
    open spec fn items(&self) -> Seq<Texture> {
        self.spec_textures()
    }

    fn get(&self, index: Index<Texture>) -> (r: &Texture) {
        self.texture(index)
    }
}

impl<E: Extensions, X: Extras> Root<E, X> {
    /// Decodes a document from JSON and checks its references.
    ///
    /// Fails with a decode error where `j` is not a document of the schema,
    /// and with an invalid-reference error where the document decodes but a
    /// reference in it is out of range.
    pub fn import_from_json(j: Json) -> (r: Result<Self, ImportError>)
        ensures
            r is Err && r->Err_0 is Deserialize <==> !root_decodes::<E, X>(j),
            r matches Ok(root) ==> root.decoded_from(j) && root.valid(),
            r matches Err(ImportError::Invalid(e)) ==> exists|d: Self| d.decoded_from(j) && !d.valid()
                && e.position < d.len_of(e.holder),
    {
        let root = match Self::decode(j) {
            Ok(root) => root,
            Err(e) => return Err(ImportError::Deserialize(e)),
        };
        match root.check_references() {
            Ok(()) => Ok(root),
            Err(e) => Err(ImportError::Invalid(e)),
        }
    }

    /// Loads a document from JSON text and checks its references.
    ///
    /// A document comes back only where every reference in it is in range.
    pub fn import_from_str(text: &str) -> (r: Result<Self, ImportError>)
        ensures
            r matches Ok(root) ==> root.valid(),
            json_of(text@) is None ==> (r matches Err(ImportError::Deserialize(DecodeError::Syntax(_)))),
            json_of(text@) matches Some(j) ==> {
                &&& (r is Err && r->Err_0 is Deserialize <==> !root_decodes::<E, X>(j))
                &&& (r matches Ok(root) ==> root.decoded_from(j) && root.valid())
                &&& (r matches Err(ImportError::Invalid(e)) ==> exists|d: Self| d.decoded_from(j) && !d.valid()
                    && e.position < d.len_of(e.holder))
            },
    {
        match parse(text) {
            Ok(j) => Self::import_from_json(j),
            Err(e) => Err(ImportError::Deserialize(DecodeError::Syntax(e))),
        }
    }

    /// The active scene: the one the document names, else the first slot.
    pub fn active_scene(&self) -> (r: Index<Scene<E, X>>)
        ensures
            r@ == self.spec_active_scene(),
    {
        match self.scene {
            Some(i) => i,
            None => root_scene_default(),
        }
    }

    /// The element of the collection that `index` designates.
    pub fn get<T>(&self, index: Index<T>) -> (r: &T)
        where Self: Get<T>,
        requires
            index@ < <Self as Get<T>>::items(self).len(),
        ensures
            *r == <Self as Get<T>>::items(self)[index@ as int],
    {
        <Self as Get<T>>::get(self, index)
    }

    /// The metadata of the asset.
    pub fn asset(&self) -> (r: &Asset)
        ensures
            *r == self.spec_asset(),
    {
        &self.asset
    }

    /// The names of the extensions the document uses.
    pub fn extensions_used(&self) -> (r: &[String])
        ensures
            views(r@) == self.spec_extensions_used(),
    {
        self.extensions_used.as_slice()
    }

    /// The names of the extensions needed to load the document.
    pub fn extensions_required(&self) -> (r: &[String])
        ensures
            views(r@) == self.spec_extensions_required(),
    {
        self.extensions_required.as_slice()
    }

    /// The accessor at `index`.
    pub fn accessor(&self, index: Index<Accessor<E, X>>) -> (r: &Accessor<E, X>)
        requires
            index@ < self.spec_accessors().len(),
        ensures
            *r == self.spec_accessors()[index@ as int],
    {
        &self.accessors[index.value() as usize]
    }

    /// All accessors, in document order.
    pub fn accessors(&self) -> (r: &[Accessor<E, X>])
        ensures
            r@ == self.spec_accessors(),
    {
        self.accessors.as_slice()
    }

    /// The animation at `index`.
    pub fn animation(&self, index: Index<Animation<E, X>>) -> (r: &Animation<E, X>)
        requires
            index@ < self.spec_animations().len(),
        ensures
            *r == self.spec_animations()[index@ as int],
    {
        &self.animations[index.value() as usize]
    }

    /// All animations, in document order.
    pub fn animations(&self) -> (r: &[Animation<E, X>])
        ensures
            r@ == self.spec_animations(),
    {
        self.animations.as_slice()
    }

    /// The buffer at `index`.
    pub fn buffer(&self, index: Index<Buffer>) -> (r: &Buffer)
        requires
            index@ < self.spec_buffers().len(),
        ensures
            *r == self.spec_buffers()[index@ as int],
    {
        &self.buffers[index.value() as usize]
    }

    /// All buffers, in document order.
    pub fn buffers(&self) -> (r: &[Buffer])
        ensures
            r@ == self.spec_buffers(),
    {
        self.buffers.as_slice()
    }

    /// The buffer view at `index`.
    pub fn buffer_view(&self, index: Index<BufferView>) -> (r: &BufferView)
        requires
            index@ < self.spec_buffer_views().len(),
        ensures
            *r == self.spec_buffer_views()[index@ as int],
    {
        &self.buffer_views[index.value() as usize]
    }

    /// All buffer views, in document order.
    pub fn buffer_views(&self) -> (r: &[BufferView])
        ensures
            r@ == self.spec_buffer_views(),
    {
        self.buffer_views.as_slice()
    }

    /// The camera at `index`.
    pub fn camera(&self, index: Index<Camera>) -> (r: &Camera)
        requires
            index@ < self.spec_cameras().len(),
        ensures
            *r == self.spec_cameras()[index@ as int],
    {
        &self.cameras[index.value() as usize]
    }

    /// All cameras, in document order.
    pub fn cameras(&self) -> (r: &[Camera])
        ensures
            r@ == self.spec_cameras(),
    {
        self.cameras.as_slice()
    }

    /// The image at `index`.
    pub fn image(&self, index: Index<Image>) -> (r: &Image)
        requires
            index@ < self.spec_images().len(),
        ensures
            *r == self.spec_images()[index@ as int],
    {
        &self.images[index.value() as usize]
    }

    /// All images, in document order.
    pub fn images(&self) -> (r: &[Image])
        ensures
            r@ == self.spec_images(),
    {
        self.images.as_slice()
    }

    /// The material at `index`.
    pub fn material(&self, index: Index<Material>) -> (r: &Material)
        requires
            index@ < self.spec_materials().len(),
        ensures
            *r == self.spec_materials()[index@ as int],
    {
        &self.materials[index.value() as usize]
    }

    /// All materials, in document order.
    pub fn materials(&self) -> (r: &[Material])
        ensures
            r@ == self.spec_materials(),
    {
        self.materials.as_slice()
    }

    /// The mesh at `index`.
    pub fn mesh(&self, index: Index<Mesh<E, X>>) -> (r: &Mesh<E, X>)
        requires
            index@ < self.spec_meshes().len(),
        ensures
            *r == self.spec_meshes()[index@ as int],
    {
        &self.meshes[index.value() as usize]
    }

    /// All meshes, in document order.
    pub fn meshes(&self) -> (r: &[Mesh<E, X>])
        ensures
            r@ == self.spec_meshes(),
    {
        self.meshes.as_slice()
    }

    /// The node at `index`.
    pub fn node(&self, index: Index<Node<E, X>>) -> (r: &Node<E, X>)
        requires
            index@ < self.spec_nodes().len(),
        ensures
            *r == self.spec_nodes()[index@ as int],
    {
        &self.nodes[index.value() as usize]
    }

    /// All nodes, in document order.
    pub fn nodes(&self) -> (r: &[Node<E, X>])
        ensures
            r@ == self.spec_nodes(),
    {
        self.nodes.as_slice()
    }

    /// The sampler at `index`.
    pub fn sampler(&self, index: Index<Sampler>) -> (r: &Sampler)
        requires
            index@ < self.spec_samplers().len(),
        ensures
            *r == self.spec_samplers()[index@ as int],
    {
        &self.samplers[index.value() as usize]
    }

    /// All samplers, in document order.
    pub fn samplers(&self) -> (r: &[Sampler])
        ensures
            r@ == self.spec_samplers(),
    {
        self.samplers.as_slice()
    }

    /// The scene at `index`.
    pub fn scene(&self, index: Index<Scene<E, X>>) -> (r: &Scene<E, X>)
        requires
            index@ < self.spec_scenes().len(),
        ensures
            *r == self.spec_scenes()[index@ as int],
    {
        &self.scenes[index.value() as usize]
    }

    /// All scenes, in document order.
    pub fn scenes(&self) -> (r: &[Scene<E, X>])
        ensures
            r@ == self.spec_scenes(),
    {
        self.scenes.as_slice()
    }

    /// The skin at `index`.
    pub fn skin(&self, index: Index<Skin<E, X>>) -> (r: &Skin<E, X>)
        requires
            index@ < self.spec_skins().len(),
        ensures
            *r == self.spec_skins()[index@ as int],
    {
        &self.skins[index.value() as usize]
    }

    /// All skins, in document order.
    pub fn skins(&self) -> (r: &[Skin<E, X>])
        ensures
            r@ == self.spec_skins(),
    {
        self.skins.as_slice()
    }

    /// The texture at `index`.
    pub fn texture(&self, index: Index<Texture>) -> (r: &Texture)
        requires
            index@ < self.spec_textures().len(),
        ensures
            *r == self.spec_textures()[index@ as int],
    {
        &self.textures[index.value() as usize]
    }

    /// All textures, in document order.
    pub fn textures(&self) -> (r: &[Texture])
        ensures
            r@ == self.spec_textures(),
    {
        self.textures.as_slice()
    }
}

} // verus!

verus! {

impl<E: Extensions, X: Extras> Root<E, X> {
    /// The raw value of the active scene: the one the document names, else 0.
    pub open spec fn spec_active_scene(&self) -> nat {
        match self.spec_scene() {
            Some(n) => n,
            None => 0,
        }
    }
}

/// A document without a `scene` field has the first slot as its active
/// scene, whether or not it has scenes.
pub proof fn lemma_scene_defaults_to_first<E: Extensions, X: Extras>(root: Root<E, X>, j: Json)
    requires
        root.decoded_from(j),
        field(entries(j), "scene"@) is None,
    ensures
        root.spec_active_scene() == 0,
{
}

/// A document without a `cameras` field has no cameras.
pub proof fn lemma_cameras_default_empty<E: Extensions, X: Extras>(root: Root<E, X>, j: Json)
    requires
        root.decoded_from(j),
        field(entries(j), "cameras"@) is None,
    ensures
        root.spec_cameras().len() == 0,
{
}

/// A document in which a node designates a mesh past the end of the mesh
/// collection decodes to no valid root: its import fails with an
/// invalid-reference error.
pub proof fn lemma_mesh_out_of_range_is_invalid<E: Extensions, X: Extras>(root: Root<E, X>, j: Json, n: int, m: nat)
    requires
        root.decoded_from(j),
        0 <= n < list_len(field(entries(j), "nodes"@)),
        opt_index_value(field(entries(list_item(field(entries(j), "nodes"@), n)), "mesh"@)) == Some(Some(m)),
        m >= list_len(field(entries(j), "meshes"@)),
    ensures
        !root.valid(),
{
    assert(root.nodes@[n].decoded_from(list_item(field(entries(j), "nodes"@), n)));
    assert(opt_view(root.nodes@[n].mesh) == Some(m));
}

} // verus!
