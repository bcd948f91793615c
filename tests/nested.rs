use gltf::error::{ImportError, Kind};
use gltf::root::Root;
use gltf::traits::{NoExtensions, NoExtras};

type Document = Root<NoExtensions, NoExtras>;

const MESH_DOC: &str = r#"{"asset":{"version":"2.0"},
    "accessors":[{"componentType":5126,"count":3,"type":"VEC3"},{"componentType":5123,"count":3,"type":"SCALAR"}],
    "materials":[{"pbrMetallicRoughness":{"baseColorFactor":[1,1,1,1]}}],
    "meshes":[{"primitives":[{"attributes":{"POSITION":0},"indices":1,"material":0,"mode":4}]}],
    "nodes":[{"mesh":0}],"scenes":[{"nodes":[0]}]}"#;

fn invalid(text: &str) -> (Kind, usize, Kind, u32) {
    match Document::import_from_str(text) {
        Err(ImportError::Invalid(e)) => (e.holder, e.position, e.target, e.value),
        Err(ImportError::Deserialize(e)) => panic!("decode error {:?}", e),
        Ok(_) => panic!("expected an invalid reference"),
    }
}

#[test]
fn mesh_document_is_valid() {
    let root = Document::import_from_str(MESH_DOC).ok().unwrap();
    let mesh = &root.meshes()[0];
    assert_eq!(mesh.primitives.len(), 1);
    let prim = &mesh.primitives[0];
    assert_eq!(prim.attributes.len(), 1);
    assert_eq!(prim.attributes[0].0, "POSITION");
    assert_eq!(prim.attributes[0].1.value(), 0);
    assert_eq!(prim.indices.unwrap().value(), 1);
    assert_eq!(prim.material.unwrap().value(), 0);
    assert_eq!(prim.rest.len(), 1);
}

#[test]
fn primitive_attribute_out_of_range_is_invalid() {
    let text = MESH_DOC.replace(r#""POSITION":0"#, r#""POSITION":2"#);
    assert_eq!(invalid(&text), (Kind::Mesh, 0, Kind::Accessor, 2));
}

#[test]
fn primitive_material_out_of_range_is_invalid() {
    let text = MESH_DOC.replace(r#""material":0"#, r#""material":1"#);
    assert_eq!(invalid(&text), (Kind::Mesh, 0, Kind::Material, 1));
}

#[test]
fn material_texture_out_of_range_is_invalid() {
    let text = r#"{"asset":{"version":"2.0"},"materials":[{},{"normalTexture":{"index":0,"scale":1}}]}"#;
    assert_eq!(invalid(text), (Kind::Material, 1, Kind::Texture, 0));
    let text = r#"{"asset":{"version":"2.0"},"images":[{"uri":"a.png"}],"textures":[{"source":0}],
        "materials":[{"pbrMetallicRoughness":{"baseColorTexture":{"index":0}},"emissiveTexture":{"index":0}}]}"#;
    assert!(Document::import_from_str(text).is_ok());
}

#[test]
fn animation_references_are_checked() {
    let good = r#"{"asset":{"version":"2.0"},"nodes":[{}],
        "accessors":[{"componentType":5126,"count":2,"type":"SCALAR"},{"componentType":5126,"count":2,"type":"VEC3"}],
        "animations":[{"channels":[{"sampler":0,"target":{"node":0,"path":"translation"}}],
                       "samplers":[{"input":0,"output":1,"interpolation":"LINEAR"}]}]}"#;
    let root = Document::import_from_str(good).ok().unwrap();
    assert_eq!(root.animations()[0].channels.len(), 1);
    let bad_node = good.replace(r#""node":0"#, r#""node":1"#);
    assert_eq!(invalid(&bad_node), (Kind::Animation, 0, Kind::Node, 1));
    let bad_sampler = good.replace(r#""sampler":0"#, r#""sampler":1"#);
    assert_eq!(invalid(&bad_sampler), (Kind::Animation, 0, Kind::AnimationSampler, 1));
    let bad_output = good.replace(r#""output":1"#, r#""output":5"#);
    assert_eq!(invalid(&bad_output), (Kind::Animation, 0, Kind::Accessor, 5));
}

#[test]
fn animation_path_is_a_token() {
    let text = r#"{"asset":{"version":"2.0"},
        "animations":[{"channels":[{"sampler":0,"target":{"path":"color"}}],"samplers":[]}]}"#;
    assert!(matches!(
        Document::import_from_str(text),
        Err(ImportError::Deserialize(gltf::error::DecodeError::UnknownToken { .. }))
    ));
}
