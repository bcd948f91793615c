use gltf::error::{DecodeError, ImportError, Kind};
use gltf::index::Index;
use gltf::json::{parse, Json, SyntaxError};
use gltf::root::Root;
use gltf::scene::Node;
use gltf::traits::{NoExtensions, NoExtras};

type Document = Root<NoExtensions, NoExtras>;

fn import(text: &str) -> Result<Document, ImportError> {
    Document::import_from_str(text)
}

#[test]
fn minimal_scene_document() {
    let root = import(r#"{"asset":{"version":"2.0"},"scenes":[{"nodes":[0]}],"nodes":[{}]}"#)
        .ok()
        .unwrap();
    assert_eq!(root.scenes().len(), 1);
    assert_eq!(root.nodes().len(), 1);
    let scene = &root.scenes()[0];
    assert_eq!(scene.nodes.len(), 1);
    assert_eq!(scene.nodes[0].value(), 0);
    let node: &Node<NoExtensions, NoExtras> = root.get(scene.nodes[0]);
    assert!(std::ptr::eq(node, &root.nodes()[0]));
    assert_eq!(root.active_scene().value(), 0);
    assert_eq!(root.asset().version, "2.0");
}

#[test]
fn scene_defaults_to_first_slot_without_scenes() {
    let root = import(r#"{"asset":{}}"#).ok().unwrap();
    assert_eq!(root.active_scene().value(), 0);
    assert_eq!(root.scenes().len(), 0);
    assert_eq!(root.asset().version, "2.0");
}

#[test]
fn named_scene_is_kept() {
    let root = import(r#"{"asset":{"version":"2.0"},"scene":1,"scenes":[{},{"nodes":[]}]}"#)
        .ok()
        .unwrap();
    assert_eq!(root.active_scene().value(), 1);
}

#[test]
fn named_scene_out_of_range_is_invalid() {
    let r = import(r#"{"asset":{"version":"2.0"},"scene":2,"scenes":[{}]}"#);
    match r {
        Err(ImportError::Invalid(e)) => {
            assert_eq!(e.holder, Kind::Root);
            assert_eq!(e.target, Kind::Scene);
            assert_eq!(e.value, 2);
        }
        _ => panic!("expected an invalid reference"),
    }
}

#[test]
fn missing_cameras_is_empty() {
    let root = import(r#"{"asset":{"version":"2.0"},"nodes":[{"name":"a"}]}"#).ok().unwrap();
    assert_eq!(root.cameras().len(), 0);
    assert_eq!(root.meshes().len(), 0);
}

#[test]
fn node_mesh_out_of_range_is_invalid() {
    let r = import(r#"{"asset":{"version":"2.0"},"nodes":[{},{"mesh":1}],"meshes":[{"primitives":[]}]}"#);
    match r {
        Err(ImportError::Invalid(e)) => {
            assert_eq!(e.holder, Kind::Node);
            assert_eq!(e.position, 1);
            assert_eq!(e.target, Kind::Mesh);
            assert_eq!(e.value, 1);
        }
        _ => panic!("expected an invalid reference"),
    }
}

#[test]
fn node_mesh_in_range_is_valid() {
    let root = import(r#"{"asset":{"version":"2.0"},"nodes":[{"mesh":0}],"meshes":[{"primitives":[]}]}"#)
        .ok()
        .unwrap();
    assert_eq!(root.nodes()[0].mesh.unwrap().value(), 0);
    let mesh_index = root.nodes()[0].mesh.unwrap();
    assert!(std::ptr::eq(root.mesh(mesh_index), &root.meshes()[0]));
}

#[test]
fn child_out_of_range_is_invalid() {
    let r = import(r#"{"asset":{"version":"2.0"},"nodes":[{"children":[0,3]}]}"#);
    match r {
        Err(ImportError::Invalid(e)) => {
            assert_eq!(e.holder, Kind::Node);
            assert_eq!(e.target, Kind::Node);
            assert_eq!(e.value, 3);
        }
        _ => panic!("expected an invalid reference"),
    }
}

#[test]
fn skin_references_are_checked() {
    let ok = import(
        r#"{"asset":{"version":"2.0"},"nodes":[{"skin":0},{}],
            "skins":[{"joints":[0,1],"skeleton":1}]}"#,
    );
    assert!(ok.is_ok());
    let bad = import(
        r#"{"asset":{"version":"2.0"},"nodes":[{}],
            "skins":[{"joints":[0],"inverseBindMatrices":0}]}"#,
    );
    match bad {
        Err(ImportError::Invalid(e)) => {
            assert_eq!(e.holder, Kind::Skin);
            assert_eq!(e.target, Kind::Accessor);
        }
        _ => panic!("expected an invalid reference"),
    }
}

#[test]
fn buffer_view_needs_its_buffer() {
    let r = import(r#"{"asset":{"version":"2.0"},"bufferViews":[{"buffer":0,"byteLength":4}]}"#);
    match r {
        Err(ImportError::Invalid(e)) => {
            assert_eq!(e.holder, Kind::BufferView);
            assert_eq!(e.target, Kind::Buffer);
        }
        _ => panic!("expected an invalid reference"),
    }
    let ok = import(
        r#"{"asset":{"version":"2.0"},"buffers":[{"byteLength":4}],
            "bufferViews":[{"buffer":0,"byteLength":4}],
            "accessors":[{"bufferView":0,"componentType":5126,"count":1,"type":"SCALAR"}]}"#,
    )
    .ok()
    .unwrap();
    assert_eq!(ok.accessors().len(), 1);
    assert_eq!(ok.buffer_views()[0].buffer.value(), 0);
}

#[test]
fn texture_references_are_checked() {
    let r = import(r#"{"asset":{"version":"2.0"},"textures":[{"source":0}]}"#);
    match r {
        Err(ImportError::Invalid(e)) => {
            assert_eq!(e.holder, Kind::Texture);
            assert_eq!(e.target, Kind::Image);
        }
        _ => panic!("expected an invalid reference"),
    }
}

#[test]
fn unknown_root_field_is_rejected() {
    let r = import(r#"{"asset":{"version":"2.0"},"lights":[]}"#);
    match r {
        Err(ImportError::Deserialize(DecodeError::UnknownField { field })) => assert_eq!(field, "lights"),
        _ => panic!("expected an unknown field"),
    }
}

#[test]
fn unknown_node_field_is_rejected() {
    let r = import(r#"{"asset":{"version":"2.0"},"nodes":[{"meshes":0}]}"#);
    assert!(matches!(r, Err(ImportError::Deserialize(DecodeError::UnknownField { .. }))));
}

#[test]
fn extension_slots_are_open() {
    let root = import(
        r#"{"asset":{"version":"2.0","extras":{"anything":[1,2]}},
            "nodes":[{"extensions":{"VENDOR_x":{"y":true}},"translation":[1.5,0,-2]}]}"#,
    )
    .ok()
    .unwrap();
    assert_eq!(root.nodes()[0].rest.len(), 2);
}

#[test]
fn missing_asset_is_rejected() {
    let r = import(r#"{"nodes":[]}"#);
    match r {
        Err(ImportError::Deserialize(DecodeError::MissingField { field })) => assert_eq!(field, "asset"),
        _ => panic!("expected a missing field"),
    }
}

#[test]
fn malformed_text_is_rejected() {
    let r = import(r#"{"asset":"#);
    assert!(matches!(r, Err(ImportError::Deserialize(DecodeError::Syntax(SyntaxError::Malformed(_))))));
}

#[test]
fn wrong_shape_is_rejected() {
    let r = import(r#"{"asset":{"version":"2.0"},"nodes":{}}"#);
    assert!(matches!(r, Err(ImportError::Deserialize(DecodeError::WrongShape { .. }))));
    let r = import(r#"{"asset":{"version":"2.0"},"nodes":[{"mesh":-1}]}"#);
    assert!(matches!(r, Err(ImportError::Deserialize(DecodeError::WrongShape { .. }))));
    let r = import(r#"{"asset":{"version":"2.0"},"nodes":[{"mesh":4294967296}]}"#);
    assert!(matches!(r, Err(ImportError::Deserialize(DecodeError::WrongShape { .. }))));
}

#[test]
fn extension_names_are_kept_in_order() {
    let root = import(
        r#"{"asset":{"version":"2.0"},"extensionsUsed":["B_ext","A_ext"],"extensionsRequired":["A_ext"]}"#,
    )
    .ok()
    .unwrap();
    assert_eq!(root.extensions_used(), &["B_ext".to_string(), "A_ext".to_string()][..]);
    assert_eq!(root.extensions_required(), &["A_ext".to_string()][..]);
}

#[test]
fn index_keeps_its_value() {
    for v in [0u32, 1, 7, 65536, u32::MAX] {
        let i: Index<Node<NoExtensions, NoExtras>> = Index::new(v);
        assert_eq!(i.value(), v);
        let j: Index<Node<NoExtensions, NoExtras>> = Index::from_json(&Json::UInt(v as u64), "i").ok().unwrap();
        assert_eq!(j.value(), v);
        assert!(matches!(j.to_json(), Json::UInt(n) if n == v as u64));
    }
}

#[test]
fn parse_reads_numbers_and_nesting() {
    let j = parse(r#"[1, -2, 2.5, "s", {"k": null}, [true]]"#).ok().unwrap();
    match j {
        Json::Array(items) => {
            assert_eq!(items.len(), 6);
            assert!(matches!(items[0], Json::UInt(1)));
            assert!(matches!(items[1], Json::NegInt(-2)));
            assert!(matches!(&items[2], Json::Real(s) if s == "2.5"));
            assert!(matches!(&items[3], Json::Str(s) if s == "s"));
            match &items[4] {
                Json::Object(fs) => {
                    assert_eq!(fs.len(), 1);
                    assert_eq!(fs[0].0, "k");
                    assert!(matches!(fs[0].1, Json::Null));
                }
                _ => panic!("expected an object"),
            }
            assert!(matches!(&items[5], Json::Array(v) if v.len() == 1 && matches!(v[0], Json::Bool(true))));
        }
        _ => panic!("expected an array"),
    }
}
