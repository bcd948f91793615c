use gltf::json::{parse, Json};
use gltf::scene::{Node, Scene};
use gltf::buffer::{Buffer, BufferView};
use gltf::camera::Camera;
use gltf::skin::Skin;
use gltf::texture::{Image, Sampler, Texture};
use gltf::traits::{Decode, Encode, NoExtensions, NoExtras};

type N = Node<NoExtensions, NoExtras>;

fn object(j: &Json) -> &Vec<(String, Json)> {
    match j {
        Json::Object(fs) => fs,
        _ => panic!("expected an object"),
    }
}

fn get<'a>(fs: &'a [(String, Json)], k: &str) -> Option<&'a Json> {
    fs.iter().find(|e| e.0 == k).map(|e| &e.1)
}

fn uints(j: &Json) -> Vec<u64> {
    match j {
        Json::Array(items) => items
            .iter()
            .map(|i| match i {
                Json::UInt(n) => *n,
                _ => panic!("expected an integer"),
            })
            .collect(),
        _ => panic!("expected an array"),
    }
}

#[test]
fn node_round_trips() {
    let text = r#"{"camera":2,"children":[3,1],"mesh":0,"name":"n","translation":[1,2,3]}"#;
    let node = N::from_json(parse(text).ok().unwrap()).ok().unwrap();
    assert_eq!(node.camera.unwrap().value(), 2);
    let out = node.into_json();
    let fs = object(&out);
    assert_eq!(fs.len(), 5);
    assert!(matches!(get(fs, "camera"), Some(Json::UInt(2))));
    assert_eq!(uints(get(fs, "children").unwrap()), vec![3, 1]);
    assert!(matches!(get(fs, "mesh"), Some(Json::UInt(0))));
    assert!(get(fs, "skin").is_none());
    assert!(matches!(get(fs, "name"), Some(Json::Str(s)) if s == "n"));
    assert_eq!(uints(get(fs, "translation").unwrap()), vec![1, 2, 3]);
    let again = N::from_json(out).ok().unwrap();
    assert_eq!(again.children.len(), 2);
    assert_eq!(again.children[0].value(), 3);
    assert_eq!(again.mesh.unwrap().value(), 0);
}

#[test]
fn empty_node_stays_empty() {
    let node = N::from_json(parse("{}").ok().unwrap()).ok().unwrap();
    let out = node.into_json();
    assert_eq!(object(&out).len(), 0);
}

#[test]
fn scene_round_trips() {
    let scene = Scene::<NoExtensions, NoExtras>::from_json(parse(r#"{"nodes":[0,4],"name":"s"}"#).ok().unwrap())
        .ok()
        .unwrap();
    let out = scene.into_json();
    let fs = object(&out);
    assert_eq!(uints(get(fs, "nodes").unwrap()), vec![0, 4]);
    assert!(matches!(get(fs, "name"), Some(Json::Str(s)) if s == "s"));
}

#[test]
fn skin_round_trips() {
    let skin = Skin::<NoExtensions, NoExtras>::from_json(
        parse(r#"{"inverseBindMatrices":5,"joints":[1,2],"skeleton":1}"#).ok().unwrap(),
    )
    .ok()
    .unwrap();
    let out = skin.into_json();
    let fs = object(&out);
    assert_eq!(fs.len(), 3);
    assert!(matches!(get(fs, "inverseBindMatrices"), Some(Json::UInt(5))));
    assert_eq!(uints(get(fs, "joints").unwrap()), vec![1, 2]);
    assert!(matches!(get(fs, "skeleton"), Some(Json::UInt(1))));
}

#[test]
fn duplicate_field_is_rejected() {
    let r = N::from_json(parse(r#"{"mesh":0}"#).ok().unwrap());
    assert!(r.is_ok());
    let dup = Json::Object(vec![
        ("mesh".to_string(), Json::UInt(0)),
        ("mesh".to_string(), Json::UInt(1)),
    ]);
    assert!(matches!(
        N::from_json(dup),
        Err(gltf::error::DecodeError::DuplicateField { .. })
    ));
}

#[test]
fn texture_image_and_view_round_trip() {
    let t = Texture::from_json(parse(r#"{"sampler":1,"source":0,"name":"t"}"#).ok().unwrap()).ok().unwrap();
    let out = t.into_json();
    let fs = object(&out);
    assert_eq!(fs.len(), 3);
    assert!(matches!(get(fs, "sampler"), Some(Json::UInt(1))));
    assert!(matches!(get(fs, "source"), Some(Json::UInt(0))));
    let i = Image::from_json(parse(r#"{"uri":"a.png"}"#).ok().unwrap()).ok().unwrap();
    let out = i.into_json();
    let fs = object(&out);
    assert_eq!(fs.len(), 1);
    assert!(get(fs, "bufferView").is_none());
    let v = BufferView::from_json(parse(r#"{"buffer":3,"byteLength":12}"#).ok().unwrap()).ok().unwrap();
    let out = v.into_json();
    let fs = object(&out);
    assert!(matches!(get(fs, "buffer"), Some(Json::UInt(3))));
    assert!(matches!(get(fs, "byteLength"), Some(Json::UInt(12))));
}

#[test]
fn camera_buffer_and_sampler_round_trip() {
    let c = Camera::from_json(parse(r#"{"type":"perspective","perspective":{"yfov":0.7,"znear":0.1}}"#).ok().unwrap())
        .ok()
        .unwrap();
    let out = c.into_json();
    let fs = object(&out);
    assert_eq!(fs.len(), 2);
    assert!(matches!(get(fs, "type"), Some(Json::Str(s)) if s == "perspective"));
    assert!(matches!(get(fs, "perspective"), Some(Json::Object(p)) if p.len() == 2));
    let b = Buffer::from_json(parse(r#"{"byteLength":8,"uri":"b.bin"}"#).ok().unwrap()).ok().unwrap();
    let out = b.into_json();
    let fs = object(&out);
    assert_eq!(fs[0].0, "byteLength");
    assert_eq!(fs[1].0, "uri");
    let s = Sampler::from_json(parse(r#"{"wrapS":33071,"magFilter":9729}"#).ok().unwrap()).ok().unwrap();
    let out = s.into_json();
    let fs = object(&out);
    assert_eq!(fs[0].0, "wrapS");
    assert!(matches!(fs[1].1, Json::UInt(9729)));
}

#[test]
fn objects_keep_document_order() {
    let j = parse(r#"{"z":1,"a":2,"m":3}"#).ok().unwrap();
    let fs = object(&j);
    let names: Vec<&str> = fs.iter().map(|e| e.0.as_str()).collect();
    assert_eq!(names, vec!["z", "a", "m"]);
}
