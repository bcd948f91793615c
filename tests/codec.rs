use gltf::accessor::{AccessorType, ComponentType};
use gltf::camera::CameraType;
use gltf::codec::{decode_code, decode_token, encode_code, encode_token};
use gltf::error::{DecodeError, ImportError};
use gltf::json::Json;
use gltf::root::Root;
use gltf::traits::{NoExtensions, NoExtras};

#[test]
fn token_round_trips() {
    for t in [CameraType::Perspective, CameraType::Orthographic] {
        let j = encode_token(&t);
        let back: CameraType = decode_token(&j, &"type".to_string()).ok().unwrap();
        assert_eq!(back, t);
    }
    let all = [
        AccessorType::Scalar,
        AccessorType::Vec2,
        AccessorType::Vec3,
        AccessorType::Vec4,
        AccessorType::Mat2,
        AccessorType::Mat3,
        AccessorType::Mat4,
    ];
    for t in all {
        let back: AccessorType = decode_token(&encode_token(&t), &"type".to_string()).ok().unwrap();
        assert_eq!(back, t);
    }
    assert!(matches!(encode_token(&AccessorType::Mat3), Json::Str(s) if s == "MAT3"));
}

#[test]
fn unknown_token_names_value_and_table() {
    let r = decode_token::<CameraType>(&Json::Str("fisheye".to_string()), &"type".to_string());
    match r {
        Err(DecodeError::UnknownToken { rejected, accepted }) => {
            assert_eq!(rejected, "fisheye");
            assert_eq!(accepted, vec!["perspective".to_string(), "orthographic".to_string()]);
        }
        _ => panic!("expected an unknown token"),
    }
}

#[test]
fn code_round_trips() {
    let all = [
        (ComponentType::I8, 5120u64),
        (ComponentType::U8, 5121),
        (ComponentType::I16, 5122),
        (ComponentType::U16, 5123),
        (ComponentType::U32, 5125),
        (ComponentType::F32, 5126),
    ];
    for (t, code) in all {
        assert!(matches!(encode_code(&t), Json::UInt(n) if n == code));
        let back: ComponentType = decode_code(&Json::UInt(code), &"componentType".to_string()).ok().unwrap();
        assert_eq!(back, t);
    }
}

#[test]
fn unknown_code_names_value() {
    let r = decode_code::<ComponentType>(&Json::UInt(5124), &"componentType".to_string());
    match r {
        Err(DecodeError::UnknownCode { rejected, .. }) => assert_eq!(rejected, 5124),
        _ => panic!("expected an unknown code"),
    }
    let r = decode_code::<ComponentType>(&Json::Str("5126".to_string()), &"componentType".to_string());
    assert!(matches!(r, Err(DecodeError::WrongShape { .. })));
}

#[test]
fn accessor_with_unknown_type_is_rejected() {
    let r = Root::<NoExtensions, NoExtras>::import_from_str(
        r#"{"asset":{"version":"2.0"},"accessors":[{"componentType":5126,"count":1,"type":"VEC5"}]}"#,
    );
    match r {
        Err(ImportError::Deserialize(DecodeError::UnknownToken { rejected, accepted })) => {
            assert_eq!(rejected, "VEC5");
            assert_eq!(accepted.len(), 7);
        }
        _ => panic!("expected an unknown token"),
    }
}

#[test]
fn camera_decodes_its_type() {
    let root = Root::<NoExtensions, NoExtras>::import_from_str(
        r#"{"asset":{"version":"2.0"},"cameras":[{"type":"orthographic","orthographic":{"xmag":1,"ymag":1,"zfar":10,"znear":0.5}}],
            "nodes":[{"camera":0}]}"#,
    )
    .ok()
    .unwrap();
    assert_eq!(root.cameras()[0].type_, CameraType::Orthographic);
    assert_eq!(root.nodes()[0].camera.unwrap().value(), 0);
}

#[test]
fn messages_name_the_rejected_value() {
    let e = decode_token::<CameraType>(&Json::Str("fisheye".to_string()), &"type".to_string())
        .err()
        .unwrap();
    assert_eq!(e.message(), "invalid value: fisheye, expected one of: perspective, orthographic");
    let e = decode_code::<ComponentType>(&Json::UInt(5124), &"componentType".to_string())
        .err()
        .unwrap();
    assert_eq!(e.message(), "invalid value: 5124");
    let e = decode_code::<ComponentType>(&Json::UInt(0), &"componentType".to_string())
        .err()
        .unwrap();
    assert_eq!(e.message(), "invalid value: 0");
}

#[test]
fn import_messages() {
    let e = Root::<NoExtensions, NoExtras>::import_from_str(r#"{"nodes":[]}"#).err().unwrap();
    assert_eq!(e.message(), "missing field `asset`");
    let e = Root::<NoExtensions, NoExtras>::import_from_str(r#"{"asset":{},"nodes":[{"mesh":0}]}"#)
        .err()
        .unwrap();
    assert_eq!(e.message(), "index out of range");
    let e = Root::<NoExtensions, NoExtras>::import_from_str(r#"{"asset":{},"extras":1}"#).err().unwrap();
    assert_eq!(e.message(), "unknown field `extras`");
}
