use vstd::prelude::*;
use crate::codec::{TokenEnum, decode_token, encode_token, token_of, views};
use crate::error::DecodeError;
use crate::json::Json;
use crate::object::{
    field, keeps_others, lemma_field_append, lemma_field_push, object_ok, entries, read_object, same_field, take,
};
use crate::traits::{Decode, Encode};

verus! {

/// The projection of a camera, written `"perspective"` or `"orthographic"`.
#[derive(Clone, Copy, Debug, PartialEq, Eq, Structural)]
pub enum CameraType {
    Perspective,
    Orthographic,
}

impl TokenEnum for CameraType {
    open spec fn spec_labels() -> Seq<Seq<char>> {
        seq!["perspective"@, "orthographic"@]
    }

    open spec fn spec_position(&self) -> nat {
        match self {
            CameraType::Perspective => 0,
            CameraType::Orthographic => 1,
        }
    }

    fn labels() -> (r: Vec<String>) {
        let r = vec!["perspective".to_owned(), "orthographic".to_owned()];
        assert(views(r@) =~= Self::spec_labels());
        r
    }

    fn from_position(i: usize) -> (r: Self) {
        if i == 0 {
            CameraType::Perspective
        } else {
            CameraType::Orthographic
        }
    }

    fn position(&self) -> (r: usize) {
        match self {
            CameraType::Perspective => 0,
            CameraType::Orthographic => 1,
        }
    }

    proof fn table_is_exact() {
        reveal_strlit("perspective");
        reveal_strlit("orthographic");
        assert("perspective"@[0] != "orthographic"@[0]);
    }
}

/// The fields a camera may have.
pub open spec fn camera_keys() -> Seq<Seq<char>> {
    seq!["type"@, "orthographic"@, "perspective"@, "name"@, "extensions"@, "extras"@]
}

/// The fields of a camera that the camera reads itself.
pub open spec fn camera_refs() -> Seq<Seq<char>> {
    seq!["type"@]
}

/// A camera's projection.
pub struct Camera {
    /// Which projection the camera uses.
    pub type_: CameraType,
    /// The other fields (projection parameters, name, extensions, extras), as given.
    pub rest: Vec<(String, Json)>,
}

impl Decode for Camera {
    open spec fn decodes(j: Json) -> bool {
        object_ok(j, camera_keys()) && (field(entries(j), "type"@) matches Some(Json::Str(s))
            && CameraType::spec_labels().contains(s@))
    }

    open spec fn decoded_from(&self, j: Json) -> bool {
        let fs = entries(j);
        field(fs, "type"@) matches Some(Json::Str(s)) && s@ == token_of(self.type_)
            && keeps_others(self.rest@, fs, camera_refs())
    }

    fn from_json(j: Json) -> (r: Result<Self, DecodeError>) {
        let known = vec![
            "type".to_owned(), "orthographic".to_owned(), "perspective".to_owned(),
            "name".to_owned(), "extensions".to_owned(), "extras".to_owned(),
        ];
        assert(views(known@) =~= camera_keys());
        let mut fs = read_object(j, &known, "camera")?;
        proof {
            reveal_strlit("type");
        }
        let t = match take(&mut fs, "type") {
            Some(v) => decode_token::<CameraType>(&v, &"type".to_owned())?,
            None => return Err(DecodeError::MissingField { field: "type".to_owned() }),
        };
        assert(seq!["type"@][0] == "type"@);
        Ok(Camera { type_: t, rest: fs })
    }
}

} // verus!

verus! {

impl Encode for Camera {
    open spec fn encodes_to(&self, j: Json) -> bool {
        let fs = entries(j);
        &&& j is Object
        &&& field(fs, "type"@) matches Some(Json::Str(t)) && t@ == token_of(self.type_)
        &&& forall|k: Seq<char>| !camera_refs().contains(k) ==> #[trigger] field(fs, k) == field(self.rest@, k)
    }

    fn into_json(self) -> (r: Json) {
        let ghost me = self;
        let mut out: Vec<(String, Json)> = Vec::new();
        let e = ("type".to_owned(), encode_token(&self.type_));
        proof {
            lemma_field_push(out@, e);
        }
        out.push(e);
        let ghost typed = out@;
        let mut rest = self.rest;
        out.append(&mut rest);
        proof {
            assert forall|k: Seq<char>| true implies #[trigger] field(out@, k) == match field(typed, k) {
                Some(v) => Some(v),
                None => field(me.rest@, k),
            } by {
                assert(out@ =~= typed + me.rest@);
                lemma_field_append(typed, me.rest@, k);
            }
            assert forall|k: Seq<char>| !camera_refs().contains(k) implies #[trigger] field(out@, k) == field(me.rest@, k) by {
                assert(camera_refs()[0] == "type"@);
                assert(field(typed, k) is None);
            }
        }
        Json::Object(out)
    }
}

/// Encoding a decoded camera gives back, under every name, what the camera
/// was decoded from: its projection as the same token.
pub proof fn lemma_camera_round_trip(n: Camera, j: Json, r: Json)
    requires
        Camera::decodes(j),
        n.decoded_from(j),
        n.encodes_to(r),
    ensures
        forall|k: Seq<char>| same_field(#[trigger] field(entries(r), k), field(entries(j), k)),
{
    assert(camera_refs()[0] == "type"@);
    assert(field(n.rest@, "type"@) is None);
    assert forall|k: Seq<char>| same_field(#[trigger] field(entries(r), k), field(entries(j), k)) by {
        if !camera_refs().contains(k) {
            assert(field(entries(r), k) == field(n.rest@, k));
        } else {
            let i = choose|i: int| 0 <= i < camera_refs().len() && camera_refs()[i] == k;
            assert(i == 0);
        }
    }
}

} // verus!
