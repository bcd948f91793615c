use vstd::prelude::*;
use crate::buffer::BufferView;
use crate::codec::views;
use crate::error::DecodeError;
use crate::index::{
    Index, lemma_opt_index_back, opt_index_json, opt_index_to_json, opt_index_value, opt_view, read_opt_index,
};
use crate::json::Json;
use crate::object::{
    field, first_of, keeps_others, lemma_field_append, lemma_field_push, object_ok, entries, read_object, same_field, take,
};
use crate::traits::{Decode, Encode};

verus! {

/// The fields an image may have.
pub open spec fn image_keys() -> Seq<Seq<char>> {
    seq!["bufferView"@, "mimeType"@, "uri"@, "name"@, "extensions"@, "extras"@]
}

/// The fields of an image that hold references.
pub open spec fn image_refs() -> Seq<Seq<char>> {
    seq!["bufferView"@]
}

/// Image data, by location or by buffer view.
pub struct Image {
    /// The buffer view holding the image.
    pub buffer_view: Option<Index<BufferView>>,
    /// The other fields (type, location, name, extensions, extras), as given.
    pub rest: Vec<(String, Json)>,
}

impl Decode for Image {
    open spec fn decodes(j: Json) -> bool {
        object_ok(j, image_keys()) && opt_index_value(field(entries(j), "bufferView"@)) is Some
    }

    open spec fn decoded_from(&self, j: Json) -> bool {
        let fs = entries(j);
        opt_index_value(field(fs, "bufferView"@)) == Some(opt_view(self.buffer_view))
            && keeps_others(self.rest@, fs, image_refs())
    }

    fn from_json(j: Json) -> (r: Result<Self, DecodeError>) {
        let known = vec![
            "bufferView".to_owned(), "mimeType".to_owned(), "uri".to_owned(),
            "name".to_owned(), "extensions".to_owned(), "extras".to_owned(),
        ];
        assert(views(known@) =~= image_keys());
        let mut fs = read_object(j, &known, "image")?;
        proof {
            reveal_strlit("bufferView");
        }
        let buffer_view = read_opt_index(take(&mut fs, "bufferView"), "bufferView")?;
        assert(seq!["bufferView"@][0] == "bufferView"@);
        Ok(Image { buffer_view, rest: fs })
    }
}

/// The fields a sampler may have.
pub open spec fn sampler_keys() -> Seq<Seq<char>> {
    seq!["magFilter"@, "minFilter"@, "wrapS"@, "wrapT"@, "name"@, "extensions"@, "extras"@]
}

/// Filtering and wrapping modes of a texture.
pub struct Sampler {
    /// The fields (filters, wrapping modes, name, extensions, extras), as given.
    pub rest: Vec<(String, Json)>,
}

impl Decode for Sampler {
    open spec fn decodes(j: Json) -> bool {
        object_ok(j, sampler_keys())
    }

    open spec fn decoded_from(&self, j: Json) -> bool {
        self.rest@ == entries(j)
    }

    fn from_json(j: Json) -> (r: Result<Self, DecodeError>) {
        let known = vec![
            "magFilter".to_owned(), "minFilter".to_owned(), "wrapS".to_owned(),
            "wrapT".to_owned(), "name".to_owned(), "extensions".to_owned(), "extras".to_owned(),
        ];
        assert(views(known@) =~= sampler_keys());
        let fs = read_object(j, &known, "sampler")?;
        Ok(Sampler { rest: fs })
    }
}

/// The fields a texture may have.
pub open spec fn texture_keys() -> Seq<Seq<char>> {
    seq!["sampler"@, "source"@, "name"@, "extensions"@, "extras"@]
}

/// The fields of a texture that hold references.
pub open spec fn texture_refs() -> Seq<Seq<char>> {
    seq!["sampler"@, "source"@]
}

/// An image together with the sampler used on it.
pub struct Texture {
    /// The sampler used on the image.
    pub sampler: Option<Index<Sampler>>,
    /// The image.
    pub source: Option<Index<Image>>,
    /// The other fields (name, extensions, extras), as given.
    pub rest: Vec<(String, Json)>,
}

impl Decode for Texture {
    open spec fn decodes(j: Json) -> bool {
        object_ok(j, texture_keys()) && opt_index_value(field(entries(j), "sampler"@)) is Some
            && opt_index_value(field(entries(j), "source"@)) is Some
    }

    open spec fn decoded_from(&self, j: Json) -> bool {
        let fs = entries(j);
        opt_index_value(field(fs, "sampler"@)) == Some(opt_view(self.sampler))
            && opt_index_value(field(fs, "source"@)) == Some(opt_view(self.source))
            && keeps_others(self.rest@, fs, texture_refs())
    }

    fn from_json(j: Json) -> (r: Result<Self, DecodeError>) {
        let known = vec![
            "sampler".to_owned(), "source".to_owned(), "name".to_owned(),
            "extensions".to_owned(), "extras".to_owned(),
        ];
        assert(views(known@) =~= texture_keys());
        let mut fs = read_object(j, &known, "texture")?;
        proof {
            reveal_strlit("sampler");
            reveal_strlit("source");
            assert("sampler"@.len() != "source"@.len());
        }
        let sampler = read_opt_index(take(&mut fs, "sampler"), "sampler")?;
        let source = read_opt_index(take(&mut fs, "source"), "source")?;
        Ok(Texture { sampler, source, rest: fs })
    }
}

} // verus!

verus! {

impl Encode for Texture {
    open spec fn encodes_to(&self, j: Json) -> bool {
        let fs = entries(j);
        &&& j is Object
        &&& field(fs, "sampler"@) == first_of(opt_index_json(opt_view(self.sampler)), field(self.rest@, "sampler"@))
        &&& field(fs, "source"@) == first_of(opt_index_json(opt_view(self.source)), field(self.rest@, "source"@))
        &&& forall|k: Seq<char>| !texture_refs().contains(k) ==> #[trigger] field(fs, k) == field(self.rest@, k)
    }

    fn into_json(self) -> (r: Json) {
        proof {
            reveal_strlit("sampler");
            reveal_strlit("source");
            assert("sampler"@.len() != "source"@.len());
        }
        let ghost me = self;
        let mut out: Vec<(String, Json)> = Vec::new();
        if let Some(v) = opt_index_to_json(self.sampler) {
            let e = ("sampler".to_owned(), v);
            proof {
                lemma_field_push(out@, e);
            }
            out.push(e);
        }
        if let Some(v) = opt_index_to_json(self.source) {
            let e = ("source".to_owned(), v);
            proof {
                lemma_field_push(out@, e);
            }
            out.push(e);
        }
        let ghost typed = out@;
        let mut rest = self.rest;
        out.append(&mut rest);
        proof {
            assert forall|k: Seq<char>| true implies #[trigger] field(out@, k) == match field(typed, k) {
                Some(v) => Some(v),
                None => field(me.rest@, k),
            } by {
                assert(out@ =~= typed + me.rest@);
                lemma_field_append(typed, me.rest@, k);
            }
            assert(texture_refs() =~= seq!["sampler"@, "source"@]);
            assert forall|k: Seq<char>| !texture_refs().contains(k) implies #[trigger] field(out@, k) == field(me.rest@, k) by {
                assert(texture_refs()[0] == "sampler"@);
                assert(texture_refs()[1] == "source"@);
                assert(field(typed, k) is None);
            }
        }
        Json::Object(out)
    }
}

/// Encoding a decoded texture gives back, under every name, what the texture
/// was decoded from.
pub proof fn lemma_texture_round_trip(n: Texture, j: Json, r: Json)
    requires
        Texture::decodes(j),
        n.decoded_from(j),
        n.encodes_to(r),
    ensures
        forall|k: Seq<char>| same_field(#[trigger] field(entries(r), k), field(entries(j), k)),
{
    let fs = entries(j);
    let rest = n.rest@;
    assert(texture_refs()[0] == "sampler"@);
    assert(texture_refs()[1] == "source"@);
    assert(field(rest, "sampler"@) is None);
    assert(field(rest, "source"@) is None);
    lemma_opt_index_back(field(fs, "sampler"@), opt_view(n.sampler));
    lemma_opt_index_back(field(fs, "source"@), opt_view(n.source));
    assert forall|k: Seq<char>| same_field(#[trigger] field(entries(r), k), field(entries(j), k)) by {
        if !texture_refs().contains(k) {
            assert(field(entries(r), k) == field(rest, k));
        } else {
            let i = choose|i: int| 0 <= i < texture_refs().len() && texture_refs()[i] == k;
            assert(i == 0 || i == 1);
        }
    }
}

} // verus!

verus! {

impl Encode for Image {
    open spec fn encodes_to(&self, j: Json) -> bool {
        let fs = entries(j);
        &&& j is Object
        &&& field(fs, "bufferView"@) == first_of(opt_index_json(opt_view(self.buffer_view)), field(self.rest@, "bufferView"@))
        &&& forall|k: Seq<char>| !image_refs().contains(k) ==> #[trigger] field(fs, k) == field(self.rest@, k)
    }

    fn into_json(self) -> (r: Json) {
        proof {
            reveal_strlit("bufferView");
        }
        let ghost me = self;
        let mut out: Vec<(String, Json)> = Vec::new();
        if let Some(v) = opt_index_to_json(self.buffer_view) {
            let e = ("bufferView".to_owned(), v);
            proof {
                lemma_field_push(out@, e);
            }
            out.push(e);
        }
        let ghost typed = out@;
        let mut rest = self.rest;
        out.append(&mut rest);
        proof {
            assert forall|k: Seq<char>| true implies #[trigger] field(out@, k) == match field(typed, k) {
                Some(v) => Some(v),
                None => field(me.rest@, k),
            } by {
                assert(out@ =~= typed + me.rest@);
                lemma_field_append(typed, me.rest@, k);
            }
            assert(image_refs() =~= seq!["bufferView"@]);
            assert forall|k: Seq<char>| !image_refs().contains(k) implies #[trigger] field(out@, k) == field(me.rest@, k) by {
                assert(image_refs()[0] == "bufferView"@);
                assert(field(typed, k) is None);
            }
        }
        Json::Object(out)
    }
}

/// Encoding a decoded image gives back, under every name, what the image was
/// decoded from.
pub proof fn lemma_image_round_trip(n: Image, j: Json, r: Json)
    requires
        Image::decodes(j),
        n.decoded_from(j),
        n.encodes_to(r),
    ensures
        forall|k: Seq<char>| same_field(#[trigger] field(entries(r), k), field(entries(j), k)),
{
    let fs = entries(j);
    let rest = n.rest@;
    assert(image_refs()[0] == "bufferView"@);
    assert(field(rest, "bufferView"@) is None);
    lemma_opt_index_back(field(fs, "bufferView"@), opt_view(n.buffer_view));
    assert forall|k: Seq<char>| same_field(#[trigger] field(entries(r), k), field(entries(j), k)) by {
        if !image_refs().contains(k) {
            assert(field(entries(r), k) == field(rest, k));
        } else {
            let i = choose|i: int| 0 <= i < image_refs().len() && image_refs()[i] == k;
            assert(i == 0);
        }
    }
}

} // verus!

verus! {

impl Encode for Sampler {
    open spec fn encodes_to(&self, j: Json) -> bool {
        j is Object && entries(j) == self.rest@
    }

    fn into_json(self) -> (r: Json) {
        Json::Object(self.rest)
    }
}

/// Encoding a decoded sampler gives back, under every name, what the sampler was
/// decoded from.
pub proof fn lemma_sampler_round_trip(n: Sampler, j: Json, r: Json)
    requires
        Sampler::decodes(j),
        n.decoded_from(j),
        n.encodes_to(r),
    ensures
        forall|k: Seq<char>| same_field(#[trigger] field(entries(r), k), field(entries(j), k)),
{
}

} // verus!
