use vstd::prelude::*;
use crate::codec::views;
use crate::error::DecodeError;
use crate::index::{Index, index_value, read_index};
use crate::json::Json;
use crate::object::{
    field, keeps_others, lemma_field_append, lemma_field_push, object_ok, entries, read_object, same_field, take,
};
use crate::traits::{Decode, Encode};

verus! {

/// The fields a buffer may have.
pub open spec fn buffer_keys() -> Seq<Seq<char>> {
    seq!["byteLength"@, "uri"@, "name"@, "extensions"@, "extras"@]
}

/// A buffer of binary data; only its description is held here.
pub struct Buffer {
    /// The fields (length, location, name, extensions, extras), as given.
    pub rest: Vec<(String, Json)>,
}

impl Decode for Buffer {
    open spec fn decodes(j: Json) -> bool {
        object_ok(j, buffer_keys())
    }

    open spec fn decoded_from(&self, j: Json) -> bool {
        self.rest@ == entries(j)
    }

    fn from_json(j: Json) -> (r: Result<Self, DecodeError>) {
        let known = vec![
            "byteLength".to_owned(), "uri".to_owned(), "name".to_owned(),
            "extensions".to_owned(), "extras".to_owned(),
        ];
        assert(views(known@) =~= buffer_keys());
        let fs = read_object(j, &known, "buffer")?;
        Ok(Buffer { rest: fs })
    }
}

/// The fields a buffer view may have.
pub open spec fn view_keys() -> Seq<Seq<char>> {
    seq!["buffer"@, "byteLength"@, "byteOffset"@, "byteStride"@, "target"@, "name"@, "extensions"@, "extras"@]
}

/// The fields of a buffer view that hold references.
pub open spec fn view_refs() -> Seq<Seq<char>> {
    seq!["buffer"@]
}

/// A byte range of a buffer.
pub struct BufferView {
    /// The buffer the range lies in.
    pub buffer: Index<Buffer>,
    /// The other fields (range, stride, target, name, extensions, extras), as given.
    pub rest: Vec<(String, Json)>,
}

impl Decode for BufferView {
    open spec fn decodes(j: Json) -> bool {
        object_ok(j, view_keys()) && (field(entries(j), "buffer"@) matches Some(b) && index_value(b) is Some)
    }

    open spec fn decoded_from(&self, j: Json) -> bool {
        let fs = entries(j);
        field(fs, "buffer"@) matches Some(b) && index_value(b) == Some(self.buffer@)
            && keeps_others(self.rest@, fs, view_refs())
    }

    fn from_json(j: Json) -> (r: Result<Self, DecodeError>) {
        let known = vec![
            "buffer".to_owned(), "byteLength".to_owned(), "byteOffset".to_owned(),
            "byteStride".to_owned(), "target".to_owned(), "name".to_owned(),
            "extensions".to_owned(), "extras".to_owned(),
        ];
        assert(views(known@) =~= view_keys());
        let mut fs = read_object(j, &known, "bufferView")?;
        proof {
            reveal_strlit("buffer");
        }
        let buffer = read_index(take(&mut fs, "buffer"), "buffer")?;
        assert(seq!["buffer"@][0] == "buffer"@);
        Ok(BufferView { buffer, rest: fs })
    }
}

} // verus!

verus! {

impl Encode for BufferView {
    open spec fn encodes_to(&self, j: Json) -> bool {
        let fs = entries(j);
        &&& j is Object
        &&& field(fs, "buffer"@) == Some(Json::UInt(self.buffer@ as u64))
        &&& forall|k: Seq<char>| !view_refs().contains(k) ==> #[trigger] field(fs, k) == field(self.rest@, k)
    }

    fn into_json(self) -> (r: Json) {
        proof {
            reveal_strlit("buffer");
        }
        let ghost me = self;
        let mut out: Vec<(String, Json)> = Vec::new();
        let e = ("buffer".to_owned(), self.buffer.to_json());
        proof {
            lemma_field_push(out@, e);
        }
        out.push(e);
        let ghost typed = out@;
        let mut rest = self.rest;
        out.append(&mut rest);
        proof {
            assert forall|k: Seq<char>| true implies #[trigger] field(out@, k) == match field(typed, k) {
                Some(v) => Some(v),
                None => field(me.rest@, k),
            } by {
                assert(out@ =~= typed + me.rest@);
                lemma_field_append(typed, me.rest@, k);
            }
            assert(view_refs() =~= seq!["buffer"@]);
            assert forall|k: Seq<char>| !view_refs().contains(k) implies #[trigger] field(out@, k) == field(me.rest@, k) by {
                assert(view_refs()[0] == "buffer"@);
                assert(field(typed, k) is None);
            }
        }
        Json::Object(out)
    }
}

/// Encoding a decoded buffer view gives back, under every name, what the
/// view was decoded from.
pub proof fn lemma_view_round_trip(n: BufferView, j: Json, r: Json)
    requires
        BufferView::decodes(j),
        n.decoded_from(j),
        n.encodes_to(r),
    ensures
        forall|k: Seq<char>| same_field(#[trigger] field(entries(r), k), field(entries(j), k)),
{
    let fs = entries(j);
    let rest = n.rest@;
    assert(view_refs()[0] == "buffer"@);
    assert(field(rest, "buffer"@) is None);
    assert forall|k: Seq<char>| same_field(#[trigger] field(entries(r), k), field(entries(j), k)) by {
        if !view_refs().contains(k) {
            assert(field(entries(r), k) == field(rest, k));
        } else {
            let i = choose|i: int| 0 <= i < view_refs().len() && view_refs()[i] == k;
            assert(i == 0);
        }
    }
}

} // verus!

verus! {

impl Encode for Buffer {
    open spec fn encodes_to(&self, j: Json) -> bool {
        j is Object && entries(j) == self.rest@
    }

    fn into_json(self) -> (r: Json) {
        Json::Object(self.rest)
    }
}

/// Encoding a decoded buffer gives back, under every name, what the buffer was
/// decoded from.
pub proof fn lemma_buffer_round_trip(n: Buffer, j: Json, r: Json)
    requires
        Buffer::decodes(j),
        n.decoded_from(j),
        n.encodes_to(r),
    ensures
        forall|k: Seq<char>| same_field(#[trigger] field(entries(r), k), field(entries(j), k)),
{
}

} // verus!
