use vstd::prelude::*;
use crate::codec::views;
use crate::error::DecodeError;
use crate::json::Json;

verus! {

/// The value of the first entry named `key` in an object's entries.
pub open spec fn field(fs: Seq<(String, Json)>, key: Seq<char>) -> Option<Json>
    decreases fs.len(),
{
    if fs.len() == 0 {
        None
    } else if fs[0].0@ == key {
        Some(fs[0].1)
    } else {
        field(fs.drop_first(), key)
    }
}

/// Whether every entry of an object is named in `known`.
pub open spec fn keys_known(fs: Seq<(String, Json)>, known: Seq<Seq<char>>) -> bool {
    forall|i: int| 0 <= i < fs.len() ==> known.contains(#[trigger] fs[i].0@)
}

/// Whether no two entries of an object share a name.
pub open spec fn keys_distinct(fs: Seq<(String, Json)>) -> bool {
    forall|i: int, j: int|
        0 <= i < fs.len() && 0 <= j < fs.len() && i != j ==> #[trigger] fs[i].0@ != #[trigger] fs[j].0@
}

proof fn lemma_field_skip(fs: Seq<(String, Json)>, i: int, key: Seq<char>)
    requires
        0 <= i <= fs.len(),
        forall|j: int| 0 <= j < i ==> fs[j].0@ != key,
    ensures
        field(fs, key) == field(fs.subrange(i, fs.len() as int), key),
    decreases i,
{
    if i > 0 {
        assert(fs.drop_first().subrange(i - 1, fs.drop_first().len() as int) =~= fs.subrange(i, fs.len() as int));
        lemma_field_skip(fs.drop_first(), i - 1, key);
    } else {
        assert(fs.subrange(0, fs.len() as int) =~= fs);
    }
}

proof fn lemma_field_none(fs: Seq<(String, Json)>, key: Seq<char>)
    requires
        forall|j: int| 0 <= j < fs.len() ==> fs[j].0@ != key,
    ensures
        field(fs, key) is None,
    decreases fs.len(),
{
    if fs.len() > 0 {
        lemma_field_none(fs.drop_first(), key);
    }
}

proof fn lemma_field_remove(fs: Seq<(String, Json)>, i: int, key: Seq<char>, other: Seq<char>)
    requires
        0 <= i < fs.len(),
        fs[i].0@ == key,
        other != key,
    ensures
        field(fs.remove(i), other) == field(fs, other),
    decreases i,
{
    if i > 0 {
        assert(fs.remove(i).drop_first() =~= fs.drop_first().remove(i - 1));
        lemma_field_remove(fs.drop_first(), i - 1, key, other);
    } else {
        assert(fs.remove(0) =~= fs.drop_first());
    }
}

/// Removes the first entry named `key` from an object and hands back its value.
pub fn take(fs: &mut Vec<(String, Json)>, key: &str) -> (r: Option<Json>)
    ensures
        r == field(old(fs)@, key@),
        forall|k: Seq<char>| k != key@ ==> field(final(fs)@, k) == #[trigger] field(old(fs)@, k),
        final(fs)@.len() <= old(fs)@.len(),
        forall|i: int| 0 <= i < final(fs)@.len() ==> exists|j: int| 0 <= j < old(fs)@.len() && #[trigger] final(fs)@[i] == old(fs)@[j],
        keys_distinct(old(fs)@) ==> keys_distinct(final(fs)@) && field(final(fs)@, key@) is None,
{
    let name: String = key.to_owned();
    let mut i: usize = 0;
    while i < fs.len()
        invariant
            i <= fs.len(),
            fs@ == old(fs)@,
            name@ == key@,
            forall|j: int| 0 <= j < i ==> fs@[j].0@ != key@,
        decreases fs.len() - i,
    {
        if fs[i].0 == name {
            proof {
                lemma_field_skip(fs@, i as int, key@);
                assert(fs@.subrange(i as int, fs@.len() as int)[0] == fs@[i as int]);
                assert forall|k: Seq<char>| k != key@ implies field(fs@.remove(i as int), k) == #[trigger] field(fs@, k) by {
                    lemma_field_remove(fs@, i as int, key@, k);
                }
            }
            let ghost before = fs@;
            let (_, v) = fs.remove(i);
            proof {
                if keys_distinct(before) {
                    assert forall|a: int, b: int| 0 <= a < fs@.len() && 0 <= b < fs@.len() && a != b
                        implies #[trigger] fs@[a].0@ != #[trigger] fs@[b].0@ by {
                        let a0 = if a < i { a } else { a + 1 };
                        let b0 = if b < i { b } else { b + 1 };
                        assert(fs@[a] == before[a0]);
                        assert(fs@[b] == before[b0]);
                    }
                    assert forall|m: int| 0 <= m < fs@.len() implies fs@[m].0@ != key@ by {
                        let m0 = if m < i { m } else { m + 1 };
                        assert(fs@[m] == before[m0]);
                    }
                    lemma_field_none(fs@, key@);
                }
                assert forall|m: int| 0 <= m < fs@.len() implies exists|j: int| 0 <= j < before.len() && #[trigger] fs@[m] == before[j] by {
                    if m < i {
                        assert(fs@[m] == before[m]);
                    } else {
                        assert(fs@[m] == before[m + 1]);
                    }
                }
            }
            return Some(v);
        }
        i = i + 1;
    }
    proof {
        lemma_field_skip(fs@, i as int, key@);
        assert(fs@.subrange(i as int, fs@.len() as int).len() == 0);
    }
    None
}

/// Checks an object against a closed schema: every entry is named in
/// `known`, and no name is given twice.
pub fn check_keys(fs: &Vec<(String, Json)>, known: &Vec<String>) -> (r: Result<(), DecodeError>)
    ensures
        r is Ok <==> keys_known(fs@, views(known@)) && keys_distinct(fs@),
        r matches Err(e) ==> (e is UnknownField || e is DuplicateField),
{
    let mut i: usize = 0;
    while i < fs.len()
        invariant
            i <= fs.len(),
            forall|m: int| 0 <= m < i ==> views(known@).contains(#[trigger] fs@[m].0@),
            forall|m: int, n: int| 0 <= m < i && 0 <= n < fs.len() && m != n ==> #[trigger] fs@[m].0@ != #[trigger] fs@[n].0@,
        decreases fs.len() - i,
    {
        let k = &fs[i].0;
        let mut found = false;
        let mut a: usize = 0;
        while a < known.len()
            invariant
                a <= known.len(),
                i < fs@.len(),
                k@ == fs@[i as int].0@,
                !found ==> forall|b: int| 0 <= b < a ==> known@[b]@ != fs@[i as int].0@,
                found ==> views(known@).contains(fs@[i as int].0@),
            decreases known.len() - a,
        {
            if known[a] == *k {
                assert(views(known@)[a as int] == known@[a as int]@);
                found = true;
            }
            a = a + 1;
        }
        if !found {
            proof {
                if views(known@).contains(fs@[i as int].0@) {
                    let b = choose|b: int| 0 <= b < views(known@).len() && views(known@)[b] == fs@[i as int].0@;
                    assert(known@[b]@ == fs@[i as int].0@);
                }
            }
            return Err(DecodeError::UnknownField { field: k.clone() });
        }
        let mut n: usize = 0;
        while n < fs.len()
            invariant
                n <= fs.len(),
                i < fs@.len(),
                k@ == fs@[i as int].0@,
                forall|c: int| 0 <= c < n && c != i ==> fs@[i as int].0@ != #[trigger] fs@[c].0@,
            decreases fs.len() - n,
        {
            if n != i && fs[n].0 == *k {
                assert(fs@[n as int].0@ == fs@[i as int].0@);
                return Err(DecodeError::DuplicateField { field: k.clone() });
            }
            n = n + 1;
        }
        i = i + 1;
    }
    Ok(())
}

} // verus!

verus! {

/// Whether `rest` holds nothing under the names in `taken`, and under every
/// other name what `fs` holds.
pub open spec fn keeps_others(rest: Seq<(String, Json)>, fs: Seq<(String, Json)>, taken: Seq<Seq<char>>) -> bool {
    &&& forall|k: Seq<char>| !taken.contains(k) ==> #[trigger] field(rest, k) == field(fs, k)
    &&& forall|i: int| 0 <= i < taken.len() ==> field(rest, #[trigger] taken[i]) is None
}

/// Whether `j` is an object that the closed schema `known` accepts.
pub open spec fn object_ok(j: Json, known: Seq<Seq<char>>) -> bool {
    j matches Json::Object(fs) && keys_known(fs@, known) && keys_distinct(fs@)
}

/// The entries of an object.
pub open spec fn entries(j: Json) -> Seq<(String, Json)> {
    match j {
        Json::Object(fs) => fs@,
        _ => Seq::empty(),
    }
}

/// Reads an object under the closed schema `known`.
pub fn read_object(j: Json, known: &Vec<String>, name: &str) -> (r: Result<Vec<(String, Json)>, DecodeError>)
    ensures
        r is Ok <==> object_ok(j, views(known@)),
        r matches Ok(fs) ==> fs@ == entries(j),
        !(j is Object) ==> (r matches Err(DecodeError::WrongShape { field: f }) && f@ == name@),
{
    match j {
        Json::Object(fs) => match check_keys(&fs, known) {
            Ok(()) => Ok(fs),
            Err(e) => Err(e),
        },
        _ => Err(DecodeError::WrongShape { field: name.to_owned() }),
    }
}

/// What an optional string field holds: `None` where it is not a string.
pub open spec fn opt_string_value(v: Option<Json>) -> Option<Option<Seq<char>>> {
    match v {
        None => Some(None),
        Some(Json::Str(s)) => Some(Some(s@)),
        _ => None,
    }
}

/// Decodes a list of entities; an absent field is an empty list.
pub fn read_list<T: crate::traits::Decode>(v: Option<Json>, name: &str) -> (r: Result<Vec<T>, DecodeError>)
    ensures
        r is Ok <==> list_ok::<T>(v),
        r matches Ok(l) ==> l@.len() == list_len(v) && forall|i: int|
            0 <= i < l@.len() ==> #[trigger] l@[i].decoded_from(list_item(v, i)),
{
    match v {
        None => Ok(Vec::new()),
        Some(Json::Array(items)) => {
            let ghost all = items@;
            let mut rest = items;
            let mut out: Vec<T> = Vec::new();
            while rest.len() > 0
                invariant
                    v == Some(Json::Array(items)),
                    items@ == all,
                    out@.len() + rest@.len() == all.len(),
                    rest@ == all.subrange(out@.len() as int, all.len() as int),
                    forall|m: int| 0 <= m < out@.len() ==> T::decodes(all[m]),
                    forall|m: int| 0 <= m < out@.len() ==> #[trigger] out@[m].decoded_from(all[m]),
                decreases rest.len(),
            {
                let ghost at = out@.len() as int;
                assert(rest@[0] == all[at]);
                let item = rest.remove(0);
                match T::from_json(item) {
                    Ok(e) => out.push(e),
                    Err(e) => return Err(e),
                }
                assert(rest@ =~= all.subrange(out@.len() as int, all.len() as int));
            }
            Ok(out)
        },
        Some(_) => Err(DecodeError::WrongShape { field: name.to_owned() }),
    }
}

/// Whether a list-of-entities field decodes.
pub open spec fn list_ok<T: crate::traits::Decode>(v: Option<Json>) -> bool {
    match v {
        None => true,
        Some(Json::Array(items)) => forall|i: int| 0 <= i < items@.len() ==> T::decodes(#[trigger] items@[i]),
        _ => false,
    }
}

/// The number of items in a list field; an absent field has none.
pub open spec fn list_len(v: Option<Json>) -> nat {
    match v {
        Some(Json::Array(items)) => items@.len(),
        _ => 0,
    }
}

/// The item at position `i` of a list field.
pub open spec fn list_item(v: Option<Json>, i: int) -> Json {
    match v {
        Some(Json::Array(items)) => items@[i],
        _ => Json::Null,
    }
}

} // verus!

verus! {

/// Whether `l` is what the list field `v` decodes to.
pub open spec fn list_decoded<T: crate::traits::Decode>(l: Seq<T>, v: Option<Json>) -> bool {
    l.len() == list_len(v) && forall|i: int| 0 <= i < l.len() ==> #[trigger] l[i].decoded_from(list_item(v, i))
}

} // verus!

verus! {

/// Whether an optional sub-object field decodes.
pub open spec fn opt_ok<T: crate::traits::Decode>(v: Option<Json>) -> bool {
    match v {
        None => true,
        Some(j) => T::decodes(j),
    }
}

/// Whether `o` is what the optional sub-object field `v` decodes to.
pub open spec fn opt_decoded<T: crate::traits::Decode>(o: Option<T>, v: Option<Json>) -> bool {
    match v {
        None => o is None,
        Some(j) => o matches Some(t) && t.decoded_from(j),
    }
}

/// Decodes an optional sub-object field.
pub fn read_opt<T: crate::traits::Decode>(v: Option<Json>) -> (r: Result<Option<T>, DecodeError>)
    ensures
        r is Ok <==> opt_ok::<T>(v),
        r matches Ok(o) ==> opt_decoded(o, v),
{
    match v {
        None => Ok(None),
        Some(j) => match T::from_json(j) {
            Ok(t) => Ok(Some(t)),
            Err(e) => Err(e),
        },
    }
}

} // verus!

verus! {

/// Looking a name up in two runs of entries finds it in the first run, if
/// it is there, else in the second.
pub proof fn lemma_field_append(a: Seq<(String, Json)>, b: Seq<(String, Json)>, key: Seq<char>)
    ensures
        field(a + b, key) == match field(a, key) {
            Some(v) => Some(v),
            None => field(b, key),
        },
    decreases a.len(),
{
    if a.len() > 0 {
        assert((a + b).drop_first() =~= a.drop_first() + b);
        lemma_field_append(a.drop_first(), b, key);
    } else {
        assert(a + b =~= b);
    }
}

/// Whether two optional field values say the same: equal values, strings
/// with equal text, arrays with equal items, or an absent field against an
/// empty array.
pub open spec fn same_field(a: Option<Json>, b: Option<Json>) -> bool {
    ||| a == b
    ||| (a matches Some(Json::Str(x)) && b matches Some(Json::Str(y)) && x@ == y@)
    ||| (a matches Some(Json::Array(x)) && b matches Some(Json::Array(y)) && x@ == y@)
    ||| (a is None && (b matches Some(Json::Array(y)) && y@.len() == 0))
}

} // verus!

verus! {

/// Looking a name up after one more entry finds the earlier entries first.
pub proof fn lemma_field_push(s: Seq<(String, Json)>, e: (String, Json))
    ensures
        forall|k: Seq<char>| #[trigger] field(s.push(e), k) == match field(s, k) {
            Some(v) => Some(v),
            None => if e.0@ == k {
                Some(e.1)
            } else {
                None
            },
        },
{
    assert forall|k: Seq<char>| #[trigger] field(s.push(e), k) == match field(s, k) {
        Some(v) => Some(v),
        None => if e.0@ == k {
            Some(e.1)
        } else {
            None
        },
    } by {
        let one: Seq<(String, Json)> = seq![e];
        assert(s.push(e) =~= s + one);
        lemma_field_append(s, one, k);
        assert(one[0] == e);
        assert(one.drop_first() =~= Seq::<(String, Json)>::empty());
        assert(field(one.drop_first(), k) is None);
    }
}

} // verus!

verus! {

/// The first of two optional field values that is present.
pub open spec fn first_of(a: Option<Json>, b: Option<Json>) -> Option<Json> {
    match a {
        Some(v) => Some(v),
        None => b,
    }
}

} // verus!
