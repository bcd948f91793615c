use vstd::prelude::*;
use crate::error::DecodeError;
use crate::json::Json;

verus! {

/// Whether no two entries of a table are equal.
pub open spec fn distinct<A>(s: Seq<A>) -> bool {
    forall|i: int, j: int| 0 <= i < s.len() && 0 <= j < s.len() && i != j ==> s[i] != s[j]
}

/// The views of a sequence of strings.
pub open spec fn views(v: Seq<String>) -> Seq<Seq<char>> {
    v.map_values(|s: String| s@)
}

/// An enum whose external form is one of a fixed list of strings.
///
/// The table lists one label per variant; `position` places each variant in it.
pub trait TokenEnum: Sized {
    spec fn spec_labels() -> Seq<Seq<char>>;

    spec fn spec_position(&self) -> nat;

    /// The labels, in table order.
    fn labels() -> (r: Vec<String>)
        ensures
            views(r@) == Self::spec_labels(),
    ;

    /// The variant at position `i` of the table.
    fn from_position(i: usize) -> (r: Self)
        requires
            i < Self::spec_labels().len(),
        ensures
            r.spec_position() == i,
    ;

    /// This variant's position in the table.
    fn position(&self) -> (r: usize)
        ensures
            r == self.spec_position(),
    ;

    /// The table has one distinct label per variant.
    proof fn table_is_exact()
        ensures
            distinct(Self::spec_labels()),
            forall|t: Self| #[trigger] t.spec_position() < Self::spec_labels().len(),
            forall|a: Self, b: Self| a.spec_position() == b.spec_position() ==> a == b,
    ;
}

/// The external label of a variant.
pub open spec fn token_of<T: TokenEnum>(t: T) -> Seq<char> {
    T::spec_labels()[t.spec_position() as int]
}

/// An enum whose external form is one of a fixed list of unsigned numbers.
pub trait CodeEnum: Sized {
    spec fn spec_codes() -> Seq<u64>;

    spec fn spec_position(&self) -> nat;

    /// The codes, in table order.
    fn codes() -> (r: Vec<u64>)
        ensures
            r@ == Self::spec_codes(),
    ;

    /// The variant at position `i` of the table.
    fn from_position(i: usize) -> (r: Self)
        requires
            i < Self::spec_codes().len(),
        ensures
            r.spec_position() == i,
    ;

    /// This variant's position in the table.
    fn position(&self) -> (r: usize)
        ensures
            r == self.spec_position(),
    ;

    /// The table has one distinct code per variant.
    proof fn table_is_exact()
        ensures
            distinct(Self::spec_codes()),
            forall|t: Self| #[trigger] t.spec_position() < Self::spec_codes().len(),
            forall|a: Self, b: Self| a.spec_position() == b.spec_position() ==> a == b,
    ;
}

/// The external code of a variant.
pub open spec fn code_of<T: CodeEnum>(t: T) -> u64 {
    T::spec_codes()[t.spec_position() as int]
}

/// Finds `s` in a table of labels.
pub fn find_label(labels: &Vec<String>, s: &String) -> (r: Option<usize>)
    ensures
        match r {
            Some(i) => i < labels.len() && labels@[i as int]@ == s@,
            None => !views(labels@).contains(s@),
        },
{
    let mut i: usize = 0;
    while i < labels.len()
        invariant
            i <= labels.len(),
            forall|j: int| 0 <= j < i ==> labels@[j]@ != s@,
        decreases labels.len() - i,
    {
        if labels[i] == *s {
            return Some(i);
        }
        i = i + 1;
    }
    proof {
        if views(labels@).contains(s@) {
            let j = choose|j: int| 0 <= j < views(labels@).len() && views(labels@)[j] == s@;
            assert(labels@[j]@ == s@);
        }
    }
    None
}

/// Finds `n` in a table of codes.
pub fn find_code(codes: &Vec<u64>, n: u64) -> (r: Option<usize>)
    ensures
        match r {
            Some(i) => i < codes.len() && codes@[i as int] == n,
            None => !codes@.contains(n),
        },
{
    let mut i: usize = 0;
    while i < codes.len()
        invariant
            i <= codes.len(),
            forall|j: int| 0 <= j < i ==> codes@[j] != n,
        decreases codes.len() - i,
    {
        if codes[i] == n {
            return Some(i);
        }
        i = i + 1;
    }
    None
}

/// Decodes a token-coded enum from its label.
///
/// A string outside the table fails with an error that holds the string and
/// every accepted label; any other JSON value fails as a wrong shape.
pub fn decode_token<T: TokenEnum>(j: &Json, field: &String) -> (r: Result<T, DecodeError>)
    ensures
        match j {
            Json::Str(s) => match r {
                Ok(t) => T::spec_labels().contains(s@) && token_of(t) == s@,
                Err(e) => !T::spec_labels().contains(s@) && (e matches DecodeError::UnknownToken {
                    rejected,
                    accepted,
                } && rejected@ == s@ && views(accepted@) == T::spec_labels()),
            },
            _ => r matches Err(DecodeError::WrongShape { field: f }) && f@ == field@,
        },
{
    match j {
        Json::Str(s) => {
            let labels = T::labels();
            match find_label(&labels, s) {
                Some(i) => {
                    let t = T::from_position(i);
                    assert(views(labels@)[i as int] == labels@[i as int]@);
                    Ok(t)
                },
                None => Err(DecodeError::UnknownToken { rejected: s.clone(), accepted: labels }),
            }
        },
        _ => Err(DecodeError::WrongShape { field: field.clone() }),
    }
}

/// Encodes a token-coded enum as its label.
pub fn encode_token<T: TokenEnum>(t: &T) -> (r: Json)
    ensures
        r matches Json::Str(s) && s@ == token_of(*t),
{
    proof {
        T::table_is_exact();
    }
    let mut labels = T::labels();
    let i = t.position();
    assert(views(labels@)[i as int] == labels@[i as int]@);
    Json::Str(labels.swap_remove(i))
}

/// Decodes a code-coded enum from its number.
///
/// A number outside the table fails with an error that holds the number;
/// any other JSON value fails as a wrong shape.
pub fn decode_code<T: CodeEnum>(j: &Json, field: &String) -> (r: Result<T, DecodeError>)
    ensures
        match j {
            Json::UInt(n) => match r {
                Ok(t) => T::spec_codes().contains(*n) && code_of(t) == *n,
                Err(e) => !T::spec_codes().contains(*n) && (e matches DecodeError::UnknownCode {
                    rejected,
                    accepted,
                } && rejected == *n && accepted@ == T::spec_codes()),
            },
            _ => r matches Err(DecodeError::WrongShape { field: f }) && f@ == field@,
        },
{
    match j {
        Json::UInt(n) => {
            let codes = T::codes();
            match find_code(&codes, *n) {
                Some(i) => Ok(T::from_position(i)),
                None => Err(DecodeError::UnknownCode { rejected: *n, accepted: codes }),
            }
        },
        _ => Err(DecodeError::WrongShape { field: field.clone() }),
    }
}

/// Encodes a code-coded enum as its number.
pub fn encode_code<T: CodeEnum>(t: &T) -> (r: Json)
    ensures
        r == Json::UInt(code_of(*t)),
{
    proof {
        T::table_is_exact();
    }
    let codes = T::codes();
    let i = t.position();
    Json::UInt(codes[i])
}

} // verus!

verus! {

/// Every variant's label is accepted, and it decodes to that variant alone:
/// a token-coded enum survives encoding and decoding unchanged.
pub proof fn lemma_token_round_trip<T: TokenEnum>(t: T)
    ensures
        T::spec_labels().contains(token_of(t)),
        forall|u: T| #[trigger] token_of(u) == token_of(t) ==> u == t,
{
    T::table_is_exact();
    let i = t.spec_position() as int;
    assert(T::spec_labels()[i] == token_of(t));
    assert forall|u: T| #[trigger] token_of(u) == token_of(t) implies u == t by {
        let k = u.spec_position() as int;
        assert(T::spec_labels()[k] == T::spec_labels()[i]);
    }
}

/// Every variant's code is accepted, and it decodes to that variant alone:
/// a code-coded enum survives encoding and decoding unchanged.
pub proof fn lemma_code_round_trip<T: CodeEnum>(t: T)
    ensures
        T::spec_codes().contains(code_of(t)),
        forall|u: T| #[trigger] code_of(u) == code_of(t) ==> u == t,
{
    T::table_is_exact();
    let i = t.spec_position() as int;
    assert(T::spec_codes()[i] == code_of(t));
    assert forall|u: T| #[trigger] code_of(u) == code_of(t) implies u == t by {
        let k = u.spec_position() as int;
        assert(T::spec_codes()[k] == T::spec_codes()[i]);
    }
}

} // verus!
