use vstd::prelude::*;
use crate::json::SyntaxError;

verus! {

/// The entity kinds of a document, one per collection of the root.
#[derive(Clone, Copy, Debug, PartialEq, Eq, Structural)]
pub enum Kind {
    /// The root object itself, which holds the active-scene reference.
    Root,
    Accessor,
    Animation,
    /// The samplers of the animation that holds the reference.
    AnimationSampler,
    Buffer,
    BufferView,
    Camera,
    Image,
    Material,
    Mesh,
    Node,
    Sampler,
    Scene,
    Skin,
    Texture,
}

/// Why a document could not be decoded.
#[derive(Debug)]
pub enum DecodeError {
    /// The text is not JSON.
    Syntax(SyntaxError),
    /// The value of `field` has the wrong shape (an array where an object
    /// belongs, a string where an integer belongs, ...).
    WrongShape { field: String },
    /// A field that the schema requires is absent.
    MissingField { field: String },
    /// A field outside the closed schema of an object.
    UnknownField { field: String },
    /// A field given twice in one object.
    DuplicateField { field: String },
    /// A string that names no variant of a token-coded enum.
    UnknownToken { rejected: String, accepted: Vec<String> },
    /// A number that names no variant of a code-coded enum.
    UnknownCode { rejected: u64, accepted: Vec<u64> },
}

/// A reference that designates no element of its target collection.
#[derive(Clone, Copy, Debug, PartialEq, Eq, Structural)]
pub struct InvalidReference {
    /// The kind of the entity that holds the reference.
    pub holder: Kind,
    /// The position of that entity in its collection.
    pub position: usize,
    /// The kind of collection the reference points into.
    pub target: Kind,
    /// The raw value of the reference.
    pub value: u32,
}

/// Why a document could not be imported.
#[derive(Debug)]
pub enum ImportError {
    /// The text could not be decoded.
    Deserialize(DecodeError),
    /// A reference is out of the range of its target collection.
    Invalid(InvalidReference),
}

} // verus!

verus! {

/// The decimal digit `d`.
pub open spec fn digit(d: nat) -> char {
    seq!['0', '1', '2', '3', '4', '5', '6', '7', '8', '9'][d as int]
}

/// The decimal text of `n`, without leading zeros.
pub open spec fn decimal(n: nat) -> Seq<char>
    decreases n,
{
    if n < 10 {
        seq![digit(n)]
    } else {
        decimal(n / 10).push(digit(n % 10))
    }
}

/// The names of a table, separated by `", "`.
pub open spec fn joined(names: Seq<Seq<char>>) -> Seq<char>
    decreases names.len(),
{
    if names.len() == 0 {
        Seq::empty()
    } else if names.len() == 1 {
        names[0]
    } else {
        joined(names.drop_last()) + ", "@ + names.last()
    }
}

fn digit_text(d: u64) -> (r: &'static str)
    requires
        d < 10,
    ensures
        r@ == seq![digit(d as nat)],
{
    proof {
        reveal_strlit("0");
        reveal_strlit("1");
        reveal_strlit("2");
        reveal_strlit("3");
        reveal_strlit("4");
        reveal_strlit("5");
        reveal_strlit("6");
        reveal_strlit("7");
        reveal_strlit("8");
        reveal_strlit("9");
    }
    let r = if d == 0 {
        "0"
    } else if d == 1 {
        "1"
    } else if d == 2 {
        "2"
    } else if d == 3 {
        "3"
    } else if d == 4 {
        "4"
    } else if d == 5 {
        "5"
    } else if d == 6 {
        "6"
    } else if d == 7 {
        "7"
    } else if d == 8 {
        "8"
    } else {
        "9"
    };
    assert(r@ =~= seq![digit(d as nat)]);
    r
}

/// The decimal text of `n`.
pub fn decimal_text(n: u64) -> (r: String)
    ensures
        r@ == decimal(n as nat),
    decreases n,
{
    if n < 10 {
        String::from_str(digit_text(n))
    } else {
        let mut s = decimal_text(n / 10);
        s.append(digit_text(n % 10));
        s
    }
}

/// The names of a table, separated by `", "`.
pub fn join(names: &Vec<String>) -> (r: String)
    ensures
        r@ == joined(crate::codec::views(names@)),
{
    let ghost all = crate::codec::views(names@);
    let mut out = String::new();
    let mut i: usize = 0;
    while i < names.len()
        invariant
            i <= names.len(),
            all == crate::codec::views(names@),
            out@ == joined(all.subrange(0, i as int)),
        decreases names.len() - i,
    {
        proof {
            let next = all.subrange(0, i + 1);
            assert(next.drop_last() =~= all.subrange(0, i as int));
            assert(next.last() == names@[i as int]@);
        }
        if i > 0 {
            out.append(", ");
        }
        out.append(names[i].as_str());
        i = i + 1;
        proof {
            if i == 1 {
                assert(all.subrange(0, 1).len() == 1);
                assert(out@ =~= all.subrange(0, 1)[0]);
            }
        }
    }
    assert(all.subrange(0, names@.len() as int) =~= all);
    out
}

/// A field name in backquotes.
pub open spec fn quoted(field: Seq<char>) -> Seq<char> {
    "`"@ + field + "`"@
}

fn quote(field: &String) -> (r: String)
    ensures
        r@ == quoted(field@),
{
    let mut r = String::from_str("`");
    r.append(field.as_str());
    r.append("`");
    r
}

/// The human-readable description of a decode error.
pub open spec fn message_of(e: DecodeError) -> Seq<char> {
    match e {
        DecodeError::Syntax(SyntaxError::Malformed(m)) => m@,
        DecodeError::Syntax(SyntaxError::TooDeep) => "nesting too deep"@,
        DecodeError::WrongShape { field } => "invalid type for field "@ + quoted(field@),
        DecodeError::MissingField { field } => "missing field "@ + quoted(field@),
        DecodeError::UnknownField { field } => "unknown field "@ + quoted(field@),
        DecodeError::DuplicateField { field } => "duplicate field "@ + quoted(field@),
        DecodeError::UnknownToken { rejected, accepted } => "invalid value: "@ + rejected@
            + ", expected one of: "@ + joined(crate::codec::views(accepted@)),
        DecodeError::UnknownCode { rejected, .. } => "invalid value: "@ + decimal(rejected as nat),
    }
}

impl DecodeError {
    /// A human-readable description of the error.
    pub fn message(&self) -> (r: String)
        ensures
            r@ == message_of(*self),
    {
        match self {
            DecodeError::Syntax(SyntaxError::Malformed(m)) => m.clone(),
            DecodeError::Syntax(SyntaxError::TooDeep) => String::from_str("nesting too deep"),
            DecodeError::WrongShape { field } => String::from_str("invalid type for field ").concat(quote(field).as_str()),
            DecodeError::MissingField { field } => String::from_str("missing field ").concat(quote(field).as_str()),
            DecodeError::UnknownField { field } => String::from_str("unknown field ").concat(quote(field).as_str()),
            DecodeError::DuplicateField { field } => String::from_str("duplicate field ").concat(quote(field).as_str()),
            DecodeError::UnknownToken { rejected, accepted } => {
                let mut r = String::from_str("invalid value: ");
                r.append(rejected.as_str());
                r.append(", expected one of: ");
                r.append(join(accepted).as_str());
                r
            },
            DecodeError::UnknownCode { rejected, .. } => {
                String::from_str("invalid value: ").concat(decimal_text(*rejected).as_str())
            },
        }
    }
}

impl ImportError {
    /// A human-readable description of the error.
    pub fn message(&self) -> (r: String)
        ensures
            match self {
                ImportError::Deserialize(e) => r@ == message_of(*e),
                ImportError::Invalid(_) => r@ == "index out of range"@,
            },
    {
        match self {
            ImportError::Deserialize(e) => e.message(),
            ImportError::Invalid(_) => String::from_str("index out of range"),
        }
    }
}

} // verus!
