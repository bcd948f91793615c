use vstd::prelude::*;
use crate::accessor::Accessor;
use crate::codec::{TokenEnum, decode_token, token_of, views};
use crate::error::DecodeError;
use crate::index::{Index, index_value, opt_index_value, opt_view, read_index, read_opt_index};
use crate::json::Json;
use crate::object::{field, keeps_others, list_decoded, list_ok, object_ok, entries, read_list, read_object, take};
use crate::scene::Node;
use crate::traits::{Decode, Extensions, Extras};

verus! {

/// The property of a node that a channel animates.
#[derive(Clone, Copy, Debug, PartialEq, Eq, Structural)]
pub enum Path {
    Translation,
    Rotation,
    Scale,
    Weights,
}

impl TokenEnum for Path {
    open spec fn spec_labels() -> Seq<Seq<char>> {
        seq!["translation"@, "rotation"@, "scale"@, "weights"@]
    }

    open spec fn spec_position(&self) -> nat {
        match self {
            Path::Translation => 0,
            Path::Rotation => 1,
            Path::Scale => 2,
            Path::Weights => 3,
        }
    }

    fn labels() -> (r: Vec<String>) {
        let r = vec!["translation".to_owned(), "rotation".to_owned(), "scale".to_owned(), "weights".to_owned()];
        assert(views(r@) =~= Self::spec_labels());
        r
    }

    fn from_position(i: usize) -> (r: Self) {
        if i == 0 {
            Path::Translation
        } else if i == 1 {
            Path::Rotation
        } else if i == 2 {
            Path::Scale
        } else {
            Path::Weights
        }
    }

    fn position(&self) -> (r: usize) {
        match self {
            Path::Translation => 0,
            Path::Rotation => 1,
            Path::Scale => 2,
            Path::Weights => 3,
        }
    }

    proof fn table_is_exact() {
        reveal_strlit("translation");
        reveal_strlit("rotation");
        reveal_strlit("scale");
        reveal_strlit("weights");
        let l = Self::spec_labels();
        assert forall|i: int, j: int| 0 <= i < l.len() && 0 <= j < l.len() && i != j implies l[i] != l[j] by {
            assert(l[i].len() != l[j].len());
        }
    }
}

/// The fields a channel target may have.
pub open spec fn target_keys() -> Seq<Seq<char>> {
    seq!["node"@, "path"@, "extensions"@, "extras"@]
}

/// The node and property that a channel animates.
pub struct Target<E: Extensions, X: Extras> {
    /// The animated node.
    pub node: Option<Index<Node<E, X>>>,
    /// The animated property.
    pub path: Path,
    /// The other fields (extensions, extras), as given.
    pub rest: Vec<(String, Json)>,
}

impl<E: Extensions, X: Extras> Decode for Target<E, X> {
    open spec fn decodes(j: Json) -> bool {
        let fs = entries(j);
        object_ok(j, target_keys()) && opt_index_value(field(fs, "node"@)) is Some
            && (field(fs, "path"@) matches Some(Json::Str(p)) && Path::spec_labels().contains(p@))
    }

    open spec fn decoded_from(&self, j: Json) -> bool {
        let fs = entries(j);
        opt_index_value(field(fs, "node"@)) == Some(opt_view(self.node))
            && (field(fs, "path"@) matches Some(Json::Str(p)) && p@ == token_of(self.path))
            && keeps_others(self.rest@, fs, seq!["node"@, "path"@])
    }

    fn from_json(j: Json) -> (r: Result<Self, DecodeError>) {
        let known = vec!["node".to_owned(), "path".to_owned(), "extensions".to_owned(), "extras".to_owned()];
        assert(views(known@) =~= target_keys());
        let mut fs = read_object(j, &known, "target")?;
        proof {
            reveal_strlit("node");
            reveal_strlit("path");
            assert("node"@[0] != "path"@[0]);
        }
        let node = read_opt_index(take(&mut fs, "node"), "node")?;
        let path = match take(&mut fs, "path") {
            Some(v) => decode_token::<Path>(&v, &"path".to_owned())?,
            None => return Err(DecodeError::MissingField { field: "path".to_owned() }),
        };
        Ok(Target { node, path, rest: fs })
    }
}

/// The fields an animation sampler may have.
pub open spec fn sampler_keys() -> Seq<Seq<char>> {
    seq!["input"@, "interpolation"@, "output"@, "extensions"@, "extras"@]
}

/// Keyframe times and values, with the way to interpolate between them.
pub struct AnimationSampler<E: Extensions, X: Extras> {
    /// The accessor holding the keyframe times.
    pub input: Index<Accessor<E, X>>,
    /// The accessor holding the keyframe values.
    pub output: Index<Accessor<E, X>>,
    /// The other fields (interpolation, extensions, extras), as given.
    pub rest: Vec<(String, Json)>,
}

impl<E: Extensions, X: Extras> Decode for AnimationSampler<E, X> {
    open spec fn decodes(j: Json) -> bool {
        let fs = entries(j);
        object_ok(j, sampler_keys()) && (field(fs, "input"@) matches Some(i) && index_value(i) is Some)
            && (field(fs, "output"@) matches Some(o) && index_value(o) is Some)
    }

    open spec fn decoded_from(&self, j: Json) -> bool {
        let fs = entries(j);
        (field(fs, "input"@) matches Some(i) && index_value(i) == Some(self.input@))
            && (field(fs, "output"@) matches Some(o) && index_value(o) == Some(self.output@))
            && keeps_others(self.rest@, fs, seq!["input"@, "output"@])
    }

    fn from_json(j: Json) -> (r: Result<Self, DecodeError>) {
        let known = vec![
            "input".to_owned(), "interpolation".to_owned(), "output".to_owned(),
            "extensions".to_owned(), "extras".to_owned(),
        ];
        assert(views(known@) =~= sampler_keys());
        let mut fs = read_object(j, &known, "sampler")?;
        proof {
            reveal_strlit("input");
            reveal_strlit("output");
            assert("input"@.len() != "output"@.len());
        }
        let input = read_index(take(&mut fs, "input"), "input")?;
        let output = read_index(take(&mut fs, "output"), "output")?;
        Ok(AnimationSampler { input, output, rest: fs })
    }
}

/// The fields a channel may have.
pub open spec fn channel_keys() -> Seq<Seq<char>> {
    seq!["sampler"@, "target"@, "extensions"@, "extras"@]
}

/// A sampler of the animation bound to the property it drives.
pub struct Channel<E: Extensions, X: Extras> {
    /// The sampler of the same animation that drives the property.
    pub sampler: Index<AnimationSampler<E, X>>,
    /// The node and property driven.
    pub target: Target<E, X>,
    /// The other fields (extensions, extras), as given.
    pub rest: Vec<(String, Json)>,
}

impl<E: Extensions, X: Extras> Decode for Channel<E, X> {
    open spec fn decodes(j: Json) -> bool {
        let fs = entries(j);
        object_ok(j, channel_keys()) && (field(fs, "sampler"@) matches Some(s) && index_value(s) is Some)
            && (field(fs, "target"@) matches Some(t) && Target::<E, X>::decodes(t))
    }

    open spec fn decoded_from(&self, j: Json) -> bool {
        let fs = entries(j);
        (field(fs, "sampler"@) matches Some(s) && index_value(s) == Some(self.sampler@))
            && (field(fs, "target"@) matches Some(t) && self.target.decoded_from(t))
            && keeps_others(self.rest@, fs, seq!["sampler"@, "target"@])
    }

    fn from_json(j: Json) -> (r: Result<Self, DecodeError>) {
        let known = vec!["sampler".to_owned(), "target".to_owned(), "extensions".to_owned(), "extras".to_owned()];
        assert(views(known@) =~= channel_keys());
        let mut fs = read_object(j, &known, "channel")?;
        proof {
            reveal_strlit("sampler");
            reveal_strlit("target");
            assert("sampler"@.len() != "target"@.len());
        }
        let sampler = read_index(take(&mut fs, "sampler"), "sampler")?;
        let target = match take(&mut fs, "target") {
            Some(t) => Target::from_json(t)?,
            None => return Err(DecodeError::MissingField { field: "target".to_owned() }),
        };
        Ok(Channel { sampler, target, rest: fs })
    }
}

/// The fields an animation may have.
pub open spec fn animation_keys() -> Seq<Seq<char>> {
    seq!["channels"@, "samplers"@, "name"@, "extensions"@, "extras"@]
}

/// A keyframe animation.
pub struct Animation<E: Extensions, X: Extras> {
    /// The channels, each driving one property of one node.
    pub channels: Vec<Channel<E, X>>,
    /// The samplers that the channels use.
    pub samplers: Vec<AnimationSampler<E, X>>,
    /// The other fields (name, extensions, extras), as given.
    pub rest: Vec<(String, Json)>,
}

impl<E: Extensions, X: Extras> Decode for Animation<E, X> {
    open spec fn decodes(j: Json) -> bool {
        let fs = entries(j);
        object_ok(j, animation_keys()) && list_ok::<Channel<E, X>>(field(fs, "channels"@))
            && list_ok::<AnimationSampler<E, X>>(field(fs, "samplers"@))
    }

    open spec fn decoded_from(&self, j: Json) -> bool {
        let fs = entries(j);
        list_decoded(self.channels@, field(fs, "channels"@))
            && list_decoded(self.samplers@, field(fs, "samplers"@))
            && keeps_others(self.rest@, fs, seq!["channels"@, "samplers"@])
    }

    fn from_json(j: Json) -> (r: Result<Self, DecodeError>) {
        let known = vec![
            "channels".to_owned(), "samplers".to_owned(), "name".to_owned(),
            "extensions".to_owned(), "extras".to_owned(),
        ];
        assert(views(known@) =~= animation_keys());
        let mut fs = read_object(j, &known, "animation")?;
        proof {
            reveal_strlit("channels");
            reveal_strlit("samplers");
            assert("channels"@[0] != "samplers"@[0]);
        }
        let channels = read_list(take(&mut fs, "channels"), "channels")?;
        let samplers = read_list(take(&mut fs, "samplers"), "samplers")?;
        Ok(Animation { channels, samplers, rest: fs })
    }
}

} // verus!
