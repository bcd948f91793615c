use vstd::prelude::*;
use crate::codec::views;
use crate::error::DecodeError;
use crate::index::{Index, index_value, read_index};
use crate::json::Json;
use crate::object::{field, keeps_others, object_ok, entries, opt_decoded, opt_ok, read_object, read_opt, take};
use crate::texture::Texture;
use crate::traits::Decode;

verus! {

/// The fields a texture reference may have.
pub open spec fn texture_info_keys() -> Seq<Seq<char>> {
    seq!["index"@, "texCoord"@, "scale"@, "strength"@, "extensions"@, "extras"@]
}

/// A reference from a material to a texture.
pub struct TextureInfo {
    /// The texture.
    pub index: Index<Texture>,
    /// The other fields (coordinate set, scale, strength, extensions, extras), as given.
    pub rest: Vec<(String, Json)>,
}

impl Decode for TextureInfo {
    open spec fn decodes(j: Json) -> bool {
        object_ok(j, texture_info_keys()) && (field(entries(j), "index"@) matches Some(i) && index_value(i) is Some)
    }

    open spec fn decoded_from(&self, j: Json) -> bool {
        let fs = entries(j);
        (field(fs, "index"@) matches Some(i) && index_value(i) == Some(self.index@))
            && keeps_others(self.rest@, fs, seq!["index"@])
    }

    fn from_json(j: Json) -> (r: Result<Self, DecodeError>) {
        let known = vec![
            "index".to_owned(), "texCoord".to_owned(), "scale".to_owned(), "strength".to_owned(),
            "extensions".to_owned(), "extras".to_owned(),
        ];
        assert(views(known@) =~= texture_info_keys());
        let mut fs = read_object(j, &known, "textureInfo")?;
        let index = read_index(take(&mut fs, "index"), "index")?;
        assert(seq!["index"@][0] == "index"@);
        Ok(TextureInfo { index, rest: fs })
    }
}

/// The fields of the metallic-roughness model.
pub open spec fn pbr_keys() -> Seq<Seq<char>> {
    seq![
        "baseColorFactor"@, "baseColorTexture"@, "metallicFactor"@, "roughnessFactor"@,
        "metallicRoughnessTexture"@, "extensions"@, "extras"@,
    ]
}

/// The parameters of the metallic-roughness model.
pub struct PbrMetallicRoughness {
    /// The base color texture.
    pub base_color_texture: Option<TextureInfo>,
    /// The metallic-roughness texture.
    pub metallic_roughness_texture: Option<TextureInfo>,
    /// The other fields (factors, extensions, extras), as given.
    pub rest: Vec<(String, Json)>,
}

impl Decode for PbrMetallicRoughness {
    open spec fn decodes(j: Json) -> bool {
        object_ok(j, pbr_keys()) && opt_ok::<TextureInfo>(field(entries(j), "baseColorTexture"@))
            && opt_ok::<TextureInfo>(field(entries(j), "metallicRoughnessTexture"@))
    }

    open spec fn decoded_from(&self, j: Json) -> bool {
        let fs = entries(j);
        opt_decoded(self.base_color_texture, field(fs, "baseColorTexture"@))
            && opt_decoded(self.metallic_roughness_texture, field(fs, "metallicRoughnessTexture"@))
            && keeps_others(self.rest@, fs, seq!["baseColorTexture"@, "metallicRoughnessTexture"@])
    }

    fn from_json(j: Json) -> (r: Result<Self, DecodeError>) {
        let known = vec![
            "baseColorFactor".to_owned(), "baseColorTexture".to_owned(),
            "metallicFactor".to_owned(), "roughnessFactor".to_owned(),
            "metallicRoughnessTexture".to_owned(), "extensions".to_owned(), "extras".to_owned(),
        ];
        assert(views(known@) =~= pbr_keys());
        let mut fs = read_object(j, &known, "pbrMetallicRoughness")?;
        proof {
            reveal_strlit("baseColorTexture");
            reveal_strlit("metallicRoughnessTexture");
            assert("baseColorTexture"@.len() != "metallicRoughnessTexture"@.len());
        }
        let base_color_texture = read_opt(take(&mut fs, "baseColorTexture"))?;
        let metallic_roughness_texture = read_opt(take(&mut fs, "metallicRoughnessTexture"))?;
        Ok(PbrMetallicRoughness { base_color_texture, metallic_roughness_texture, rest: fs })
    }
}

/// The fields a material may have.
pub open spec fn material_keys() -> Seq<Seq<char>> {
    seq![
        "pbrMetallicRoughness"@, "normalTexture"@, "occlusionTexture"@, "emissiveTexture"@,
        "emissiveFactor"@, "alphaMode"@, "alphaCutoff"@, "doubleSided"@, "name"@,
        "extensions"@, "extras"@,
    ]
}

/// The fields of a material that hold texture references.
pub open spec fn material_refs() -> Seq<Seq<char>> {
    seq!["pbrMetallicRoughness"@, "normalTexture"@, "occlusionTexture"@, "emissiveTexture"@]
}

/// The appearance of a surface.
pub struct Material {
    /// The metallic-roughness parameters.
    pub pbr_metallic_roughness: Option<PbrMetallicRoughness>,
    /// The normal map.
    pub normal_texture: Option<TextureInfo>,
    /// The occlusion map.
    pub occlusion_texture: Option<TextureInfo>,
    /// The emissive map.
    pub emissive_texture: Option<TextureInfo>,
    /// The other fields (factors, alpha mode, name, extensions, extras), as given.
    pub rest: Vec<(String, Json)>,
}

impl Decode for Material {
    open spec fn decodes(j: Json) -> bool {
        let fs = entries(j);
        object_ok(j, material_keys()) && opt_ok::<PbrMetallicRoughness>(field(fs, "pbrMetallicRoughness"@))
            && opt_ok::<TextureInfo>(field(fs, "normalTexture"@))
            && opt_ok::<TextureInfo>(field(fs, "occlusionTexture"@))
            && opt_ok::<TextureInfo>(field(fs, "emissiveTexture"@))
    }

    open spec fn decoded_from(&self, j: Json) -> bool {
        let fs = entries(j);
        opt_decoded(self.pbr_metallic_roughness, field(fs, "pbrMetallicRoughness"@))
            && opt_decoded(self.normal_texture, field(fs, "normalTexture"@))
            && opt_decoded(self.occlusion_texture, field(fs, "occlusionTexture"@))
            && opt_decoded(self.emissive_texture, field(fs, "emissiveTexture"@))
            && keeps_others(self.rest@, fs, material_refs())
    }

    fn from_json(j: Json) -> (r: Result<Self, DecodeError>) {
        let known = vec![
            "pbrMetallicRoughness".to_owned(), "normalTexture".to_owned(),
            "occlusionTexture".to_owned(), "emissiveTexture".to_owned(),
            "emissiveFactor".to_owned(), "alphaMode".to_owned(), "alphaCutoff".to_owned(),
            "doubleSided".to_owned(), "name".to_owned(), "extensions".to_owned(),
            "extras".to_owned(),
        ];
        assert(views(known@) =~= material_keys());
        let mut fs = read_object(j, &known, "material")?;
        proof {
            reveal_strlit("pbrMetallicRoughness");
            reveal_strlit("normalTexture");
            reveal_strlit("occlusionTexture");
            reveal_strlit("emissiveTexture");
            assert("pbrMetallicRoughness"@.len() != "normalTexture"@.len());
            assert("pbrMetallicRoughness"@.len() != "occlusionTexture"@.len());
            assert("pbrMetallicRoughness"@.len() != "emissiveTexture"@.len());
            assert("normalTexture"@.len() != "occlusionTexture"@.len());
            assert("normalTexture"@.len() != "emissiveTexture"@.len());
            assert("occlusionTexture"@.len() != "emissiveTexture"@.len());
        }
        let pbr_metallic_roughness = read_opt(take(&mut fs, "pbrMetallicRoughness"))?;
        let normal_texture = read_opt(take(&mut fs, "normalTexture"))?;
        let occlusion_texture = read_opt(take(&mut fs, "occlusionTexture"))?;
        let emissive_texture = read_opt(take(&mut fs, "emissiveTexture"))?;
        Ok(Material { pbr_metallic_roughness, normal_texture, occlusion_texture, emissive_texture, rest: fs })
    }
}

} // verus!
