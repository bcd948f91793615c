//! The typed, cross-referenced model of a glTF 2.0 document.
//!
//! A document is read from JSON text into a [`root::Root`], whose
//! collections hold one entity kind each and whose references are typed
//! [`index::Index`] values. A root is handed out only after every reference
//! in it has been checked against the collection it points into.

pub mod index;
pub mod json;
pub mod error;
pub mod codec;
pub mod object;
pub mod traits;
pub mod accessor;
pub mod animation;
pub mod buffer;
pub mod camera;
pub mod material;
pub mod mesh;
pub mod scene;
pub mod skin;
pub mod texture;
pub mod root;
