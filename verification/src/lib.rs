//! Bundle descriptors: the typed form of a `bundle.json` document and the
//! decoder that reads it from canonical or ordinary JSON.
//!
//! A bundle is decoded in two steps. The strict step takes JSON that has no
//! whitespace between its tokens; where it fails for such whitespace, and
//! only then, the permissive step takes the same text as ordinary JSON. Both
//! read the text into a [`Json`] tree with `serde_json` and then read the
//! bundle from the tree, member by member.
//!
//! ```text
//! text --> strict step --> Bundle
//!              |  whitespace between tokens
//!              v
//!          permissive step --> Bundle
//! ```
//!
//! - [`descriptor`]: the entities, [`Bundle`] first among them
//! - [`schema`]: how a document stands for an entity; [`reader`] and
//!   [`writer`] compute it
//! - [`decoder`]: the two steps and what settles between them
//! - [`encoder`]: a bundle as canonical JSON text
//! - [`json`], [`sorted_map`], [`text`]: documents, ordered maps, byte strings
//! - [`error`]: the errors, one kind for each way a decode can fail
//! - [`laws`]: what holds of all of this, proved
//! - [`trusted`]: what is believed of `serde_json` and `canonical_json`

pub mod decoder;
pub mod descriptor;
pub mod encoder;
pub mod error;
pub mod json;
pub mod laws;
pub mod reader;
pub mod schema;
pub mod sorted_map;
pub mod text;
pub mod trusted;
pub mod writer;

pub use descriptor::{
    Action, Bundle, Credential, Destination, Image, Maintainer, Metadata, Parameter, Platform,
};
pub use error::{BundleParseError, CanonicalError, EncodeError, JsonError, SchemaError};
pub use json::Json;
pub use schema::Schema;
pub use sorted_map::SortedMap;
