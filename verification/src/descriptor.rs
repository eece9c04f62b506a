//! The entities of a bundle descriptor, and how each is read from and written
//! to a JSON object.
//!
//! An entity is read member by member, in the order of its fields; the first
//! member at fault decides the error. Keys that the entity does not know are
//! passed over. An entity is written with every member, in increasing order
//! of the keys, null standing for a field that is absent.

pub mod action;
pub mod bundle;
pub mod credential;
pub mod destination;
pub mod image;
pub mod maintainer;
pub mod metadata;
pub mod parameter;
pub mod platform;

pub use action::{Action, ActionModel};
pub use bundle::{Bundle, BundleModel};
pub use credential::{Credential, CredentialModel};
pub use destination::{Destination, DestinationModel};
pub use image::{Image, ImageModel};
pub use maintainer::{Maintainer, MaintainerModel};
pub use metadata::{Metadata, MetadataModel};
pub use parameter::{Parameter, ParameterModel};
pub use platform::{Platform, PlatformModel};
