//! Persistence core for a small editable face profile: a short text and a
//! palette colour, kept as two values under one registry location.
//!
//! * [`codec`] turns the text into the nul-terminated bytes of the stored
//!   value and back, and measures it for the length rule.
//! * [`palette`] maps a colour index to its colour.
//! * [`profile`] holds the profile and the errors of loading and saving.
//! * [`session`] decides, request by request, how a load and a save go on.
//! * [`registry`] is a registry in memory; loading and saving against it
//!   are specified in closed form, and the laws of saving are proved there.

pub mod codec;
pub mod palette;
pub mod profile;
pub mod registry;
pub mod session;

pub use codec::is_face_too_long;
pub use palette::{get_face_color, HexColor};
pub use profile::{FaceData, FaceLoadError, FaceSaveError};
