//! The face profile and the errors of loading and saving it.

use std::str::Utf8Error;
use std::sync::Arc;
use vstd::prelude::*;
use vstd::std_specs::convert::FromSpecImpl;

verus! {

/// `std::io::Error`, carried as a value that is not looked into.
#[verifier::external_type_specification]
#[verifier::external_body]
pub struct ExIoError(std::io::Error);

/// The profile that the registry keeps: the text of the face and the index
/// of its colour. Any index can be stored; the palette decides what it shows.
#[derive(Debug, PartialEq, Eq, Clone)]
pub struct FaceData {
    pub text: String,
    pub color_index: u32,
}

/// A profile as a mathematical value.
pub struct Face {
    pub text: Seq<char>,
    pub color_index: u32,
}

impl View for FaceData {
    type V = Face;

    open spec fn view(&self) -> Face {
        Face { text: self.text@, color_index: self.color_index }
    }
}

/// The profile of a face that was never saved: a smile in the first colour.
pub open spec fn default_face() -> Face {
    Face { text: seq![':', ')'], color_index: 0 }
}

impl Default for FaceData {
    fn default() -> (face: Self)
        ensures
            face@ == default_face(),
    {
        let text = ":)".to_owned();
        proof {
            reveal_strlit(":)");
            assert(text@ =~= seq![':', ')']);
        }
        Self { text, color_index: 0 }
    }
}

impl FaceData {
    /// A copy of this profile.
    pub fn duplicate(&self) -> (face: Self)
        ensures
            face@ == self@,
    {
        Self { text: self.text.clone(), color_index: self.color_index }
    }

    /// This profile with another text; the colour is carried over.
    pub fn with_text(&self, text: String) -> (face: Self)
        ensures
            face@ == (Face { text: text@, color_index: self.color_index }),
    {
        Self { text, color_index: self.color_index }
    }

    /// This profile with another colour; the text is carried over.
    pub fn with_color_index(&self, color_index: u32) -> (face: Self)
        ensures
            face@ == (Face { text: self.text@, color_index }),
    {
        Self { text: self.text.clone(), color_index }
    }
}

/// Why a profile could not be loaded.
#[derive(Debug, Clone)]
pub enum FaceLoadError {
    /// The location or one of its two values could not be opened or read.
    /// Holds the failure that the registry reported.
    RegistryLoadError(Arc<std::io::Error>),
    /// The text value is not UTF-8 in front of its first nul byte.
    Utf8Error(Utf8Error),
}

impl From<std::io::Error> for FaceLoadError {
    fn from(e: std::io::Error) -> (err: Self) {
        FaceLoadError::RegistryLoadError(Arc::new(e))
    }
}

impl FromSpecImpl<std::io::Error> for FaceLoadError {
    open spec fn obeys_from_spec() -> bool {
        true
    }

    open spec fn from_spec(e: std::io::Error) -> Self {
        FaceLoadError::RegistryLoadError(Arc::new(e))
    }
}

impl From<Utf8Error> for FaceLoadError {
    fn from(e: Utf8Error) -> (err: Self) {
        FaceLoadError::Utf8Error(e)
    }
}

impl FromSpecImpl<Utf8Error> for FaceLoadError {
    open spec fn obeys_from_spec() -> bool {
        true
    }

    open spec fn from_spec(e: Utf8Error) -> Self {
        FaceLoadError::Utf8Error(e)
    }
}

impl FaceLoadError {
    /// The text shown to the user for this error.
    pub fn message(&self) -> (text: &'static str)
        ensures
            self is RegistryLoadError ==> text@ == "Failed to load face data from registry"@,
            self is Utf8Error ==> text@ == "Failed to parse face text as UTF-8"@,
    {
        match self {
            FaceLoadError::RegistryLoadError(_) => "Failed to load face data from registry",
            FaceLoadError::Utf8Error(_) => "Failed to parse face text as UTF-8",
        }
    }
}

/// Why a profile could not be saved. Either way nothing was written.
#[derive(Debug, Clone)]
pub enum FaceSaveError {
    /// The location could not be opened, or a value could not be staged.
    RegistrySaveError(Arc<std::io::Error>),
    /// Both values were staged and the transaction could not be committed.
    CommitError(Arc<std::io::Error>),
}

impl FaceSaveError {
    /// The text shown to the user for this error.
    pub fn message(&self) -> (text: &'static str)
        ensures
            self is RegistrySaveError ==> text@ == "Failed to save face data to registry"@,
            self is CommitError ==> text@ == "Failed to commit face data to registry"@,
    {
        match self {
            FaceSaveError::RegistrySaveError(_) => "Failed to save face data to registry",
            FaceSaveError::CommitError(_) => "Failed to commit face data to registry",
        }
    }
}

} // verus!
