use face_data::profile::{FaceData, FaceLoadError, FaceSaveError};
use std::sync::Arc;

#[test]
fn default_profile_is_a_smile_in_the_first_color() {
    let face = FaceData::default();
    assert_eq!(face.text, ":)");
    assert_eq!(face.color_index, 0);
}

#[test]
fn with_text_carries_the_color_over() {
    let face = FaceData { text: ":)".to_string(), color_index: 4 };
    let edited = face.with_text(":D".to_string());
    assert_eq!(edited, FaceData { text: ":D".to_string(), color_index: 4 });
    assert_eq!(face, FaceData { text: ":)".to_string(), color_index: 4 });
}

#[test]
fn with_color_index_carries_the_text_over() {
    let face = FaceData { text: ":)".to_string(), color_index: 4 };
    let edited = face.with_color_index(42);
    assert_eq!(edited, FaceData { text: ":)".to_string(), color_index: 42 });
    assert_eq!(face, FaceData { text: ":)".to_string(), color_index: 4 });
}

#[test]
fn duplicate_is_equal() {
    let face = FaceData { text: "🐴".to_string(), color_index: 3 };
    assert_eq!(face.duplicate(), face);
}

#[test]
fn load_error_from_io_error_keeps_the_cause() {
    let error = FaceLoadError::from(std::io::Error::from_raw_os_error(5));
    match error {
        FaceLoadError::RegistryLoadError(cause) => assert_eq!(cause.raw_os_error(), Some(5)),
        FaceLoadError::Utf8Error(_) => panic!("an access failure was expected"),
    }
}

#[test]
fn load_error_from_utf8_error_keeps_the_cause() {
    let cause = std::str::from_utf8(b"a\xff").unwrap_err();
    match FaceLoadError::from(cause) {
        FaceLoadError::Utf8Error(kept) => assert_eq!(kept, cause),
        FaceLoadError::RegistryLoadError(_) => panic!("an encoding failure was expected"),
    }
}

#[test]
fn load_error_messages() {
    let access = FaceLoadError::from(std::io::Error::from_raw_os_error(2));
    assert_eq!(access.message(), "Failed to load face data from registry");
    let encoding = FaceLoadError::from(std::str::from_utf8(b"\xff").unwrap_err());
    assert_eq!(encoding.message(), "Failed to parse face text as UTF-8");
}

#[test]
fn save_error_messages() {
    let cause = Arc::new(std::io::Error::from_raw_os_error(5));
    let access = FaceSaveError::RegistrySaveError(cause.clone());
    assert_eq!(access.message(), "Failed to save face data to registry");
    let commit = FaceSaveError::CommitError(cause);
    assert_eq!(commit.message(), "Failed to commit face data to registry");
}
