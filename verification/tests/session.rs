use face_data::session::{
    Access, LoadSession, Reply, Request, SaveSession, CONFIG_KEY, FACE_COLOR_INDEX_KEY,
    FACE_TEXT_KEY,
};
use face_data::{FaceData, FaceLoadError, FaceSaveError};

fn denied() -> Reply {
    Reply::Failed(std::io::Error::from_raw_os_error(5))
}

#[test]
fn registry_names() {
    assert_eq!(CONFIG_KEY, "Software\\Landfall Games\\Content Warning");
    assert_eq!(FACE_TEXT_KEY, "FaceText_h3883740665");
    assert_eq!(FACE_COLOR_INDEX_KEY, "FaceColorIndex_h311401607");
}

#[test]
fn load_session_asks_in_order() {
    let session = LoadSession::start();
    assert_eq!(session.request(), Some(Request::BeginTransaction));
    let session = session.advance(Reply::Done);
    assert_eq!(session.request(), Some(Request::OpenLocation(Access::Read)));
    let session = session.advance(Reply::Done);
    assert_eq!(session.request(), Some(Request::ReadText));
    let session = session.advance(Reply::Text(b":D\0".to_vec()));
    assert_eq!(session.request(), Some(Request::ReadColor));
    let session = session.advance(Reply::Color(3));
    assert_eq!(session.request(), None);
    let face = session.outcome().unwrap().unwrap();
    assert_eq!(face, FaceData { text: ":D".to_string(), color_index: 3 });
}

#[test]
fn load_session_has_no_outcome_while_it_runs() {
    let session = LoadSession::start();
    assert!(session.outcome().is_none());
    let session = LoadSession::start().advance(Reply::Done).advance(Reply::Done);
    assert!(session.outcome().is_none());
}

#[test]
fn load_session_fails_on_the_first_failure() {
    for done in 0..4 {
        let mut session = LoadSession::start();
        for step in 0..done {
            session = match step {
                0 | 1 => session.advance(Reply::Done),
                _ => session.advance(Reply::Text(b"ok\0".to_vec())),
            };
        }
        let session = session.advance(denied());
        assert_eq!(session.request(), None);
        match session.outcome() {
            Some(Err(FaceLoadError::RegistryLoadError(cause))) => {
                assert_eq!(cause.raw_os_error(), Some(5))
            }
            other => panic!("an access failure was expected, not {:?}", other),
        }
    }
}

#[test]
fn load_session_asks_for_the_color_before_it_judges_the_text() {
    let session = LoadSession::start()
        .advance(Reply::Done)
        .advance(Reply::Done)
        .advance(Reply::Text(b"\xff\0".to_vec()));
    assert_eq!(session.request(), Some(Request::ReadColor));
    assert!(session.outcome().is_none());
    let session = LoadSession::start()
        .advance(Reply::Done)
        .advance(Reply::Done)
        .advance(Reply::Text(b"\xff\0".to_vec()))
        .advance(Reply::Color(3));
    assert_eq!(session.request(), None);
    match session.outcome() {
        Some(Err(FaceLoadError::Utf8Error(cause))) => assert_eq!(cause.valid_up_to(), 0),
        other => panic!("an encoding failure was expected, not {:?}", other),
    }
}

#[test]
fn load_session_reports_an_unreadable_color_whatever_the_text_holds() {
    let session = LoadSession::start()
        .advance(Reply::Done)
        .advance(Reply::Done)
        .advance(Reply::Text(b"\xff\0".to_vec()))
        .advance(denied());
    match session.outcome() {
        Some(Err(FaceLoadError::RegistryLoadError(cause))) => {
            assert_eq!(cause.raw_os_error(), Some(5))
        }
        other => panic!("an access failure was expected, not {:?}", other),
    }
}

#[test]
fn load_session_ignores_a_reply_that_does_not_fit() {
    let session = LoadSession::start().advance(Reply::Color(1));
    assert_eq!(session.request(), Some(Request::BeginTransaction));
    let session = session.advance(Reply::Text(b"x".to_vec()));
    assert_eq!(session.request(), Some(Request::BeginTransaction));
    let session = session.advance(Reply::Done).advance(Reply::Done).advance(Reply::Done);
    assert_eq!(session.request(), Some(Request::ReadText));
    let session = session.advance(Reply::Color(1));
    assert_eq!(session.request(), Some(Request::ReadText));
    let session = session.advance(Reply::Text(b"x".to_vec())).advance(Reply::Text(b"y".to_vec()));
    assert_eq!(session.request(), Some(Request::ReadColor));
    let session = session.advance(Reply::Done).advance(Reply::Color(2));
    let face = session.outcome().unwrap().unwrap();
    assert_eq!(face, FaceData { text: "x".to_string(), color_index: 2 });
}

#[test]
fn load_session_stays_over() {
    let session = LoadSession::start().advance(denied());
    let session = session.advance(Reply::Done).advance(Reply::Color(1));
    assert!(matches!(session.outcome(), Some(Err(FaceLoadError::RegistryLoadError(_)))));
    let session = LoadSession::start()
        .advance(Reply::Done)
        .advance(Reply::Done)
        .advance(Reply::Text(b"a".to_vec()))
        .advance(Reply::Color(1))
        .advance(denied())
        .advance(Reply::Color(9));
    let face = session.outcome().unwrap().unwrap();
    assert_eq!(face, FaceData { text: "a".to_string(), color_index: 1 });
}

#[test]
fn save_session_asks_in_order() {
    let face = FaceData { text: ":)".to_string(), color_index: 42 };
    let session = SaveSession::start(&face);
    assert_eq!(session.request(), Some(Request::BeginTransaction));
    let session = session.advance(Reply::Done);
    assert_eq!(session.request(), Some(Request::OpenLocation(Access::ReadWrite)));
    let session = session.advance(Reply::Done);
    assert_eq!(session.request(), Some(Request::WriteText(vec![0x3a, 0x29, 0x00])));
    let session = session.advance(Reply::Done);
    assert_eq!(session.request(), Some(Request::WriteColor(42)));
    let session = session.advance(Reply::Done);
    assert_eq!(session.request(), Some(Request::Commit));
    let session = session.advance(Reply::Done);
    assert_eq!(session.request(), None);
    assert!(matches!(session.outcome(), Some(Ok(()))));
}

#[test]
fn save_session_never_commits_after_a_failure() {
    let face = FaceData::default();
    for done in 0..4 {
        let mut session = SaveSession::start(&face);
        for _ in 0..done {
            session = session.advance(Reply::Done);
        }
        let mut session = session.advance(denied());
        assert_eq!(session.request(), None);
        for _ in 0..6 {
            session = session.advance(Reply::Done);
            assert_eq!(session.request(), None);
        }
        match session.outcome() {
            Some(Err(FaceSaveError::RegistrySaveError(cause))) => {
                assert_eq!(cause.raw_os_error(), Some(5))
            }
            other => panic!("an access failure was expected, not {:?}", other),
        }
    }
}

#[test]
fn save_session_tells_a_failed_commit_apart() {
    let face = FaceData::default();
    let mut session = SaveSession::start(&face);
    for _ in 0..4 {
        session = session.advance(Reply::Done);
    }
    assert_eq!(session.request(), Some(Request::Commit));
    let session = session.advance(Reply::Failed(std::io::Error::from_raw_os_error(6700)));
    match session.outcome() {
        Some(Err(FaceSaveError::CommitError(cause))) => assert_eq!(cause.raw_os_error(), Some(6700)),
        other => panic!("a commit failure was expected, not {:?}", other),
    }
}

#[test]
fn save_session_ignores_a_reply_that_does_not_fit() {
    let face = FaceData::default();
    let session = SaveSession::start(&face).advance(Reply::Color(1));
    assert_eq!(session.request(), Some(Request::BeginTransaction));
    let session = session.advance(Reply::Text(vec![1, 2, 3]));
    assert_eq!(session.request(), Some(Request::BeginTransaction));
    assert!(session.outcome().is_none());
}
