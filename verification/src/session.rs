//! The order of work against the registry.
//!
//! Loading and saving each run as a session: the session names the next
//! request to make of the registry, the caller makes it and hands the reply
//! back, and the session decides how to go on. A session asks for the commit
//! only when both values were staged, and asks for nothing more once a
//! request has failed, so that a transaction which is dropped at the end of
//! the session leaves either both values written or neither.

use crate::codec::{
    decoded_text, encoded_text, str_from_u8_nul_utf8, str_to_u8_nul_utf8, text_bytes, utf8_error,
};
use crate::profile::{Face, FaceData, FaceLoadError, FaceSaveError};
use std::sync::Arc;
use vstd::prelude::*;

verus! {

/// The registry location of the profile, below the current user's root.
pub const CONFIG_KEY: &'static str = "Software\\Landfall Games\\Content Warning";

/// The name of the binary value that holds the text.
pub const FACE_TEXT_KEY: &'static str = "FaceText_h3883740665";

/// The name of the 32-bit value that holds the colour index.
pub const FACE_COLOR_INDEX_KEY: &'static str = "FaceColorIndex_h311401607";

/// The rights a location is opened with.
#[derive(Debug, PartialEq, Eq, Copy, Clone, Structural)]
pub enum Access {
    Read,
    ReadWrite,
}

/// One request to the registry.
#[derive(Debug, PartialEq, Eq)]
pub enum Request {
    /// Open a transaction.
    BeginTransaction,
    /// Open the location inside the transaction.
    OpenLocation(Access),
    /// Read the raw bytes of the text value.
    ReadText,
    /// Read the colour value as a 32-bit number.
    ReadColor,
    /// Stage these bytes as the binary text value.
    WriteText(Vec<u8>),
    /// Stage this number as the 32-bit colour value.
    WriteColor(u32),
    /// Commit the transaction.
    Commit,
}

/// A request as a mathematical value.
pub enum RequestView {
    BeginTransaction,
    OpenLocation(Access),
    ReadText,
    ReadColor,
    WriteText(Seq<u8>),
    WriteColor(u32),
    Commit,
}

impl View for Request {
    type V = RequestView;

    open spec fn view(&self) -> RequestView {
        match self {
            Request::BeginTransaction => RequestView::BeginTransaction,
            Request::OpenLocation(access) => RequestView::OpenLocation(*access),
            Request::ReadText => RequestView::ReadText,
            Request::ReadColor => RequestView::ReadColor,
            Request::WriteText(bytes) => RequestView::WriteText(bytes@),
            Request::WriteColor(index) => RequestView::WriteColor(*index),
            Request::Commit => RequestView::Commit,
        }
    }
}

/// What the registry answered.
#[derive(Debug)]
pub enum Reply {
    /// The request was carried out; it has nothing to hand back.
    Done,
    /// The raw bytes of the text value.
    Text(Vec<u8>),
    /// The colour value.
    Color(u32),
    /// The request failed, for this reason.
    Failed(std::io::Error),
}

/// A reply as a mathematical value.
pub enum ReplyView {
    Done,
    Text(Seq<u8>),
    Color(u32),
    Failed(std::io::Error),
}

impl View for Reply {
    type V = ReplyView;

    open spec fn view(&self) -> ReplyView {
        match self {
            Reply::Done => ReplyView::Done,
            Reply::Text(bytes) => ReplyView::Text(bytes@),
            Reply::Color(index) => ReplyView::Color(*index),
            Reply::Failed(cause) => ReplyView::Failed(*cause),
        }
    }
}

/// A load in progress.
#[derive(Debug)]
pub enum LoadSession {
    /// No transaction is open yet.
    Begin,
    /// The transaction is open, the location is not.
    Open,
    /// The location is open; the text is read first.
    ReadText,
    /// The raw text was read and is kept as it came; the colour is still
    /// to be read.
    ReadColor(Vec<u8>),
    /// Both values were read.
    Loaded(FaceData),
    /// A request failed, or both values were read and the text was not
    /// UTF-8.
    Failed(FaceLoadError),
}

/// A load in progress as a mathematical value.
pub enum LoadState {
    Begin,
    Open,
    ReadText,
    ReadColor(Seq<u8>),
    Loaded(Face),
    Failed(FaceLoadError),
}

impl LoadState {
    /// The request that the session waits for, if it is not over.
    pub open spec fn request(self) -> Option<RequestView> {
        match self {
            LoadState::Begin => Some(RequestView::BeginTransaction),
            LoadState::Open => Some(RequestView::OpenLocation(Access::Read)),
            LoadState::ReadText => Some(RequestView::ReadText),
            LoadState::ReadColor(_) => Some(RequestView::ReadColor),
            LoadState::Loaded(_) => None,
            LoadState::Failed(_) => None,
        }
    }

    /// The session after a reply. A failure ends it with the cause kept.
    /// Both values are read before anything is decoded: the raw text is
    /// kept until the colour has arrived, so that a value that cannot be
    /// read is reported as such whatever the other value holds. A reply
    /// that does not answer the pending request, or that comes when the
    /// session is over, changes nothing.
    pub open spec fn advance(self, reply: ReplyView) -> LoadState {
        match (self, reply) {
            (LoadState::Loaded(_), _) => self,
            (LoadState::Failed(_), _) => self,
            (_, ReplyView::Failed(cause)) => LoadState::Failed(
                FaceLoadError::RegistryLoadError(Arc::new(cause)),
            ),
            (LoadState::Begin, ReplyView::Done) => LoadState::Open,
            (LoadState::Open, ReplyView::Done) => LoadState::ReadText,
            (LoadState::ReadText, ReplyView::Text(raw)) => LoadState::ReadColor(raw),
            (LoadState::ReadColor(raw), ReplyView::Color(color_index)) => match decoded_text(
                raw,
            ) {
                Some(text) => LoadState::Loaded(Face { text, color_index }),
                None => LoadState::Failed(FaceLoadError::Utf8Error(utf8_error(text_bytes(raw)))),
            },
            _ => self,
        }
    }

    /// How the load ended, once it is over.
    pub open spec fn outcome(self) -> Option<Result<Face, FaceLoadError>> {
        match self {
            LoadState::Loaded(face) => Some(Ok(face)),
            LoadState::Failed(error) => Some(Err(error)),
            _ => None,
        }
    }

    /// The number of requests that the session can still make.
    pub open spec fn requests_left(self) -> nat {
        match self {
            LoadState::Begin => 4,
            LoadState::Open => 3,
            LoadState::ReadText => 2,
            LoadState::ReadColor(_) => 1,
            LoadState::Loaded(_) => 0,
            LoadState::Failed(_) => 0,
        }
    }
}

impl View for LoadSession {
    type V = LoadState;

    open spec fn view(&self) -> LoadState {
        match self {
            LoadSession::Begin => LoadState::Begin,
            LoadSession::Open => LoadState::Open,
            LoadSession::ReadText => LoadState::ReadText,
            LoadSession::ReadColor(raw) => LoadState::ReadColor(raw@),
            LoadSession::Loaded(face) => LoadState::Loaded(face@),
            LoadSession::Failed(error) => LoadState::Failed(*error),
        }
    }
}

impl LoadSession {
    /// A session that has asked for nothing yet.
    pub fn start() -> (session: Self)
        ensures
            session@ == LoadState::Begin,
    {
        LoadSession::Begin
    }

    /// The request to make next; `None` once the session is over.
    pub fn request(&self) -> (request: Option<Request>)
        ensures
            match request {
                Some(r) => self@.request() == Some(r@),
                None => self@.request() is None,
            },
    {
        match self {
            LoadSession::Begin => Some(Request::BeginTransaction),
            LoadSession::Open => Some(Request::OpenLocation(Access::Read)),
            LoadSession::ReadText => Some(Request::ReadText),
            LoadSession::ReadColor(_) => Some(Request::ReadColor),
            LoadSession::Loaded(_) => None,
            LoadSession::Failed(_) => None,
        }
    }

    /// Takes the reply to the pending request and moves on.
    pub fn advance(self, reply: Reply) -> (next: Self)
        ensures
            next@ == self@.advance(reply@),
    {
        match reply {
            Reply::Failed(cause) => match self {
                LoadSession::Loaded(face) => LoadSession::Loaded(face),
                LoadSession::Failed(error) => LoadSession::Failed(error),
                _ => LoadSession::Failed(FaceLoadError::RegistryLoadError(Arc::new(cause))),
            },
            Reply::Done => match self {
                LoadSession::Begin => LoadSession::Open,
                LoadSession::Open => LoadSession::ReadText,
                other => other,
            },
            Reply::Text(raw) => match self {
                LoadSession::ReadText => LoadSession::ReadColor(raw),
                other => other,
            },
            Reply::Color(color_index) => match self {
                LoadSession::ReadColor(raw) => match str_from_u8_nul_utf8(raw.as_slice()) {
                    Ok(text) => LoadSession::Loaded(FaceData { text: text.to_owned(), color_index }),
                    Err(error) => LoadSession::Failed(FaceLoadError::Utf8Error(error)),
                },
                other => other,
            },
        }
    }

    /// How the load ended; `None` while requests are pending.
    pub fn outcome(self) -> (outcome: Option<Result<FaceData, FaceLoadError>>)
        ensures
            match outcome {
                Some(Ok(face)) => self@.outcome() == Some(Ok::<Face, FaceLoadError>(face@)),
                Some(Err(error)) => self@.outcome() == Some(Err::<Face, FaceLoadError>(error)),
                None => self@.outcome() is None,
            },
    {
        match self {
            LoadSession::Loaded(face) => Some(Ok(face)),
            LoadSession::Failed(error) => Some(Err(error)),
            _ => None,
        }
    }
}

/// How far a save has come.
#[derive(Debug)]
pub enum SaveStage {
    /// No transaction is open yet.
    Begin,
    /// The transaction is open, the location is not.
    Open,
    /// The location is open; the text is staged first.
    WriteText,
    /// The text is staged; the colour is still to be staged.
    WriteColor,
    /// Both values are staged.
    Commit,
    /// The transaction was committed.
    Saved,
    /// A request failed; nothing was committed.
    Failed(FaceSaveError),
}

/// A save in progress.
#[derive(Debug)]
pub struct SaveSession {
    stage: SaveStage,
    profile: FaceData,
}

/// A save in progress as a mathematical value.
pub struct SaveState {
    pub stage: SaveStage,
    pub profile: Face,
}

impl SaveState {
    /// The request that the session waits for, if it is not over.
    pub open spec fn request(self) -> Option<RequestView> {
        match self.stage {
            SaveStage::Begin => Some(RequestView::BeginTransaction),
            SaveStage::Open => Some(RequestView::OpenLocation(Access::ReadWrite)),
            SaveStage::WriteText => Some(RequestView::WriteText(encoded_text(self.profile.text))),
            SaveStage::WriteColor => Some(RequestView::WriteColor(self.profile.color_index)),
            SaveStage::Commit => Some(RequestView::Commit),
            SaveStage::Saved => None,
            SaveStage::Failed(_) => None,
        }
    }

    /// The stage after a reply. A failure ends the session with the cause
    /// kept: as a commit error where the commit itself failed, as a registry
    /// error before that. A reply that does not answer the pending request,
    /// or that comes when the session is over, changes nothing.
    pub open spec fn next_stage(self, reply: ReplyView) -> SaveStage {
        match (self.stage, reply) {
            (SaveStage::Saved, _) => self.stage,
            (SaveStage::Failed(_), _) => self.stage,
            (SaveStage::Commit, ReplyView::Failed(cause)) => SaveStage::Failed(
                FaceSaveError::CommitError(Arc::new(cause)),
            ),
            (_, ReplyView::Failed(cause)) => SaveStage::Failed(
                FaceSaveError::RegistrySaveError(Arc::new(cause)),
            ),
            (SaveStage::Begin, ReplyView::Done) => SaveStage::Open,
            (SaveStage::Open, ReplyView::Done) => SaveStage::WriteText,
            (SaveStage::WriteText, ReplyView::Done) => SaveStage::WriteColor,
            (SaveStage::WriteColor, ReplyView::Done) => SaveStage::Commit,
            (SaveStage::Commit, ReplyView::Done) => SaveStage::Saved,
            _ => self.stage,
        }
    }

    /// The session after a reply: the profile stays, the stage moves.
    pub open spec fn advance(self, reply: ReplyView) -> SaveState {
        SaveState { stage: self.next_stage(reply), profile: self.profile }
    }

    /// How the save ended, once it is over.
    pub open spec fn outcome(self) -> Option<Result<(), FaceSaveError>> {
        match self.stage {
            SaveStage::Saved => Some(Ok(())),
            SaveStage::Failed(error) => Some(Err(error)),
            _ => None,
        }
    }

    /// The number of requests that the session can still make.
    pub open spec fn requests_left(self) -> nat {
        match self.stage {
            SaveStage::Begin => 5,
            SaveStage::Open => 4,
            SaveStage::WriteText => 3,
            SaveStage::WriteColor => 2,
            SaveStage::Commit => 1,
            SaveStage::Saved => 0,
            SaveStage::Failed(_) => 0,
        }
    }
}

impl View for SaveSession {
    type V = SaveState;

    closed spec fn view(&self) -> SaveState {
        SaveState { stage: self.stage, profile: self.profile@ }
    }
}

impl SaveSession {
    /// A session that saves this profile and has asked for nothing yet.
    pub fn start(profile: &FaceData) -> (session: Self)
        ensures
            session@ == (SaveState { stage: SaveStage::Begin, profile: profile@ }),
    {
        SaveSession { stage: SaveStage::Begin, profile: profile.duplicate() }
    }

    /// The request to make next; `None` once the session is over.
    pub fn request(&self) -> (request: Option<Request>)
        ensures
            match request {
                Some(r) => self@.request() == Some(r@),
                None => self@.request() is None,
            },
    {
        match &self.stage {
            SaveStage::Begin => Some(Request::BeginTransaction),
            SaveStage::Open => Some(Request::OpenLocation(Access::ReadWrite)),
            SaveStage::WriteText => Some(
                Request::WriteText(str_to_u8_nul_utf8(self.profile.text.as_str())),
            ),
            SaveStage::WriteColor => Some(Request::WriteColor(self.profile.color_index)),
            SaveStage::Commit => Some(Request::Commit),
            SaveStage::Saved => None,
            SaveStage::Failed(_) => None,
        }
    }

    /// Takes the reply to the pending request and moves on.
    pub fn advance(self, reply: Reply) -> (next: Self)
        ensures
            next@ == self@.advance(reply@),
    {
        let SaveSession { stage, profile } = self;
        let stage = match reply {
            Reply::Failed(cause) => match stage {
                SaveStage::Saved => SaveStage::Saved,
                SaveStage::Failed(error) => SaveStage::Failed(error),
                SaveStage::Commit => SaveStage::Failed(FaceSaveError::CommitError(Arc::new(cause))),
                _ => SaveStage::Failed(FaceSaveError::RegistrySaveError(Arc::new(cause))),
            },
            Reply::Done => match stage {
                SaveStage::Begin => SaveStage::Open,
                SaveStage::Open => SaveStage::WriteText,
                SaveStage::WriteText => SaveStage::WriteColor,
                SaveStage::WriteColor => SaveStage::Commit,
                SaveStage::Commit => SaveStage::Saved,
                other => other,
            },
            Reply::Text(_) => stage,
            Reply::Color(_) => stage,
        };
        SaveSession { stage, profile }
    }

    /// How the save ended; `None` while requests are pending.
    pub fn outcome(self) -> (outcome: Option<Result<(), FaceSaveError>>)
        ensures
            outcome == self@.outcome(),
    {
        match self.stage {
            SaveStage::Saved => Some(Ok(())),
            SaveStage::Failed(error) => Some(Err(error)),
            _ => None,
        }
    }
}

} // verus!
