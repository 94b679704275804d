//! A registry in memory, and loading and saving against it.
//!
//! [`Registry`] holds the profile's location as plain values and keeps the
//! transaction discipline of the real registry: what a transaction stages
//! is seen inside it only, a commit makes all of it visible at once, and a
//! transaction that ends without a commit leaves no trace. One request can
//! be set up to fail, so that every path of a session can be walked.
//!
//! [`FaceData::load_from_registry`] and [`FaceData::save_to_registry`] run
//! the sessions of [`crate::session`] against such a registry. Their
//! contracts give the result in closed form, and the laws at the end of the
//! file are proved from those.
//!
//! A program that talks to the registry of the machine runs the same
//! sessions and makes each request there.

use crate::codec::{
    decoded_text, encoded_text, lemma_text_before_nul_is_whole, lemma_text_round_trip_cuts_at_nul,
    text_before_nul, text_bytes, utf8_error,
};
use crate::profile::{Face, FaceData, FaceLoadError, FaceSaveError};
use crate::session::{
    Access, LoadSession, LoadState, Reply, ReplyView, Request, RequestView, SaveSession,
    SaveStage, SaveState,
};
use std::sync::Arc;
use vstd::pervasive::unreached;
use vstd::prelude::*;

verus! {

/// The code the registry reports for a location or a value that is not there.
pub const ERROR_FILE_NOT_FOUND: i32 = 2;

/// The code the registry reports for a write through a handle opened for
/// reading.
pub const ERROR_ACCESS_DENIED: i32 = 5;

/// The code the registry reports for work without an open transaction or
/// an open location.
pub const ERROR_INVALID_HANDLE: i32 = 6;

/// The error that `std::io::Error::from_raw_os_error` builds for a code.
pub uninterp spec fn os_error(code: i32) -> std::io::Error;

/// `std::io::Error::from_raw_os_error` wraps an operating system's error
/// code; the error holds the code and nothing else.
#[verifier::external_body]
fn error_from_code(code: i32) -> (error: std::io::Error)
    ensures
        error == os_error(code),
{
    std::io::Error::from_raw_os_error(code)
}

/// The kinds of request, by which a fault is aimed.
#[derive(Debug, PartialEq, Eq, Copy, Clone, Structural)]
pub enum Operation {
    BeginTransaction,
    OpenLocation,
    ReadText,
    ReadColor,
    WriteText,
    WriteColor,
    Commit,
}

/// A request that is forced to fail, and the code it fails with.
#[derive(Debug, PartialEq, Eq, Copy, Clone, Structural)]
pub struct Fault {
    pub operation: Operation,
    pub code: i32,
}

/// The two values of the profile's location. Either may be missing.
#[derive(Debug, PartialEq, Eq, Clone)]
pub struct Location {
    pub text: Option<Vec<u8>>,
    pub color_index: Option<u32>,
}

/// A location as a mathematical value.
pub struct LocationView {
    pub text: Option<Seq<u8>>,
    pub color_index: Option<u32>,
}

impl View for Location {
    type V = LocationView;

    open spec fn view(&self) -> LocationView {
        LocationView {
            text: match self.text {
                Some(bytes) => Some(bytes@),
                None => None,
            },
            color_index: self.color_index,
        }
    }
}

/// An open transaction as a mathematical value: the rights the location
/// was opened with, if it was, and what was staged.
pub struct TransactionView {
    pub access: Option<Access>,
    pub text: Option<Seq<u8>>,
    pub color_index: Option<u32>,
}

struct Transaction {
    access: Option<Access>,
    text: Option<Vec<u8>>,
    color_index: Option<u32>,
}

impl View for Transaction {
    type V = TransactionView;

    closed spec fn view(&self) -> TransactionView {
        TransactionView {
            access: self.access,
            text: match self.text {
                Some(bytes) => Some(bytes@),
                None => None,
            },
            color_index: self.color_index,
        }
    }
}

/// A registry in memory.
pub struct Registry {
    location: Option<Location>,
    transaction: Option<Transaction>,
    fault: Option<Fault>,
}

/// A registry as a mathematical value: the committed location, if it
/// exists; the open transaction, if there is one; the fault, if one is set.
pub struct RegistryView {
    pub location: Option<LocationView>,
    pub transaction: Option<TransactionView>,
    pub fault: Option<Fault>,
}

impl RequestView {
    /// The kind of a request.
    pub open spec fn operation(self) -> Operation {
        match self {
            RequestView::BeginTransaction => Operation::BeginTransaction,
            RequestView::OpenLocation(_) => Operation::OpenLocation,
            RequestView::ReadText => Operation::ReadText,
            RequestView::ReadColor => Operation::ReadColor,
            RequestView::WriteText(_) => Operation::WriteText,
            RequestView::WriteColor(_) => Operation::WriteColor,
            RequestView::Commit => Operation::Commit,
        }
    }
}

/// The failure reply that carries a code.
pub open spec fn failed(code: i32) -> ReplyView {
    ReplyView::Failed(os_error(code))
}

/// The load error for a request that failed with a code.
pub open spec fn load_failure(code: i32) -> FaceLoadError {
    FaceLoadError::RegistryLoadError(Arc::new(os_error(code)))
}

/// The save error for a request before the commit that failed with a code.
pub open spec fn save_failure(code: i32) -> FaceSaveError {
    FaceSaveError::RegistrySaveError(Arc::new(os_error(code)))
}

/// The save error for a commit that failed with a code.
pub open spec fn commit_failure(code: i32) -> FaceSaveError {
    FaceSaveError::CommitError(Arc::new(os_error(code)))
}

impl RegistryView {
    /// Whether requests of this kind are set up to fail.
    pub open spec fn fails(self, operation: Operation) -> bool {
        self.fault matches Some(fault) && fault.operation == operation
    }

    /// The text value as the open transaction sees it.
    pub open spec fn visible_text(self) -> Option<Seq<u8>> {
        match self.transaction {
            Some(TransactionView { text: Some(staged), .. }) => Some(staged),
            _ => match self.location {
                Some(location) => location.text,
                None => None,
            },
        }
    }

    /// The colour value as the open transaction sees it.
    pub open spec fn visible_color(self) -> Option<u32> {
        match self.transaction {
            Some(TransactionView { color_index: Some(staged), .. }) => Some(staged),
            _ => match self.location {
                Some(location) => location.color_index,
                None => None,
            },
        }
    }

    /// The rights of the open handle, if the location was opened.
    pub open spec fn access(self) -> Option<Access> {
        match self.transaction {
            Some(transaction) => transaction.access,
            None => None,
        }
    }

    /// The location once the open transaction is committed: each staged
    /// value replaces the committed one, the other value stays. A location
    /// that does not exist is not created.
    pub open spec fn committed(self) -> Option<LocationView> {
        match (self.location, self.transaction) {
            (Some(location), Some(transaction)) => Some(
                LocationView {
                    text: if transaction.text is Some {
                        transaction.text
                    } else {
                        location.text
                    },
                    color_index: if transaction.color_index is Some {
                        transaction.color_index
                    } else {
                        location.color_index
                    },
                },
            ),
            _ => self.location,
        }
    }

    /// What the registry answers to a request.
    pub open spec fn reply(self, request: RequestView) -> ReplyView {
        if self.fails(request.operation()) {
            failed(self.fault->0.code)
        } else {
            match request {
                RequestView::BeginTransaction => ReplyView::Done,
                RequestView::OpenLocation(_) => if self.transaction is None {
                    failed(ERROR_INVALID_HANDLE)
                } else if self.location is None {
                    failed(ERROR_FILE_NOT_FOUND)
                } else {
                    ReplyView::Done
                },
                RequestView::ReadText => if self.access() is None {
                    failed(ERROR_INVALID_HANDLE)
                } else {
                    match self.visible_text() {
                        Some(bytes) => ReplyView::Text(bytes),
                        None => failed(ERROR_FILE_NOT_FOUND),
                    }
                },
                RequestView::ReadColor => if self.access() is None {
                    failed(ERROR_INVALID_HANDLE)
                } else {
                    match self.visible_color() {
                        Some(color_index) => ReplyView::Color(color_index),
                        None => failed(ERROR_FILE_NOT_FOUND),
                    }
                },
                RequestView::WriteText(_) | RequestView::WriteColor(_) => match self.access() {
                    None => failed(ERROR_INVALID_HANDLE),
                    Some(Access::Read) => failed(ERROR_ACCESS_DENIED),
                    Some(Access::ReadWrite) => ReplyView::Done,
                },
                RequestView::Commit => if self.transaction is None {
                    failed(ERROR_INVALID_HANDLE)
                } else {
                    ReplyView::Done
                },
            }
        }
    }

    /// The registry after a request. A request that fails changes nothing.
    /// A new transaction replaces the open one, whose staged values are
    /// lost. Only a commit touches the committed location.
    pub open spec fn after(self, request: RequestView) -> RegistryView {
        if self.reply(request) is Failed {
            self
        } else {
            match request {
                RequestView::BeginTransaction => RegistryView {
                    transaction: Some(
                        TransactionView { access: None, text: None, color_index: None },
                    ),
                    ..self
                },
                RequestView::OpenLocation(access) => RegistryView {
                    transaction: Some(
                        TransactionView { access: Some(access), ..self.transaction->0 },
                    ),
                    ..self
                },
                RequestView::ReadText => self,
                RequestView::ReadColor => self,
                RequestView::WriteText(bytes) => RegistryView {
                    transaction: Some(
                        TransactionView { text: Some(bytes), ..self.transaction->0 },
                    ),
                    ..self
                },
                RequestView::WriteColor(color_index) => RegistryView {
                    transaction: Some(
                        TransactionView { color_index: Some(color_index), ..self.transaction->0 },
                    ),
                    ..self
                },
                RequestView::Commit => RegistryView {
                    location: self.committed(),
                    transaction: None,
                    ..self
                },
            }
        }
    }

    /// The registry once the open transaction, if any, is dropped.
    pub open spec fn settled(self) -> RegistryView {
        RegistryView { transaction: None, ..self }
    }

    /// The result of a load: each request in turn can fail by the fault set
    /// for it, the location and both values must be there, and the text
    /// must decode. Both values are read before the text is judged, so a
    /// value that cannot be read counts before a text that is not UTF-8.
    pub open spec fn load_result(self) -> Result<Face, FaceLoadError> {
        if self.fails(Operation::BeginTransaction) || self.fails(Operation::OpenLocation) {
            Err(load_failure(self.fault->0.code))
        } else if self.location is None {
            Err(load_failure(ERROR_FILE_NOT_FOUND))
        } else if self.fails(Operation::ReadText) {
            Err(load_failure(self.fault->0.code))
        } else if self.location->0.text is None {
            Err(load_failure(ERROR_FILE_NOT_FOUND))
        } else if self.fails(Operation::ReadColor) {
            Err(load_failure(self.fault->0.code))
        } else if self.location->0.color_index is None {
            Err(load_failure(ERROR_FILE_NOT_FOUND))
        } else if decoded_text(self.location->0.text->0) is None {
            Err(FaceLoadError::Utf8Error(utf8_error(text_bytes(self.location->0.text->0))))
        } else {
            Ok(
                Face {
                    text: decoded_text(self.location->0.text->0)->0,
                    color_index: self.location->0.color_index->0,
                },
            )
        }
    }

    /// The result of a save: each request in turn can fail by the fault set
    /// for it, and the location must be there.
    pub open spec fn save_result(self) -> Result<(), FaceSaveError> {
        if self.fails(Operation::BeginTransaction) || self.fails(Operation::OpenLocation) {
            Err(save_failure(self.fault->0.code))
        } else if self.location is None {
            Err(save_failure(ERROR_FILE_NOT_FOUND))
        } else if self.fails(Operation::WriteText) || self.fails(Operation::WriteColor) {
            Err(save_failure(self.fault->0.code))
        } else if self.fails(Operation::Commit) {
            Err(commit_failure(self.fault->0.code))
        } else {
            Ok(())
        }
    }

    /// The registry after a save: with both values of the profile where
    /// the save succeeds, as it was where it fails.
    pub open spec fn saved(self, face: Face) -> RegistryView {
        if self.save_result() is Ok {
            RegistryView {
                location: Some(
                    LocationView {
                        text: Some(encoded_text(face.text)),
                        color_index: Some(face.color_index),
                    },
                ),
                transaction: None,
                fault: self.fault,
            }
        } else {
            self.settled()
        }
    }

    /// What must hold of the registry `now` while a load that started on
    /// `self` is in the given state.
    spec fn load_on_track(self, state: LoadState, now: RegistryView) -> bool {
        &&& now.location == self.location
        &&& now.fault == self.fault
        &&& match state {
            LoadState::Begin => true,
            LoadState::Open => {
                &&& !self.fails(Operation::BeginTransaction)
                &&& now.transaction == Some(
                    TransactionView { access: None, text: None, color_index: None },
                )
            },
            LoadState::ReadText => {
                &&& !self.fails(Operation::BeginTransaction)
                &&& !self.fails(Operation::OpenLocation)
                &&& self.location is Some
                &&& now.transaction == Some(
                    TransactionView { access: Some(Access::Read), text: None, color_index: None },
                )
            },
            LoadState::ReadColor(raw) => {
                &&& !self.fails(Operation::BeginTransaction)
                &&& !self.fails(Operation::OpenLocation)
                &&& !self.fails(Operation::ReadText)
                &&& self.location is Some
                &&& self.location->0.text == Some(raw)
                &&& now.transaction == Some(
                    TransactionView { access: Some(Access::Read), text: None, color_index: None },
                )
            },
            LoadState::Loaded(face) => self.load_result() == Ok::<Face, FaceLoadError>(face),
            LoadState::Failed(error) => self.load_result() == Err::<Face, FaceLoadError>(error),
        }
    }

    /// What must hold of the registry `now` while a save that started on
    /// `self` is in the given state.
    spec fn save_on_track(self, state: SaveState, now: RegistryView) -> bool {
        let text = encoded_text(state.profile.text);
        let color_index = state.profile.color_index;
        &&& now.fault == self.fault
        &&& match state.stage {
            SaveStage::Begin => now.location == self.location,
            SaveStage::Open => {
                &&& now.location == self.location
                &&& !self.fails(Operation::BeginTransaction)
                &&& now.transaction == Some(
                    TransactionView { access: None, text: None, color_index: None },
                )
            },
            SaveStage::WriteText => {
                &&& now.location == self.location
                &&& !self.fails(Operation::BeginTransaction)
                &&& !self.fails(Operation::OpenLocation)
                &&& self.location is Some
                &&& now.transaction == Some(
                    TransactionView {
                        access: Some(Access::ReadWrite),
                        text: None,
                        color_index: None,
                    },
                )
            },
            SaveStage::WriteColor => {
                &&& now.location == self.location
                &&& !self.fails(Operation::BeginTransaction)
                &&& !self.fails(Operation::OpenLocation)
                &&& !self.fails(Operation::WriteText)
                &&& self.location is Some
                &&& now.transaction == Some(
                    TransactionView {
                        access: Some(Access::ReadWrite),
                        text: Some(text),
                        color_index: None,
                    },
                )
            },
            SaveStage::Commit => {
                &&& now.location == self.location
                &&& !self.fails(Operation::BeginTransaction)
                &&& !self.fails(Operation::OpenLocation)
                &&& !self.fails(Operation::WriteText)
                &&& !self.fails(Operation::WriteColor)
                &&& self.location is Some
                &&& now.transaction == Some(
                    TransactionView {
                        access: Some(Access::ReadWrite),
                        text: Some(text),
                        color_index: Some(color_index),
                    },
                )
            },
            SaveStage::Saved => {
                &&& self.save_result() is Ok
                &&& now == self.saved(state.profile)
            },
            SaveStage::Failed(error) => {
                &&& self.save_result() == Err::<(), FaceSaveError>(error)
                &&& now.location == self.location
            },
        }
    }
}

impl View for Registry {
    type V = RegistryView;

    closed spec fn view(&self) -> RegistryView {
        RegistryView {
            location: match self.location {
                Some(location) => Some(location@),
                None => None,
            },
            transaction: match self.transaction {
                Some(transaction) => Some(transaction@),
                None => None,
            },
            fault: self.fault,
        }
    }
}

fn operation_of(request: &Request) -> (operation: Operation)
    ensures
        operation == request@.operation(),
{
    match request {
        Request::BeginTransaction => Operation::BeginTransaction,
        Request::OpenLocation(_) => Operation::OpenLocation,
        Request::ReadText => Operation::ReadText,
        Request::ReadColor => Operation::ReadColor,
        Request::WriteText(_) => Operation::WriteText,
        Request::WriteColor(_) => Operation::WriteColor,
        Request::Commit => Operation::Commit,
    }
}

fn copy_of(bytes: &Vec<u8>) -> (copy: Vec<u8>)
    ensures
        copy@ == bytes@,
{
    vstd::slice::slice_to_vec(bytes.as_slice())
}

impl Registry {
    /// A registry that holds this location, or none; no transaction is
    /// open and no fault is set.
    pub fn new(location: Option<Location>) -> (registry: Self)
        ensures
            registry@ == (RegistryView {
                location: match location {
                    Some(l) => Some(l@),
                    None => None,
                },
                transaction: None,
                fault: None,
            }),
    {
        Registry { location, transaction: None, fault: None }
    }

    /// The committed location, if it exists.
    pub fn location(&self) -> (location: &Option<Location>)
        ensures
            match *location {
                Some(l) => self@.location == Some(l@),
                None => self@.location is None,
            },
    {
        &self.location
    }

    /// Sets the request that is forced to fail, or clears it.
    pub fn set_fault(&mut self, fault: Option<Fault>)
        ensures
            final(self)@ == (RegistryView { fault, ..old(self)@ }),
    {
        self.fault = fault;
    }

    /// Drops the open transaction, if there is one, with all it staged.
    pub fn end_transaction(&mut self)
        ensures
            final(self)@ == old(self)@.settled(),
    {
        self.transaction = None;
    }

    fn staged_or_committed_text(&self) -> (text: Option<Vec<u8>>)
        ensures
            match text {
                Some(bytes) => self@.visible_text() == Some(bytes@),
                None => self@.visible_text() is None,
            },
    {
        if let Some(transaction) = &self.transaction {
            if let Some(staged) = &transaction.text {
                return Some(copy_of(staged));
            }
        }
        if let Some(location) = &self.location {
            if let Some(bytes) = &location.text {
                return Some(copy_of(bytes));
            }
        }
        None
    }

    fn staged_or_committed_color(&self) -> (color_index: Option<u32>)
        ensures
            color_index == self@.visible_color(),
    {
        if let Some(transaction) = &self.transaction {
            if let Some(staged) = transaction.color_index {
                return Some(staged);
            }
        }
        if let Some(location) = &self.location {
            return location.color_index;
        }
        None
    }

    fn handle(&self) -> (access: Option<Access>)
        ensures
            access == self@.access(),
    {
        match &self.transaction {
            Some(transaction) => transaction.access,
            None => None,
        }
    }

    fn commit(&mut self)
        requires
            old(self)@.transaction is Some,
        ensures
            final(self)@ == (RegistryView {
                location: old(self)@.committed(),
                transaction: None,
                ..old(self)@
            }),
    {
        let transaction = self.transaction.take();
        let location = self.location.take();
        if let Some(Location { text, color_index }) = location {
            if let Some(Transaction { access: _, text: staged_text, color_index: staged_color }) =
                transaction {
                let text = if staged_text.is_some() {
                    staged_text
                } else {
                    text
                };
                let color_index = if staged_color.is_some() {
                    staged_color
                } else {
                    color_index
                };
                self.location = Some(Location { text, color_index });
            } else {
                self.location = Some(Location { text, color_index });
            }
        }
    }

    /// Carries out one request.
    pub fn perform(&mut self, request: Request) -> (reply: Reply)
        ensures
            reply@ == old(self)@.reply(request@),
            final(self)@ == old(self)@.after(request@),
    {
        if let Some(fault) = self.fault {
            if fault.operation == operation_of(&request) {
                return Reply::Failed(error_from_code(fault.code));
            }
        }
        match request {
            Request::BeginTransaction => {
                self.transaction = Some(Transaction { access: None, text: None, color_index: None });
                Reply::Done
            },
            Request::OpenLocation(access) => {
                match self.transaction.take() {
                    None => Reply::Failed(error_from_code(ERROR_INVALID_HANDLE)),
                    Some(transaction) => {
                        if self.location.is_none() {
                            self.transaction = Some(transaction);
                            Reply::Failed(error_from_code(ERROR_FILE_NOT_FOUND))
                        } else {
                            let Transaction { access: _, text, color_index } = transaction;
                            self.transaction = Some(
                                Transaction { access: Some(access), text, color_index },
                            );
                            Reply::Done
                        }
                    },
                }
            },
            Request::ReadText => {
                if self.handle().is_none() {
                    Reply::Failed(error_from_code(ERROR_INVALID_HANDLE))
                } else {
                    match self.staged_or_committed_text() {
                        Some(bytes) => Reply::Text(bytes),
                        None => Reply::Failed(error_from_code(ERROR_FILE_NOT_FOUND)),
                    }
                }
            },
            Request::ReadColor => {
                if self.handle().is_none() {
                    Reply::Failed(error_from_code(ERROR_INVALID_HANDLE))
                } else {
                    match self.staged_or_committed_color() {
                        Some(color_index) => Reply::Color(color_index),
                        None => Reply::Failed(error_from_code(ERROR_FILE_NOT_FOUND)),
                    }
                }
            },
            Request::WriteText(bytes) => {
                match self.handle() {
                    None => Reply::Failed(error_from_code(ERROR_INVALID_HANDLE)),
                    Some(Access::Read) => Reply::Failed(error_from_code(ERROR_ACCESS_DENIED)),
                    Some(Access::ReadWrite) => {
                        if let Some(Transaction { access, text: _, color_index }) =
                            self.transaction.take() {
                            self.transaction = Some(
                                Transaction { access, text: Some(bytes), color_index },
                            );
                        }
                        Reply::Done
                    },
                }
            },
            Request::WriteColor(index) => {
                match self.handle() {
                    None => Reply::Failed(error_from_code(ERROR_INVALID_HANDLE)),
                    Some(Access::Read) => Reply::Failed(error_from_code(ERROR_ACCESS_DENIED)),
                    Some(Access::ReadWrite) => {
                        if let Some(Transaction { access, text, color_index: _ }) =
                            self.transaction.take() {
                            self.transaction = Some(
                                Transaction { access, text, color_index: Some(index) },
                            );
                        }
                        Reply::Done
                    },
                }
            },
            Request::Commit => {
                if self.transaction.is_none() {
                    Reply::Failed(error_from_code(ERROR_INVALID_HANDLE))
                } else {
                    self.commit();
                    Reply::Done
                }
            },
        }
    }
}

impl FaceData {
    /// Loads the profile: opens a transaction and the location for reading,
    /// reads the text and the colour, then decodes the text. The
    /// transaction is dropped at the end; nothing is written.
    pub fn load_from_registry(registry: &mut Registry) -> (res: Result<FaceData, FaceLoadError>)
        ensures
            final(registry)@ == old(registry)@.settled(),
            match res {
                Ok(face) => old(registry)@.load_result() == Ok::<Face, FaceLoadError>(face@),
                Err(error) => old(registry)@.load_result() == Err::<Face, FaceLoadError>(error),
            },
    {
        let ghost start = registry@;
        let mut session = LoadSession::start();
        loop
            invariant
                start.load_on_track(session@, registry@),
            ensures
                session@.request() is None,
            decreases session@.requests_left(),
        {
            match session.request() {
                None => {
                    break ;
                },
                Some(request) => {
                    let reply = registry.perform(request);
                    session = session.advance(reply);
                },
            }
        }
        registry.end_transaction();
        match session.outcome() {
            Some(outcome) => outcome,
            None => unreached(),
        }
    }

    /// Saves the profile: opens a transaction and the location for reading
    /// and writing, stages the encoded text as a binary value and the colour
    /// as a number, and commits. Where any of these fails the transaction
    /// is dropped and the registry holds what it held before.
    pub fn save_to_registry(&self, registry: &mut Registry) -> (res: Result<(), FaceSaveError>)
        ensures
            res == old(registry)@.save_result(),
            final(registry)@ == old(registry)@.saved(self@),
    {
        let ghost start = registry@;
        let mut session = SaveSession::start(self);
        loop
            invariant
                session@.profile == self@,
                start.save_on_track(session@, registry@),
            ensures
                session@.request() is None,
            decreases session@.requests_left(),
        {
            match session.request() {
                None => {
                    break ;
                },
                Some(request) => {
                    let reply = registry.perform(request);
                    session = session.advance(reply);
                },
            }
        }
        registry.end_transaction();
        match session.outcome() {
            Some(outcome) => outcome,
            None => unreached(),
        }
    }
}

/// A load that follows a save returns what was saved: the colour as it
/// is, and the text up to its first nul character, which is all of it
/// where it holds none. This holds where the location exists and no fault
/// is set; the save then succeeds.
pub proof fn lemma_load_returns_what_was_saved(registry: RegistryView, face: Face)
    requires
        registry.location is Some,
        registry.fault is None,
    ensures
        registry.save_result() is Ok,
        registry.saved(face).load_result() == Ok::<Face, FaceLoadError>(
            Face { text: text_before_nul(face.text), color_index: face.color_index },
        ),
        !face.text.contains('\0') ==> registry.saved(face).load_result() == Ok::<
            Face,
            FaceLoadError,
        >(face),
{
    lemma_text_round_trip_cuts_at_nul(face.text);
    if !face.text.contains('\0') {
        lemma_text_before_nul_is_whole(face.text);
    }
}

/// Saving a profile twice in a row leaves a registry from which a load
/// returns that profile, after the first save and after the second. This
/// holds where the location exists, no fault is set, and the text holds no
/// nul character.
pub proof fn lemma_load_after_saving_twice(registry: RegistryView, face: Face)
    requires
        registry.location is Some,
        registry.fault is None,
        !face.text.contains('\0'),
    ensures
        registry.saved(face).load_result() == Ok::<Face, FaceLoadError>(face),
        registry.saved(face).save_result() is Ok,
        registry.saved(face).saved(face).load_result() == Ok::<Face, FaceLoadError>(face),
{
    lemma_load_returns_what_was_saved(registry, face);
    lemma_load_returns_what_was_saved(registry.saved(face), face);
}

/// Saving the same profile a second time changes nothing: the registry
/// after two saves is the registry after one, whether the saves succeed or
/// fail, and the second save ends as the first did.
pub proof fn lemma_save_is_idempotent(registry: RegistryView, face: Face)
    ensures
        registry.saved(face).saved(face) == registry.saved(face),
        registry.saved(face).save_result() == registry.save_result(),
{
}

/// A save that fails is not seen: whichever request failed, and in
/// particular where the colour could not be staged after the text was, the
/// committed location is the one from before the save, and a load returns
/// what it would have returned before.
pub proof fn lemma_failed_save_leaves_no_trace(registry: RegistryView, face: Face)
    requires
        registry.save_result() is Err,
    ensures
        registry.saved(face).location == registry.location,
        registry.saved(face).load_result() == registry.load_result(),
{
}

/// A save writes both values or neither: the committed location after a
/// save is either the old one or holds the new text and the new colour.
pub proof fn lemma_save_is_all_or_nothing(registry: RegistryView, face: Face)
    ensures
        registry.saved(face).location == registry.location || registry.saved(face).location
            == Some(
            LocationView {
                text: Some(encoded_text(face.text)),
                color_index: Some(face.color_index),
            },
        ),
{
}

/// A value that cannot be read is an access failure, whatever the other
/// value holds: a load reports a text that is not UTF-8 only where the
/// location and both values were read.
pub proof fn lemma_unreadable_value_counts_first(registry: RegistryView)
    ensures
        registry.load_result() is Err && registry.load_result()->Err_0 is Utf8Error ==> {
            &&& registry.location is Some
            &&& registry.location->0.text is Some
            &&& registry.location->0.color_index is Some
            &&& !registry.fails(Operation::ReadText)
            &&& !registry.fails(Operation::ReadColor)
        },
        registry.fault is None && (registry.location is None || registry.location->0.text is None
            || registry.location->0.color_index is None) ==> registry.load_result() == Err::<
            Face,
            FaceLoadError,
        >(load_failure(ERROR_FILE_NOT_FOUND)),
{
}

/// A load leaves the registry as it found it, so that a second load
/// returns what the first did.
pub proof fn lemma_load_is_repeatable(registry: RegistryView)
    ensures
        registry.settled().load_result() == registry.load_result(),
        registry.settled().location == registry.location,
{
}

/// A save session asks for the commit only after both values were staged,
/// and the only way to `Saved` is through an acknowledged commit.
pub proof fn lemma_commit_comes_last(state: SaveState, reply: ReplyView)
    ensures
        state.advance(reply).stage is Commit && !(state.stage is Commit) ==> state.stage
            is WriteColor && reply is Done,
        state.advance(reply).stage is Saved && !(state.stage is Saved) ==> state.stage is Commit
            && reply is Done,
        state.stage is Failed ==> state.advance(reply) == state,
        reply is Failed && state.request() is Some ==> state.advance(reply).stage is Failed,
{
}

} // verus!
