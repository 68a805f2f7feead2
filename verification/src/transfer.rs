//! The platform-neutral portable transfer protocol.
//!
//! Canonical pack and archive bytes are produced and validated elsewhere.
//! This module only describes how those bytes cross into, and out of, a
//! platform file surface: one small trait with bounded, poll-driven jobs, the
//! two sanitized suggested file names, the only words the product may use for
//! a finished handoff, and a deterministic in-memory adapter for tests.

use std::collections::VecDeque;

use vstd::prelude::*;
use vstd::string::*;

use crate::store::{CatalogHash, MAX_WORKSHOP_ARCHIVE_BYTES, MAX_WORKSHOP_PACK_BYTES, SlotName};

verus! {

/// What a transfer carries. The decoder stays authoritative; the extension
/// and media type are convenience hints only.
#[derive(Clone, Copy, Debug, PartialEq, Eq, Structural)]
pub enum TransferKind {
    /// A `.nyonworkshop.json` Workshop archive.
    WorkshopArchive,
    /// A `.nyonpack.json` content pack.
    ContentPack,
}

/// The largest payload of `kind`: the store's own limit.
pub open spec fn kind_max_bytes(kind: TransferKind) -> nat {
    match kind {
        TransferKind::WorkshopArchive => MAX_WORKSHOP_ARCHIVE_BYTES as nat,
        TransferKind::ContentPack => MAX_WORKSHOP_PACK_BYTES as nat,
    }
}

/// The file-name suffix hint of `kind`, including its leading dot.
pub open spec fn kind_extension(kind: TransferKind) -> Seq<char> {
    match kind {
        TransferKind::WorkshopArchive => ".nyonworkshop.json"@,
        TransferKind::ContentPack => ".nyonpack.json"@,
    }
}

impl TransferKind {
    /// The largest payload of this kind any transfer may carry, so nothing
    /// the store would refuse can be imported or handed off.
    pub fn max_bytes(self) -> (max: usize)
        ensures
            max as nat == kind_max_bytes(self),
    {
        match self {
            TransferKind::WorkshopArchive => MAX_WORKSHOP_ARCHIVE_BYTES,
            TransferKind::ContentPack => MAX_WORKSHOP_PACK_BYTES,
        }
    }

    /// The file-name suffix hint, including its leading dot.
    pub fn extension(self) -> (extension: &'static str)
        ensures
            extension@ == kind_extension(self),
    {
        match self {
            TransferKind::WorkshopArchive => ".nyonworkshop.json",
            TransferKind::ContentPack => ".nyonpack.json",
        }
    }

    /// The media-type hint, the same for both kinds.
    pub fn media_type(self) -> (media_type: &'static str)
        ensures
            media_type@ == "application/json"@,
    {
        "application/json"
    }
}

/// Letters, digits, `-` and `_` survive; a space becomes `-`; everything
/// else becomes `_`.
pub open spec fn sanitized(c: char) -> char {
    if ('a' <= c && c <= 'z') || ('A' <= c && c <= 'Z') || ('0' <= c && c <= '9') || c == '-'
        || c == '_' {
        c
    } else if c == ' ' {
        '-'
    } else {
        '_'
    }
}

/// The characters a suggested name may hold besides its extension.
pub open spec fn safe_name_char(c: char) -> bool {
    ('a' <= c && c <= 'z') || ('A' <= c && c <= 'Z') || ('0' <= c && c <= '9') || c == '-' || c
        == '_'
}

/// Letters, digits, `-` and `_` survive; a space becomes `-`; everything
/// else, including `.`, `/`, `\` and every reserved picker character,
/// becomes `_`.
pub fn sanitize_char(character: char) -> (safe: char)
    ensures
        safe == sanitized(character),
        safe_name_char(safe),
{
    if ('a' <= character && character <= 'z') || ('A' <= character && character <= 'Z') || (
    '0' <= character && character <= '9') || character == '-' || character == '_' {
        character
    } else if character == ' ' {
        '-'
    } else {
        '_'
    }
}

/// The lowercase hexadecimal digit of `nibble`.
pub open spec fn hex_digit(nibble: int) -> char {
    if nibble < 10 {
        (48 + nibble) as char
    } else {
        (87 + nibble) as char
    }
}

/// The first eight bytes of `bytes` as sixteen lowercase hex digits.
pub open spec fn hex_prefix(bytes: Seq<u8>) -> Seq<char> {
    Seq::new(
        16,
        |i: int|
            if i % 2 == 0 {
                hex_digit((bytes[i / 2] / 16) as int)
            } else {
                hex_digit((bytes[i / 2] % 16) as int)
            },
    )
}

/// The suggested name of an archive of the slot called `name`.
pub open spec fn archive_name(name: Seq<char>) -> Seq<char> {
    name.map_values(|c: char| sanitized(c)) + kind_extension(TransferKind::WorkshopArchive)
}

/// The suggested name of the content pack with hash bytes `hash`.
pub open spec fn pack_name(hash: Seq<u8>) -> Seq<char> {
    hex_prefix(hash) + kind_extension(TransferKind::ContentPack)
}

/// `String::push`: appends `character` to the end of `text`.
#[verifier::external_body]
pub(crate) fn push_char(text: &mut String, character: char)
    ensures
        final(text)@ == old(text)@.push(character),
{
    text.push(character);
}

fn hex_char(nibble: u8) -> (digit: char)
    requires
        nibble < 16,
    ensures
        digit == hex_digit(nibble as int),
{
    if nibble < 10 {
        (nibble + 48) as char
    } else {
        (nibble + 87) as char
    }
}

/// A predictable, sanitized suggested file name.
///
/// Built only by the two constructors, so every name ends in its kind's
/// extension and contains nothing but ASCII letters, digits, `-`, `_` and the
/// extension's dots.
#[derive(Debug, PartialEq, Eq)]
pub struct SuggestedName(String);

impl View for SuggestedName {
    type V = Seq<char>;

    closed spec fn view(&self) -> Seq<char> {
        self.0@
    }
}

impl Clone for SuggestedName {
    fn clone(&self) -> (copy: Self)
        ensures
            copy@ == self@,
    {
        SuggestedName(self.0.clone())
    }
}

impl SuggestedName {
    /// `<slot-name>.nyonworkshop.json`, with the slot name sanitized.
    pub fn workshop_archive(name: &SlotName) -> (suggested: Self)
        ensures
            suggested@ == archive_name(name@),
    {
        let source = name.as_str();
        let length = source.unicode_len();
        let mut output = String::new();
        let mut index: usize = 0;
        while index < length
            invariant
                length == source@.len(),
                source@ == name@,
                index <= length,
                output@ == source@.subrange(0, index as int).map_values(|c: char| sanitized(c)),
            decreases length - index,
        {
            let character = source.get_char(index);
            push_char(&mut output, sanitize_char(character));
            proof {
                assert(source@.subrange(0, index + 1) =~= source@.subrange(0, index as int).push(
                    character,
                ));
                assert(output@ =~= source@.subrange(0, index + 1).map_values(
                    |c: char| sanitized(c),
                ));
            }
            index = index + 1;
        }
        assert(source@.subrange(0, length as int) =~= source@);
        output.append(TransferKind::WorkshopArchive.extension());
        SuggestedName(output)
    }

    /// `<catalog-hash-prefix>.nyonpack.json`: the first eight bytes of the
    /// hash as sixteen lowercase hex digits.
    pub fn content_pack(hash: CatalogHash) -> (suggested: Self)
        ensures
            suggested@ == pack_name(hash.0@),
    {
        let mut output = String::new();
        let mut index: usize = 0;
        while index < 8
            invariant
                index <= 8,
                output@ == hex_prefix(hash.0@).subrange(0, 2 * index as int),
            decreases 8 - index,
        {
            let byte = hash.0[index];
            push_char(&mut output, hex_char(byte / 16));
            push_char(&mut output, hex_char(byte % 16));
            proof {
                assert(output@ =~= hex_prefix(hash.0@).subrange(0, 2 * (index + 1)));
            }
            index = index + 1;
        }
        assert(hex_prefix(hash.0@).subrange(0, 16) =~= hex_prefix(hash.0@));
        output.append(TransferKind::ContentPack.extension());
        SuggestedName(output)
    }

    pub fn as_str(&self) -> (name: &str)
        ensures
            name@ == self@,
    {
        self.0.as_str()
    }
}

/// Copies `bytes` into a new vector.
pub fn copy_bytes(bytes: &Vec<u8>) -> (copy: Vec<u8>)
    ensures
        copy@ == bytes@,
{
    let mut copy: Vec<u8> = Vec::new();
    let mut index: usize = 0;
    while index < bytes.len()
        invariant
            index <= bytes.len(),
            copy@ == bytes@.subrange(0, index as int),
        decreases bytes.len() - index,
    {
        copy.push(bytes[index]);
        proof {
            assert(copy@ =~= bytes@.subrange(0, index + 1));
        }
        index = index + 1;
    }
    assert(bytes@.subrange(0, bytes.len() as int) =~= bytes@);
    copy
}

/// One transfer the product asks a platform to perform.
#[derive(Debug, PartialEq, Eq)]
pub enum TransferRequest {
    /// Ask the user for one file of `kind`, reading at most `max_bytes`.
    ChooseImport { kind: TransferKind, max_bytes: usize },
    /// Hand validated canonical bytes to the platform.
    HandOffExport { kind: TransferKind, suggested_name: SuggestedName, bytes: Vec<u8> },
}

/// The contents of a [`TransferRequest`].
pub enum TransferRequestView {
    ChooseImport { kind: TransferKind, max_bytes: nat },
    HandOffExport { kind: TransferKind, suggested_name: Seq<char>, bytes: Seq<u8> },
}

impl View for TransferRequest {
    type V = TransferRequestView;

    open spec fn view(&self) -> TransferRequestView {
        match self {
            TransferRequest::ChooseImport { kind, max_bytes } => TransferRequestView::ChooseImport {
                kind: *kind,
                max_bytes: *max_bytes as nat,
            },
            TransferRequest::HandOffExport { kind, suggested_name, bytes } =>
                TransferRequestView::HandOffExport {
                kind: *kind,
                suggested_name: suggested_name@,
                bytes: bytes@,
            },
        }
    }
}

/// The bounds every adapter enforces before it starts anything: an import
/// asks for between one byte and its kind's limit, and an export carries
/// between one byte and its kind's limit.
pub open spec fn request_within_bounds(request: TransferRequestView) -> bool {
    match request {
        TransferRequestView::ChooseImport { kind, max_bytes } => 0 < max_bytes <= kind_max_bytes(
            kind,
        ),
        TransferRequestView::HandOffExport { kind, bytes, .. } => 0 < bytes.len()
            <= kind_max_bytes(kind),
    }
}

impl TransferRequest {
    /// Copies the request, field by field.
    pub fn duplicate(&self) -> (copy: TransferRequest)
        ensures
            copy@ == self@,
    {
        match self {
            TransferRequest::ChooseImport { kind, max_bytes } => TransferRequest::ChooseImport {
                kind: *kind,
                max_bytes: *max_bytes,
            },
            TransferRequest::HandOffExport { kind, suggested_name, bytes } =>
                TransferRequest::HandOffExport {
                kind: *kind,
                suggested_name: suggested_name.clone(),
                bytes: copy_bytes(bytes),
            },
        }
    }

    /// The bounds check every adapter runs before it starts anything.
    pub fn check(&self) -> (result: Result<(), TransferError>)
        ensures
            result == (if request_within_bounds(self@) {
                Ok(())
            } else {
                Err(TransferError { code: TransferFailureCode::TooLarge })
            }),
    {
        match self {
            TransferRequest::ChooseImport { kind, max_bytes } => {
                if *max_bytes == 0 || *max_bytes > kind.max_bytes() {
                    return Err(TransferError::new(TransferFailureCode::TooLarge));
                }
            },
            TransferRequest::HandOffExport { kind, bytes, .. } => {
                if bytes.len() == 0 || bytes.len() > kind.max_bytes() {
                    return Err(TransferError::new(TransferFailureCode::TooLarge));
                }
            },
        }
        Ok(())
    }
}

/// How far a finished export actually got. Only a durable native save may
/// say "saved".
#[derive(Clone, Copy, Debug, PartialEq, Eq, Structural)]
pub enum HandoffOutcome {
    /// A browser accepted the download. Consumption is not observable.
    DownloadStarted,
    /// The operating system accepted the bytes; no write was proven.
    HandedToSystem,
    /// A native write finished without the full durability sequence.
    Written,
    /// A native write finished with the full durability sequence.
    DurablySaved,
}

/// The user-facing sentence of `outcome`.
pub open spec fn handoff_label(outcome: HandoffOutcome) -> Seq<char> {
    match outcome {
        HandoffOutcome::DownloadStarted => "Download started."@,
        HandoffOutcome::HandedToSystem => "Copy handed to the operating system."@,
        HandoffOutcome::Written => "Copy written."@,
        HandoffOutcome::DurablySaved => "Copy saved."@,
    }
}

impl HandoffOutcome {
    /// The user-facing sentence for this outcome.
    pub fn label(self) -> (label: &'static str)
        ensures
            label@ == handoff_label(self),
    {
        match self {
            HandoffOutcome::DownloadStarted => "Download started.",
            HandoffOutcome::HandedToSystem => "Copy handed to the operating system.",
            HandoffOutcome::Written => "Copy written.",
            HandoffOutcome::DurablySaved => "Copy saved.",
        }
    }
}

/// The terminal answer of a transfer job that did not fail.
#[derive(Debug, PartialEq, Eq)]
pub enum TransferOutcome {
    /// The user chose a file, and these are its bytes.
    ImportChosen { kind: TransferKind, bytes: Vec<u8> },
    /// The export left the product.
    ExportHandedOff(HandoffOutcome),
    /// The user dismissed the picker or the save.
    Cancelled,
}

/// The contents of a [`TransferOutcome`].
pub enum TransferOutcomeView {
    ImportChosen { kind: TransferKind, bytes: Seq<u8> },
    ExportHandedOff(HandoffOutcome),
    Cancelled,
}

impl View for TransferOutcome {
    type V = TransferOutcomeView;

    open spec fn view(&self) -> TransferOutcomeView {
        match self {
            TransferOutcome::ImportChosen { kind, bytes } => TransferOutcomeView::ImportChosen {
                kind: *kind,
                bytes: bytes@,
            },
            TransferOutcome::ExportHandedOff(outcome) => TransferOutcomeView::ExportHandedOff(
                *outcome,
            ),
            TransferOutcome::Cancelled => TransferOutcomeView::Cancelled,
        }
    }
}

/// A bounded opaque failure. It carries no platform text, no path and no
/// content.
#[derive(Clone, Copy, Debug, PartialEq, Eq, Structural)]
pub enum TransferFailureCode {
    /// No adapter is installed.
    Unavailable,
    /// The adapter already has a job.
    Busy,
    /// The request or the chosen file exceeds its kind's limit, or is empty.
    TooLarge,
    /// The adapter ran out of job identifiers.
    Exhausted,
    /// The platform refused or failed the transfer.
    Platform,
    /// The adapter answered with something the protocol does not allow.
    Protocol,
}

/// The fixed sentence of `code`.
pub open spec fn failure_message(code: TransferFailureCode) -> Seq<char> {
    match code {
        TransferFailureCode::Unavailable => "Portable file transfer is not available."@,
        TransferFailureCode::Busy => "Another portable file transfer is still running."@,
        TransferFailureCode::TooLarge => "The portable file is empty or too large."@,
        TransferFailureCode::Exhausted => "Portable file transfer ran out of job identifiers."@,
        TransferFailureCode::Platform =>
            "The system could not complete the portable file transfer."@,
        TransferFailureCode::Protocol => "Portable file transfer returned an unexpected result."@,
    }
}

impl TransferFailureCode {
    /// A fixed, safe sentence for this failure.
    pub fn message(self) -> (message: &'static str)
        ensures
            message@ == failure_message(self),
    {
        match self {
            TransferFailureCode::Unavailable => "Portable file transfer is not available.",
            TransferFailureCode::Busy => "Another portable file transfer is still running.",
            TransferFailureCode::TooLarge => "The portable file is empty or too large.",
            TransferFailureCode::Exhausted => "Portable file transfer ran out of job identifiers.",
            TransferFailureCode::Platform =>
                "The system could not complete the portable file transfer.",
            TransferFailureCode::Protocol => "Portable file transfer returned an unexpected result.",
        }
    }
}

/// A transfer failure, reported by its code alone.
#[derive(Clone, Copy, Debug, PartialEq, Eq, Structural)]
pub struct TransferError {
    pub code: TransferFailureCode,
}

impl TransferError {
    pub fn new(code: TransferFailureCode) -> (error: Self)
        ensures
            error.code == code,
    {
        TransferError { code }
    }

    /// The text this error is shown with: its code's fixed sentence.
    pub fn to_text(&self) -> (text: String)
        ensures
            text@ == failure_message(self.code),
    {
        String::from_str(self.code.message())
    }
}

#[derive(Clone, Copy, Debug, PartialEq, Eq, PartialOrd, Ord, Hash, Structural)]
pub struct TransferJobId(pub u64);

/// Where a transfer job stands.
#[derive(Debug, PartialEq, Eq)]
pub enum TransferJobState {
    Pending,
    Complete(Result<TransferOutcome, TransferError>),
    /// The job was never started, was already polled to completion, or was
    /// abandoned.
    Unknown,
}

/// The contents of a [`TransferJobState`].
pub enum TransferJobStateView {
    Pending,
    Complete(Result<TransferOutcomeView, TransferError>),
    Unknown,
}

impl View for TransferJobState {
    type V = TransferJobStateView;

    open spec fn view(&self) -> TransferJobStateView {
        match self {
            TransferJobState::Pending => TransferJobStateView::Pending,
            TransferJobState::Complete(Ok(outcome)) => TransferJobStateView::Complete(Ok(outcome@)),
            TransferJobState::Complete(Err(error)) => TransferJobStateView::Complete(Err(*error)),
            TransferJobState::Unknown => TransferJobStateView::Unknown,
        }
    }
}

/// The portable transfer protocol.
///
/// An adapter holds at most one job and refuses a second start; every
/// request is bounds-checked before anything starts; a completed state is
/// returned at most once and frees the job; abandoning drops the outcome,
/// not the work.
pub trait TransferAdapter {
    fn start(&mut self, request: TransferRequest) -> (started: Result<TransferJobId, TransferError>)
        ensures
            !request_within_bounds(request@) ==> started == Err::<TransferJobId, TransferError>(
                TransferError { code: TransferFailureCode::TooLarge },
            ),
    ;

    /// Releases `job` without delivering its outcome, and reports whether a
    /// live job was released.
    fn abandon(&mut self, job: TransferJobId) -> bool;

    fn poll(&mut self, job: TransferJobId) -> TransferJobState;
}

/// One call the client made to the transfer adapter.
pub enum TransferCall {
    Start(TransferRequestView),
    Poll(TransferJobId),
    Abandon(TransferJobId),
}

/// A transfer adapter together with the calls the client made to it, in
/// order.
pub struct LoggedAdapter<T> {
    adapter: T,
    calls: Ghost<Seq<TransferCall>>,
}

impl<T> LoggedAdapter<T> {
    /// The adapter itself.
    pub closed spec fn adapter(&self) -> T {
        self.adapter
    }

    /// The calls made through this handle so far.
    pub closed spec fn calls(&self) -> Seq<TransferCall> {
        self.calls@
    }
}

impl<T: TransferAdapter> LoggedAdapter<T> {
    pub fn new(adapter: T) -> (logged: Self)
        ensures
            logged.adapter() == adapter,
            logged.calls() == Seq::<TransferCall>::empty(),
    {
        LoggedAdapter { adapter, calls: Ghost(Seq::empty()) }
    }

    /// The adapter, for reading.
    pub fn inner(&self) -> (adapter: &T)
        ensures
            *adapter == self.adapter(),
    {
        &self.adapter
    }

    pub fn start(&mut self, request: TransferRequest) -> (started: Result<TransferJobId, TransferError>)
        ensures
            final(self).calls() == old(self).calls().push(TransferCall::Start(request@)),
            !request_within_bounds(request@) ==> started == Err::<TransferJobId, TransferError>(
                TransferError { code: TransferFailureCode::TooLarge },
            ),
    {
        let ghost view = request@;
        let started = self.adapter.start(request);
        proof {
            self.calls@ = self.calls@.push(TransferCall::Start(view));
        }
        started
    }

    pub fn poll(&mut self, job: TransferJobId) -> (state: TransferJobState)
        ensures
            final(self).calls() == old(self).calls().push(TransferCall::Poll(job)),
    {
        let state = self.adapter.poll(job);
        proof {
            self.calls@ = self.calls@.push(TransferCall::Poll(job));
        }
        state
    }

    pub fn abandon(&mut self, job: TransferJobId) -> (released: bool)
        ensures
            final(self).calls() == old(self).calls().push(TransferCall::Abandon(job)),
    {
        let released = self.adapter.abandon(job);
        proof {
            self.calls@ = self.calls@.push(TransferCall::Abandon(job));
        }
        released
    }
}

/// How [`ScriptedTransfer`] answers its next job.
#[derive(Clone, Copy, Debug, PartialEq, Eq, Structural)]
pub enum ScriptedReply {
    /// A handoff completes with this outcome. An import completes with the
    /// scripted import bytes, or as cancelled when none are scripted.
    Complete(HandoffOutcome),
    /// The user cancels.
    Cancel,
    /// The job completes with this failure.
    Fail(TransferFailureCode),
    /// `start` itself refuses with this failure.
    Refuse(TransferFailureCode),
    /// The job completes with an outcome of the wrong shape.
    WrongShape,
    /// The adapter forgets the job, so polling it answers `Unknown`.
    Forget,
}

/// One export the scripted adapter accepted.
#[derive(Debug, PartialEq, Eq)]
pub struct ScriptedHandoff {
    pub kind: TransferKind,
    pub suggested_name: SuggestedName,
    pub bytes: Vec<u8>,
}

/// The contents of a [`ScriptedHandoff`].
pub struct ScriptedHandoffView {
    pub kind: TransferKind,
    pub suggested_name: Seq<char>,
    pub bytes: Seq<u8>,
}

impl View for ScriptedHandoff {
    type V = ScriptedHandoffView;

    open spec fn view(&self) -> ScriptedHandoffView {
        ScriptedHandoffView {
            kind: self.kind,
            suggested_name: self.suggested_name@,
            bytes: self.bytes@,
        }
    }
}

impl ScriptedHandoff {
    fn duplicate(&self) -> (copy: ScriptedHandoff)
        ensures
            copy@ == self@,
    {
        ScriptedHandoff {
            kind: self.kind,
            suggested_name: self.suggested_name.clone(),
            bytes: copy_bytes(&self.bytes),
        }
    }
}

/// The job the scripted adapter holds.
#[derive(Debug)]
struct ScriptedJob {
    id: TransferJobId,
    request: TransferRequest,
    reply: ScriptedReply,
    polls_left: u32,
}

/// The contents of the job the scripted adapter holds.
pub struct ScriptedJobView {
    pub id: TransferJobId,
    pub request: TransferRequestView,
    pub reply: ScriptedReply,
    pub polls_left: u32,
}

/// The bytes a wrong-shaped answer to a handoff carries.
pub open spec fn wrong_shape_bytes() -> Seq<u8> {
    seq![123u8, 125u8]
}

/// The terminal answer the scripted adapter gives a job whose polls have run
/// out, or `None` when it forgets the job.
pub open spec fn scripted_outcome(
    reply: ScriptedReply,
    request: TransferRequestView,
    import_bytes: Option<Seq<u8>>,
) -> Option<Result<TransferOutcomeView, TransferError>> {
    match reply {
        ScriptedReply::Forget => None,
        ScriptedReply::Cancel => Some(Ok(TransferOutcomeView::Cancelled)),
        ScriptedReply::Fail(code) => Some(Err(TransferError { code })),
        ScriptedReply::Refuse(code) => Some(Err(TransferError { code })),
        ScriptedReply::Complete(outcome) => match request {
            TransferRequestView::HandOffExport { .. } => Some(
                Ok(TransferOutcomeView::ExportHandedOff(outcome)),
            ),
            TransferRequestView::ChooseImport { kind, max_bytes } => match import_bytes {
                None => Some(Ok(TransferOutcomeView::Cancelled)),
                Some(bytes) => if bytes.len() > max_bytes {
                    Some(Err(TransferError { code: TransferFailureCode::TooLarge }))
                } else {
                    Some(Ok(TransferOutcomeView::ImportChosen { kind, bytes }))
                },
            },
        },
        ScriptedReply::WrongShape => match request {
            TransferRequestView::HandOffExport { kind, .. } => Some(
                Ok(TransferOutcomeView::ImportChosen { kind, bytes: wrong_shape_bytes() }),
            ),
            TransferRequestView::ChooseImport { .. } => Some(
                Ok(TransferOutcomeView::ExportHandedOff(HandoffOutcome::DownloadStarted)),
            ),
        },
    }
}

/// The test adapter: a deterministic in-memory [`TransferAdapter`] that
/// touches no platform API.
#[derive(Debug)]
pub struct ScriptedTransfer {
    replies: VecDeque<ScriptedReply>,
    default_reply: ScriptedReply,
    import_bytes: Option<Vec<u8>>,
    pending_polls: u32,
    next_job: u64,
    active: Option<ScriptedJob>,
    started: Vec<TransferRequest>,
    handed_off: Vec<ScriptedHandoff>,
    abandoned: usize,
}

impl ScriptedTransfer {
    /// The replies queued for the next jobs.
    pub closed spec fn queued_replies(&self) -> Seq<ScriptedReply> {
        self.replies@
    }

    /// The reply for every job with nothing queued.
    pub closed spec fn fallback_reply(&self) -> ScriptedReply {
        self.default_reply
    }

    /// The file an import "chooses".
    pub closed spec fn scripted_import(&self) -> Option<Seq<u8>> {
        match self.import_bytes {
            Some(bytes) => Some(bytes@),
            None => None,
        }
    }

    /// How many polls answer `Pending` before a new job completes.
    pub closed spec fn pending_poll_count(&self) -> u32 {
        self.pending_polls
    }

    /// The identifier the next accepted job receives.
    pub closed spec fn next_job_id(&self) -> u64 {
        self.next_job
    }

    /// The job the adapter holds.
    pub closed spec fn active_job(&self) -> Option<ScriptedJobView> {
        match self.active {
            Some(job) => Some(
                ScriptedJobView {
                    id: job.id,
                    request: job.request@,
                    reply: job.reply,
                    polls_left: job.polls_left,
                },
            ),
            None => None,
        }
    }

    /// Every request `start` accepted, in order.
    pub closed spec fn started_requests(&self) -> Seq<TransferRequestView> {
        self.started@.map_values(|request: TransferRequest| request@)
    }

    /// Every export that completed as handed off, in order.
    pub closed spec fn handoffs(&self) -> Seq<ScriptedHandoffView> {
        self.handed_off@.map_values(|handoff: ScriptedHandoff| handoff@)
    }

    /// How many live jobs were abandoned.
    pub closed spec fn abandoned_count(&self) -> nat {
        self.abandoned as nat
    }

    /// Queues the reply for the next job; later jobs use the default.
    pub fn push_reply(&mut self, reply: ScriptedReply)
        ensures
            final(self).queued_replies() == old(self).queued_replies().push(reply),
            final(self).fallback_reply() == old(self).fallback_reply(),
            final(self).scripted_import() == old(self).scripted_import(),
            final(self).pending_poll_count() == old(self).pending_poll_count(),
            final(self).next_job_id() == old(self).next_job_id(),
            final(self).active_job() == old(self).active_job(),
            final(self).started_requests() == old(self).started_requests(),
            final(self).handoffs() == old(self).handoffs(),
            final(self).abandoned_count() == old(self).abandoned_count(),
    {
        self.replies.push_back(reply);
    }

    /// The reply for every job with nothing queued.
    pub fn set_default_reply(&mut self, reply: ScriptedReply)
        ensures
            final(self).fallback_reply() == reply,
            final(self).queued_replies() == old(self).queued_replies(),
            final(self).scripted_import() == old(self).scripted_import(),
            final(self).pending_poll_count() == old(self).pending_poll_count(),
            final(self).next_job_id() == old(self).next_job_id(),
            final(self).active_job() == old(self).active_job(),
            final(self).started_requests() == old(self).started_requests(),
            final(self).handoffs() == old(self).handoffs(),
            final(self).abandoned_count() == old(self).abandoned_count(),
    {
        self.default_reply = reply;
    }

    /// The file an import "chooses". `None` makes a completing import cancel.
    pub fn set_import_bytes(&mut self, bytes: Option<Vec<u8>>)
        ensures
            final(self).scripted_import() == (match bytes {
                Some(b) => Some(b@),
                None => None::<Seq<u8>>,
            }),
            final(self).queued_replies() == old(self).queued_replies(),
            final(self).fallback_reply() == old(self).fallback_reply(),
            final(self).pending_poll_count() == old(self).pending_poll_count(),
            final(self).next_job_id() == old(self).next_job_id(),
            final(self).active_job() == old(self).active_job(),
            final(self).started_requests() == old(self).started_requests(),
            final(self).handoffs() == old(self).handoffs(),
            final(self).abandoned_count() == old(self).abandoned_count(),
    {
        self.import_bytes = bytes;
    }

    /// How many polls answer `Pending` before a job completes.
    pub fn set_pending_polls(&mut self, polls: u32)
        ensures
            final(self).pending_poll_count() == polls,
            final(self).queued_replies() == old(self).queued_replies(),
            final(self).fallback_reply() == old(self).fallback_reply(),
            final(self).scripted_import() == old(self).scripted_import(),
            final(self).next_job_id() == old(self).next_job_id(),
            final(self).active_job() == old(self).active_job(),
            final(self).started_requests() == old(self).started_requests(),
            final(self).handoffs() == old(self).handoffs(),
            final(self).abandoned_count() == old(self).abandoned_count(),
    {
        self.pending_polls = polls;
    }

    /// Every request `start` accepted, in order.
    pub fn started(&self) -> (started: Vec<TransferRequest>)
        ensures
            started@.map_values(|request: TransferRequest| request@) == self.started_requests(),
    {
        let mut copy: Vec<TransferRequest> = Vec::new();
        let mut index: usize = 0;
        while index < self.started.len()
            invariant
                index <= self.started.len(),
                copy@.len() == index,
                forall|i: int| 0 <= i < index ==> #[trigger] copy@[i]@ == self.started@[i]@,
            decreases self.started.len() - index,
        {
            copy.push(self.started[index].duplicate());
            index = index + 1;
        }
        assert(copy@.map_values(|request: TransferRequest| request@) =~= self.started_requests());
        copy
    }

    /// Every export that completed as handed off, in order.
    pub fn handed_off(&self) -> (handed_off: Vec<ScriptedHandoff>)
        ensures
            handed_off@.map_values(|handoff: ScriptedHandoff| handoff@) == self.handoffs(),
    {
        let mut copy: Vec<ScriptedHandoff> = Vec::new();
        let mut index: usize = 0;
        while index < self.handed_off.len()
            invariant
                index <= self.handed_off.len(),
                copy@.len() == index,
                forall|i: int| 0 <= i < index ==> #[trigger] copy@[i]@ == self.handed_off@[i]@,
            decreases self.handed_off.len() - index,
        {
            copy.push(self.handed_off[index].duplicate());
            index = index + 1;
        }
        assert(copy@.map_values(|handoff: ScriptedHandoff| handoff@) =~= self.handoffs());
        copy
    }

    /// How many live jobs were abandoned.
    pub fn abandoned(&self) -> (count: usize)
        ensures
            count as nat == self.abandoned_count(),
    {
        self.abandoned
    }

    /// Whether a job is outstanding.
    pub fn busy(&self) -> (busy: bool)
        ensures
            busy == self.active_job() is Some,
    {
        self.active.is_some()
    }
}

impl Default for ScriptedTransfer {
    fn default() -> (adapter: Self)
        ensures
            adapter.queued_replies() == Seq::<ScriptedReply>::empty(),
            adapter.fallback_reply() == ScriptedReply::Complete(HandoffOutcome::DownloadStarted),
            adapter.scripted_import() == None::<Seq<u8>>,
            adapter.pending_poll_count() == 0,
            adapter.next_job_id() == 0,
            adapter.active_job() == None::<ScriptedJobView>,
            adapter.started_requests() == Seq::<TransferRequestView>::empty(),
            adapter.handoffs() == Seq::<ScriptedHandoffView>::empty(),
            adapter.abandoned_count() == 0,
    {
        let adapter = ScriptedTransfer {
            replies: VecDeque::new(),
            default_reply: ScriptedReply::Complete(HandoffOutcome::DownloadStarted),
            import_bytes: None,
            pending_polls: 0,
            next_job: 0,
            active: None,
            started: Vec::new(),
            handed_off: Vec::new(),
            abandoned: 0,
        };
        assert(adapter.started_requests() =~= Seq::<TransferRequestView>::empty());
        assert(adapter.handoffs() =~= Seq::<ScriptedHandoffView>::empty());
        adapter
    }
}

impl ScriptedTransfer {
    /// The fields a start, abandon or poll leaves alone: the script itself.
    pub open spec fn same_script(&self, other: &ScriptedTransfer) -> bool {
        &&& self.fallback_reply() == other.fallback_reply()
        &&& self.scripted_import() == other.scripted_import()
        &&& self.pending_poll_count() == other.pending_poll_count()
    }

    /// Nothing observable changed.
    pub open spec fn unchanged(&self, other: &ScriptedTransfer) -> bool {
        &&& self.same_script(other)
        &&& self.queued_replies() == other.queued_replies()
        &&& self.next_job_id() == other.next_job_id()
        &&& self.active_job() == other.active_job()
        &&& self.started_requests() == other.started_requests()
        &&& self.handoffs() == other.handoffs()
        &&& self.abandoned_count() == other.abandoned_count()
    }

    /// The reply the next job receives.
    pub open spec fn next_reply(&self) -> ScriptedReply {
        if self.queued_replies().len() > 0 {
            self.queued_replies()[0]
        } else {
            self.fallback_reply()
        }
    }

    /// The queue once the next job's reply is taken from it.
    pub open spec fn remaining_replies(&self) -> Seq<ScriptedReply> {
        if self.queued_replies().len() > 0 {
            self.queued_replies().drop_first()
        } else {
            self.queued_replies()
        }
    }

    /// What `start` does with `request`, as the new adapter and the result.
    pub open spec fn start_spec(
        &self,
        request: TransferRequestView,
        after: &ScriptedTransfer,
        started: Result<TransferJobId, TransferError>,
    ) -> bool {
        if !request_within_bounds(request) {
            started == Err::<TransferJobId, TransferError>(
                TransferError { code: TransferFailureCode::TooLarge },
            ) && after.unchanged(self)
        } else if self.active_job() is Some {
            started == Err::<TransferJobId, TransferError>(
                TransferError { code: TransferFailureCode::Busy },
            ) && after.unchanged(self)
        } else {
            &&& after.same_script(self)
            &&& after.queued_replies() == self.remaining_replies()
            &&& after.handoffs() == self.handoffs()
            &&& after.abandoned_count() == self.abandoned_count()
            &&& match self.next_reply() {
                ScriptedReply::Refuse(code) => {
                    &&& started == Err::<TransferJobId, TransferError>(TransferError { code })
                    &&& after.next_job_id() == self.next_job_id()
                    &&& after.active_job() == self.active_job()
                    &&& after.started_requests() == self.started_requests()
                },
                _ => if self.next_job_id() == u64::MAX {
                    &&& started == Err::<TransferJobId, TransferError>(
                        TransferError { code: TransferFailureCode::Exhausted },
                    )
                    &&& after.next_job_id() == self.next_job_id()
                    &&& after.active_job() == self.active_job()
                    &&& after.started_requests() == self.started_requests()
                } else {
                    &&& started == Ok::<TransferJobId, TransferError>(
                        TransferJobId(self.next_job_id()),
                    )
                    &&& after.next_job_id() == self.next_job_id() + 1
                    &&& after.started_requests() == self.started_requests().push(request)
                    &&& after.active_job() == Some(
                        ScriptedJobView {
                            id: TransferJobId(self.next_job_id()),
                            request,
                            reply: self.next_reply(),
                            polls_left: self.pending_poll_count(),
                        },
                    )
                },
            }
        }
    }

    /// What `poll` answers for `job` and how the adapter changes.
    pub open spec fn poll_spec(
        &self,
        job: TransferJobId,
        after: &ScriptedTransfer,
        state: TransferJobStateView,
    ) -> bool {
        match self.active_job() {
            Some(active) => if active.id != job {
                state == TransferJobStateView::Unknown && after.unchanged(self)
            } else if active.polls_left > 0 {
                &&& state == TransferJobStateView::Pending
                &&& after.active_job() == Some(
                    ScriptedJobView { polls_left: (active.polls_left - 1) as u32, ..active },
                )
                &&& after.same_script(self)
                &&& after.queued_replies() == self.queued_replies()
                &&& after.next_job_id() == self.next_job_id()
                &&& after.started_requests() == self.started_requests()
                &&& after.handoffs() == self.handoffs()
                &&& after.abandoned_count() == self.abandoned_count()
            } else {
                &&& state == (match scripted_outcome(
                    active.reply,
                    active.request,
                    self.scripted_import(),
                ) {
                    Some(result) => TransferJobStateView::Complete(result),
                    None => TransferJobStateView::Unknown,
                })
                &&& after.active_job() == None::<ScriptedJobView>
                &&& after.handoffs() == (match (active.reply, active.request) {
                    (
                        ScriptedReply::Complete(_),
                        TransferRequestView::HandOffExport { kind, suggested_name, bytes },
                    ) => self.handoffs().push(ScriptedHandoffView { kind, suggested_name, bytes }),
                    _ => self.handoffs(),
                })
                &&& after.same_script(self)
                &&& after.queued_replies() == self.queued_replies()
                &&& after.next_job_id() == self.next_job_id()
                &&& after.started_requests() == self.started_requests()
                &&& after.abandoned_count() == self.abandoned_count()
            },
            None => state == TransferJobStateView::Unknown && after.unchanged(self),
        }
    }
}

impl TransferAdapter for ScriptedTransfer {
    fn start(&mut self, request: TransferRequest) -> (started: Result<TransferJobId, TransferError>)
        ensures
            old(self).start_spec(request@, final(self), started),
    {
        let ghost request_view = request@;
        match request.check() {
            Ok(()) => {},
            Err(error) => return Err(error),
        }
        if self.active.is_some() {
            return Err(TransferError::new(TransferFailureCode::Busy));
        }
        let reply = match self.replies.pop_front() {
            Some(reply) => reply,
            None => self.default_reply,
        };
        if let ScriptedReply::Refuse(code) = reply {
            return Err(TransferError::new(code));
        }
        if self.next_job == u64::MAX {
            return Err(TransferError::new(TransferFailureCode::Exhausted));
        }
        let id = TransferJobId(self.next_job);
        self.next_job = self.next_job + 1;
        self.started.push(request.duplicate());
        let polls_left = self.pending_polls;
        self.active = Some(ScriptedJob { id, request, reply, polls_left });
        proof {
            assert(self.started_requests() =~= old(self).started_requests().push(request_view));
        }
        Ok(id)
    }

    fn abandon(&mut self, job: TransferJobId) -> (released: bool)
        ensures
            match old(self).active_job() {
                Some(active) => if active.id == job {
                    &&& released
                    &&& final(self).active_job() == None::<ScriptedJobView>
                    &&& final(self).abandoned_count() == (if old(self).abandoned_count()
                        < usize::MAX {
                        old(self).abandoned_count() + 1
                    } else {
                        old(self).abandoned_count()
                    })
                    &&& final(self).same_script(old(self))
                    &&& final(self).queued_replies() == old(self).queued_replies()
                    &&& final(self).next_job_id() == old(self).next_job_id()
                    &&& final(self).started_requests() == old(self).started_requests()
                    &&& final(self).handoffs() == old(self).handoffs()
                } else {
                    !released && final(self).unchanged(old(self))
                },
                None => !released && final(self).unchanged(old(self)),
            },
    {
        let matches = match &self.active {
            Some(active) => active.id == job,
            None => false,
        };
        if matches {
            self.active = None;
            if self.abandoned < usize::MAX {
                self.abandoned = self.abandoned + 1;
            }
            true
        } else {
            false
        }
    }

    fn poll(&mut self, job: TransferJobId) -> (state: TransferJobState)
        ensures
            old(self).poll_spec(job, final(self), state@),
    {
        let waiting = match &self.active {
            Some(active) => if active.id != job {
                return TransferJobState::Unknown;
            } else {
                active.polls_left > 0
            },
            None => return TransferJobState::Unknown,
        };
        if waiting {
            let mut active = self.active.take().unwrap();
            active.polls_left = active.polls_left - 1;
            self.active = Some(active);
            return TransferJobState::Pending;
        }
        let active = self.active.take().unwrap();
        let ScriptedJob { request, reply, .. } = active;
        let result = match reply {
            ScriptedReply::Forget => return TransferJobState::Unknown,
            ScriptedReply::Cancel => Ok(TransferOutcome::Cancelled),
            ScriptedReply::Fail(code) => Err(TransferError::new(code)),
            ScriptedReply::Refuse(code) => Err(TransferError::new(code)),
            ScriptedReply::Complete(outcome) => match request {
                TransferRequest::HandOffExport { kind, suggested_name, bytes } => {
                    let ghost old_handoffs = self.handoffs();
                    let handoff = ScriptedHandoff { kind, suggested_name, bytes };
                    let ghost handoff_view = handoff@;
                    self.handed_off.push(handoff);
                    proof {
                        assert(self.handoffs() =~= old_handoffs.push(handoff_view));
                    }
                    Ok(TransferOutcome::ExportHandedOff(outcome))
                },
                TransferRequest::ChooseImport { kind, max_bytes } => match &self.import_bytes {
                    None => Ok(TransferOutcome::Cancelled),
                    Some(bytes) => if bytes.len() > max_bytes {
                        Err(TransferError::new(TransferFailureCode::TooLarge))
                    } else {
                        Ok(TransferOutcome::ImportChosen { kind, bytes: copy_bytes(bytes) })
                    },
                },
            },
            ScriptedReply::WrongShape => match request {
                TransferRequest::HandOffExport { kind, .. } => {
                    let mut bytes: Vec<u8> = Vec::new();
                    bytes.push(123u8);
                    bytes.push(125u8);
                    proof {
                        assert(bytes@ =~= wrong_shape_bytes());
                    }
                    Ok(TransferOutcome::ImportChosen { kind, bytes })
                },
                TransferRequest::ChooseImport { .. } => Ok(
                    TransferOutcome::ExportHandedOff(HandoffOutcome::DownloadStarted),
                ),
            },
        };
        TransferJobState::Complete(result)
    }
}

} // verus!
