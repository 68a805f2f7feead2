//! The vocabulary the Workshop Library speaks with Workshop storage: slot
//! identities, generations, catalog hashes, loaded slots and the store's
//! poll-driven job protocol.

use vstd::prelude::*;
use vstd::string::*;

verus! {

/// The largest Workshop archive storage accepts.
pub const MAX_WORKSHOP_ARCHIVE_BYTES: usize = 16_777_216;

/// The largest content pack storage accepts.
pub const MAX_WORKSHOP_PACK_BYTES: usize = 4_194_304;

/// The longest slot name, in characters.
pub const MAX_SLOT_NAME_CHARS: usize = 64;

#[derive(Clone, Copy, Debug, PartialEq, Eq, Structural)]
pub struct SlotId(pub u64);

#[derive(Clone, Copy, Debug, PartialEq, Eq, Structural)]
pub struct SaveGeneration(pub u64);

#[derive(Clone, Copy, Debug, PartialEq, Eq, Structural)]
pub struct StoreJobId(pub u64);

/// The content hash of a catalog pack.
#[derive(Clone, Copy, Debug, PartialEq, Eq)]
pub struct CatalogHash(pub [u8; 32]);

/// Whether two catalog hashes hold the same bytes.
pub open spec fn same_hash(a: CatalogHash, b: CatalogHash) -> bool {
    a.0@ == b.0@
}

impl CatalogHash {
    /// Compares two hashes byte by byte.
    pub fn matches(&self, other: &CatalogHash) -> (same: bool)
        ensures
            same == same_hash(*self, *other),
    {
        let mut index: usize = 0;
        while index < 32
            invariant
                index <= 32,
                forall|i: int| 0 <= i < index ==> self.0@[i] == other.0@[i],
            decreases 32 - index,
        {
            if self.0[index] != other.0[index] {
                return false;
            }
            index = index + 1;
        }
        assert(self.0@ =~= other.0@);
        true
    }
}

/// A character a slot name may hold: printable ASCII.
pub open spec fn slot_name_char(c: char) -> bool {
    ' ' <= c && c <= '~'
}

/// A name a slot may carry: one to [`MAX_SLOT_NAME_CHARS`] printable ASCII
/// characters.
pub open spec fn valid_slot_name(name: Seq<char>) -> bool {
    &&& 0 < name.len() <= MAX_SLOT_NAME_CHARS
    &&& forall|i: int| 0 <= i < name.len() ==> slot_name_char(#[trigger] name[i])
}

/// A validated slot name.
#[derive(Debug, PartialEq, Eq)]
pub struct SlotName(String);

impl Clone for SlotName {
    fn clone(&self) -> (copy: Self)
        ensures
            copy == *self,
    {
        proof {
            use_type_invariant(self);
        }
        SlotName(self.0.clone())
    }
}

impl View for SlotName {
    type V = Seq<char>;

    closed spec fn view(&self) -> Seq<char> {
        self.0@
    }
}

impl SlotName {
    #[verifier::type_invariant]
    closed spec fn wf(self) -> bool {
        valid_slot_name(self.0@)
    }

    /// Accepts `name` exactly when it is a valid slot name.
    pub fn new(name: &str) -> (slot_name: Option<SlotName>)
        ensures
            slot_name is Some <==> valid_slot_name(name@),
            slot_name matches Some(n) ==> n@ == name@,
    {
        let length = name.unicode_len();
        if length == 0 || length > MAX_SLOT_NAME_CHARS {
            return None;
        }
        let mut index: usize = 0;
        while index < length
            invariant
                length == name@.len(),
                index <= length,
                forall|i: int| 0 <= i < index ==> slot_name_char(#[trigger] name@[i]),
            decreases length - index,
        {
            let c = name.get_char(index);
            if !(' ' <= c && c <= '~') {
                return None;
            }
            index = index + 1;
        }
        let owned = String::from_str(name);
        assert(valid_slot_name(owned@));
        Some(SlotName(owned))
    }

    pub fn as_str(&self) -> (name: &str)
        ensures
            name@ == self@,
            valid_slot_name(name@),
    {
        proof {
            use_type_invariant(self);
        }
        self.0.as_str()
    }
}

/// A slot as storage read it: the generation that was loaded, the slot's
/// current head, and the canonical archive bytes.
#[derive(Clone, Debug, PartialEq, Eq)]
pub struct LoadedSlot {
    pub slot: SlotId,
    pub name: SlotName,
    pub generation: SaveGeneration,
    pub head_generation: SaveGeneration,
    pub recovered_from_previous: bool,
    pub archived: bool,
    pub archive: Vec<u8>,
}

/// One row of a slot listing.
#[derive(Clone, Debug, PartialEq, Eq)]
pub struct SlotSummary {
    pub id: SlotId,
    pub name: SlotName,
    pub head_generation: SaveGeneration,
    pub archived: bool,
    pub selected_for_continue: bool,
}

/// A slot listing and the slot the Continue marker names.
#[derive(Clone, Debug, PartialEq, Eq)]
pub struct SlotList {
    pub slots: Vec<SlotSummary>,
    pub selected_continue: Option<SlotId>,
}

/// One request to Workshop storage.
#[derive(Clone, Debug, PartialEq, Eq)]
pub enum WorkshopStoreRequest {
    ListSlots,
    LoadSlot { slot: SlotId },
    LoadPreviousGeneration { slot: SlotId, expected_head_generation: SaveGeneration },
    GetPack { hash: CatalogHash },
    PutPack { canonical_pack: Vec<u8> },
    CreateSlot { name: SlotName, archive: Vec<u8> },
    CommitSlot { slot: SlotId, expected_generation: SaveGeneration, archive: Vec<u8> },
    SelectContinue { slot: SlotId, expected_generation: SaveGeneration },
    RenameSlot { slot: SlotId, name: SlotName },
    ArchiveSlot { slot: SlotId },
    UnarchiveSlot { slot: SlotId },
}

/// The contents of a [`WorkshopStoreRequest`].
pub enum StoreRequestView {
    ListSlots,
    LoadSlot { slot: SlotId },
    LoadPreviousGeneration { slot: SlotId, expected_head_generation: SaveGeneration },
    GetPack { hash: CatalogHash },
    PutPack { canonical_pack: Seq<u8> },
    CreateSlot { name: Seq<char>, archive: Seq<u8> },
    CommitSlot { slot: SlotId, expected_generation: SaveGeneration, archive: Seq<u8> },
    SelectContinue { slot: SlotId, expected_generation: SaveGeneration },
    RenameSlot { slot: SlotId, name: Seq<char> },
    ArchiveSlot { slot: SlotId },
    UnarchiveSlot { slot: SlotId },
}

impl View for WorkshopStoreRequest {
    type V = StoreRequestView;

    open spec fn view(&self) -> StoreRequestView {
        match self {
            WorkshopStoreRequest::ListSlots => StoreRequestView::ListSlots,
            WorkshopStoreRequest::LoadSlot { slot } => StoreRequestView::LoadSlot { slot: *slot },
            WorkshopStoreRequest::LoadPreviousGeneration { slot, expected_head_generation } =>
                StoreRequestView::LoadPreviousGeneration {
                slot: *slot,
                expected_head_generation: *expected_head_generation,
            },
            WorkshopStoreRequest::GetPack { hash } => StoreRequestView::GetPack { hash: *hash },
            WorkshopStoreRequest::PutPack { canonical_pack } => StoreRequestView::PutPack {
                canonical_pack: canonical_pack@,
            },
            WorkshopStoreRequest::CreateSlot { name, archive } => StoreRequestView::CreateSlot {
                name: name@,
                archive: archive@,
            },
            WorkshopStoreRequest::CommitSlot { slot, expected_generation, archive } =>
                StoreRequestView::CommitSlot {
                slot: *slot,
                expected_generation: *expected_generation,
                archive: archive@,
            },
            WorkshopStoreRequest::SelectContinue { slot, expected_generation } =>
                StoreRequestView::SelectContinue {
                slot: *slot,
                expected_generation: *expected_generation,
            },
            WorkshopStoreRequest::RenameSlot { slot, name } => StoreRequestView::RenameSlot {
                slot: *slot,
                name: name@,
            },
            WorkshopStoreRequest::ArchiveSlot { slot } => StoreRequestView::ArchiveSlot {
                slot: *slot,
            },
            WorkshopStoreRequest::UnarchiveSlot { slot } => StoreRequestView::UnarchiveSlot {
                slot: *slot,
            },
        }
    }
}

fn copy_byte_vec(bytes: &Vec<u8>) -> (copy: Vec<u8>)
    ensures
        copy@ == bytes@,
{
    let mut copy: Vec<u8> = Vec::new();
    let mut index: usize = 0;
    while index < bytes.len()
        invariant
            index <= bytes.len(),
            copy@ == bytes@.subrange(0, index as int),
        decreases bytes.len() - index,
    {
        copy.push(bytes[index]);
        proof {
            assert(copy@ =~= bytes@.subrange(0, index + 1));
        }
        index = index + 1;
    }
    assert(bytes@.subrange(0, bytes.len() as int) =~= bytes@);
    copy
}

impl WorkshopStoreRequest {
    /// Copies the request, field by field.
    pub fn duplicate(&self) -> (copy: WorkshopStoreRequest)
        ensures
            copy@ == self@,
    {
        match self {
            WorkshopStoreRequest::ListSlots => WorkshopStoreRequest::ListSlots,
            WorkshopStoreRequest::LoadSlot { slot } => WorkshopStoreRequest::LoadSlot { slot: *slot },
            WorkshopStoreRequest::LoadPreviousGeneration { slot, expected_head_generation } =>
                WorkshopStoreRequest::LoadPreviousGeneration {
                slot: *slot,
                expected_head_generation: *expected_head_generation,
            },
            WorkshopStoreRequest::GetPack { hash } => WorkshopStoreRequest::GetPack { hash: *hash },
            WorkshopStoreRequest::PutPack { canonical_pack } => WorkshopStoreRequest::PutPack {
                canonical_pack: copy_byte_vec(canonical_pack),
            },
            WorkshopStoreRequest::CreateSlot { name, archive } => WorkshopStoreRequest::CreateSlot {
                name: name.clone(),
                archive: copy_byte_vec(archive),
            },
            WorkshopStoreRequest::CommitSlot { slot, expected_generation, archive } =>
                WorkshopStoreRequest::CommitSlot {
                slot: *slot,
                expected_generation: *expected_generation,
                archive: copy_byte_vec(archive),
            },
            WorkshopStoreRequest::SelectContinue { slot, expected_generation } =>
                WorkshopStoreRequest::SelectContinue {
                slot: *slot,
                expected_generation: *expected_generation,
            },
            WorkshopStoreRequest::RenameSlot { slot, name } => WorkshopStoreRequest::RenameSlot {
                slot: *slot,
                name: name.clone(),
            },
            WorkshopStoreRequest::ArchiveSlot { slot } => WorkshopStoreRequest::ArchiveSlot {
                slot: *slot,
            },
            WorkshopStoreRequest::UnarchiveSlot { slot } => WorkshopStoreRequest::UnarchiveSlot {
                slot: *slot,
            },
        }
    }
}

/// A successful storage answer.
#[derive(Clone, Debug, PartialEq, Eq)]
pub enum WorkshopStoreResult {
    Slots(SlotList),
    SlotLoaded(LoadedSlot),
    PackLoaded { hash: CatalogHash, canonical_pack: Vec<u8> },
    PackStored { hash: CatalogHash },
    SlotCreated { slot: SlotId, generation: SaveGeneration },
    SlotCommitted { slot: SlotId, generation: SaveGeneration },
    ContinueSelected { slot: SlotId, generation: SaveGeneration },
    SlotRenamed { slot: SlotId },
    SlotArchived { slot: SlotId },
    SlotUnarchived { slot: SlotId },
}

/// A refused storage request.
#[derive(Clone, Debug, PartialEq, Eq)]
pub enum WorkshopStoreError {
    /// A compare-and-swap found a different head generation.
    StaleGeneration { slot: SlotId, expected: SaveGeneration, head: SaveGeneration },
    /// Storage refused or failed the request, for the reason given.
    Rejected(String),
}

/// The text a storage failure is reported with.
pub open spec fn store_error_text(error: WorkshopStoreError) -> Seq<char> {
    match error {
        WorkshopStoreError::StaleGeneration { .. } => "the slot changed before the request completed"@,
        WorkshopStoreError::Rejected(message) => message@,
    }
}

impl WorkshopStoreError {
    /// Copies the failure.
    pub fn duplicate(&self) -> (copy: WorkshopStoreError)
        ensures
            copy == *self,
    {
        match self {
            WorkshopStoreError::StaleGeneration { slot, expected, head } =>
                WorkshopStoreError::StaleGeneration { slot: *slot, expected: *expected, head: *head },
            WorkshopStoreError::Rejected(message) => WorkshopStoreError::Rejected(message.clone()),
        }
    }

    /// The text this failure is reported with.
    pub fn into_message(self) -> (message: String)
        ensures
            message@ == store_error_text(self),
    {
        match self {
            WorkshopStoreError::StaleGeneration { .. } => String::from_str(
                "the slot changed before the request completed",
            ),
            WorkshopStoreError::Rejected(message) => message,
        }
    }
}

/// Workshop storage as the client drives it: a bounded set of jobs, each
/// started once, polled until it completes, and answered at most once.
/// Abandoning a job drops its outcome, not its work, and reports whether a
/// live job was released.
pub trait WorkshopStore {
    fn start(&mut self, request: WorkshopStoreRequest) -> Result<StoreJobId, WorkshopStoreError>;

    fn poll(&mut self, job: StoreJobId) -> StoreJobState;

    fn abandon(&mut self, job: StoreJobId) -> bool;
}

/// One call the client made to Workshop storage.
pub enum StoreCall {
    Start(StoreRequestView),
    Poll(StoreJobId),
    Abandon(StoreJobId),
}

/// Workshop storage together with the calls the client made to it, in
/// order. Every call the library makes goes through this handle, so a
/// contract can say which request was started, which job was polled and
/// which was abandoned. The storage itself stays reachable for setting up
/// and inspecting it; calls made on it directly are not recorded.
pub struct LoggedStore<S> {
    pub store: S,
    calls: Ghost<Seq<StoreCall>>,
}

impl<S> LoggedStore<S> {
    /// The calls made through this handle so far.
    pub closed spec fn calls(&self) -> Seq<StoreCall> {
        self.calls@
    }
}

impl<S: WorkshopStore> LoggedStore<S> {
    pub fn new(store: S) -> (logged: Self)
        ensures
            logged.calls() == Seq::<StoreCall>::empty(),
    {
        LoggedStore { store, calls: Ghost(Seq::empty()) }
    }

    /// Starts `request` in storage.
    pub fn start(&mut self, request: WorkshopStoreRequest) -> (started: Result<StoreJobId, WorkshopStoreError>)
        ensures
            final(self).calls() == old(self).calls().push(StoreCall::Start(request@)),
    {
        let ghost view = request@;
        let started = self.store.start(request);
        proof {
            self.calls@ = self.calls@.push(StoreCall::Start(view));
        }
        started
    }

    /// Polls `job` in storage.
    pub fn poll(&mut self, job: StoreJobId) -> (state: StoreJobState)
        ensures
            final(self).calls() == old(self).calls().push(StoreCall::Poll(job)),
    {
        let state = self.store.poll(job);
        proof {
            self.calls@ = self.calls@.push(StoreCall::Poll(job));
        }
        state
    }

    /// Abandons `job` in storage.
    pub fn abandon(&mut self, job: StoreJobId) -> (released: bool)
        ensures
            final(self).calls() == old(self).calls().push(StoreCall::Abandon(job)),
    {
        let released = self.store.abandon(job);
        proof {
            self.calls@ = self.calls@.push(StoreCall::Abandon(job));
        }
        released
    }
}

/// Where one storage job stands.
#[derive(Debug, PartialEq, Eq)]
pub enum StoreJobState {
    Pending,
    Complete(Result<WorkshopStoreResult, WorkshopStoreError>),
    /// The job was never started, was already polled to completion, or was
    /// abandoned.
    Unknown,
}

} // verus!
