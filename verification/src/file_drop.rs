//! Presenter-owned file-drop bindings, offers, and transfers.
//!
//! A producer binds a surface, or its whole target, to a destination. A local drop becomes an offer
//! to the binding it hit; the producer accepts the offer as a transfer; a transfer may be advanced
//! to a new generation after its connection was lost. Every number is scoped by the session that
//! owns it, and nothing one session does reaches another session's offers.
//!
//! The files themselves stay with the caller. A source is named by a handle, and the handles whose
//! reading must stop are collected in `released`.

use vstd::prelude::*;

use crate::identity::SessionIdentity;
use crate::table::TableKey;

verus! {

/// How long a finished or cancelled drop stays known.
pub const FILE_DROP_RESULT_RETENTION_US: u64 = 60_000_000;

/// Where a producer puts dropped files.
#[derive(Debug, Clone, Copy, PartialEq, Eq, Structural)]
pub enum FileDropDestination {
    ShellCwd,
    DesktopFolder,
}

/// What a producer asks for: a destination for drops on a surface, or on its whole target where the
/// surface is zero, and the limits of each drop. No destination disables the binding.
#[derive(Debug, Clone, Copy, PartialEq, Eq, Structural)]
pub struct FileDropBinding {
    pub producer_epoch: u64,
    pub context_id: u64,
    pub surface_id: u64,
    pub surface_generation: u64,
    pub destination: Option<FileDropDestination>,
    pub maximum_file_bytes: u64,
    pub maximum_pending_offers: u64,
    pub maximum_active_transfers: u64,
    pub maximum_record_body: u32,
    pub acceptance_timeout_us: u64,
    pub idle_timeout_us: u64,
}

/// Whether a binding is in force.
#[derive(Debug, Clone, Copy, PartialEq, Eq, Structural)]
pub enum FileDropBindingState {
    Disabled,
    Enabled,
    Denied,
}

/// The presenter's answer to a binding.
#[derive(Debug, Clone, Copy, PartialEq, Eq, Structural)]
pub struct FileDropGrant {
    pub producer_epoch: u64,
    pub grant_generation: u64,
    pub context_id: u64,
    pub surface_id: u64,
    pub surface_generation: u64,
    pub state: FileDropBindingState,
    pub destination: Option<FileDropDestination>,
    pub maximum_file_bytes: u64,
    pub maximum_pending_offers: u64,
    pub maximum_active_transfers: u64,
    pub maximum_record_body: u32,
    pub acceptance_timeout_us: u64,
    pub idle_timeout_us: u64,
    pub reason: u64,
}

/// The complete identity of one drop.
#[derive(Debug, Clone, Copy, PartialEq, Eq, Structural)]
pub struct FileDropTuple {
    pub producer_epoch: u64,
    pub grant_generation: u64,
    pub context_id: u64,
    pub surface_id: u64,
    pub surface_generation: u64,
    pub drop_id: u64,
}

/// A drop offered to a producer.
#[derive(Debug, PartialEq, Eq)]
pub struct FileDropOffer {
    pub binding: FileDropTuple,
    pub suggested_name: String,
    pub declared_length: u64,
}

/// A producer's acceptance of an offer as a transfer.
#[derive(Debug, Clone, Copy, PartialEq, Eq, Structural)]
pub struct AcceptFileDrop {
    pub binding: FileDropTuple,
    pub transfer_id: u64,
    pub transfer_generation: u64,
    pub maximum_record_body: u32,
    pub initial_maximum_body_bytes: u64,
    pub initial_maximum_records: u64,
}

/// The answer to an acceptance.
#[derive(Debug, Clone, Copy, PartialEq, Eq, Structural)]
pub struct FileDropAccepted {
    pub drop_id: u64,
    pub transfer_id: u64,
    pub transfer_generation: u64,
    pub open_timeout_us: u64,
}

/// A producer's wish to continue a transfer as a new generation.
#[derive(Debug, Clone, Copy, PartialEq, Eq, Structural)]
pub struct AdvanceFileTransfer {
    pub context_id: u64,
    pub surface_id: u64,
    pub drop_id: u64,
    pub transfer_id: u64,
    pub expected_generation: u64,
    pub new_generation: u64,
    pub committed_offset: u64,
    pub maximum_body_bytes: u64,
    pub maximum_records: u64,
}

/// The answer to an advance.
#[derive(Debug, Clone, Copy, PartialEq, Eq, Structural)]
pub struct FileTransferAdvanced {
    pub transfer_id: u64,
    pub generation: u64,
    pub committed_offset: u64,
    pub open_timeout_us: u64,
}

/// A cancelled drop and why.
#[derive(Debug, Clone, Copy, PartialEq, Eq, Structural)]
pub struct CancelFileDrop {
    pub binding: FileDropTuple,
    pub reason: u64,
}

/// How a transfer ended.
#[derive(Debug, Clone, Copy, PartialEq, Eq, Structural)]
pub enum FileResultCode {
    Committed,
    Rejected,
    Cancelled,
    HashMismatch,
    IoError,
    AlreadyCommitted,
}

impl FileResultCode {
    /// Whether the file is at its destination.
    pub open spec fn is_committed(self) -> bool {
        self is Committed || self is AlreadyCommitted
    }

    pub(crate) fn committed(self) -> (r: bool)
        ensures
            r == self.is_committed(),
    {
        match self {
            FileResultCode::Committed | FileResultCode::AlreadyCommitted => true,
            _ => false,
        }
    }
}

/// The producer's report on a transfer.
#[derive(Debug, PartialEq, Eq)]
pub struct FileResult {
    pub transfer_id: u64,
    pub transfer_generation: u64,
    pub result: FileResultCode,
    pub committed_length: u64,
    pub final_name: String,
    /// The committed absolute path, where the producer may tell it.
    pub committed_path: Option<String>,
}

/// Where a drop stands.
#[derive(Debug, Clone, Copy, PartialEq, Eq, Structural)]
pub enum FileDropState {
    Offered,
    Accepted,
    Transferring,
    Committed,
    Cancelled,
    Failed,
}

/// The answer to a query for a drop.
#[derive(Debug, PartialEq, Eq)]
pub struct FileDropStatus {
    pub drop_id: u64,
    pub state: FileDropState,
    pub transfer_id: u64,
    pub generation: u64,
    pub committed_offset: u64,
    pub result: Option<FileResultCode>,
    pub final_name: String,
}

/// A producer's wish to open the connection of an accepted transfer.
#[derive(Debug, Clone, Copy, PartialEq, Eq, Structural)]
pub struct FileTransferOpen {
    pub session_id: u64,
    pub context_id: u64,
    pub surface_id: u64,
    pub producer_epoch: u64,
    pub grant_generation: u64,
    pub surface_generation: u64,
    pub drop_id: u64,
    pub transfer_id: u64,
    pub transfer_generation: u64,
    pub resume_offset: u64,
    pub maximum_record_body: u32,
    pub maximum_body_bytes: u64,
    pub maximum_records: u64,
}

/// The surface, or whole target, of a session that a binding is for.
#[derive(Debug, Clone, Copy, PartialEq, Eq)]
pub struct BindingKey {
    pub session: SessionIdentity,
    pub context_id: u64,
    pub surface_id: u64,
}

impl TableKey for BindingKey {
    fn same(&self, other: &Self) -> (r: bool) {
        self.context_id == other.context_id && self.surface_id == other.surface_id
            && self.session.same(&other.session)
    }
}

/// A drop or a transfer of a session.
#[derive(Debug, Clone, Copy, PartialEq, Eq)]
pub struct OwnedId {
    pub session: SessionIdentity,
    pub id: u64,
}

impl TableKey for OwnedId {
    fn same(&self, other: &Self) -> (r: bool) {
        self.id == other.id && self.session.same(&other.session)
    }
}

/// How far the user has agreed to copy to a binding.
#[derive(Debug, Clone, Copy, PartialEq, Eq, Structural)]
pub enum ConsentState {
    Unconfirmed,
    ConfirmOnNextDrop,
    Confirmed,
}

/// A binding in force.
#[derive(Debug, Clone, Copy, PartialEq, Eq, Structural)]
pub struct BindingEntry {
    pub binding: FileDropBinding,
    pub grant: FileDropGrant,
    pub activation: u64,
    pub consent: ConsentState,
}

/// An open local file.
#[derive(Debug, PartialEq, Eq)]
pub struct FileSource {
    pub handle: u64,
    pub length: u64,
    pub suggested_name: String,
    /// The transfer generation that may read it.
    pub generation: u64,
    pub cancelled: bool,
}

/// Why a worker must stop reading a source.
#[derive(Debug, Clone, Copy, PartialEq, Eq, Structural)]
pub enum SourceRefusal {
    Cancelled,
    StaleGeneration,
}

impl FileSource {
    /// Whether the source may still be read.
    pub fn ensure_active(&self) -> (r: Result<(), SourceRefusal>)
        ensures
            r == (if self.cancelled {
                Err::<(), SourceRefusal>(SourceRefusal::Cancelled)
            } else {
                Ok(())
            }),
    {
        if self.cancelled {
            Err(SourceRefusal::Cancelled)
        } else {
            Ok(())
        }
    }

    /// Whether a worker of this transfer generation may still read the source.
    pub fn ensure_generation(&self, generation: u64) -> (r: Result<(), SourceRefusal>)
        ensures
            r == (if self.cancelled {
                Err::<(), SourceRefusal>(SourceRefusal::Cancelled)
            } else if self.generation != generation {
                Err(SourceRefusal::StaleGeneration)
            } else {
                Ok(())
            }),
    {
        if self.cancelled {
            Err(SourceRefusal::Cancelled)
        } else if self.generation != generation {
            Err(SourceRefusal::StaleGeneration)
        } else {
            Ok(())
        }
    }

    /// Stop whoever reads the source.
    pub fn cancel(&mut self)
        ensures
            *final(self) == (FileSource { cancelled: true, ..*old(self) }),
    {
        self.cancelled = true;
    }
}

/// A drop the presenter still knows.
pub struct OfferEntry {
    pub binding: FileDropTuple,
    pub source: Option<FileSource>,
    pub deadline_us: u64,
    pub transfer: Option<u64>,
    pub terminal: Option<FileResult>,
    pub cancelled: bool,
    pub terminal_deadline_us: Option<u64>,
}

/// A drop accepted as a transfer.
#[derive(Debug, Clone, Copy, PartialEq, Eq, Structural)]
pub struct TransferEntry {
    pub drop_id: u64,
    pub context_id: u64,
    pub surface_id: u64,
    pub generation: u64,
    pub committed_offset: u64,
    pub maximum_record_body: u32,
    pub maximum_body_bytes: u64,
    pub maximum_records: u64,
    pub active: bool,
    pub deadline_us: u64,
}

/// Why a producer's request on a file drop is refused.
#[derive(Debug, Clone, Copy, PartialEq, Eq, Structural)]
pub enum FileDropRefusal {
    InvalidBinding,
    StaleEpoch,
    ReusedEpoch,
    GrantGenerationExhausted,
    ActivationExhausted,
    OfferAbsent,
    StaleAcceptance,
    AlreadyTerminal,
    AlreadyAccepted,
    BindingGone,
    TransferLimit,
    RecordLimit,
    TransferLive,
    TransferAbsent,
    TransferGenerationExhausted,
    OfferTerminal,
    StaleAdvance,
    StaleCancellation,
    OpenMismatch,
    StaleOpen,
    SourceGone,
}

impl FileDropRefusal {
    /// What the producer is told.
    pub open spec fn message_spec(self) -> Seq<char> {
        match self {
            FileDropRefusal::InvalidBinding => "invalid file-drop binding"@,
            FileDropRefusal::StaleEpoch => "stale file-drop binding epoch"@,
            FileDropRefusal::ReusedEpoch => "file-drop epoch was reused with different fields"@,
            FileDropRefusal::GrantGenerationExhausted => "file-drop grant generation exhausted"@,
            FileDropRefusal::ActivationExhausted => "file-drop activation order exhausted"@,
            FileDropRefusal::OfferAbsent => "file-drop offer is absent"@,
            FileDropRefusal::StaleAcceptance =>
                "file-drop acceptance has a stale binding identity"@,
            FileDropRefusal::AlreadyTerminal => "file-drop offer is already terminal"@,
            FileDropRefusal::AlreadyAccepted => "file-drop offer was already accepted"@,
            FileDropRefusal::BindingGone => "file-drop binding is no longer live"@,
            FileDropRefusal::TransferLimit => "file-drop active-transfer limit reached"@,
            FileDropRefusal::RecordLimit => "file-drop record limit exceeds the binding"@,
            FileDropRefusal::TransferLive => "file-transfer ID is already live"@,
            FileDropRefusal::TransferAbsent => "file transfer is absent"@,
            FileDropRefusal::TransferGenerationExhausted => "file-transfer generation exhausted"@,
            FileDropRefusal::OfferTerminal => "file-drop offer is terminal"@,
            FileDropRefusal::StaleAdvance =>
                "file-transfer advance has stale or impossible state"@,
            FileDropRefusal::StaleCancellation =>
                "file-drop cancellation has a stale binding identity"@,
            FileDropRefusal::OpenMismatch =>
                "file-transfer open does not match the accepted generation"@,
            FileDropRefusal::StaleOpen =>
                "file-transfer open has a stale complete binding identity"@,
            FileDropRefusal::SourceGone => "file-drop source is no longer available"@,
        }
    }

    /// What the producer is told.
    pub fn message(self) -> (r: &'static str)
        ensures
            r@ == self.message_spec(),
    {
        match self {
            FileDropRefusal::InvalidBinding => "invalid file-drop binding",
            FileDropRefusal::StaleEpoch => "stale file-drop binding epoch",
            FileDropRefusal::ReusedEpoch => "file-drop epoch was reused with different fields",
            FileDropRefusal::GrantGenerationExhausted => "file-drop grant generation exhausted",
            FileDropRefusal::ActivationExhausted => "file-drop activation order exhausted",
            FileDropRefusal::OfferAbsent => "file-drop offer is absent",
            FileDropRefusal::StaleAcceptance => "file-drop acceptance has a stale binding identity",
            FileDropRefusal::AlreadyTerminal => "file-drop offer is already terminal",
            FileDropRefusal::AlreadyAccepted => "file-drop offer was already accepted",
            FileDropRefusal::BindingGone => "file-drop binding is no longer live",
            FileDropRefusal::TransferLimit => "file-drop active-transfer limit reached",
            FileDropRefusal::RecordLimit => "file-drop record limit exceeds the binding",
            FileDropRefusal::TransferLive => "file-transfer ID is already live",
            FileDropRefusal::TransferAbsent => "file transfer is absent",
            FileDropRefusal::TransferGenerationExhausted => "file-transfer generation exhausted",
            FileDropRefusal::OfferTerminal => "file-drop offer is terminal",
            FileDropRefusal::StaleAdvance => "file-transfer advance has stale or impossible state",
            FileDropRefusal::StaleCancellation =>
                "file-drop cancellation has a stale binding identity",
            FileDropRefusal::OpenMismatch =>
                "file-transfer open does not match the accepted generation",
            FileDropRefusal::StaleOpen =>
                "file-transfer open has a stale complete binding identity",
            FileDropRefusal::SourceGone => "file-drop source is no longer available",
        }
    }
}

/// Why a local drop is not offered.
#[derive(Debug, Clone, Copy, PartialEq, Eq, Structural)]
pub enum DropRejection {
    NotARegularFile,
    TooLarge,
    TooManyPending,
    IdsExhausted,
}

impl DropRejection {
    /// What the user is told.
    pub open spec fn message_spec(self) -> Seq<char> {
        match self {
            DropRejection::NotARegularFile => "Only regular files can be copied"@,
            DropRejection::TooLarge => "The dropped file exceeds the remote limit"@,
            DropRejection::TooManyPending => "Too many file drops are pending"@,
            DropRejection::IdsExhausted => "File-drop ID space is exhausted"@,
        }
    }

    /// What the user is told.
    pub fn message(self) -> (r: &'static str)
        ensures
            r@ == self.message_spec(),
    {
        match self {
            DropRejection::NotARegularFile => "Only regular files can be copied",
            DropRejection::TooLarge => "The dropped file exceeds the remote limit",
            DropRejection::TooManyPending => "Too many file drops are pending",
            DropRejection::IdsExhausted => "File-drop ID space is exhausted",
        }
    }
}

/// What becomes of a local drop.
#[derive(Debug, Clone, Copy, PartialEq, Eq)]
pub enum LocalDropDisposition {
    NoBinding,
    ConsentRequired(&'static str),
    Offered,
    Rejected(DropRejection),
}

/// What a hover over a destination says.
pub open spec fn label_spec(destination: Option<FileDropDestination>) -> Seq<char> {
    match destination {
        Some(FileDropDestination::ShellCwd) => "Copy to remote shell"@,
        Some(FileDropDestination::DesktopFolder) => "Copy to remote desktop"@,
        None => "Copy file"@,
    }
}

pub(crate) fn label(destination: Option<FileDropDestination>) -> (r: &'static str)
    ensures
        r@ == label_spec(destination),
{
    match destination {
        Some(FileDropDestination::ShellCwd) => "Copy to remote shell",
        Some(FileDropDestination::DesktopFolder) => "Copy to remote desktop",
        None => "Copy file",
    }
}

/// Whether the protocol accepts a binding: nonzero epoch and context, a generation that fits its
/// surface, no limits while disabled, and limits within range while enabled.
pub uninterp spec fn binding_valid(binding: FileDropBinding) -> bool;

/// `vivid_protocol::file_drop::FileDropBinding::validate`, with the binding's own surface as the
/// object it is sent for: the verdict depends on the binding's fields alone. The ranges it holds
/// them to are not restated.
#[verifier::external_body]
pub(crate) fn validate_binding(binding: &FileDropBinding) -> (r: bool)
    ensures
        r == binding_valid(*binding),
{
    vivid_protocol::file_drop::FileDropBinding {
        producer_epoch: vivid_protocol::revision::FileDropEpoch::new(binding.producer_epoch),
        context_id: binding.context_id,
        surface_id: binding.surface_id,
        surface_generation: vivid_protocol::revision::SurfaceGeneration::new(binding.surface_generation),
        destination: match binding.destination { None => None, Some(FileDropDestination::ShellCwd) => Some(vivid_protocol::file_drop::FileDropDestination::ShellCwd), Some(FileDropDestination::DesktopFolder) => Some(vivid_protocol::file_drop::FileDropDestination::DesktopFolder) },
        maximum_file_bytes: binding.maximum_file_bytes,
        maximum_pending_offers: binding.maximum_pending_offers,
        maximum_active_transfers: binding.maximum_active_transfers,
        maximum_record_body: binding.maximum_record_body,
        acceptance_timeout_us: binding.acceptance_timeout_us, idle_timeout_us: binding.idle_timeout_us,
    }.validate(binding.surface_id).is_ok()
}

/// The text a local paste of a path inserts.
pub open spec fn paste_text(path: Seq<char>) -> Seq<char> {
    path.push(' ')
}

/// The text a local paste of a path inserts: the path and a space.
pub fn local_paste_text(path: &str) -> (r: String)
    ensures
        r@ == paste_text(path@),
{
    let mut text = String::new();
    text.append(path);
    text.append(" ");
    proof {
        reveal_strlit(" ");
        assert(text@ =~= paste_text(path@));
    }
    text
}

/// A moment some time after another, or that moment itself where there is none.
pub open spec fn after(now_us: u64, delay_us: u64) -> u64 {
    if now_us + delay_us <= u64::MAX {
        (now_us + delay_us) as u64
    } else {
        now_us
    }
}

pub(crate) fn add_delay(now_us: u64, delay_us: u64) -> (r: u64)
    ensures
        r == after(now_us, delay_us),
{
    match now_us.checked_add(delay_us) {
        Some(moment) => moment,
        None => now_us,
    }
}

/// What a disabled binding is answered.
pub open spec fn disabled_grant(binding: FileDropBinding) -> FileDropGrant {
    FileDropGrant {
        producer_epoch: binding.producer_epoch,
        grant_generation: 0,
        context_id: binding.context_id,
        surface_id: binding.surface_id,
        surface_generation: binding.surface_generation,
        state: FileDropBindingState::Disabled,
        destination: None,
        maximum_file_bytes: 0,
        maximum_pending_offers: 0,
        maximum_active_transfers: 0,
        maximum_record_body: 0,
        acceptance_timeout_us: 0,
        idle_timeout_us: 0,
        reason: 0,
    }
}

/// What an enabled binding is answered: granted with its own limits, or denied.
pub open spec fn decided_grant(binding: FileDropBinding, generation: u64, allow: bool) -> FileDropGrant {
    FileDropGrant {
        producer_epoch: binding.producer_epoch,
        grant_generation: generation,
        context_id: binding.context_id,
        surface_id: binding.surface_id,
        surface_generation: binding.surface_generation,
        state: if allow {
            FileDropBindingState::Enabled
        } else {
            FileDropBindingState::Denied
        },
        destination: binding.destination,
        maximum_file_bytes: binding.maximum_file_bytes,
        maximum_pending_offers: binding.maximum_pending_offers,
        maximum_active_transfers: binding.maximum_active_transfers,
        maximum_record_body: binding.maximum_record_body,
        acceptance_timeout_us: binding.acceptance_timeout_us,
        idle_timeout_us: binding.idle_timeout_us,
        reason: if allow {
            0
        } else {
            1
        },
    }
}

/// What a cleanup takes away: everything of a session, of some of its contexts, or of one surface.
pub enum Scope<'a> {
    Session,
    Contexts(&'a Vec<u64>),
    Surface(u64, u64),
}

impl<'a> Scope<'a> {
    /// Whether a surface of the session lies in the scope.
    pub open spec fn covers(&self, context_id: u64, surface_id: u64) -> bool {
        match self {
            Scope::Session => true,
            Scope::Contexts(contexts) => contexts@.contains(context_id),
            Scope::Surface(context, surface) => *context == context_id && *surface == surface_id,
        }
    }

    pub(crate) fn includes(&self, context_id: u64, surface_id: u64) -> (r: bool)
        ensures
            r == self.covers(context_id, surface_id),
    {
        match self {
            Scope::Session => true,
            Scope::Contexts(contexts) => listed(contexts, context_id),
            Scope::Surface(context, surface) => *context == context_id && *surface == surface_id,
        }
    }
}

fn listed(values: &Vec<u64>, wanted: u64) -> (r: bool)
    ensures
        r == values@.contains(wanted),
{
    let mut index: usize = 0;
    while index < values.len()
        invariant
            index <= values@.len(),
            forall|i: int| 0 <= i < index ==> values@[i] != wanted,
        decreases values@.len() - index,
    {
        if values[index] == wanted {
            return true;
        }
        index = index + 1;
    }
    false
}

/// A deadline is as far off as it was asked to be, and never in the past.
pub proof fn a_deadline_is_never_in_the_past(now_us: u64, delay_us: u64, longer_us: u64)
    ensures
        after(now_us, delay_us) >= now_us,
        now_us + delay_us <= u64::MAX ==> after(now_us, delay_us) - now_us == delay_us,
        delay_us <= longer_us && now_us + longer_us <= u64::MAX ==> after(now_us, delay_us) <= after(
            now_us,
            longer_us,
        ),
{
}

/// A source that was cancelled may not be read by anyone, and one that was not only by the worker
/// of the generation it stands at.
pub proof fn a_source_is_read_by_its_own_generation(
    source: &FileSource,
    generation: u64,
    any: Result<(), SourceRefusal>,
    own: Result<(), SourceRefusal>,
)
    requires
        call_ensures(FileSource::ensure_active, (source,), any),
        call_ensures(FileSource::ensure_generation, (source, generation), own),
    ensures
        any is Ok <==> !source.cancelled,
        own is Ok <==> !source.cancelled && source.generation == generation,
        own is Ok ==> any is Ok,
        any is Err ==> own == any,
        own == Err::<(), SourceRefusal>(SourceRefusal::StaleGeneration) ==> any is Ok,
{
}

/// A cancelled source stays cancelled for every worker.
pub proof fn a_cancelled_source_is_read_by_nobody(
    source: &mut FileSource,
    generation: u64,
    r: Result<(), SourceRefusal>,
)
    requires
        call_ensures(FileSource::cancel, (source,), ()),
        call_ensures(FileSource::ensure_generation, (&*final(source), generation), r),
    ensures
        r == Err::<(), SourceRefusal>(SourceRefusal::Cancelled),
        final(source).handle == old(source).handle,
        final(source).length == old(source).length,
{
}

/// A grant answers the binding it was asked for: it names the same surface and epoch, and where it
/// is in force it has the limits that were asked for. A binding without a destination is disabled,
/// and one that the presenter does not allow is denied; neither lets a byte through by itself.
pub proof fn a_grant_answers_its_binding(binding: FileDropBinding, generation: u64, allow: bool)
    ensures
        ({
            let decided = decided_grant(binding, generation, allow);
            let disabled = disabled_grant(binding);
            &&& decided.producer_epoch == binding.producer_epoch && disabled.producer_epoch
                == binding.producer_epoch
            &&& decided.context_id == binding.context_id && disabled.context_id
                == binding.context_id
            &&& decided.surface_id == binding.surface_id && disabled.surface_id
                == binding.surface_id
            &&& decided.surface_generation == binding.surface_generation
                && disabled.surface_generation == binding.surface_generation
            &&& decided.grant_generation == generation
            &&& disabled.grant_generation == 0
            &&& decided.state is Enabled <==> allow
            &&& decided.state is Denied <==> !allow
            &&& decided.reason == 0 <==> allow
            &&& disabled.state is Disabled
            &&& disabled.destination is None && disabled.maximum_file_bytes == 0
                && disabled.maximum_pending_offers == 0 && disabled.maximum_active_transfers == 0
                && disabled.maximum_record_body == 0
            &&& decided.destination == binding.destination
            &&& decided.maximum_file_bytes == binding.maximum_file_bytes
            &&& decided.maximum_pending_offers == binding.maximum_pending_offers
            &&& decided.maximum_active_transfers == binding.maximum_active_transfers
            &&& decided.maximum_record_body == binding.maximum_record_body
            &&& decided.acceptance_timeout_us == binding.acceptance_timeout_us
            &&& decided.idle_timeout_us == binding.idle_timeout_us
        }),
{
}

/// A session's scope covers every surface of it, one of contexts every surface of those contexts
/// and no other, and one of a surface that surface alone.
pub proof fn a_scope_covers_what_it_names(
    contexts: &Vec<u64>,
    context_id: u64,
    surface_id: u64,
    other_context: u64,
    other_surface: u64,
)
    ensures
        Scope::Session.covers(context_id, surface_id),
        Scope::Contexts(contexts).covers(context_id, surface_id) <==> exists|i: int|
            0 <= i < contexts@.len() && contexts@[i] == context_id,
        Scope::Surface(context_id, surface_id).covers(other_context, other_surface) <==> (
        context_id == other_context && surface_id == other_surface),
{
}

/// What is pasted of a path is the path, and one space behind it.
pub proof fn a_paste_is_the_path_and_a_space(path: &str, r: String)
    requires
        call_ensures(local_paste_text, (path,), r),
    ensures
        r@.len() == path@.len() + 1,
        r@.last() == ' ',
        r@.drop_last() == path@,
{
    assert(r@.drop_last() =~= path@);
}

/// A hover tells the two destinations apart.
pub proof fn a_hover_tells_the_destinations_apart()
    ensures
        label_spec(Some(FileDropDestination::ShellCwd)) != label_spec(
            Some(FileDropDestination::DesktopFolder),
        ),
        label_spec(Some(FileDropDestination::ShellCwd)) == "Copy to remote shell"@,
        label_spec(Some(FileDropDestination::DesktopFolder)) == "Copy to remote desktop"@,
{
    reveal_strlit("Copy to remote shell");
    reveal_strlit("Copy to remote desktop");
    assert("Copy to remote shell"@.len() != "Copy to remote desktop"@.len());
}

} // verus!
