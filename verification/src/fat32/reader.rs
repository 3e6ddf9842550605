//! Opening a volume, one read at a time.

use crate::define::{FsInfoSector, PartitionBootSector};
use crate::fat32::{Fat32, Fat32View, FileAllocationTable};
use vstd::prelude::*;
use vstd::slice::{slice_subrange, slice_to_vec};

verus! {

/// The step of opening a volume at which something went wrong.
#[derive(Debug, Clone, Copy, PartialEq, Eq, Structural)]
pub enum InitStep {
    Open,
    BootSector,
    FsInfo,
    Fat1,
    Fat2,
}

/// What went wrong while opening a volume.
#[derive(Debug, Clone, Copy, PartialEq, Eq, Structural)]
pub enum InitErrorKind {
    /// The data source could not be opened.
    OpenFailure,
    /// The data source gave fewer bytes than were asked for.
    ShortRead,
    /// The bytes that came do not fit the structure they were read for.
    DecodeFailure,
}

/// Why a volume could not be opened, and at which step.
#[derive(Debug, Clone, Copy, PartialEq, Eq, Structural)]
pub struct InitError {
    pub kind: InitErrorKind,
    pub step: InitStep,
}

/// A read that the data source is asked to make.
#[derive(Debug, Clone, Copy, PartialEq, Eq, Structural)]
pub struct ReadRequest {
    pub offset: u64,
    pub len: u64,
}

impl ReadRequest {
    /// What a data source that holds exactly the bytes `image` delivers for
    /// this request: the bytes from `offset` on, `len` of them or as many as
    /// there are before the image ends.
    pub open spec fn spec_read(self, image: Seq<u8>) -> Seq<u8> {
        let start = if self.offset <= image.len() {
            self.offset as int
        } else {
            image.len() as int
        };
        let end = if self.offset + self.len <= image.len() {
            self.offset + self.len
        } else {
            image.len() as int
        };
        image.subrange(start, end)
    }

    /// Serves the request from an image held in memory.
    pub fn read(&self, image: &[u8]) -> (bytes: Vec<u8>)
        ensures
            bytes@ == self.spec_read(image@),
    {
        let total: usize = image.len();
        let start: usize = if self.offset <= total as u64 {
            self.offset as usize
        } else {
            total
        };
        let end: usize = if self.len <= (total - start) as u64 && self.offset <= total as u64 {
            start + self.len as usize
        } else {
            total
        };
        slice_to_vec(slice_subrange(image, start, end))
    }

    /// A request that lies within the image delivers exactly the bytes it
    /// names.
    pub proof fn lemma_read_within(self, image: Seq<u8>)
        requires
            self.offset + self.len <= image.len(),
        ensures
            self.spec_read(image) == image.subrange(
                self.offset as int,
                self.offset + self.len,
            ),
            self.spec_read(image).len() == self.len,
    {
    }

    /// A request never delivers more than it asks for, and it delivers less
    /// exactly when it asks for bytes past the end of the image.
    pub proof fn lemma_read_short(self, image: Seq<u8>)
        ensures
            self.spec_read(image).len() <= self.len,
            self.spec_read(image).len() < self.len <==> self.len > 0 && self.offset + self.len
                > image.len(),
    {
    }
}

/// Where a volume handle stands in its life.
#[derive(Debug, Clone, Copy, PartialEq, Eq, Structural)]
pub enum VolumeState {
    Unopened,
    Opened,
    Closed,
}

/// What the data source reports back to the reader.
#[derive(Debug, PartialEq, Eq)]
pub enum SourceEvent {
    /// The source was opened.
    Opened,
    /// The source could not be opened.
    OpenFailed,
    /// The bytes that the last read delivered: all that were asked for, or
    /// fewer where the source ended or failed first.
    Data(Vec<u8>),
}

/// What a [`SourceEvent`] says.
pub ghost enum SourceEventView {
    Opened,
    OpenFailed,
    Data(Seq<u8>),
}

impl View for SourceEvent {
    type V = SourceEventView;

    open spec fn view(&self) -> SourceEventView {
        match self {
            SourceEvent::Opened => SourceEventView::Opened,
            SourceEvent::OpenFailed => SourceEventView::OpenFailed,
            SourceEvent::Data(bytes) => SourceEventView::Data(bytes@),
        }
    }
}

/// What the reader wants done next.
#[derive(Debug, Clone, Copy, PartialEq, Eq, Structural)]
pub enum ReaderAction {
    /// Open the data source and report how that went.
    Open,
    /// Make this read and report the bytes.
    Read(ReadRequest),
    /// Nothing: the volume is open, or the handle was closed.
    Idle,
    /// Give up: opening failed with this error.
    Fail(InitError),
}

/// What a [`VolumeReader`] has got so far.
pub ghost enum ReaderView {
    /// Nothing has happened yet.
    Unopened,
    /// The source is open and the boot sector has been asked for.
    BootSector,
    /// The FS information sector has been asked for.
    FsInfo { pbs: PartitionBootSector },
    /// The first table copy has been asked for.
    Fat1 { pbs: PartitionBootSector, fs_info: FsInfoSector },
    /// The second table copy has been asked for.
    Fat2 { pbs: PartitionBootSector, fs_info: FsInfoSector, fat1: Seq<u8> },
    /// Everything has been read.
    Opened { volume: Fat32View },
    /// The handle is closed: after this error, or on request.
    Closed { error: Option<InitError> },
}

/// The error for a read at `step` that delivered `got` bytes where `asked`
/// were asked for: fewer is a short read, more is a buffer that does not fit.
pub open spec fn spec_length_error(got: nat, asked: int, step: InitStep) -> Option<InitError> {
    if got < asked {
        Some(InitError { kind: InitErrorKind::ShortRead, step })
    } else if got > asked {
        Some(InitError { kind: InitErrorKind::DecodeFailure, step })
    } else {
        None
    }
}

impl ReaderView {
    /// A first table copy already read has the size that the boot sector
    /// gives it, and so have both copies of an opened volume.
    pub open spec fn wf(self) -> bool {
        match self {
            ReaderView::Fat2 { pbs, fs_info, fat1 } => fat1.len() == pbs.spec_fat_size_bytes(),
            ReaderView::Opened { volume } => volume.wf(),
            _ => true,
        }
    }

    /// Where the handle stands: opened once everything has been read, closed
    /// after a failure or a close, unopened until then.
    pub open spec fn spec_state(self) -> VolumeState {
        match self {
            ReaderView::Opened { volume } => VolumeState::Opened,
            ReaderView::Closed { error } => VolumeState::Closed,
            _ => VolumeState::Unopened,
        }
    }

    /// What the reader wants done next: the open, then the boot sector at
    /// offset 0, the FS information sector at the offset the boot sector
    /// gives, and the two table copies one behind the other.
    pub open spec fn spec_pending(self) -> ReaderAction {
        match self {
            ReaderView::Unopened => ReaderAction::Open,
            ReaderView::BootSector => ReaderAction::Read(ReadRequest { offset: 0, len: 512 }),
            ReaderView::FsInfo { pbs } => ReaderAction::Read(
                ReadRequest {
                    offset: pbs.spec_fs_info_offset() as u64,
                    len: pbs.sector_size as u64,
                },
            ),
            ReaderView::Fat1 { pbs, fs_info } => ReaderAction::Read(
                ReadRequest {
                    offset: pbs.spec_fat1_offset() as u64,
                    len: pbs.spec_fat_size_bytes() as u64,
                },
            ),
            ReaderView::Fat2 { pbs, fs_info, fat1 } => ReaderAction::Read(
                ReadRequest {
                    offset: pbs.spec_fat2_offset() as u64,
                    len: pbs.spec_fat_size_bytes() as u64,
                },
            ),
            ReaderView::Opened { volume } => ReaderAction::Idle,
            ReaderView::Closed { error } => match error {
                Some(e) => ReaderAction::Fail(e),
                None => ReaderAction::Idle,
            },
        }
    }

    /// The state after the event: the answer to the pending action moves the
    /// reader on or closes it with an error, and an event that answers
    /// nothing is ignored.
    pub open spec fn spec_step(self, event: SourceEventView) -> ReaderView {
        match (self, event) {
            (ReaderView::Unopened, SourceEventView::Opened) => ReaderView::BootSector,
            (ReaderView::Unopened, SourceEventView::OpenFailed) => ReaderView::Closed {
                error: Some(InitError { kind: InitErrorKind::OpenFailure, step: InitStep::Open }),
            },
            (ReaderView::BootSector, SourceEventView::Data(bytes)) => {
                match spec_length_error(bytes.len(), 512, InitStep::BootSector) {
                    Some(e) => ReaderView::Closed { error: Some(e) },
                    None => ReaderView::FsInfo { pbs: PartitionBootSector::spec_new(bytes) },
                }
            },
            (ReaderView::FsInfo { pbs }, SourceEventView::Data(bytes)) => {
                match spec_length_error(bytes.len(), pbs.sector_size as int, InitStep::FsInfo) {
                    Some(e) => ReaderView::Closed { error: Some(e) },
                    None => if bytes.len() < 512 {
                        ReaderView::Closed {
                            error: Some(
                                InitError {
                                    kind: InitErrorKind::DecodeFailure,
                                    step: InitStep::FsInfo,
                                },
                            ),
                        }
                    } else {
                        ReaderView::Fat1 {
                            pbs,
                            fs_info: FsInfoSector::spec_new(bytes.subrange(0, 512)),
                        }
                    },
                }
            },
            (ReaderView::Fat1 { pbs, fs_info }, SourceEventView::Data(bytes)) => {
                match spec_length_error(bytes.len(), pbs.spec_fat_size_bytes(), InitStep::Fat1) {
                    Some(e) => ReaderView::Closed { error: Some(e) },
                    None => ReaderView::Fat2 { pbs, fs_info, fat1: bytes },
                }
            },
            (ReaderView::Fat2 { pbs, fs_info, fat1 }, SourceEventView::Data(bytes)) => {
                match spec_length_error(bytes.len(), pbs.spec_fat_size_bytes(), InitStep::Fat2) {
                    Some(e) => ReaderView::Closed { error: Some(e) },
                    None => ReaderView::Opened {
                        volume: Fat32View { pbs, fs_info, fat1, fat2: bytes },
                    },
                }
            },
            _ => self,
        }
    }

    /// The state after a close: a reader that failed keeps its error.
    pub open spec fn spec_close(self) -> ReaderView {
        match self {
            ReaderView::Closed { error } => self,
            _ => ReaderView::Closed { error: None },
        }
    }
}

#[derive(Debug)]
enum Phase {
    Unopened,
    BootSector,
    FsInfo { pbs: PartitionBootSector },
    Fat1 { pbs: PartitionBootSector, fs_info: FsInfoSector },
    Fat2 { pbs: PartitionBootSector, fs_info: FsInfoSector, fat1: FileAllocationTable },
    Opened { volume: Fat32 },
    Closed { error: Option<InitError> },
}

/// Opens a volume without touching the data source itself: it says which
/// read it wants next, takes what the read delivered, and ends with an opened
/// volume or with the error and the step at which it came.
#[derive(Debug)]
pub struct VolumeReader {
    phase: Phase,
}

impl View for VolumeReader {
    type V = ReaderView;

    closed spec fn view(&self) -> ReaderView {
        match self.phase {
            Phase::Unopened => ReaderView::Unopened,
            Phase::BootSector => ReaderView::BootSector,
            Phase::FsInfo { pbs } => ReaderView::FsInfo { pbs },
            Phase::Fat1 { pbs, fs_info } => ReaderView::Fat1 { pbs, fs_info },
            Phase::Fat2 { pbs, fs_info, fat1 } => ReaderView::Fat2 { pbs, fs_info, fat1: fat1@ },
            Phase::Opened { volume } => ReaderView::Opened { volume: volume@ },
            Phase::Closed { error } => ReaderView::Closed { error },
        }
    }
}

fn length_error(got: usize, asked: u64, step: InitStep) -> (error: Option<InitError>)
    ensures
        error == spec_length_error(got as nat, asked as int, step),
{
    if (got as u64) < asked {
        Some(InitError { kind: InitErrorKind::ShortRead, step })
    } else if (got as u64) > asked {
        Some(InitError { kind: InitErrorKind::DecodeFailure, step })
    } else {
        None
    }
}

impl VolumeReader {
    #[verifier::type_invariant]
    spec fn well_formed(self) -> bool {
        self@.wf()
    }

    /// A reader that has done nothing yet.
    pub fn new() -> (reader: Self)
        ensures
            reader@ == ReaderView::Unopened,
    {
        Self { phase: Phase::Unopened }
    }

    /// Where the handle stands.
    pub fn state(&self) -> (state: VolumeState)
        ensures
            state == self@.spec_state(),
    {
        match &self.phase {
            Phase::Opened { .. } => VolumeState::Opened,
            Phase::Closed { .. } => VolumeState::Closed,
            _ => VolumeState::Unopened,
        }
    }

    /// What the reader wants done next.
    pub fn pending(&self) -> (action: ReaderAction)
        ensures
            action == self@.spec_pending(),
            self@.wf(),
    {
        proof {
            use_type_invariant(self);
        }
        match &self.phase {
            Phase::Unopened => ReaderAction::Open,
            Phase::BootSector => ReaderAction::Read(ReadRequest { offset: 0, len: 512 }),
            Phase::FsInfo { pbs } => ReaderAction::Read(
                ReadRequest { offset: pbs.fs_info_offset(), len: pbs.sector_size as u64 },
            ),
            Phase::Fat1 { pbs, .. } => ReaderAction::Read(
                ReadRequest { offset: pbs.fat1_offset(), len: pbs.fat_size_bytes() },
            ),
            Phase::Fat2 { pbs, .. } => ReaderAction::Read(
                ReadRequest { offset: pbs.fat2_offset(), len: pbs.fat_size_bytes() },
            ),
            Phase::Opened { .. } => ReaderAction::Idle,
            Phase::Closed { error } => match error {
                Some(e) => ReaderAction::Fail(*e),
                None => ReaderAction::Idle,
            },
        }
    }

    /// Takes in what the data source reported.
    pub fn step(self, event: SourceEvent) -> (next: Self)
        ensures
            next@ == self@.spec_step(event@),
            next@.wf(),
    {
        proof {
            use_type_invariant(&self);
        }
        let phase: Phase = match (self.phase, event) {
            (Phase::Unopened, SourceEvent::Opened) => Phase::BootSector,
            (Phase::Unopened, SourceEvent::OpenFailed) => Phase::Closed {
                error: Some(InitError { kind: InitErrorKind::OpenFailure, step: InitStep::Open }),
            },
            (Phase::BootSector, SourceEvent::Data(bytes)) => {
                match length_error(bytes.len(), 512, InitStep::BootSector) {
                    Some(e) => Phase::Closed { error: Some(e) },
                    None => match PartitionBootSector::deserialize(bytes.as_slice()) {
                        Ok(pbs) => {
                            assert(bytes@.subrange(0, 512) =~= bytes@);
                            Phase::FsInfo { pbs }
                        },
                        Err(_) => Phase::Closed {
                            error: Some(
                                InitError {
                                    kind: InitErrorKind::DecodeFailure,
                                    step: InitStep::BootSector,
                                },
                            ),
                        },
                    },
                }
            },
            (Phase::FsInfo { pbs }, SourceEvent::Data(bytes)) => {
                match length_error(bytes.len(), pbs.sector_size as u64, InitStep::FsInfo) {
                    Some(e) => Phase::Closed { error: Some(e) },
                    None => match FsInfoSector::deserialize(bytes.as_slice()) {
                        Ok(fs_info) => Phase::Fat1 { pbs, fs_info },
                        Err(_) => Phase::Closed {
                            error: Some(
                                InitError {
                                    kind: InitErrorKind::DecodeFailure,
                                    step: InitStep::FsInfo,
                                },
                            ),
                        },
                    },
                }
            },
            (Phase::Fat1 { pbs, fs_info }, SourceEvent::Data(bytes)) => {
                match length_error(bytes.len(), pbs.fat_size_bytes(), InitStep::Fat1) {
                    Some(e) => Phase::Closed { error: Some(e) },
                    None => Phase::Fat2 { pbs, fs_info, fat1: FileAllocationTable::new(bytes) },
                }
            },
            (Phase::Fat2 { pbs, fs_info, fat1 }, SourceEvent::Data(bytes)) => {
                match length_error(bytes.len(), pbs.fat_size_bytes(), InitStep::Fat2) {
                    Some(e) => Phase::Closed { error: Some(e) },
                    None => Phase::Opened {
                        volume: Fat32::from_parts(
                            pbs,
                            fs_info,
                            fat1,
                            FileAllocationTable::new(bytes),
                        ),
                    },
                }
            },
            (phase, _) => phase,
        };
        Self { phase }
    }

    /// Closes the handle. A reader that failed keeps its error.
    pub fn close(self) -> (closed: Self)
        ensures
            closed@ == self@.spec_close(),
    {
        match self.phase {
            Phase::Closed { error } => Self { phase: Phase::Closed { error } },
            _ => Self { phase: Phase::Closed { error: None } },
        }
    }

    /// The opened volume, once everything has been read. Until then, and
    /// after a failure, there is none: nothing half-read is handed out.
    pub fn into_volume(self) -> (volume: Option<Fat32>)
        ensures
            match volume {
                Some(v) => self@ == (ReaderView::Opened { volume: v@ }) && v@.wf(),
                None => !(self@ is Opened),
            },
    {
        proof {
            use_type_invariant(&self);
        }
        match self.phase {
            Phase::Opened { volume } => Some(volume),
            _ => None,
        }
    }

    /// The error that closed the reader, where there is one.
    pub fn error(&self) -> (error: Option<InitError>)
        ensures
            match error {
                Some(e) => self@ == (ReaderView::Closed { error: Some(e) }),
                None => !(self@ matches ReaderView::Closed { error: Some(_) }),
            },
    {
        match &self.phase {
            Phase::Closed { error } => *error,
            _ => None,
        }
    }
}

} // verus!
