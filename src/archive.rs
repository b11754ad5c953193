//! The reader handle: its lifecycle, its entries, and the decisions taken
//! around every native call.
//!
//! The native handle itself is held by the caller, which makes the native
//! calls. Each operation here is split where a native call stands: a first
//! function says whether the call may be made, a second one takes what the
//! call returned and says what the caller sees.
use vstd::prelude::*;

use crate::detect::{detection_plan, detection_plan_of, DetectionConfig, Detector};
use crate::error::{
    classify, status_kind, translate, translate_open_failure, translated, translated_open_failure,
    Error, Progress, Status,
};
use crate::path::{cstring_of, has_nul, path_to_cstring};

verus! {

/// Where a handle stands in its life.
#[derive(Clone, Copy, Debug, PartialEq, Eq, Structural)]
pub enum Lifecycle {
    /// The path is encoded; no native resource is held yet.
    Created,
    /// A native handle is held and detectors are being registered.
    Configuring,
    /// The file is open for reading.
    Open,
    /// No operation is allowed any more.
    Closed,
}

/// The kind of an entry.
#[derive(Clone, Copy, Debug, PartialEq, Eq, Structural)]
pub enum EntryKind {
    File,
    Directory,
    Symlink,
    Other,
}

/// The mask of the file-type bits in an entry's mode.
pub const TYPE_MASK: u32 = 0o170000;

/// The file-type bits of a regular file.
pub const TYPE_FILE: u32 = 0o100000;

/// The file-type bits of a directory.
pub const TYPE_DIRECTORY: u32 = 0o040000;

/// The file-type bits of a symbolic link.
pub const TYPE_SYMLINK: u32 = 0o120000;

/// An entry header as the engine reports it.
pub struct EntryHeader {
    pub pathname: String,
    pub size_is_set: bool,
    pub size: i64,
    pub filetype: u32,
}

/// What the next call on a handle is to do natively.
#[derive(Clone, Copy, Debug, PartialEq, Eq, Structural)]
pub enum NextStep {
    /// Read the next entry header.
    ReadHeader,
    /// The archive has ended: the enumeration yields nothing more.
    Finished,
}

/// What a read of an entry's data is to do natively.
#[derive(Clone, Copy, Debug, PartialEq, Eq, Structural)]
pub enum ReadStep {
    /// Read the next block of the entry's data.
    ReadData,
    /// The entry's data is used up: the read yields no bytes.
    EndOfData,
}

/// The state of a handle.
pub struct ArchiveModel {
    pub state: Lifecycle,
    /// Whether the native resource is held and not yet released.
    pub held: bool,
    /// The encoded path, with its terminating zero byte.
    pub filename: Seq<u8>,
    /// How many times the enumeration was advanced.
    pub cursor: nat,
    /// Whether the engine reported the end of the archive.
    pub at_end: bool,
}

/// An entry as the caller sees it.
pub struct EntryModel {
    pub name: Seq<char>,
    pub size_hint: Option<u64>,
    pub kind: EntryKind,
    /// The advance of the enumeration that produced the entry.
    pub stamp: nat,
    /// Whether its data has been read to the end.
    pub exhausted: bool,
}

impl ArchiveModel {
    /// An open handle holds its native resource; no other state is reached
    /// by an `Archive`.
    pub open spec fn wf(self) -> bool {
        &&& (self.state is Open || self.state is Closed)
        &&& (self.state is Open ==> self.held)
    }
}

/// The kind of an entry given the file-type bits of its mode.
pub open spec fn kind_of(filetype: u32) -> EntryKind {
    let t = filetype & TYPE_MASK;
    if t == TYPE_FILE {
        EntryKind::File
    } else if t == TYPE_DIRECTORY {
        EntryKind::Directory
    } else if t == TYPE_SYMLINK {
        EntryKind::Symlink
    } else {
        EntryKind::Other
    }
}

/// The size of an entry when the header gives one.
pub open spec fn size_hint_of(size_is_set: bool, size: i64) -> Option<u64> {
    if size_is_set && size >= 0 {
        Some(size as u64)
    } else {
        None
    }
}

/// The entry made of a header at a given advance of the enumeration.
pub open spec fn entry_of(h: EntryHeader, stamp: nat) -> EntryModel {
    EntryModel {
        name: h.pathname@,
        size_hint: size_hint_of(h.size_is_set, h.size),
        kind: kind_of(h.filetype),
        stamp,
        exhausted: false,
    }
}

/// A handle made for a path, before any native resource is acquired.
pub open spec fn created(path: Seq<u8>) -> ArchiveModel {
    ArchiveModel {
        state: Lifecycle::Created,
        held: false,
        filename: cstring_of(path),
        cursor: 0,
        at_end: false,
    }
}

/// The handle once its native resource is held.
pub open spec fn configuring(a: ArchiveModel) -> ArchiveModel {
    ArchiveModel { state: Lifecycle::Configuring, held: true, ..a }
}

/// Whether the status of the call that opens the file lets the handle open.
pub open spec fn open_succeeds(status: i32) -> bool {
    status_kind(status as int) == Status::Success || status_kind(status as int)
        == Status::RecoverableWarning
}

/// The handle after the call that opens the file, or the error it gives.
/// On an error the native resource is to be released at once.
pub open spec fn opened(a: ArchiveModel, status: i32, errno: i32, message: String) -> Result<
    ArchiveModel,
    Error,
> {
    if open_succeeds(status) {
        Ok(ArchiveModel { state: Lifecycle::Open, ..a })
    } else {
        Err(translated_open_failure(status, errno, message))
    }
}

/// The handle after close, and whether the native resource is to be
/// released now.
pub open spec fn close_step(a: ArchiveModel) -> (ArchiveModel, bool) {
    (ArchiveModel { state: Lifecycle::Closed, held: false, ..a }, a.held)
}

/// The handle after asking for the next entry, and what is to be done.
/// Asking always invalidates the entry handed out before.
pub open spec fn next_step(a: ArchiveModel) -> (ArchiveModel, Result<NextStep, Error>) {
    if a.state is Closed {
        (a, Err(Error::HandleClosed))
    } else if a.at_end {
        (ArchiveModel { cursor: a.cursor + 1, ..a }, Ok(NextStep::Finished))
    } else {
        (ArchiveModel { cursor: a.cursor + 1, ..a }, Ok(NextStep::ReadHeader))
    }
}

/// The handle after the engine read a header with the given status.
pub open spec fn header_state(a: ArchiveModel, status: i32) -> ArchiveModel {
    match status_kind(status as int) {
        Status::EndOfArchive => ArchiveModel { at_end: true, ..a },
        Status::FatalHandleError => ArchiveModel { state: Lifecycle::Closed, ..a },
        _ => a,
    }
}

/// What the caller sees after the engine read a header with the given
/// status: the entry, the end of the enumeration, or the error.
pub open spec fn header_outcome(a: ArchiveModel, status: i32, message: String, h: EntryHeader) -> Result<
    Option<EntryModel>,
    Error,
> {
    match translated(status, message) {
        Ok(Progress::EndOfArchive) => Ok(None),
        Ok(_) => Ok(Some(entry_of(h, a.cursor))),
        Err(e) => Err(e),
    }
}

/// Whether the data of an entry may be read, and how.
pub open spec fn read_step(a: ArchiveModel, e: EntryModel) -> Result<ReadStep, Error> {
    if a.state is Closed {
        Err(Error::HandleClosed)
    } else if e.stamp != a.cursor {
        Err(Error::StaleEntry)
    } else if e.exhausted {
        Ok(ReadStep::EndOfData)
    } else {
        Ok(ReadStep::ReadData)
    }
}

/// The error a failed data read gives.
pub open spec fn data_failure(code: i32, message: String) -> Error {
    if status_kind(code as int) == Status::FatalHandleError {
        Error::FatalHandle { code, message }
    } else {
        Error::OperationFailed { code, message }
    }
}

/// A handle on its way to being open.
pub struct Opening {
    state: Lifecycle,
    held: bool,
    filename: Vec<u8>,
}

/// A handle on an open, or closed, archive.
pub struct Archive {
    state: Lifecycle,
    held: bool,
    filename: Vec<u8>,
    cursor: u64,
    at_end: bool,
}

/// One entry of an archive, valid until the enumeration moves on.
pub struct Entry {
    name: String,
    size_hint: Option<u64>,
    kind: EntryKind,
    stamp: u64,
    exhausted: bool,
}

impl View for Opening {
    type V = ArchiveModel;

    closed spec fn view(&self) -> ArchiveModel {
        ArchiveModel {
            state: self.state,
            held: self.held,
            filename: self.filename@,
            cursor: 0,
            at_end: false,
        }
    }
}

impl View for Archive {
    type V = ArchiveModel;

    closed spec fn view(&self) -> ArchiveModel {
        ArchiveModel {
            state: self.state,
            held: self.held,
            filename: self.filename@,
            cursor: self.cursor as nat,
            at_end: self.at_end,
        }
    }
}

impl View for Entry {
    type V = EntryModel;

    closed spec fn view(&self) -> EntryModel {
        EntryModel {
            name: self.name@,
            size_hint: self.size_hint,
            kind: self.kind,
            stamp: self.stamp as nat,
            exhausted: self.exhausted,
        }
    }
}

/// The kind of an entry given the file-type bits of its mode.
pub fn entry_kind(filetype: u32) -> (r: EntryKind)
    ensures
        r == kind_of(filetype),
{
    let t = filetype & TYPE_MASK;
    if t == TYPE_FILE {
        EntryKind::File
    } else if t == TYPE_DIRECTORY {
        EntryKind::Directory
    } else if t == TYPE_SYMLINK {
        EntryKind::Symlink
    } else {
        EntryKind::Other
    }
}

/// The size of an entry when the header gives one.
pub fn size_hint(size_is_set: bool, size: i64) -> (r: Option<u64>)
    ensures
        r == size_hint_of(size_is_set, size),
{
    if size_is_set && size >= 0 {
        Some(size as u64)
    } else {
        None
    }
}

impl Archive {
    /// Starts opening the archive at `path`, given as the bytes of the
    /// platform's path: the path is encoded, and nothing native is held yet.
    /// A path the engine cannot be given is refused.
    pub fn open(path: Vec<u8>) -> (r: Result<Opening, Error>)
        ensures
            match r {
                Ok(o) => !has_nul(path@) && o@ == created(path@),
                Err(Error::PathEncoding(p)) => has_nul(path@) && p@ == path@,
                Err(_) => false,
            },
    {
        match path_to_cstring(path) {
            Ok(filename) => Ok(Opening { state: Lifecycle::Created, held: false, filename }),
            Err(e) => Err(e),
        }
    }

    /// The encoded path, with its terminating zero byte.
    pub fn filename(&self) -> (r: &Vec<u8>)
        ensures
            r@ == self@.filename,
    {
        &self.filename
    }

    /// Where the handle stands in its life.
    pub fn state(&self) -> (r: Lifecycle)
        ensures
            r == self@.state,
    {
        self.state
    }

    /// How many times the enumeration was advanced.
    pub fn advances(&self) -> (r: u64)
        ensures
            r as nat == self@.cursor,
    {
        self.cursor
    }

    /// Asks for the next entry. On a closed handle this fails, and no native
    /// call is to be made. Otherwise the entry handed out before is no longer
    /// valid, and the step says whether the engine is to read a header.
    pub fn begin_next(&mut self) -> (r: Result<NextStep, Error>)
        requires
            old(self)@.wf(),
            old(self)@.cursor < u64::MAX,
        ensures
            (final(self)@, r) == next_step(old(self)@),
            final(self)@.wf(),
    {
        if self.state == Lifecycle::Closed {
            Err(Error::HandleClosed)
        } else {
            self.cursor = self.cursor + 1;
            if self.at_end {
                Ok(NextStep::Finished)
            } else {
                Ok(NextStep::ReadHeader)
            }
        }
    }

    /// Takes the status of the header read that `begin_next` asked for, and
    /// the header when there is one: the entry, `None` at the end of the
    /// archive, or the error. A fatal status closes the handle; its native
    /// resource is released by `close`.
    pub fn finish_next(&mut self, status: i32, message: String, header: EntryHeader) -> (r: Result<
        Option<Entry>,
        Error,
    >)
        requires
            old(self)@.wf(),
            old(self)@.state is Open,
            !old(self)@.at_end,
        ensures
            final(self)@ == header_state(old(self)@, status),
            final(self)@.wf(),
            match (r, header_outcome(old(self)@, status, message, header)) {
                (Ok(Some(e)), Ok(Some(m))) => e@ == m,
                (Ok(None), Ok(None)) => true,
                (Err(e), Err(f)) => e == f,
                _ => false,
            },
    {
        match translate(status, message) {
            Ok(Progress::EndOfArchive) => {
                self.at_end = true;
                Ok(None)
            },
            Ok(_) => {
                let kind = entry_kind(header.filetype);
                let size_hint = size_hint(header.size_is_set, header.size);
                Ok(
                    Some(
                        Entry {
                            name: header.pathname,
                            size_hint,
                            kind,
                            stamp: self.cursor,
                            exhausted: false,
                        },
                    ),
                )
            },
            Err(e) => {
                if classify(status) == Status::FatalHandleError {
                    self.state = Lifecycle::Closed;
                }
                Err(e)
            },
        }
    }

    /// Whether the data of `entry` may be read: not on a closed handle, not
    /// once the enumeration moved past the entry; once its data is used up, a
    /// read yields no bytes without a native call.
    pub fn begin_read(&self, entry: &Entry) -> (r: Result<ReadStep, Error>)
        ensures
            r == read_step(self@, entry@),
    {
        if self.state == Lifecycle::Closed {
            Err(Error::HandleClosed)
        } else if entry.stamp != self.cursor {
            Err(Error::StaleEntry)
        } else if entry.exhausted {
            Ok(ReadStep::EndOfData)
        } else {
            Ok(ReadStep::ReadData)
        }
    }

    /// Takes what the engine's data read returned: a count of bytes, zero at
    /// the end of the entry, or a negative status. The end of the entry is
    /// remembered, so that later reads yield no bytes. A fatal status closes
    /// the handle; its native resource is released by `close`.
    pub fn finish_read(&mut self, entry: &mut Entry, returned: isize, message: String) -> (r: Result<
        usize,
        Error,
    >)
        requires
            old(self)@.wf(),
            read_step(old(self)@, old(entry)@) == Ok::<ReadStep, Error>(ReadStep::ReadData),
        ensures
            final(self)@.wf(),
            returned > 0 ==> r == Ok::<usize, Error>(returned as usize) && final(self)@ == old(
                self,
            )@ && final(entry)@ == old(entry)@,
            returned == 0 ==> r == Ok::<usize, Error>(0) && final(self)@ == old(self)@
                && final(entry)@ == (EntryModel { exhausted: true, ..old(entry)@ }),
            returned < 0 ==> r == Err::<usize, Error>(data_failure(returned as i32, message))
                && final(entry)@ == old(entry)@ && final(self)@ == (if status_kind(
                returned as i32 as int,
            ) == Status::FatalHandleError {
                ArchiveModel { state: Lifecycle::Closed, ..old(self)@ }
            } else {
                old(self)@
            }),
    {
        if returned > 0 {
            Ok(returned as usize)
        } else if returned == 0 {
            entry.exhausted = true;
            Ok(0)
        } else {
            let code = returned as i32;
            if classify(code) == Status::FatalHandleError {
                self.state = Lifecycle::Closed;
                Err(Error::FatalHandle { code, message })
            } else {
                Err(Error::OperationFailed { code, message })
            }
        }
    }

    /// Closes the handle. It returns whether the native resource is to be
    /// released now: the first time the resource is held, never again.
    pub fn close(&mut self) -> (release: bool)
        requires
            old(self)@.wf(),
        ensures
            (final(self)@, release) == close_step(old(self)@),
            final(self)@.wf(),
    {
        let release = self.held;
        self.state = Lifecycle::Closed;
        self.held = false;
        release
    }
}

impl Opening {
    /// The encoded path, with its terminating zero byte, to hand the engine.
    pub fn filename(&self) -> (r: &Vec<u8>)
        ensures
            r@ == self@.filename,
    {
        &self.filename
    }

    /// Records that the native resource is now held, and gives the
    /// registration calls to make on it, in their fixed order.
    pub fn configure(&mut self, config: &DetectionConfig) -> (plan: Vec<Detector>)
        requires
            old(self)@.state is Created,
        ensures
            final(self)@ == configuring(old(self)@),
            plan@ == detection_plan_of(*config),
    {
        self.state = Lifecycle::Configuring;
        self.held = true;
        detection_plan(config)
    }

    /// Takes the status of the call that opened the file, with the error
    /// number and text the engine recorded: the open handle, or the error.
    /// On an error the caller releases the native resource at once.
    pub fn finish(self, status: i32, errno: i32, message: String) -> (r: Result<Archive, Error>)
        requires
            self@.state is Configuring,
            self@.held,
        ensures
            match (r, opened(self@, status, errno, message)) {
                (Ok(a), Ok(m)) => a@ == m && a@.wf(),
                (Err(e), Err(f)) => e == f,
                _ => false,
            },
    {
        let kind = classify(status);
        if kind == Status::Success || kind == Status::RecoverableWarning {
            Ok(
                Archive {
                    state: Lifecycle::Open,
                    held: self.held,
                    filename: self.filename,
                    cursor: 0,
                    at_end: false,
                },
            )
        } else {
            Err(translate_open_failure(status, errno, message))
        }
    }
}

impl Entry {
    /// The entry's name.
    pub fn name(&self) -> (r: &String)
        ensures
            r@ == self@.name,
    {
        &self.name
    }

    /// The entry's size, when the archive records it.
    pub fn size_hint(&self) -> (r: Option<u64>)
        ensures
            r == self@.size_hint,
    {
        self.size_hint
    }

    /// The entry's kind.
    pub fn kind(&self) -> (r: EntryKind)
        ensures
            r == self@.kind,
    {
        self.kind
    }
}

} // verus!
