//! Unpacking a verified archive: the choice of strategy by file name, the
//! content root inside an unpacked tree, and the relocation of that tree to
//! the install directory, across filesystems when a rename cannot do it.

use vstd::prelude::*;
use crate::error::{ExtractError, ToolchainError};
use crate::paths::{join_path, path_joined, path_relative, relative_path};
use crate::text::{ends_with, str_ends_with};

verus! {

/// The archive formats that toolchains are published in.
#[derive(Debug, Clone, Copy, PartialEq, Eq, Structural)]
pub enum ArchiveFormat {
    /// A macOS disk image, mounted and copied out.
    Dmg,
    /// A ZIP archive, unpacked without its wrapping directory.
    Zip,
    /// An XZ-compressed tar archive, unpacked aside and relocated.
    TarXz,
}

/// The format of an archive, by the suffix of its file name.
pub open spec fn archive_format(file_name: Seq<char>) -> Option<ArchiveFormat> {
    if ends_with(file_name, ".dmg"@) {
        Some(ArchiveFormat::Dmg)
    } else if ends_with(file_name, ".zip"@) {
        Some(ArchiveFormat::Zip)
    } else if ends_with(file_name, ".tar.xz"@) {
        Some(ArchiveFormat::TarXz)
    } else {
        None
    }
}

impl ArchiveFormat {
    /// The format of an archive with the given file name, if it is one that
    /// can be installed.
    pub fn from_file_name(file_name: &str) -> (r: Option<ArchiveFormat>)
        ensures
            r == archive_format(file_name@),
    {
        if str_ends_with(file_name, ".dmg") {
            Some(ArchiveFormat::Dmg)
        } else if str_ends_with(file_name, ".zip") {
            Some(ArchiveFormat::Zip)
        } else if str_ends_with(file_name, ".tar.xz") {
            Some(ArchiveFormat::TarXz)
        } else {
            None
        }
    }
}

/// An entry of a directory listing.
#[derive(Debug, Clone)]
pub struct DirEntryInfo {
    pub path: String,
    pub is_dir: bool,
    pub is_symlink: bool,
}

/// Whether an entry is a real directory, not a link to one.
pub open spec fn is_real_dir(e: DirEntryInfo) -> bool {
    e.is_dir && !e.is_symlink
}

/// The content root of an unpacked tree: the first entry of its top-level
/// listing that is a directory and not a symbolic link.
pub fn find_dir_contained_by(entries: &Vec<DirEntryInfo>) -> (r: Result<String, ExtractError>)
    ensures
        match r {
            Ok(p) => exists|i: int|
                0 <= i < entries@.len() && is_real_dir(entries@[i]) && p@ == entries@[i].path@
                    && forall|j: int| 0 <= j < i ==> !is_real_dir(#[trigger] entries@[j]),
            Err(e) => e == ExtractError::ContentsNotFound && forall|j: int|
                0 <= j < entries@.len() ==> !is_real_dir(#[trigger] entries@[j]),
        },
{
    let mut i: usize = 0;
    while i < entries.len()
        invariant
            i <= entries@.len(),
            forall|j: int| 0 <= j < i ==> !is_real_dir(#[trigger] entries@[j]),
        decreases entries@.len() - i,
    {
        if entries[i].is_dir && !entries[i].is_symlink {
            let p = String::from_str(entries[i].path.as_str());
            assert(is_real_dir(entries@[i as int]));
            return Ok(p);
        }
        i = i + 1;
    }
    Err(ExtractError::ContentsNotFound)
}

/// How an attempt to rename a directory into place went.
#[derive(Debug, Clone)]
pub enum RenameOutcome {
    Renamed,
    /// The two paths lie on different filesystems.
    CrossesDevices,
    Failed { message: String },
}

/// What follows an attempt to rename a directory into place.
#[derive(Debug, Clone)]
pub enum MoveStep {
    /// The directory is in place.
    Done,
    /// Recreate the tree file by file at the destination.
    CopyTree,
    /// The move failed.
    Fail(ToolchainError),
}

/// The step that follows a rename attempt: only a cross-device failure
/// falls back to copying.
pub open spec fn move_step(outcome: RenameOutcome) -> MoveStep {
    match outcome {
        RenameOutcome::Renamed => MoveStep::Done,
        RenameOutcome::CrossesDevices => MoveStep::CopyTree,
        RenameOutcome::Failed { message } => MoveStep::Fail(ToolchainError::Io { message }),
    }
}

/// Decides how a move continues after the rename attempt.
pub fn after_rename(outcome: RenameOutcome) -> (r: MoveStep)
    ensures
        r == move_step(outcome),
{
    match outcome {
        RenameOutcome::Renamed => MoveStep::Done,
        RenameOutcome::CrossesDevices => MoveStep::CopyTree,
        RenameOutcome::Failed { message } => MoveStep::Fail(ToolchainError::Io { message }),
    }
}

/// When the rename fails because the paths lie on different filesystems,
/// the move falls back to copying the tree; on no other outcome does it.
pub proof fn lemma_cross_device_falls_back_to_copy(outcome: RenameOutcome)
    ensures
        (move_step(outcome) is CopyTree) <==> (outcome is CrossesDevices),
{
}

/// The kind of an entry met while walking a tree.
#[derive(Debug, Clone, Copy, PartialEq, Eq, Structural)]
pub enum EntryKind {
    Directory,
    File,
    Symlink,
}

/// An entry met while walking the source tree.
#[derive(Debug, Clone)]
pub struct WalkEntry {
    pub path: String,
    pub kind: EntryKind,
}

/// One independent unit of a tree copy. Before each filesystem change the
/// unit consults the cancellation signal, and it first creates the parent
/// directories of `destination`.
#[derive(Debug, Clone)]
pub enum CopyUnit {
    /// Copy the contents of the file at `source` to `destination`.
    CopyFile { source: String, destination: String },
    /// Create at `destination` a symbolic link with the target of the one at
    /// `source`.
    Relink { source: String, destination: String },
}

/// What the walk does with an entry.
#[derive(Debug, Clone)]
pub enum WalkAction {
    /// Start this unit of work alongside the others.
    Spawn(CopyUnit),
    /// Nothing to do for this entry (directories come into being with the
    /// files inside them).
    Skip,
    /// Enumerate no further; await the units already started.
    Stop,
}

/// The first failure among the units' results, in the order given.
pub open spec fn first_failure(results: Seq<Result<(), ToolchainError>>) -> Option<ToolchainError>
    decreases results.len(),
{
    if results.len() == 0 {
        None
    } else {
        match results[0] {
            Err(e) => Some(e),
            Ok(()) => first_failure(results.drop_first()),
        }
    }
}

/// The result of a relocation: the reason the walk stopped early, if it did;
/// otherwise the first unit failure; otherwise success.
pub open spec fn relocation_result(
    stopped: Option<ToolchainError>,
    results: Seq<Result<(), ToolchainError>>,
) -> Result<(), ToolchainError> {
    match stopped {
        Some(e) => Err(e),
        None => match first_failure(results) {
            Some(e) => Err(e),
            None => Ok(()),
        },
    }
}

/// The walk of a tree that is being copied to another filesystem: it turns
/// walked entries into units of work until the walk ends or is stopped.
pub struct Relocation {
    source_root: String,
    destination_root: String,
    stopped: Option<ToolchainError>,
}

impl Relocation {
    /// The root of the tree being copied.
    pub closed spec fn source(&self) -> Seq<char> {
        self.source_root@
    }

    /// Where the tree is being recreated.
    pub closed spec fn destination(&self) -> Seq<char> {
        self.destination_root@
    }

    /// Why enumeration stopped early, if it did.
    pub closed spec fn stop_reason(&self) -> Option<ToolchainError> {
        self.stopped
    }

    /// A walk that has met no entry yet.
    pub fn new(source_root: &str, destination_root: &str) -> (r: Relocation)
        ensures
            r.source() == source_root@,
            r.destination() == destination_root@,
            r.stop_reason() is None,
    {
        Relocation {
            source_root: String::from_str(source_root),
            destination_root: String::from_str(destination_root),
            stopped: None,
        }
    }

    /// Handles the next walked entry, with `cancelled` the state of the
    /// cancellation signal observed just before. Once enumeration has
    /// stopped, no entry starts new work.
    pub fn on_entry(&mut self, cancelled: bool, entry: &WalkEntry) -> (r: WalkAction)
        ensures
            final(self).source() == old(self).source(),
            final(self).destination() == old(self).destination(),
            old(self).stop_reason() is Some ==> r is Stop && final(self).stop_reason()
                == old(self).stop_reason(),
            old(self).stop_reason() is None && cancelled ==> r is Stop
                && final(self).stop_reason() == Some(ToolchainError::Cancelled),
            old(self).stop_reason() is None && !cancelled && entry.kind == EntryKind::Directory
                ==> r is Skip && final(self).stop_reason() is None,
            old(self).stop_reason() is None && !cancelled && entry.kind != EntryKind::Directory
                ==> match path_relative(entry.path@, old(self).source()) {
                None => r is Stop && final(self).stop_reason() matches Some(ToolchainError::Io { .. }),
                Some(rel) => final(self).stop_reason() is None && match r {
                    WalkAction::Spawn(CopyUnit::CopyFile { source, destination }) => entry.kind
                        == EntryKind::File && source@ == entry.path@ && destination@
                        == path_joined(old(self).destination(), rel),
                    WalkAction::Spawn(CopyUnit::Relink { source, destination }) => entry.kind
                        == EntryKind::Symlink && source@ == entry.path@ && destination@
                        == path_joined(old(self).destination(), rel),
                    _ => false,
                },
            },
    {
        if self.stopped.is_some() {
            return WalkAction::Stop;
        }
        if cancelled {
            self.stopped = Some(ToolchainError::Cancelled);
            return WalkAction::Stop;
        }
        if entry.kind == EntryKind::Directory {
            return WalkAction::Skip;
        }
        match relative_path(entry.path.as_str(), self.source_root.as_str()) {
            None => {
                self.stopped = Some(
                    ToolchainError::Io {
                        message: String::from_str("a walked entry lies outside the source tree"),
                    },
                );
                WalkAction::Stop
            },
            Some(rel) => {
                let source = String::from_str(entry.path.as_str());
                let destination = join_path(self.destination_root.as_str(), rel.as_str());
                if entry.kind == EntryKind::File {
                    WalkAction::Spawn(CopyUnit::CopyFile { source, destination })
                } else {
                    WalkAction::Spawn(CopyUnit::Relink { source, destination })
                }
            },
        }
    }

    /// Handles a failure of the walk itself: enumeration stops, unless it
    /// had stopped already.
    pub fn on_walk_error(&mut self, message: String)
        ensures
            final(self).source() == old(self).source(),
            final(self).destination() == old(self).destination(),
            old(self).stop_reason() is Some ==> final(self).stop_reason() == old(
                self,
            ).stop_reason(),
            old(self).stop_reason() is None ==> final(self).stop_reason() == Some(
                ToolchainError::Extract(ExtractError::WalkDir { message }),
            ),
    {
        if self.stopped.is_none() {
            self.stopped = Some(ToolchainError::Extract(ExtractError::WalkDir { message }));
        }
    }

    /// The result of the relocation, once every unit that was started has
    /// finished with the given results.
    pub fn outcome(self, unit_results: Vec<Result<(), ToolchainError>>) -> (r: Result<
        (),
        ToolchainError,
    >)
        ensures
            r == relocation_result(self.stop_reason(), unit_results@),
    {
        if let Some(e) = self.stopped {
            return Err(e);
        }
        let mut results = unit_results;
        let ghost all = results@;
        let mut i: usize = 0;
        assert(all.skip(0) =~= all);
        while i < results.len()
            invariant
                self.stop_reason() is None,
                all == unit_results@,
                results@ == all,
                i <= all.len(),
                first_failure(all) == first_failure(all.skip(i as int)),
            decreases all.len() - i,
        {
            assert(all.skip(i as int).drop_first() =~= all.skip(i + 1));
            if results[i].is_err() {
                assert(all.skip(i as int)[0] == all[i as int]);
                let failed = results.remove(i);
                return failed;
            }
            i = i + 1;
        }
        assert(all.skip(i as int).len() == 0);
        Ok(())
    }
}

/// Once the walk has observed cancellation, the relocation reports
/// cancellation, whatever the units that had started returned.
pub proof fn lemma_cancelled_walk_reports_cancelled(results: Seq<Result<(), ToolchainError>>)
    ensures
        relocation_result(Some(ToolchainError::Cancelled), results) == Err::<(), ToolchainError>(
            ToolchainError::Cancelled,
        ),
{
}

/// How many times a clean detach of a disk image is attempted.
pub const UNMOUNT_ATTEMPTS: u32 = 10;

/// The pause between two detach attempts, in milliseconds.
pub const UNMOUNT_RETRY_DELAY_MS: u64 = 500;

/// The next step in unmounting a disk image.
#[derive(Debug, Clone, Copy, PartialEq, Eq, Structural)]
pub enum UnmountStep {
    /// Attempt a clean detach; on failure wait `UNMOUNT_RETRY_DELAY_MS`.
    Detach,
    /// The attempts are used up: force the image off.
    ForceDetach,
}

/// The bounded retry of a clean disk-image detach.
pub struct UnmountRetry {
    retries_left: u32,
}

impl UnmountRetry {
    /// How many clean detach attempts remain.
    pub closed spec fn remaining(&self) -> nat {
        self.retries_left as nat
    }

    /// No attempt made yet.
    pub fn new() -> (r: UnmountRetry)
        ensures
            r.remaining() == UNMOUNT_ATTEMPTS,
    {
        UnmountRetry { retries_left: UNMOUNT_ATTEMPTS }
    }

    /// The step after a failed (or before the first) clean detach, with
    /// `cancelled` the state of the cancellation signal observed just before.
    /// Cancellation ends the retries; the mount is then forced off by its
    /// guard.
    pub fn next_step(&mut self, cancelled: bool) -> (r: Result<UnmountStep, ToolchainError>)
        ensures
            old(self).remaining() == 0 ==> r == Ok::<UnmountStep, ToolchainError>(
                UnmountStep::ForceDetach,
            ) && final(self).remaining() == 0,
            old(self).remaining() > 0 && cancelled ==> (r matches Err(ToolchainError::Cancelled)
                && final(self).remaining() == old(self).remaining()),
            old(self).remaining() > 0 && !cancelled ==> r == Ok::<UnmountStep, ToolchainError>(
                UnmountStep::Detach,
            ) && final(self).remaining() == old(self).remaining() - 1,
    {
        if self.retries_left == 0 {
            return Ok(UnmountStep::ForceDetach);
        }
        if cancelled {
            return Err(ToolchainError::Cancelled);
        }
        self.retries_left = self.retries_left - 1;
        Ok(UnmountStep::Detach)
    }
}

} // verus!
