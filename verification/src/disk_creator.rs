//! Disk provisioning: parsing the introspection tool's report, populating a
//! fresh raw disk from a directory, and deriving a copy-on-write overlay
//! disk from a backing image.
use vstd::prelude::*;

use crate::step::StepEvent;
use crate::text::{
    capture_after, capture_suffix, opt_text, text_is,
};

verus! {

/// Disk image formats this pipeline recognizes.
#[derive(Clone, Copy, PartialEq, Eq, Structural, Debug)]
pub enum DiskFormat {
    Raw,
    Qcow2,
}

pub open spec fn format_name(f: DiskFormat) -> Seq<char> {
    match f {
        DiskFormat::Raw => "raw"@,
        DiskFormat::Qcow2 => "qcow2"@,
    }
}

impl DiskFormat {
    /// The token under which the disk tooling reports and accepts this
    /// format.
    pub fn text(&self) -> (r: &'static str)
        ensures
            r@ == format_name(*self),
    {
        match self {
            DiskFormat::Raw => "raw",
            DiskFormat::Qcow2 => "qcow2",
        }
    }
}

/// Failures of the two disk-creation workflows.
#[derive(Clone, Copy, PartialEq, Eq, Structural, Debug)]
pub enum DiskCreateError {
    DiskAlreadyExists,
    DirectoryNotExist,
    BackingFileNotExist,
    FailedCreate,
}

/// Format and backing file of a disk image, as read from the introspection
/// tool's report.
#[derive(Debug)]
pub struct DiskInfo {
    pub format: DiskFormat,
    pub backing_file: Option<String>,
}

/// Position of the first line break in `s` at or after `from`; the length of
/// `s` when there is none.
pub open spec fn first_newline(s: Seq<char>, from: int) -> int
    decreases s.len() - from,
{
    if from < 0 || from >= s.len() {
        s.len() as int
    } else if s[from] == '\n' {
        from
    } else {
        first_newline(s, from + 1)
    }
}

pub proof fn lemma_first_newline(s: Seq<char>, from: int)
    requires
        0 <= from <= s.len(),
    ensures
        from <= first_newline(s, from) <= s.len(),
    decreases s.len() - from,
{
    if from < s.len() && s[from] != '\n' {
        lemma_first_newline(s, from + 1);
    }
}

/// How one line of the report changes what has been gathered so far: a
/// recognized format token replaces the format, an unrecognized one is
/// ignored, and a backing-file line replaces the backing path.
pub open spec fn scan_line(
    line: Seq<char>,
    fmt: Option<DiskFormat>,
    back: Option<Seq<char>>,
) -> (Option<DiskFormat>, Option<Seq<char>>) {
    match capture_after(line, "file format: "@) {
        Some(tok) => {
            if tok == "raw"@ {
                (Some(DiskFormat::Raw), back)
            } else if tok == "qcow2"@ {
                (Some(DiskFormat::Qcow2), back)
            } else {
                (fmt, back)
            }
        },
        None => match capture_after(line, "backing file: "@) {
            Some(p) => (fmt, Some(p)),
            None => (fmt, back),
        },
    }
}

/// Where the line that starts at `from` and breaks at `k` ends: a trailing
/// carriage return is no part of the line.
pub open spec fn line_end(s: Seq<char>, from: int, k: int) -> int {
    if k > from && s[k - 1] == '\r' {
        k - 1
    } else {
        k
    }
}

/// Format and backing file gathered from the report text line by line,
/// starting at position `from`.
pub open spec fn scan_report(
    s: Seq<char>,
    from: int,
    fmt: Option<DiskFormat>,
    back: Option<Seq<char>>,
) -> (Option<DiskFormat>, Option<Seq<char>>)
    decreases s.len() - from,
    via scan_report_decreases
{
    if !(0 <= from <= s.len()) {
        (fmt, back)
    } else {
        let k = first_newline(s, from);
        let r = scan_line(s.subrange(from, line_end(s, from, k)), fmt, back);
        if k >= s.len() {
            r
        } else {
            scan_report(s, k + 1, r.0, r.1)
        }
    }
}

#[via_fn]
proof fn scan_report_decreases(
    s: Seq<char>,
    from: int,
    fmt: Option<DiskFormat>,
    back: Option<Seq<char>>,
) {
    if 0 <= from <= s.len() {
        lemma_first_newline(s, from);
    }
}

fn next_newline(s: &str, from: usize) -> (k: usize)
    requires
        from <= s@.len(),
    ensures
        k as int == first_newline(s@, from as int),
        from <= k <= s@.len(),
    decreases s@.len() - from,
{
    let n = s.unicode_len();
    if from >= n {
        n
    } else if s.get_char(from) == '\n' {
        from
    } else {
        next_newline(s, from + 1)
    }
}

fn scan_line_exec(line: &str, fmt: Option<DiskFormat>, back: Option<String>) -> (r: (
    Option<DiskFormat>,
    Option<String>,
))
    ensures
        (r.0, opt_text(r.1)) == scan_line(line@, fmt, opt_text(back)),
{
    match capture_suffix(line, "file format: ") {
        Some(tok) => {
            if text_is(tok.as_str(), "raw") {
                (Some(DiskFormat::Raw), back)
            } else if text_is(tok.as_str(), "qcow2") {
                (Some(DiskFormat::Qcow2), back)
            } else {
                (fmt, back)
            }
        },
        None => match capture_suffix(line, "backing file: ") {
            Some(p) => (fmt, Some(p)),
            None => (fmt, back),
        },
    }
}

fn scan_report_exec(report: &str, from: usize, fmt: Option<DiskFormat>, back: Option<String>) -> (r:
    (Option<DiskFormat>, Option<String>))
    requires
        from <= report@.len(),
    ensures
        (r.0, opt_text(r.1)) == scan_report(report@, from as int, fmt, opt_text(back)),
    decreases report@.len() - from,
{
    let n = report.unicode_len();
    let k = next_newline(report, from);
    let e = if k > from && report.get_char(k - 1) == '\r' {
        k - 1
    } else {
        k
    };
    let line = report.substring_char(from, e);
    let (fmt2, back2) = scan_line_exec(line, fmt, back);
    if k >= n {
        (fmt2, back2)
    } else {
        scan_report_exec(report, k + 1, fmt2, back2)
    }
}

impl DiskInfo {
    /// Reads a disk's format and backing file out of the introspection
    /// tool's textual report.  The report is scanned line by line; the last
    /// recognized `file format:` token and the last `backing file:` path
    /// win.  Without a recognized format there is no result: the caller
    /// cannot proceed without knowing the format.  A missing backing file is
    /// normal and reported as such.
    pub fn for_disk_file(report: &str) -> (r: Option<DiskInfo>)
        ensures
            ({
                let (fmt, back) = scan_report(report@, 0, None, None);
                match r {
                    Some(info) => Some(info.format) == fmt && opt_text(info.backing_file) == back,
                    None => fmt is None,
                }
            }),
    {
        let (fmt, back) = scan_report_exec(report, 0, None, None);
        match fmt {
            Some(format) => Some(DiskInfo { format, backing_file: back }),
            None => None,
        }
    }
}

/// Phases of the disk-provisioning workflow.  Each non-final phase names the
/// action the embedding program must perform next; the event it answers with
/// decides the following phase.
#[derive(Clone, Copy, PartialEq, Eq, Structural, Debug)]
pub enum ProvisionPhase {
    /// Ask whether the destination disk file already exists.
    CheckDisk,
    /// Ask whether the source directory exists.
    CheckSource,
    /// Ensure the temporary mount point directory exists, creating it if
    /// absent.
    EnsureMountDir,
    /// Allocate the destination file to the requested size.
    Allocate,
    /// Format the allocated file with the requested filesystem.
    MakeFilesystem,
    /// Loop-mount the formatted file at the mount point (privileged).
    Mount,
    /// Copy the source directory's contents into the mount point,
    /// preserving attributes (privileged).
    CopyContents,
    /// Unmount the mount point (privileged).  This phase is reached on every
    /// copy outcome: the unmount is a mandatory finalizer.
    Unmount { copy_ok: bool },
    /// The disk has been created and populated.
    Done,
    /// The workflow failed; no further action is requested.
    Failed(DiskCreateError),
}

/// The provisioning workflow has finished: no further action is requested.
pub open spec fn provision_finished(p: ProvisionPhase) -> bool {
    p is Done || p is Failed
}

/// The mount point is (possibly) mounted in this phase.
pub open spec fn mount_held(p: ProvisionPhase) -> bool {
    p is CopyContents || p matches ProvisionPhase::Unmount { .. }
}

/// The phase following `p` once the embedding program answers with `ev`.
/// An answer of the wrong shape for the phase leaves the workflow unchanged,
/// and a finished workflow stays as it is.
pub open spec fn provision_next(p: ProvisionPhase, ev: StepEvent) -> ProvisionPhase {
    match p {
        ProvisionPhase::CheckDisk => match ev {
            StepEvent::Exists(true) => ProvisionPhase::Failed(DiskCreateError::DiskAlreadyExists),
            StepEvent::Exists(false) => ProvisionPhase::CheckSource,
            _ => p,
        },
        ProvisionPhase::CheckSource => match ev {
            StepEvent::Exists(false) => ProvisionPhase::Failed(DiskCreateError::DirectoryNotExist),
            StepEvent::Exists(true) => ProvisionPhase::EnsureMountDir,
            _ => p,
        },
        ProvisionPhase::EnsureMountDir => match ev {
            StepEvent::Ran(res) => if res is Ok {
                ProvisionPhase::Allocate
            } else {
                ProvisionPhase::Failed(DiskCreateError::FailedCreate)
            },
            _ => p,
        },
        ProvisionPhase::Allocate => match ev {
            StepEvent::Ran(res) => if res is Ok {
                ProvisionPhase::MakeFilesystem
            } else {
                ProvisionPhase::Failed(DiskCreateError::FailedCreate)
            },
            _ => p,
        },
        ProvisionPhase::MakeFilesystem => match ev {
            StepEvent::Ran(res) => if res is Ok {
                ProvisionPhase::Mount
            } else {
                ProvisionPhase::Failed(DiskCreateError::FailedCreate)
            },
            _ => p,
        },
        ProvisionPhase::Mount => match ev {
            StepEvent::Ran(res) => if res is Ok {
                ProvisionPhase::CopyContents
            } else {
                ProvisionPhase::Failed(DiskCreateError::FailedCreate)
            },
            _ => p,
        },
        ProvisionPhase::CopyContents => match ev {
            StepEvent::Ran(res) => (ProvisionPhase::Unmount { copy_ok: res is Ok }),
            _ => p,
        },
        ProvisionPhase::Unmount { copy_ok } => match ev {
            StepEvent::Ran(res) => if res is Err {
                ProvisionPhase::Failed(DiskCreateError::FailedCreate)
            } else if copy_ok {
                ProvisionPhase::Done
            } else {
                ProvisionPhase::Failed(DiskCreateError::FailedCreate)
            },
            _ => p,
        },
        ProvisionPhase::Done => p,
        ProvisionPhase::Failed(_) => p,
    }
}

/// A disk-provisioning workflow: produce a raw disk image of the requested
/// size holding a copy of the source directory's contents, formatted with
/// the requested filesystem.
pub struct DiskCreation {
    pub disk_file: String,
    pub disk_size_in_bytes: u64,
    pub file_system: crate::definition::FileSystem,
    pub directory: String,
    pub phase: ProvisionPhase,
}

/// Begins a disk-provisioning workflow for the given destination, size,
/// filesystem and source directory.
pub fn create_from_directory(
    disk_file: String,
    disk_size_in_bytes: u64,
    file_system: crate::definition::FileSystem,
    directory: String,
) -> (m: DiskCreation)
    ensures
        m.phase == ProvisionPhase::CheckDisk,
        m.disk_file == disk_file,
        m.disk_size_in_bytes == disk_size_in_bytes,
        m.file_system == file_system,
        m.directory == directory,
{
    DiskCreation { disk_file, disk_size_in_bytes, file_system, directory, phase: ProvisionPhase::CheckDisk }
}

impl DiskCreation {
    /// Advances the workflow by one answered action.
    pub fn step(self, ev: StepEvent) -> (r: DiskCreation)
        ensures
            r.phase == provision_next(self.phase, ev),
            r.disk_file == self.disk_file,
            r.disk_size_in_bytes == self.disk_size_in_bytes,
            r.file_system == self.file_system,
            r.directory == self.directory,
    {
        let DiskCreation { disk_file, disk_size_in_bytes, file_system, directory, phase } = self;
        let next = match (phase, ev) {
            (ProvisionPhase::CheckDisk, StepEvent::Exists(true)) => ProvisionPhase::Failed(
                DiskCreateError::DiskAlreadyExists,
            ),
            (ProvisionPhase::CheckDisk, StepEvent::Exists(false)) => ProvisionPhase::CheckSource,
            (ProvisionPhase::CheckSource, StepEvent::Exists(false)) => ProvisionPhase::Failed(
                DiskCreateError::DirectoryNotExist,
            ),
            (ProvisionPhase::CheckSource, StepEvent::Exists(true)) => ProvisionPhase::EnsureMountDir,
            (ProvisionPhase::EnsureMountDir, StepEvent::Ran(res)) => match res {
                Ok(_) => ProvisionPhase::Allocate,
                Err(_) => ProvisionPhase::Failed(DiskCreateError::FailedCreate),
            },
            (ProvisionPhase::Allocate, StepEvent::Ran(res)) => match res {
                Ok(_) => ProvisionPhase::MakeFilesystem,
                Err(_) => ProvisionPhase::Failed(DiskCreateError::FailedCreate),
            },
            (ProvisionPhase::MakeFilesystem, StepEvent::Ran(res)) => match res {
                Ok(_) => ProvisionPhase::Mount,
                Err(_) => ProvisionPhase::Failed(DiskCreateError::FailedCreate),
            },
            (ProvisionPhase::Mount, StepEvent::Ran(res)) => match res {
                Ok(_) => ProvisionPhase::CopyContents,
                Err(_) => ProvisionPhase::Failed(DiskCreateError::FailedCreate),
            },
            (ProvisionPhase::CopyContents, StepEvent::Ran(res)) => ProvisionPhase::Unmount {
                copy_ok: res.is_ok(),
            },
            (ProvisionPhase::Unmount { copy_ok }, StepEvent::Ran(res)) => match res {
                Err(_) => ProvisionPhase::Failed(DiskCreateError::FailedCreate),
                Ok(_) => if copy_ok {
                    ProvisionPhase::Done
                } else {
                    ProvisionPhase::Failed(DiskCreateError::FailedCreate)
                },
            },
            (p, _) => p,
        };
        DiskCreation { disk_file, disk_size_in_bytes, file_system, directory, phase: next }
    }
}

/// Phases of the overlay-disk workflow.
#[derive(Clone, Copy, PartialEq, Eq, Structural, Debug)]
pub enum OverlayPhase {
    /// Ask whether the destination disk file already exists.
    CheckDisk,
    /// Ask whether the backing file exists.
    CheckBacking,
    /// Resolve the backing file to an absolute path, so the overlay stays
    /// valid regardless of the working directory when the machine starts.
    ResolveBacking,
    /// Invoke the disk tool to create the overlay, embedding the absolute
    /// backing path.
    CreateOverlay,
    /// The overlay disk has been created.
    Done,
    /// The workflow failed; no further action is requested.
    Failed(DiskCreateError),
}

/// The overlay workflow has finished: no further action is requested.
pub open spec fn overlay_finished(p: OverlayPhase) -> bool {
    p is Done || p is Failed
}

/// The phase following `p` once the embedding program answers with `ev`.
pub open spec fn overlay_next(p: OverlayPhase, ev: StepEvent) -> OverlayPhase {
    match p {
        OverlayPhase::CheckDisk => match ev {
            StepEvent::Exists(true) => OverlayPhase::Failed(DiskCreateError::DiskAlreadyExists),
            StepEvent::Exists(false) => OverlayPhase::CheckBacking,
            _ => p,
        },
        OverlayPhase::CheckBacking => match ev {
            StepEvent::Exists(false) => OverlayPhase::Failed(DiskCreateError::BackingFileNotExist),
            StepEvent::Exists(true) => OverlayPhase::ResolveBacking,
            _ => p,
        },
        OverlayPhase::ResolveBacking => match ev {
            StepEvent::Ran(res) => if res is Ok {
                OverlayPhase::CreateOverlay
            } else {
                OverlayPhase::Failed(DiskCreateError::FailedCreate)
            },
            _ => p,
        },
        OverlayPhase::CreateOverlay => match ev {
            StepEvent::Ran(res) => if res is Ok {
                OverlayPhase::Done
            } else {
                OverlayPhase::Failed(DiskCreateError::FailedCreate)
            },
            _ => p,
        },
        OverlayPhase::Done => p,
        OverlayPhase::Failed(_) => p,
    }
}

/// An overlay-disk workflow: create a copy-on-write disk image whose backing
/// file is an existing disk.
pub struct OverlayCreation {
    pub disk_file: String,
    pub backing_file: String,
    /// The backing file's absolute path, once it has been resolved.
    pub absolute_backing: Option<String>,
    pub phase: OverlayPhase,
}

/// Begins an overlay-disk workflow for the given destination and backing
/// file.
pub fn create_copy_on_write_image(disk_file: String, backing_file: String) -> (m: OverlayCreation)
    ensures
        m.phase == OverlayPhase::CheckDisk,
        m.disk_file == disk_file,
        m.backing_file == backing_file,
        m.absolute_backing is None,
{
    OverlayCreation { disk_file, backing_file, absolute_backing: None, phase: OverlayPhase::CheckDisk }
}

impl OverlayCreation {
    /// Advances the workflow by one answered action.  The answer to the
    /// `ResolveBacking` request carries the absolute path, which is kept for
    /// the overlay-creation call.
    pub fn step(self, ev: StepEvent) -> (r: OverlayCreation)
        ensures
            r.phase == overlay_next(self.phase, ev),
            r.disk_file == self.disk_file,
            r.backing_file == self.backing_file,
            ({
                match (self.phase, ev) {
                    (OverlayPhase::ResolveBacking, StepEvent::Ran(Ok(a))) => opt_text(
                        r.absolute_backing,
                    ) == Some(a@),
                    _ => opt_text(r.absolute_backing) == opt_text(self.absolute_backing),
                }
            }),
    {
        let OverlayCreation { disk_file, backing_file, absolute_backing, phase } = self;
        let (next, resolved) = match (phase, ev) {
            (OverlayPhase::CheckDisk, StepEvent::Exists(true)) => (
                OverlayPhase::Failed(DiskCreateError::DiskAlreadyExists),
                absolute_backing,
            ),
            (OverlayPhase::CheckDisk, StepEvent::Exists(false)) => (
                OverlayPhase::CheckBacking,
                absolute_backing,
            ),
            (OverlayPhase::CheckBacking, StepEvent::Exists(false)) => (
                OverlayPhase::Failed(DiskCreateError::BackingFileNotExist),
                absolute_backing,
            ),
            (OverlayPhase::CheckBacking, StepEvent::Exists(true)) => (
                OverlayPhase::ResolveBacking,
                absolute_backing,
            ),
            (OverlayPhase::ResolveBacking, StepEvent::Ran(res)) => match res {
                Ok(a) => (OverlayPhase::CreateOverlay, Some(a)),
                Err(_) => (OverlayPhase::Failed(DiskCreateError::FailedCreate), absolute_backing),
            },
            (OverlayPhase::CreateOverlay, StepEvent::Ran(res)) => match res {
                Ok(_) => (OverlayPhase::Done, absolute_backing),
                Err(_) => (OverlayPhase::Failed(DiskCreateError::FailedCreate), absolute_backing),
            },
            (p, _) => (p, absolute_backing),
        };
        OverlayCreation { disk_file, backing_file, absolute_backing: resolved, phase: next }
    }
}

/// Law: disk creation is create-only.  A destination that already exists is
/// rejected with `DiskAlreadyExists` by both disk workflows at their very
/// first action, before any filesystem or privileged operation has been
/// requested, and a finished workflow requests nothing further.
pub proof fn lemma_create_only_disks(p: ProvisionPhase, q: OverlayPhase, ev: StepEvent)
    ensures
        provision_next(ProvisionPhase::CheckDisk, StepEvent::Exists(true)) == ProvisionPhase::Failed(
            DiskCreateError::DiskAlreadyExists,
        ),
        overlay_next(OverlayPhase::CheckDisk, StepEvent::Exists(true)) == OverlayPhase::Failed(
            DiskCreateError::DiskAlreadyExists,
        ),
        provision_finished(p) ==> provision_next(p, ev) == p,
        overlay_finished(q) ==> overlay_next(q, ev) == q,
{
}

/// Law: the unmount finalizer.  Whatever the outcome of the privileged copy
/// step, the workflow's next action is the unmount; the mount is never held
/// in a finished phase, and the only way out of the mounted phases is by
/// answering the unmount request.
pub proof fn lemma_mount_finalizer(p: ProvisionPhase, ev: StepEvent)
    ensures
        forall|res: Result<String, String>|
            provision_next(ProvisionPhase::CopyContents, StepEvent::Ran(res))
                == (ProvisionPhase::Unmount { copy_ok: res is Ok }),
        mount_held(p) && !mount_held(provision_next(p, ev)) ==> (p matches ProvisionPhase::Unmount {
            ..
        }) && ev matches StepEvent::Ran(_),
        mount_held(provision_next(p, ev)) && !mount_held(p) ==> p is Mount,
        provision_finished(provision_next(p, ev)) && mount_held(p) ==> (p
            matches ProvisionPhase::Unmount { .. }),
{
}

/// The phase a run reaches from `p` once the answers `evs` have been
/// consumed in order.
pub open spec fn provision_run(p: ProvisionPhase, evs: Seq<StepEvent>) -> ProvisionPhase
    decreases evs.len(),
{
    if evs.len() == 0 {
        p
    } else {
        provision_run(provision_next(p, evs[0]), evs.drop_first())
    }
}

/// The run from `p` over `evs` answers phase `q`: at some step the workflow
/// stood in `q` and consumed an answer there — that is, `q`'s action was
/// performed.
pub open spec fn run_answers(p: ProvisionPhase, evs: Seq<StepEvent>, q: ProvisionPhase) -> bool
    decreases evs.len(),
{
    evs.len() > 0 && (p == q || run_answers(provision_next(p, evs[0]), evs.drop_first(), q))
}

/// While the mount is held, a run can only finish by answering the unmount
/// request.
pub proof fn lemma_mounted_run_unmounts(p: ProvisionPhase, evs: Seq<StepEvent>)
    requires
        mount_held(p),
        provision_finished(provision_run(p, evs)),
    ensures
        exists|b: bool| run_answers(p, evs, ProvisionPhase::Unmount { copy_ok: b }),
    decreases evs.len(),
{
    if evs.len() == 0 {
        assert(provision_run(p, evs) == p);
        assert(false);
    } else {
        match p {
            ProvisionPhase::Unmount { copy_ok } => {
                assert(run_answers(p, evs, ProvisionPhase::Unmount { copy_ok }));
            },
            _ => {
                let p1 = provision_next(p, evs[0]);
                assert(mount_held(p1));
                lemma_mounted_run_unmounts(p1, evs.drop_first());
                let b = choose|b: bool|
                    run_answers(p1, evs.drop_first(), ProvisionPhase::Unmount { copy_ok: b });
                assert(run_answers(p, evs, ProvisionPhase::Unmount { copy_ok: b }));
            },
        }
    }
}

/// Law (mount finalizer, whole runs): a finished provisioning run that
/// performed the privileged copy also performed the unmount — the mount
/// point is never left mounted, whatever the copy's outcome.
pub proof fn lemma_mount_finalizer_run(p: ProvisionPhase, evs: Seq<StepEvent>)
    requires
        !mount_held(p),
        provision_finished(provision_run(p, evs)),
        run_answers(p, evs, ProvisionPhase::CopyContents),
    ensures
        exists|b: bool| run_answers(p, evs, ProvisionPhase::Unmount { copy_ok: b }),
    decreases evs.len(),
{
    let p1 = provision_next(p, evs[0]);
    let rest = evs.drop_first();
    assert(run_answers(p1, rest, ProvisionPhase::CopyContents));
    if mount_held(p1) {
        lemma_mounted_run_unmounts(p1, rest);
    } else {
        lemma_mount_finalizer_run(p1, rest);
    }
    let b = choose|b: bool| run_answers(p1, rest, ProvisionPhase::Unmount { copy_ok: b });
    assert(run_answers(p, evs, ProvisionPhase::Unmount { copy_ok: b }));
}

} // verus!
