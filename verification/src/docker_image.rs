//! Extraction of a container image's root filesystem: resolving an image
//! reference to a content hash, caching extracted roots by that hash, and
//! the extraction workflow with full rollback on partial failure.
use vstd::prelude::*;

use crate::step::StepEvent;
use crate::text::{
    capture_after, capture_suffix, find_first, find_from, lemma_find_from, opt_text, trim_spec,
    trim_text,
};

verus! {

/// Failures of the image workflows.
#[derive(Clone, Debug)]
pub enum DockerImageError {
    /// A plain filesystem operation failed; carries its diagnostic text.
    IO(String),
    /// The image could not be resolved, or no container could be
    /// instantiated from it.
    ImageNotFound,
    /// The extraction destination already exists.
    DestinationExist,
    /// An extraction sub-step failed; carries the first recorded diagnostic.
    /// The destination has been rolled back.
    FailedToExtract(String),
    /// Building an image failed.
    FailedToBuild,
}

/// The content hash in the image collaborator's inspection answer: the text
/// between the first `sha256:` marker of the trimmed answer and the next
/// such marker, or its end.
pub open spec fn image_hash_of(out: Seq<char>) -> Option<Seq<char>> {
    let t = trim_spec(out);
    match capture_after(t, "sha256:"@) {
        None => None,
        Some(rest) => match find_from(rest, "sha256:"@, 0) {
            Some(j) => Some(rest.subrange(0, j)),
            None => Some(rest),
        },
    }
}

/// Reads the content hash out of the image collaborator's inspection
/// answer.
pub fn parse_image_hash(out: &str) -> (r: Option<String>)
    ensures
        opt_text(r) == image_hash_of(out@),
{
    let t = trim_text(out);
    match capture_suffix(t.as_str(), "sha256:") {
        None => None,
        Some(rest) => match find_first(rest.as_str(), "sha256:", 0) {
            Some(j) => {
                proof {
                    lemma_find_from(rest@, "sha256:"@, 0);
                }
                let cut = rest.as_str().substring_char(0, j);
                Some(cut.to_owned())
            },
            None => Some(rest),
        },
    }
}

/// Phases of the extraction workflow.  Each non-final phase names the
/// action the embedding program must perform next.  From `Export` on, the
/// workflow advances on every outcome, recording the first failure, so that
/// the cleanup steps always run; whether to roll back is decided once all
/// of them have been attempted.
#[derive(Clone, Copy, PartialEq, Eq, Structural, Debug)]
pub enum ExtractPhase {
    /// Ensure the destination's parent directory exists, creating it if
    /// absent.
    EnsureParent,
    /// Ask whether the destination directory already exists.
    CheckDestination,
    /// Create the destination directory.
    CreateDestination,
    /// Instantiate a container from the image, without starting it.
    CreateContainer,
    /// Export the container's filesystem to a temporary archive file.
    Export,
    /// Unpack the archive into the destination, preserving ownership
    /// (privileged).
    Unpack,
    /// Repair the resolver-configuration file inside the extracted root,
    /// replacing it with a symlink to the host's resolver configuration
    /// (privileged).
    Repair,
    /// Remove the instantiated container (cleanup).
    RemoveContainer,
    /// Remove the temporary archive file (cleanup).
    RemoveArchive,
    /// Remove the whole destination directory: a sub-step failed, and a
    /// half-extracted root is never left in place.
    Rollback,
    /// The root filesystem has been extracted.
    Done,
    /// The workflow failed; the error is the recorded first failure.
    Failed,
}

/// The extraction workflow has finished: no further action is requested.
pub open spec fn extract_finished(p: ExtractPhase) -> bool {
    p is Done || p is Failed
}

/// The phase following `p` once the embedding program answers with `ev`.
/// `had_failure` says whether a failure had been recorded before this
/// answer.  An answer of the wrong shape leaves the workflow unchanged.
pub open spec fn extract_next(p: ExtractPhase, had_failure: bool, ev: StepEvent) -> ExtractPhase {
    match p {
        ExtractPhase::EnsureParent => match ev {
            StepEvent::Ran(res) => if res is Ok {
                ExtractPhase::CheckDestination
            } else {
                ExtractPhase::Failed
            },
            _ => p,
        },
        ExtractPhase::CheckDestination => match ev {
            StepEvent::Exists(true) => ExtractPhase::Failed,
            StepEvent::Exists(false) => ExtractPhase::CreateDestination,
            _ => p,
        },
        ExtractPhase::CreateDestination => match ev {
            StepEvent::Ran(res) => if res is Ok {
                ExtractPhase::CreateContainer
            } else {
                ExtractPhase::Failed
            },
            _ => p,
        },
        ExtractPhase::CreateContainer => match ev {
            StepEvent::Ran(res) => if res is Ok {
                ExtractPhase::Export
            } else {
                ExtractPhase::Failed
            },
            _ => p,
        },
        ExtractPhase::Export => match ev {
            StepEvent::Ran(_) => ExtractPhase::Unpack,
            _ => p,
        },
        ExtractPhase::Unpack => match ev {
            StepEvent::Ran(_) => ExtractPhase::Repair,
            _ => p,
        },
        ExtractPhase::Repair => match ev {
            StepEvent::Ran(_) => ExtractPhase::RemoveContainer,
            _ => p,
        },
        ExtractPhase::RemoveContainer => match ev {
            StepEvent::Ran(_) => ExtractPhase::RemoveArchive,
            _ => p,
        },
        ExtractPhase::RemoveArchive => match ev {
            StepEvent::Ran(res) => if had_failure || res is Err {
                ExtractPhase::Rollback
            } else {
                ExtractPhase::Done
            },
            _ => p,
        },
        ExtractPhase::Rollback => match ev {
            StepEvent::Ran(_) => ExtractPhase::Failed,
            _ => p,
        },
        ExtractPhase::Done => p,
        ExtractPhase::Failed => p,
    }
}

/// The failure recorded after phase `p` is answered with `ev`, given the
/// failure recorded so far.  From `Export` on, only the first failure is
/// kept; a failed rollback is fatal on its own and replaces it.
pub open spec fn recorded_failure(
    p: ExtractPhase,
    prior: Option<DockerImageError>,
    ev: StepEvent,
) -> Option<DockerImageError> {
    match (p, ev) {
        (ExtractPhase::EnsureParent, StepEvent::Ran(Err(m))) => Some(DockerImageError::IO(m)),
        (ExtractPhase::CheckDestination, StepEvent::Exists(true)) => Some(
            DockerImageError::DestinationExist,
        ),
        (ExtractPhase::CreateDestination, StepEvent::Ran(Err(m))) => Some(DockerImageError::IO(m)),
        (ExtractPhase::CreateContainer, StepEvent::Ran(Err(_))) => Some(
            DockerImageError::ImageNotFound,
        ),
        (ExtractPhase::Export, StepEvent::Ran(Err(m))) => if prior is Some {
            prior
        } else {
            Some(DockerImageError::FailedToExtract(m))
        },
        (ExtractPhase::Unpack, StepEvent::Ran(Err(m))) => if prior is Some {
            prior
        } else {
            Some(DockerImageError::FailedToExtract(m))
        },
        (ExtractPhase::Repair, StepEvent::Ran(Err(m))) => if prior is Some {
            prior
        } else {
            Some(DockerImageError::FailedToExtract(m))
        },
        (ExtractPhase::RemoveContainer, StepEvent::Ran(Err(m))) => if prior is Some {
            prior
        } else {
            Some(DockerImageError::FailedToExtract(m))
        },
        (ExtractPhase::RemoveArchive, StepEvent::Ran(Err(m))) => if prior is Some {
            prior
        } else {
            Some(DockerImageError::IO(m))
        },
        (ExtractPhase::Rollback, StepEvent::Ran(Err(m))) => Some(DockerImageError::IO(m)),
        _ => prior,
    }
}

/// An extraction workflow: place the image's root filesystem at the
/// destination, rolling the destination back if any sub-step fails.
pub struct ImageExtraction {
    pub image_id: String,
    pub destination: String,
    /// The instantiated container's identifier, once one exists.
    pub container_id: Option<String>,
    /// The first failure recorded so far; the error reported by `Failed`.
    pub first_failure: Option<DockerImageError>,
    pub phase: ExtractPhase,
}

/// How one answered action advances an extraction workflow.
pub open spec fn extract_step_spec(
    pre: ImageExtraction,
    ev: StepEvent,
    post: ImageExtraction,
) -> bool {
    &&& post.image_id == pre.image_id
    &&& post.destination == pre.destination
    &&& post.phase == extract_next(pre.phase, pre.first_failure is Some, ev)
    &&& post.first_failure == recorded_failure(pre.phase, pre.first_failure, ev)
    &&& match (pre.phase, ev) {
        (ExtractPhase::CreateContainer, StepEvent::Ran(Ok(out))) => opt_text(post.container_id)
            == Some(trim_spec(out@)),
        _ => opt_text(post.container_id) == opt_text(pre.container_id),
    }
}

/// Begins an extraction workflow for the given image and destination
/// directory.
pub fn extract_image_filesystem(image_id: String, destination: String) -> (m: ImageExtraction)
    ensures
        m.phase == ExtractPhase::EnsureParent,
        m.image_id == image_id,
        m.destination == destination,
        m.container_id is None,
        m.first_failure is None,
{
    ImageExtraction {
        image_id,
        destination,
        container_id: None,
        first_failure: None,
        phase: ExtractPhase::EnsureParent,
    }
}

impl ImageExtraction {
    /// Advances the workflow by one answered action.
    pub fn step(self, ev: StepEvent) -> (r: ImageExtraction)
        ensures
            extract_step_spec(self, ev, r),
    {
        let ImageExtraction { image_id, destination, container_id, first_failure, phase } = self;
        let had_failure = first_failure.is_some();
        let (next, container2, failure2) = match (phase, ev) {
            (ExtractPhase::EnsureParent, StepEvent::Ran(res)) => match res {
                Ok(_) => (ExtractPhase::CheckDestination, container_id, first_failure),
                Err(m) => (ExtractPhase::Failed, container_id, Some(DockerImageError::IO(m))),
            },
            (ExtractPhase::CheckDestination, StepEvent::Exists(true)) => (
                ExtractPhase::Failed,
                container_id,
                Some(DockerImageError::DestinationExist),
            ),
            (ExtractPhase::CheckDestination, StepEvent::Exists(false)) => (
                ExtractPhase::CreateDestination,
                container_id,
                first_failure,
            ),
            (ExtractPhase::CreateDestination, StepEvent::Ran(res)) => match res {
                Ok(_) => (ExtractPhase::CreateContainer, container_id, first_failure),
                Err(m) => (ExtractPhase::Failed, container_id, Some(DockerImageError::IO(m))),
            },
            (ExtractPhase::CreateContainer, StepEvent::Ran(res)) => match res {
                Ok(out) => {
                    let cid = trim_text(out.as_str());
                    (ExtractPhase::Export, Some(cid), first_failure)
                },
                Err(_) => (
                    ExtractPhase::Failed,
                    container_id,
                    Some(DockerImageError::ImageNotFound),
                ),
            },
            (ExtractPhase::Export, StepEvent::Ran(res)) => match res {
                Ok(_) => (ExtractPhase::Unpack, container_id, first_failure),
                Err(m) => (
                    ExtractPhase::Unpack,
                    container_id,
                    if had_failure {
                        first_failure
                    } else {
                        Some(DockerImageError::FailedToExtract(m))
                    },
                ),
            },
            (ExtractPhase::Unpack, StepEvent::Ran(res)) => match res {
                Ok(_) => (ExtractPhase::Repair, container_id, first_failure),
                Err(m) => (
                    ExtractPhase::Repair,
                    container_id,
                    if had_failure {
                        first_failure
                    } else {
                        Some(DockerImageError::FailedToExtract(m))
                    },
                ),
            },
            (ExtractPhase::Repair, StepEvent::Ran(res)) => match res {
                Ok(_) => (ExtractPhase::RemoveContainer, container_id, first_failure),
                Err(m) => (
                    ExtractPhase::RemoveContainer,
                    container_id,
                    if had_failure {
                        first_failure
                    } else {
                        Some(DockerImageError::FailedToExtract(m))
                    },
                ),
            },
            (ExtractPhase::RemoveContainer, StepEvent::Ran(res)) => match res {
                Ok(_) => (ExtractPhase::RemoveArchive, container_id, first_failure),
                Err(m) => (
                    ExtractPhase::RemoveArchive,
                    container_id,
                    if had_failure {
                        first_failure
                    } else {
                        Some(DockerImageError::FailedToExtract(m))
                    },
                ),
            },
            (ExtractPhase::RemoveArchive, StepEvent::Ran(res)) => match res {
                Ok(_) => (
                    if had_failure {
                        ExtractPhase::Rollback
                    } else {
                        ExtractPhase::Done
                    },
                    container_id,
                    first_failure,
                ),
                Err(m) => (
                    ExtractPhase::Rollback,
                    container_id,
                    if had_failure {
                        first_failure
                    } else {
                        Some(DockerImageError::IO(m))
                    },
                ),
            },
            (ExtractPhase::Rollback, StepEvent::Ran(res)) => match res {
                Ok(_) => (ExtractPhase::Failed, container_id, first_failure),
                Err(m) => (ExtractPhase::Failed, container_id, Some(DockerImageError::IO(m))),
            },
            (p, _) => (p, container_id, first_failure),
        };
        ImageExtraction {
            image_id,
            destination,
            container_id: container2,
            first_failure: failure2,
            phase: next,
        }
    }
}

/// Phases of the resolve-or-extract workflow.
pub enum ResolvePhase {
    /// Ask the image collaborator for the image's content hash.
    Inspect,
    /// Ask whether the extracted root keyed by the content hash already
    /// exists under the destination parent.
    CheckCache { destination: String },
    /// Extract the image's root filesystem to the destination.
    Extracting { destination: String, inner: ImageExtraction },
    /// The extracted root is in place at `destination`.
    Resolved { destination: String },
    /// The workflow failed; no further action is requested.
    Failed(DockerImageError),
}

/// A resolve-or-extract workflow: resolve the image reference to a content
/// hash and ensure an extracted root keyed by that hash exists, extracting
/// only on a cache miss.
pub struct ImageResolution {
    pub image_id: String,
    pub destination_parent: String,
    pub phase: ResolvePhase,
}

/// How one answered action advances a resolve-or-extract workflow.  An
/// extraction that ends in `DestinationExist` is a success for this
/// workflow: someone put the extracted root in place meanwhile.
pub open spec fn resolve_step_spec(
    pre: ImageResolution,
    ev: StepEvent,
    post: ImageResolution,
) -> bool {
    &&& post.image_id == pre.image_id
    &&& post.destination_parent == pre.destination_parent
    &&& match pre.phase {
        ResolvePhase::Inspect => match ev {
            StepEvent::Ran(Ok(out)) => match image_hash_of(out@) {
                Some(h) => post.phase matches ResolvePhase::CheckCache { destination }
                    && destination@ == pre.destination_parent@ + "/"@ + h,
                None => post.phase matches ResolvePhase::Failed(DockerImageError::ImageNotFound),
            },
            StepEvent::Ran(Err(_)) => post.phase matches ResolvePhase::Failed(
                DockerImageError::ImageNotFound,
            ),
            _ => post.phase == pre.phase,
        },
        ResolvePhase::CheckCache { destination } => match ev {
            StepEvent::Exists(true) => post.phase matches ResolvePhase::Resolved {
                destination: d,
            } && d == destination,
            StepEvent::Exists(false) => post.phase matches ResolvePhase::Extracting {
                destination: d,
                inner,
            } && d == destination && inner.image_id@ == pre.image_id@ && inner.destination@
                == destination@ && inner.container_id is None && inner.first_failure is None
                && inner.phase == ExtractPhase::EnsureParent,
            _ => post.phase == pre.phase,
        },
        ResolvePhase::Extracting { destination, inner } => post.phase
            matches ResolvePhase::Extracting { destination: d2, inner: inner2 } && d2 == destination
            && extract_step_spec(inner, ev, inner2),
        ResolvePhase::Resolved { .. } => post.phase == pre.phase,
        ResolvePhase::Failed(_) => post.phase == pre.phase,
    }
}

/// Begins a resolve-or-extract workflow for the given image reference and
/// destination parent directory.
pub fn try_extract_image(image_id: String, destination_folder: String) -> (m: ImageResolution)
    ensures
        m.phase is Inspect,
        m.image_id == image_id,
        m.destination_parent == destination_folder,
{
    ImageResolution { image_id, destination_parent: destination_folder, phase: ResolvePhase::Inspect }
}

impl ImageResolution {
    /// Advances the workflow by one answered action.
    pub fn step(self, ev: StepEvent) -> (r: ImageResolution)
        ensures
            resolve_step_spec(self, ev, r),
    {
        let ImageResolution { image_id, destination_parent, phase } = self;
        let next = match (phase, ev) {
            (ResolvePhase::Inspect, StepEvent::Ran(res)) => match res {
                Ok(out) => match parse_image_hash(out.as_str()) {
                    Some(h) => {
                        let mut destination = destination_parent.clone();
                        destination.append("/");
                        destination.append(h.as_str());
                        ResolvePhase::CheckCache { destination }
                    },
                    None => ResolvePhase::Failed(DockerImageError::ImageNotFound),
                },
                Err(_) => ResolvePhase::Failed(DockerImageError::ImageNotFound),
            },
            (ResolvePhase::CheckCache { destination }, StepEvent::Exists(true)) => (
                ResolvePhase::Resolved { destination }
            ),
            (ResolvePhase::CheckCache { destination }, StepEvent::Exists(false)) => {
                let inner = extract_image_filesystem(image_id.clone(), destination.clone());
                ResolvePhase::Extracting { destination, inner }
            },
            (ResolvePhase::Extracting { destination, inner }, ev2) => {
                let inner2 = inner.step(ev2);
                ResolvePhase::Extracting { destination, inner: inner2 }
            },
            (p, _) => p,
        };
        ImageResolution { image_id, destination_parent, phase: next }
    }
}

/// A workflow that is rolling back or has failed always carries a recorded
/// failure: the error to surface is never missing.
pub proof fn lemma_extract_failure_recorded(
    pre: ImageExtraction,
    ev: StepEvent,
    post: ImageExtraction,
)
    requires
        extract_step_spec(pre, ev, post),
        pre.phase is Rollback || pre.phase is Failed ==> pre.first_failure is Some,
    ensures
        post.phase is Rollback || post.phase is Failed ==> post.first_failure is Some,
{
}

/// Law (idempotent extraction, first half): the destination is a function
/// of the inspection answer alone.  Two resolutions of the same image
/// reference, given the same content-hash answer, head for the same
/// extracted-root path.
pub proof fn lemma_resolution_deterministic(
    pre1: ImageResolution,
    pre2: ImageResolution,
    out: String,
    post1: ImageResolution,
    post2: ImageResolution,
)
    requires
        pre1.phase is Inspect,
        pre2.phase is Inspect,
        pre1.destination_parent@ == pre2.destination_parent@,
        resolve_step_spec(pre1, StepEvent::Ran(Ok(out)), post1),
        resolve_step_spec(pre2, StepEvent::Ran(Ok(out)), post2),
    ensures
        match (post1.phase, post2.phase) {
            (
                ResolvePhase::CheckCache { destination: d1 },
                ResolvePhase::CheckCache { destination: d2 },
            ) => d1@ == d2@,
            (ResolvePhase::CheckCache { .. }, _) => false,
            (_, ResolvePhase::CheckCache { .. }) => false,
            (ResolvePhase::Failed(e1), ResolvePhase::Failed(e2)) => e1 == e2,
            _ => false,
        },
{
}

/// Law (idempotent extraction, second half): when the extracted root keyed
/// by the content hash is already present, the workflow resolves to that
/// very path at once — it is finished, so no extraction action, and in
/// particular no container instantiation, is ever requested.
pub proof fn lemma_cache_hit_resolves(pre: ImageResolution, d: String, post: ImageResolution)
    requires
        pre.phase == (ResolvePhase::CheckCache { destination: d }),
        resolve_step_spec(pre, StepEvent::Exists(true), post),
    ensures
        post.phase matches ResolvePhase::Resolved { destination } && destination == d,
        forall|ev: StepEvent, later: ImageResolution|
            resolve_step_spec(post, ev, later) ==> later.phase == post.phase,
{
}

/// Law (idempotent extraction, miss case): a cache miss starts an
/// extraction aimed at exactly the path the workflow will report, and the
/// path never changes while extracting.
pub proof fn lemma_cache_miss_keeps_destination(
    pre: ImageResolution,
    d: String,
    post: ImageResolution,
    ev: StepEvent,
    later: ImageResolution,
)
    requires
        pre.phase == (ResolvePhase::CheckCache { destination: d }),
        resolve_step_spec(pre, StepEvent::Exists(false), post),
        resolve_step_spec(post, ev, later),
    ensures
        post.phase matches ResolvePhase::Extracting { destination, inner } && destination == d
            && inner.destination@ == d@ && inner.phase == ExtractPhase::EnsureParent,
        later.phase matches ResolvePhase::Extracting { destination, inner } && destination == d,
{
}

/// Law (rollback completeness): whichever of the export, unpack or repair
/// steps fails first, the workflow still walks through both cleanup steps,
/// then demands the rollback — removal of the whole destination directory —
/// and, once that removal is done, fails carrying `FailedToExtract` with
/// the first failing step's diagnostic.
pub proof fn lemma_rollback_completeness(
    m0: ImageExtraction,
    e3: Result<String, String>,
    m1: ImageExtraction,
    e4: Result<String, String>,
    m2: ImageExtraction,
    e5: Result<String, String>,
    m3: ImageExtraction,
    e6: Result<String, String>,
    m4: ImageExtraction,
    e7: Result<String, String>,
    m5: ImageExtraction,
)
    requires
        m0.phase == ExtractPhase::Export,
        m0.first_failure is None,
        extract_step_spec(m0, StepEvent::Ran(e3), m1),
        extract_step_spec(m1, StepEvent::Ran(e4), m2),
        extract_step_spec(m2, StepEvent::Ran(e5), m3),
        extract_step_spec(m3, StepEvent::Ran(e6), m4),
        extract_step_spec(m4, StepEvent::Ran(e7), m5),
        e3 is Err || e4 is Err || e5 is Err,
    ensures
        m5.phase == ExtractPhase::Rollback,
        m5.first_failure == Some(
            DockerImageError::FailedToExtract(
                if e3 is Err {
                    e3->Err_0
                } else if e4 is Err {
                    e4->Err_0
                } else {
                    e5->Err_0
                },
            ),
        ),
        forall|rb: Result<String, String>, m6: ImageExtraction|
            extract_step_spec(m5, StepEvent::Ran(rb), m6) && rb is Ok ==> m6.phase
                == ExtractPhase::Failed && m6.first_failure == m5.first_failure,
{
}

} // verus!
