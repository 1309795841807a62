use docker_on_kvm::definition::FileSystem;
use docker_on_kvm::disk_creator::{
    create_copy_on_write_image, create_from_directory, DiskCreateError, OverlayPhase,
    ProvisionPhase,
};
use docker_on_kvm::docker_image::{
    extract_image_filesystem, try_extract_image, DockerImageError, ExtractPhase, ImageExtraction,
    ResolvePhase,
};
use docker_on_kvm::step::StepEvent;

fn ok() -> StepEvent {
    StepEvent::Ran(Ok(String::new()))
}

fn failed(msg: &str) -> StepEvent {
    StepEvent::Ran(Err(msg.to_owned()))
}

#[test]
fn provisioning_happy_path() {
    let mut m = create_from_directory(
        "disks/abc.img".to_owned(),
        2048 * 1024 * 1024,
        FileSystem::Ext4,
        "extracted-images/abc".to_owned(),
    );
    assert_eq!(m.phase, ProvisionPhase::CheckDisk);
    m = m.step(StepEvent::Exists(false));
    assert_eq!(m.phase, ProvisionPhase::CheckSource);
    m = m.step(StepEvent::Exists(true));
    assert_eq!(m.phase, ProvisionPhase::EnsureMountDir);
    m = m.step(ok());
    assert_eq!(m.phase, ProvisionPhase::Allocate);
    m = m.step(ok());
    assert_eq!(m.phase, ProvisionPhase::MakeFilesystem);
    m = m.step(ok());
    assert_eq!(m.phase, ProvisionPhase::Mount);
    m = m.step(ok());
    assert_eq!(m.phase, ProvisionPhase::CopyContents);
    m = m.step(ok());
    assert_eq!(m.phase, ProvisionPhase::Unmount { copy_ok: true });
    m = m.step(ok());
    assert_eq!(m.phase, ProvisionPhase::Done);
}

#[test]
fn provisioning_existing_destination_is_rejected_at_once() {
    let m = create_from_directory(
        "disks/abc.img".to_owned(),
        1024,
        FileSystem::Ext4,
        "src-dir".to_owned(),
    );
    let m = m.step(StepEvent::Exists(true));
    assert_eq!(m.phase, ProvisionPhase::Failed(DiskCreateError::DiskAlreadyExists));
    // a finished workflow requests nothing further
    let m = m.step(StepEvent::Exists(false));
    assert_eq!(m.phase, ProvisionPhase::Failed(DiskCreateError::DiskAlreadyExists));
}

#[test]
fn provisioning_missing_source_fails() {
    let m = create_from_directory(
        "disks/abc.img".to_owned(),
        1024,
        FileSystem::Ext4,
        "src-dir".to_owned(),
    );
    let m = m.step(StepEvent::Exists(false)).step(StepEvent::Exists(false));
    assert_eq!(m.phase, ProvisionPhase::Failed(DiskCreateError::DirectoryNotExist));
}

#[test]
fn provisioning_allocation_failure() {
    let m = create_from_directory(
        "disks/abc.img".to_owned(),
        1024,
        FileSystem::Ext4,
        "src-dir".to_owned(),
    );
    let m = m.step(StepEvent::Exists(false)).step(StepEvent::Exists(true)).step(ok()).step(
        failed("no space"),
    );
    assert_eq!(m.phase, ProvisionPhase::Failed(DiskCreateError::FailedCreate));
}

#[test]
fn copy_failure_still_unmounts_before_failing() {
    let mut m = create_from_directory(
        "disks/abc.img".to_owned(),
        1024,
        FileSystem::Ext4,
        "src-dir".to_owned(),
    );
    m = m.step(StepEvent::Exists(false)).step(StepEvent::Exists(true));
    m = m.step(ok()).step(ok()).step(ok()).step(ok());
    assert_eq!(m.phase, ProvisionPhase::CopyContents);
    // the copy fails: the next requested action is still the unmount
    m = m.step(failed("cp: cannot copy"));
    assert_eq!(m.phase, ProvisionPhase::Unmount { copy_ok: false });
    // once unmounted, the copy failure surfaces
    m = m.step(ok());
    assert_eq!(m.phase, ProvisionPhase::Failed(DiskCreateError::FailedCreate));
}

#[test]
fn unmount_failure_is_fatal_even_after_successful_copy() {
    let mut m = create_from_directory(
        "disks/abc.img".to_owned(),
        1024,
        FileSystem::Ext4,
        "src-dir".to_owned(),
    );
    m = m.step(StepEvent::Exists(false)).step(StepEvent::Exists(true));
    m = m.step(ok()).step(ok()).step(ok()).step(ok()).step(ok());
    assert_eq!(m.phase, ProvisionPhase::Unmount { copy_ok: true });
    m = m.step(failed("umount: busy"));
    assert_eq!(m.phase, ProvisionPhase::Failed(DiskCreateError::FailedCreate));
}

#[test]
fn overlay_happy_path_keeps_absolute_backing() {
    let mut m = create_copy_on_write_image(
        "disks/vm1.qcow2".to_owned(),
        "disks/abc.img".to_owned(),
    );
    assert_eq!(m.phase, OverlayPhase::CheckDisk);
    m = m.step(StepEvent::Exists(false));
    assert_eq!(m.phase, OverlayPhase::CheckBacking);
    m = m.step(StepEvent::Exists(true));
    assert_eq!(m.phase, OverlayPhase::ResolveBacking);
    m = m.step(StepEvent::Ran(Ok("/home/op/disks/abc.img".to_owned())));
    assert_eq!(m.phase, OverlayPhase::CreateOverlay);
    assert_eq!(m.absolute_backing.as_deref(), Some("/home/op/disks/abc.img"));
    m = m.step(ok());
    assert_eq!(m.phase, OverlayPhase::Done);
}

#[test]
fn overlay_existing_destination_is_rejected_at_once() {
    let m = create_copy_on_write_image("disks/vm1.qcow2".to_owned(), "disks/abc.img".to_owned());
    let m = m.step(StepEvent::Exists(true));
    assert_eq!(m.phase, OverlayPhase::Failed(DiskCreateError::DiskAlreadyExists));
}

#[test]
fn overlay_missing_backing_file_fails() {
    let m = create_copy_on_write_image("disks/vm1.qcow2".to_owned(), "disks/abc.img".to_owned());
    let m = m.step(StepEvent::Exists(false)).step(StepEvent::Exists(false));
    assert_eq!(m.phase, OverlayPhase::Failed(DiskCreateError::BackingFileNotExist));
}

#[test]
fn overlay_tool_failure_maps_to_failed_create() {
    let m = create_copy_on_write_image("disks/vm1.qcow2".to_owned(), "disks/abc.img".to_owned());
    let m = m
        .step(StepEvent::Exists(false))
        .step(StepEvent::Exists(true))
        .step(StepEvent::Ran(Ok("/abs/abc.img".to_owned())))
        .step(failed("qemu-img: error"));
    assert_eq!(m.phase, OverlayPhase::Failed(DiskCreateError::FailedCreate));
}

fn run_extraction_from_export(
    mut m: ImageExtraction,
    e3: StepEvent,
    e4: StepEvent,
    e5: StepEvent,
) -> ImageExtraction {
    assert_eq!(m.phase, ExtractPhase::Export);
    m = m.step(e3);
    assert_eq!(m.phase, ExtractPhase::Unpack);
    m = m.step(e4);
    assert_eq!(m.phase, ExtractPhase::Repair);
    m = m.step(e5);
    assert_eq!(m.phase, ExtractPhase::RemoveContainer);
    m = m.step(ok());
    assert_eq!(m.phase, ExtractPhase::RemoveArchive);
    m.step(ok())
}

fn extraction_at_export() -> ImageExtraction {
    let m = extract_image_filesystem("app:latest".to_owned(), "images/abc123".to_owned());
    let m = m.step(ok()).step(StepEvent::Exists(false)).step(ok());
    assert_eq!(m.phase, ExtractPhase::CreateContainer);
    let m = m.step(StepEvent::Ran(Ok("c0ffee\n".to_owned())));
    assert_eq!(m.container_id.as_deref(), Some("c0ffee"));
    m
}

#[test]
fn extraction_happy_path() {
    let m = run_extraction_from_export(extraction_at_export(), ok(), ok(), ok());
    assert_eq!(m.phase, ExtractPhase::Done);
    assert!(m.first_failure.is_none());
}

#[test]
fn export_failure_rolls_back_and_surfaces_first_diagnostic() {
    let m = run_extraction_from_export(
        extraction_at_export(),
        failed("export: broken pipe"),
        failed("tar: nothing to read"),
        ok(),
    );
    // all cleanup steps ran; only then is the rollback requested
    assert_eq!(m.phase, ExtractPhase::Rollback);
    let m = m.step(ok());
    assert_eq!(m.phase, ExtractPhase::Failed);
    match m.first_failure {
        Some(DockerImageError::FailedToExtract(msg)) => assert_eq!(msg, "export: broken pipe"),
        other => panic!("wrong failure: {:?}", other),
    }
}

#[test]
fn unpack_failure_rolls_back() {
    let m = run_extraction_from_export(
        extraction_at_export(),
        ok(),
        failed("tar: read error"),
        ok(),
    );
    assert_eq!(m.phase, ExtractPhase::Rollback);
    let m = m.step(ok());
    assert_eq!(m.phase, ExtractPhase::Failed);
    match m.first_failure {
        Some(DockerImageError::FailedToExtract(msg)) => assert_eq!(msg, "tar: read error"),
        other => panic!("wrong failure: {:?}", other),
    }
}

#[test]
fn repair_failure_rolls_back() {
    let m = run_extraction_from_export(
        extraction_at_export(),
        ok(),
        ok(),
        failed("ln: permission denied"),
    );
    assert_eq!(m.phase, ExtractPhase::Rollback);
    let m = m.step(ok());
    assert_eq!(m.phase, ExtractPhase::Failed);
    match m.first_failure {
        Some(DockerImageError::FailedToExtract(msg)) => assert_eq!(msg, "ln: permission denied"),
        other => panic!("wrong failure: {:?}", other),
    }
}

#[test]
fn failed_rollback_removal_is_an_io_error() {
    let m = run_extraction_from_export(extraction_at_export(), failed("export died"), ok(), ok());
    assert_eq!(m.phase, ExtractPhase::Rollback);
    let m = m.step(failed("device busy"));
    assert_eq!(m.phase, ExtractPhase::Failed);
    assert!(matches!(m.first_failure, Some(DockerImageError::IO(ref msg)) if msg == "device busy"));
}

#[test]
fn existing_destination_stops_extraction() {
    let m = extract_image_filesystem("app:latest".to_owned(), "images/abc123".to_owned());
    let m = m.step(ok()).step(StepEvent::Exists(true));
    assert_eq!(m.phase, ExtractPhase::Failed);
    assert!(matches!(m.first_failure, Some(DockerImageError::DestinationExist)));
}

#[test]
fn container_creation_failure_is_image_not_found() {
    let m = extract_image_filesystem("app:latest".to_owned(), "images/abc123".to_owned());
    let m = m.step(ok()).step(StepEvent::Exists(false)).step(ok()).step(failed("no such image"));
    assert_eq!(m.phase, ExtractPhase::Failed);
    assert!(matches!(m.first_failure, Some(DockerImageError::ImageNotFound)));
}

#[test]
fn destination_directory_creation_failure_is_io() {
    let m = extract_image_filesystem("app:latest".to_owned(), "images/abc123".to_owned());
    let m = m.step(ok()).step(StepEvent::Exists(false)).step(failed("mkdir: read-only"));
    assert_eq!(m.phase, ExtractPhase::Failed);
    assert!(matches!(m.first_failure, Some(DockerImageError::IO(ref msg)) if msg == "mkdir: read-only"));
}

#[test]
fn resolution_cache_hit_returns_same_path_without_extracting() {
    // first run: cache miss, full extraction
    let r = try_extract_image("app:latest".to_owned(), "extracted-images".to_owned());
    let r = r.step(StepEvent::Ran(Ok("sha256:abc123\n".to_owned())));
    let first_destination = match &r.phase {
        ResolvePhase::CheckCache { destination } => destination.clone(),
        other_phase => panic!("wrong phase: {:?}", std::mem::discriminant(other_phase)),
    };
    assert_eq!(first_destination, "extracted-images/abc123");
    let mut r = r.step(StepEvent::Exists(false));
    for ev in [
        ok(),
        StepEvent::Exists(false),
        ok(),
        StepEvent::Ran(Ok("c1\n".to_owned())),
        ok(),
        ok(),
        ok(),
        ok(),
        ok(),
    ] {
        r = r.step(ev);
    }
    match &r.phase {
        ResolvePhase::Extracting { destination, inner } => {
            assert_eq!(destination, "extracted-images/abc123");
            assert_eq!(inner.phase, ExtractPhase::Done);
        },
        _ => panic!("extraction did not finish"),
    }

    // second run with the same inspection answer: the cache answers, and the
    // workflow is finished without any extraction action
    let r2 = try_extract_image("app:latest".to_owned(), "extracted-images".to_owned());
    let r2 = r2.step(StepEvent::Ran(Ok("sha256:abc123\n".to_owned())));
    let r2 = r2.step(StepEvent::Exists(true));
    match &r2.phase {
        ResolvePhase::Resolved { destination } => assert_eq!(destination, &first_destination),
        _ => panic!("cache hit did not resolve"),
    }
}

#[test]
fn resolution_without_hash_marker_is_image_not_found() {
    let r = try_extract_image("app:latest".to_owned(), "extracted-images".to_owned());
    let r = r.step(StepEvent::Ran(Ok("garbled answer\n".to_owned())));
    assert!(matches!(r.phase, ResolvePhase::Failed(DockerImageError::ImageNotFound)));
}

#[test]
fn resolution_inspect_failure_is_image_not_found() {
    let r = try_extract_image("app:latest".to_owned(), "extracted-images".to_owned());
    let r = r.step(failed("cannot connect to daemon"));
    assert!(matches!(r.phase, ResolvePhase::Failed(DockerImageError::ImageNotFound)));
}

#[test]
fn resolution_treats_destination_exist_as_success() {
    let r = try_extract_image("app:latest".to_owned(), "extracted-images".to_owned());
    let r = r.step(StepEvent::Ran(Ok("sha256:abc123\n".to_owned())));
    // cache miss, but the destination appears meanwhile: the extraction
    // reports DestinationExist, which this workflow counts as success
    let r = r.step(StepEvent::Exists(false));
    let r = r.step(ok()).step(StepEvent::Exists(true));
    match &r.phase {
        ResolvePhase::Extracting { destination, inner } => {
            assert_eq!(destination, "extracted-images/abc123");
            assert_eq!(inner.phase, ExtractPhase::Failed);
            assert!(matches!(inner.first_failure, Some(DockerImageError::DestinationExist)));
        },
        _ => panic!("wrong phase"),
    }
}
