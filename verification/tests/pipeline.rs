//! The whole pipeline, walked end to end on simulated collaborator
//! answers: image reference to extracted root, to base raw disk, to
//! copy-on-write overlay, to domain descriptor.
use docker_on_kvm::definition::{Disk, FileSystem, VirtualMachine};
use docker_on_kvm::disk_creator::{
    create_copy_on_write_image, create_from_directory, DiskFormat, DiskInfo, OverlayPhase,
    ProvisionPhase,
};
use docker_on_kvm::docker_image::{try_extract_image, ExtractPhase, ResolvePhase};
use docker_on_kvm::step::StepEvent;

fn ok() -> StepEvent {
    StepEvent::Ran(Ok(String::new()))
}

#[test]
fn image_reference_to_domain_descriptor() {
    // `app:latest` resolves to hash `abc123`; extraction succeeds
    let mut resolve = try_extract_image("app:latest".to_owned(), "images".to_owned());
    resolve = resolve.step(StepEvent::Ran(Ok("sha256:abc123\n".to_owned())));
    resolve = resolve.step(StepEvent::Exists(false));
    for ev in [
        ok(),
        StepEvent::Exists(false),
        ok(),
        StepEvent::Ran(Ok("c1\n".to_owned())),
        ok(),
        ok(),
        ok(),
        ok(),
        ok(),
    ] {
        resolve = resolve.step(ev);
    }
    let extracted_root = match &resolve.phase {
        ResolvePhase::Extracting { destination, inner } => {
            assert_eq!(inner.phase, ExtractPhase::Done);
            destination.clone()
        },
        _ => panic!("extraction did not finish"),
    };
    assert_eq!(extracted_root, "images/abc123");

    // the base raw disk is created from the extracted root
    let base_disk = "disks/abc123.img".to_owned();
    let mut provision = create_from_directory(
        base_disk.clone(),
        2147483648,
        FileSystem::Ext4,
        extracted_root,
    );
    for ev in [StepEvent::Exists(false), StepEvent::Exists(true), ok(), ok(), ok(), ok(), ok(), ok()]
    {
        provision = provision.step(ev);
    }
    assert_eq!(provision.phase, ProvisionPhase::Done);

    // a copy-on-write overlay is derived from the base disk
    let overlay_disk = "disks/7d5fe9b2.qcow2".to_owned();
    let mut overlay = create_copy_on_write_image(overlay_disk.clone(), base_disk.clone());
    for ev in [
        StepEvent::Exists(false),
        StepEvent::Exists(true),
        StepEvent::Ran(Ok("/home/op/disks/abc123.img".to_owned())),
        ok(),
    ] {
        overlay = overlay.step(ev);
    }
    assert_eq!(overlay.phase, OverlayPhase::Done);

    // the descriptor is rendered from the inspected chain
    let vm = VirtualMachine {
        name: "vm1".to_owned(),
        kernel_file: "/boot/vmlinuz-5.4".to_owned(),
        initrd_file: "/boot/initrd.img-5.4".to_owned(),
        root_disk: Disk::File { filename: overlay_disk, filesystem: FileSystem::Ext4 },
        ram_in_bytes: 2147483648,
        num_cpus: 2,
    };
    let root_info = DiskInfo::for_disk_file(
        "file format: qcow2\nbacking file: /home/op/disks/abc123.img\n",
    )
    .expect("overlay reports its format");
    let backing_info = DiskInfo::for_disk_file("file format: raw\n").expect("base reports raw");
    let xml = vm.get_xml(&root_info, Some(&backing_info)).expect("complete chain");
    assert!(xml.contains("<memory unit=\"B\">2147483648</memory>"));
    assert!(xml.contains("<driver name=\"qemu\" type=\"qcow2\"/>"));
    assert!(xml.contains("<format type=\"raw\"/>"));
    assert!(xml.contains("<source file=\"/home/op/disks/abc123.img\"/>"));
}
