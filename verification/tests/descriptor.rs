use docker_on_kvm::definition::{Disk, FileSystem, VirtualMachine};
use docker_on_kvm::disk_creator::{DiskFormat, DiskInfo};

fn machine(disk_path: &str) -> VirtualMachine {
    VirtualMachine {
        name: "vm1".to_owned(),
        kernel_file: "/boot/vmlinuz-5.4".to_owned(),
        initrd_file: "/boot/initrd.img-5.4".to_owned(),
        root_disk: Disk::File {
            filename: disk_path.to_owned(),
            filesystem: FileSystem::Ext4,
        },
        ram_in_bytes: 2147483648,
        num_cpus: 2,
    }
}

#[test]
fn descriptor_with_backing_chain_holds_both_formats() {
    let vm = machine("disks/vm1.qcow2");
    let root = DiskInfo {
        format: DiskFormat::Qcow2,
        backing_file: Some("disks/abc123.img".to_owned()),
    };
    let backing = DiskInfo { format: DiskFormat::Raw, backing_file: None };
    let xml = vm.get_xml(&root, Some(&backing)).expect("complete chain");
    assert!(xml.contains("<backingStore type=\"file\">"));
    assert!(xml.contains("<format type=\"raw\"/>"));
    assert!(xml.contains("<source file=\"disks/abc123.img\"/>"));
    assert!(xml.contains("<driver name=\"qemu\" type=\"qcow2\"/>"));
}

#[test]
fn descriptor_without_backing_file_has_no_backing_store() {
    let vm = machine("disks/abc123.img");
    let root = DiskInfo { format: DiskFormat::Raw, backing_file: None };
    let xml = vm.get_xml(&root, None).expect("chain without backing is complete");
    assert!(!xml.contains("backingStore"));
    assert!(xml.contains("<driver name=\"qemu\" type=\"raw\"/>"));
}

#[test]
fn descriptor_is_refused_for_an_incomplete_chain() {
    let vm = machine("disks/vm1.qcow2");
    let root = DiskInfo {
        format: DiskFormat::Qcow2,
        backing_file: Some("disks/abc123.img".to_owned()),
    };
    assert!(vm.get_xml(&root, None).is_none());
}

#[test]
fn descriptor_encodes_sizing_boot_and_cmdline() {
    let vm = machine("disks/vm1.qcow2");
    let root = DiskInfo {
        format: DiskFormat::Qcow2,
        backing_file: Some("disks/abc123.img".to_owned()),
    };
    let backing = DiskInfo { format: DiskFormat::Raw, backing_file: None };
    let xml = vm.get_xml(&root, Some(&backing)).expect("complete chain");
    assert!(xml.contains("<memory unit=\"B\">2147483648</memory>"));
    assert!(xml.contains("<currentMemory unit=\"B\">2147483648</currentMemory>"));
    assert!(xml.contains("<vcpu placement=\"static\">2</vcpu>"));
    assert!(xml.contains("<name>vm1</name>"));
    assert!(xml.contains("<kernel>/boot/vmlinuz-5.4</kernel>"));
    assert!(xml.contains("<initrd>/boot/initrd.img-5.4</initrd>"));
    assert!(xml.contains(
        "<cmdline>root=/dev/vda rw rootfstype=ext4 systemd.unit=graphical.target</cmdline>"
    ));
    assert!(xml.contains("<source file=\"disks/vm1.qcow2\"/>"));
    assert!(xml.contains("<target dev=\"vda\" bus=\"virtio\"/>"));
}
