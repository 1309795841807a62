use docker_on_kvm::disk_creator::{DiskFormat, DiskInfo};
use docker_on_kvm::docker_image::parse_image_hash;
use docker_on_kvm::kernel::{initrd_name, kernel_version};
use docker_on_kvm::text::{capture_suffix, find_first, format_u64, trim_text};

#[test]
fn report_with_qcow2_and_no_backing_line() {
    let info = DiskInfo::for_disk_file("image: disk.qcow2\nfile format: qcow2\nvirtual size: 2G\n")
        .expect("format line present");
    assert_eq!(info.format, DiskFormat::Qcow2);
    assert!(info.backing_file.is_none());
}

#[test]
fn report_with_backing_file_line() {
    let info = DiskInfo::for_disk_file(
        "file format: qcow2\nbacking file: /disks/base.img\ncluster_size: 65536\n",
    )
    .expect("format line present");
    assert_eq!(info.format, DiskFormat::Qcow2);
    assert_eq!(info.backing_file.as_deref(), Some("/disks/base.img"));
}

#[test]
fn report_with_raw_format() {
    let info = DiskInfo::for_disk_file("file format: raw\n").expect("format line present");
    assert_eq!(info.format, DiskFormat::Raw);
    assert!(info.backing_file.is_none());
}

#[test]
fn report_without_format_line_has_no_result() {
    assert!(DiskInfo::for_disk_file("image: disk.img\nvirtual size: 2G\n").is_none());
}

#[test]
fn report_with_unrecognized_format_token_has_no_result() {
    assert!(DiskInfo::for_disk_file("file format: vdi\n").is_none());
}

#[test]
fn later_recognized_format_line_wins() {
    let info = DiskInfo::for_disk_file("file format: raw\nfile format: qcow2\n")
        .expect("format line present");
    assert_eq!(info.format, DiskFormat::Qcow2);
}

#[test]
fn report_lines_may_end_in_carriage_returns() {
    let info = DiskInfo::for_disk_file("file format: qcow2\r\nbacking file: /disks/base.img\r\n")
        .expect("format line present");
    assert_eq!(info.format, DiskFormat::Qcow2);
    assert_eq!(info.backing_file.as_deref(), Some("/disks/base.img"));
}

#[test]
fn image_hash_read_from_inspection_answer() {
    assert_eq!(parse_image_hash("sha256:abc123\n").as_deref(), Some("abc123"));
    assert_eq!(parse_image_hash("  sha256:ff00aa  \n").as_deref(), Some("ff00aa"));
    assert!(parse_image_hash("no marker here\n").is_none());
}

#[test]
fn kernel_names() {
    assert_eq!(kernel_version("vmlinuz-5.4.0-42-generic").as_deref(), Some("5.4.0-42-generic"));
    assert!(kernel_version("config-5.4.0-42-generic").is_none());
    assert_eq!(initrd_name("5.4.0-42-generic"), "initrd.img-5.4.0-42-generic");
}

#[test]
fn decimal_rendering() {
    assert_eq!(format_u64(0), "0");
    assert_eq!(format_u64(10), "10");
    assert_eq!(format_u64(2147483648), "2147483648");
    assert_eq!(format_u64(u64::MAX), "18446744073709551615");
}

#[test]
fn trimming() {
    assert_eq!(trim_text("  c9a\n"), "c9a");
    assert_eq!(trim_text("\t\r\n "), "");
    assert_eq!(trim_text("no-space"), "no-space");
}

#[test]
fn searching() {
    assert_eq!(find_first("backing file: /a", "file: ", 0), Some(8));
    assert_eq!(find_first("aaa", "b", 0), None);
    assert_eq!(capture_suffix("file format: qcow2", "file format: ").as_deref(), Some("qcow2"));
    assert!(capture_suffix("file format qcow2", "file format: ").is_none());
}
