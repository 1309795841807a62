//! The virtual-machine definition and the rendering of its domain
//! descriptor.
//!
//! The descriptor is a pure function of the machine definition and of the
//! inspected disk-chain metadata: the caller inspects the root disk (and,
//! when one is reported, its backing file) and hands the results in.  An
//! incomplete chain yields no descriptor at all — the virtualization host
//! is never given a partial document.
use vstd::prelude::*;

use crate::disk_creator::{format_name, DiskFormat, DiskInfo};
use crate::text::{
    contains_text, dec_str, format_u64, lemma_concat_contains, lemma_concat_contains_left,
    lemma_contains_trans,
};

verus! {

/// Filesystem kinds a root disk can be formatted with.
#[derive(Clone, Copy, PartialEq, Eq, Structural, Debug)]
pub enum FileSystem {
    Ext4,
}

pub open spec fn filesystem_name(f: FileSystem) -> Seq<char> {
    match f {
        FileSystem::Ext4 => "ext4"@,
    }
}

impl FileSystem {
    /// The name under which the formatting tool and the kernel know this
    /// filesystem.
    pub fn text(&self) -> (r: &'static str)
        ensures
            r@ == filesystem_name(*self),
    {
        match self {
            FileSystem::Ext4 => "ext4",
        }
    }
}

/// The root disk a machine boots from: a disk image file holding the given
/// filesystem.
pub enum Disk {
    File { filename: String, filesystem: FileSystem },
}

pub open spec fn disk_filename(d: Disk) -> Seq<char> {
    match d {
        Disk::File { filename, .. } => filename@,
    }
}

pub open spec fn disk_filesystem(d: Disk) -> FileSystem {
    match d {
        Disk::File { filesystem, .. } => filesystem,
    }
}

/// A virtual machine to be defined on the virtualization host.
pub struct VirtualMachine {
    pub name: String,
    pub kernel_file: String,
    pub initrd_file: String,
    pub root_disk: Disk,
    pub ram_in_bytes: u64,
    pub num_cpus: u64,
}

pub const BACKING_OPEN: &'static str = "
      <backingStore type=\"file\">
        <format type=\"";

pub const BACKING_AFTER_FORMAT: &'static str = "\"/>
        <source file=\"";

pub const BACKING_CLOSE: &'static str = "\"/>
      </backingStore>";

/// The `backingStore` element: the backing disk's format and path.
pub open spec fn backing_store_xml(format: DiskFormat, path: Seq<char>) -> Seq<char> {
    BACKING_OPEN@ + format_name(format) + BACKING_AFTER_FORMAT@ + path + BACKING_CLOSE@
}

pub const DISK_OPEN: &'static str = "    <disk type=\"file\" device=\"disk\">
      <driver name=\"qemu\" type=\"";

pub const DISK_AFTER_FORMAT: &'static str = "\"/>
      <source file=\"";

pub const DISK_AFTER_SOURCE: &'static str = "\"/>
      <target dev=\"vda\" bus=\"virtio\"/>
      <address type=\"pci\" domain=\"0x0000\" bus=\"0x03\" slot=\"0x00\" function=\"0x0\"/>";

pub const DISK_CLOSE: &'static str = "
    </disk>
";

/// The root-disk element: driver format, source file, fixed target and
/// address, and the backing store section (empty when the disk has no
/// backing file).
pub open spec fn disk_xml(format: DiskFormat, filename: Seq<char>, backing: Seq<char>) -> Seq<
    char,
> {
    DISK_OPEN@ + format_name(format) + DISK_AFTER_FORMAT@ + filename + DISK_AFTER_SOURCE@ + backing
        + DISK_CLOSE@
}

pub const DOMAIN_OPEN: &'static str = "<domain type=\"kvm\">
  <name>";

pub const AFTER_NAME: &'static str = "</name>
  <metadata>
    <libosinfo:libosinfo xmlns:libosinfo=\"http://libosinfo.org/xmlns/libvirt/domain/1.0\">
      <libosinfo:os id=\"http://ubuntu.com/ubuntu/18.04\"/>
    </libosinfo:libosinfo>
  </metadata>
  <memory unit=\"B\">";

pub const AFTER_MEMORY: &'static str = "</memory>
  <currentMemory unit=\"B\">";

pub const AFTER_CURRENT_MEMORY: &'static str = "</currentMemory>
  <vcpu placement=\"static\">";

pub const AFTER_VCPU: &'static str = "</vcpu>
  <os>
    <type arch=\"x86_64\" machine=\"pc-q35-4.2\">hvm</type>
    <loader readonly=\"yes\" type=\"pflash\">/usr/share/OVMF/OVMF_CODE.ms.fd</loader>
    <nvram>/var/lib/libvirt/qemu/nvram/";

pub const AFTER_NVRAM_NAME: &'static str = "_VARS.fd</nvram>
    <kernel>";

pub const AFTER_KERNEL: &'static str = "</kernel>
    <initrd>";

pub const AFTER_INITRD: &'static str = "</initrd>
    <cmdline>root=/dev/vda rw rootfstype=";

pub const AFTER_FSTYPE: &'static str = " systemd.unit=graphical.target</cmdline>
    <boot dev=\"hd\"/>
  </os>
  <features>
    <acpi/>
    <apic/>
    <vmport state=\"off\"/>
  </features>
  <cpu mode=\"host-model\" check=\"partial\"/>
  <clock offset=\"utc\">
    <timer name=\"rtc\" tickpolicy=\"catchup\"/>
    <timer name=\"pit\" tickpolicy=\"delay\"/>
    <timer name=\"hpet\" present=\"no\"/>
  </clock>
  <on_poweroff>destroy</on_poweroff>
  <on_reboot>restart</on_reboot>
  <on_crash>destroy</on_crash>
  <pm>
    <suspend-to-mem enabled=\"no\"/>
    <suspend-to-disk enabled=\"no\"/>
  </pm>
  <devices>
    <emulator>/usr/bin/qemu-system-x86_64</emulator>
";

pub const DEVICES_TAIL: &'static str = "    <controller type=\"usb\" index=\"0\" model=\"ich9-ehci1\">
      <address type=\"pci\" domain=\"0x0000\" bus=\"0x00\" slot=\"0x1d\" function=\"0x7\"/>
    </controller>
    <controller type=\"usb\" index=\"0\" model=\"ich9-uhci1\">
      <master startport=\"0\"/>
      <address type=\"pci\" domain=\"0x0000\" bus=\"0x00\" slot=\"0x1d\" function=\"0x0\" multifunction=\"on\"/>
    </controller>
    <controller type=\"usb\" index=\"0\" model=\"ich9-uhci2\">
      <master startport=\"2\"/>
      <address type=\"pci\" domain=\"0x0000\" bus=\"0x00\" slot=\"0x1d\" function=\"0x1\"/>
    </controller>
    <controller type=\"usb\" index=\"0\" model=\"ich9-uhci3\">
      <master startport=\"4\"/>
      <address type=\"pci\" domain=\"0x0000\" bus=\"0x00\" slot=\"0x1d\" function=\"0x2\"/>
    </controller>
    <controller type=\"sata\" index=\"0\">
      <address type=\"pci\" domain=\"0x0000\" bus=\"0x00\" slot=\"0x1f\" function=\"0x2\"/>
    </controller>
    <controller type=\"pci\" index=\"0\" model=\"pcie-root\"/>
    <controller type=\"pci\" index=\"1\" model=\"pcie-root-port\">
      <model name=\"pcie-root-port\"/>
      <target chassis=\"1\" port=\"0x10\"/>
      <address type=\"pci\" domain=\"0x0000\" bus=\"0x00\" slot=\"0x02\" function=\"0x0\" multifunction=\"on\"/>
    </controller>
    <controller type=\"pci\" index=\"2\" model=\"pcie-root-port\">
      <model name=\"pcie-root-port\"/>
      <target chassis=\"2\" port=\"0x11\"/>
      <address type=\"pci\" domain=\"0x0000\" bus=\"0x00\" slot=\"0x02\" function=\"0x1\"/>
    </controller>
    <controller type=\"pci\" index=\"3\" model=\"pcie-root-port\">
      <model name=\"pcie-root-port\"/>
      <target chassis=\"3\" port=\"0x12\"/>
      <address type=\"pci\" domain=\"0x0000\" bus=\"0x00\" slot=\"0x02\" function=\"0x2\"/>
    </controller>
    <controller type=\"pci\" index=\"4\" model=\"pcie-root-port\">
      <model name=\"pcie-root-port\"/>
      <target chassis=\"4\" port=\"0x13\"/>
      <address type=\"pci\" domain=\"0x0000\" bus=\"0x00\" slot=\"0x02\" function=\"0x3\"/>
    </controller>
    <controller type=\"pci\" index=\"5\" model=\"pcie-root-port\">
      <model name=\"pcie-root-port\"/>
      <target chassis=\"5\" port=\"0x14\"/>
      <address type=\"pci\" domain=\"0x0000\" bus=\"0x00\" slot=\"0x02\" function=\"0x4\"/>
    </controller>
    <controller type=\"pci\" index=\"6\" model=\"pcie-root-port\">
      <model name=\"pcie-root-port\"/>
      <target chassis=\"6\" port=\"0x15\"/>
      <address type=\"pci\" domain=\"0x0000\" bus=\"0x00\" slot=\"0x02\" function=\"0x5\"/>
    </controller>
    <controller type=\"virtio-serial\" index=\"0\">
      <address type=\"pci\" domain=\"0x0000\" bus=\"0x02\" slot=\"0x00\" function=\"0x0\"/>
    </controller>
    <interface type=\"network\">
      <mac address=\"52:54:00:af:aa:a5\"/>
      <source network=\"default\"/>
      <model type=\"virtio\"/>
      <address type=\"pci\" domain=\"0x0000\" bus=\"0x01\" slot=\"0x00\" function=\"0x0\"/>
    </interface>
    <serial type=\"pty\">
      <target type=\"isa-serial\" port=\"0\">
        <model name=\"isa-serial\"/>
      </target>
    </serial>
    <console type=\"pty\">
      <target type=\"serial\" port=\"0\"/>
    </console>
    <channel type=\"unix\">
      <target type=\"virtio\" name=\"org.qemu.guest_agent.0\"/>
      <address type=\"virtio-serial\" controller=\"0\" bus=\"0\" port=\"1\"/>
    </channel>
    <channel type=\"spicevmc\">
      <target type=\"virtio\" name=\"com.redhat.spice.0\"/>
      <address type=\"virtio-serial\" controller=\"0\" bus=\"0\" port=\"2\"/>
    </channel>
    <input type=\"tablet\" bus=\"usb\">
      <address type=\"usb\" bus=\"0\" port=\"1\"/>
    </input>
    <input type=\"mouse\" bus=\"ps2\"/>
    <input type=\"keyboard\" bus=\"ps2\"/>
    <graphics type=\"spice\" autoport=\"yes\">
      <listen type=\"address\"/>
      <image compression=\"off\"/>
    </graphics>
    <sound model=\"ich9\">
      <address type=\"pci\" domain=\"0x0000\" bus=\"0x00\" slot=\"0x1b\" function=\"0x0\"/>
    </sound>
    <video>
      <model type=\"virtio\" heads=\"1\" primary=\"yes\"/>
      <alias name=\"video0\"/>
      <address type=\"pci\" domain=\"0x0000\" bus=\"0x00\" slot=\"0x01\" function=\"0x0\"/>
    </video>
    <redirdev bus=\"usb\" type=\"spicevmc\">
      <address type=\"usb\" bus=\"0\" port=\"2\"/>
    </redirdev>
    <redirdev bus=\"usb\" type=\"spicevmc\">
      <address type=\"usb\" bus=\"0\" port=\"3\"/>
    </redirdev>
    <memballoon model=\"virtio\">
      <address type=\"pci\" domain=\"0x0000\" bus=\"0x04\" slot=\"0x00\" function=\"0x0\"/>
    </memballoon>
    <rng model=\"virtio\">
      <backend model=\"random\">/dev/urandom</backend>
      <address type=\"pci\" domain=\"0x0000\" bus=\"0x05\" slot=\"0x00\" function=\"0x0\"/>
    </rng>
  </devices>
</domain>
";

/// The whole domain descriptor for `vm`, with `disk` as its root-disk
/// element: name, memory and CPU sizing, boot and kernel parameters, the
/// disk, and the fixed device topology.
pub open spec fn domain_xml(vm: VirtualMachine, disk: Seq<char>) -> Seq<char> {
    DOMAIN_OPEN@ + vm.name@ + AFTER_NAME@ + dec_str(vm.ram_in_bytes as nat) + AFTER_MEMORY@
        + dec_str(vm.ram_in_bytes as nat) + AFTER_CURRENT_MEMORY@ + dec_str(vm.num_cpus as nat)
        + AFTER_VCPU@ + vm.name@ + AFTER_NVRAM_NAME@ + vm.kernel_file@ + AFTER_KERNEL@
        + vm.initrd_file@ + AFTER_INITRD@ + filesystem_name(disk_filesystem(vm.root_disk))
        + AFTER_FSTYPE@ + disk + DEVICES_TAIL@
}

impl VirtualMachine {
    /// Renders the domain descriptor from this definition and the inspected
    /// disk-chain metadata: `root_info` for the root disk, and
    /// `backing_info` for the backing file `root_info` reports, if any.
    /// When the root disk reports a backing file whose inspection is
    /// missing, there is no descriptor: an incomplete chain must never be
    /// handed to the virtualization host.
    pub fn get_xml(&self, root_info: &DiskInfo, backing_info: Option<&DiskInfo>) -> (r: Option<
        String,
    >)
        ensures
            ({
                let fname = disk_filename(self.root_disk);
                match (root_info.backing_file, backing_info) {
                    (Some(_), None) => r is None,
                    (Some(path), Some(bi)) => r matches Some(x) && x@ == domain_xml(
                        *self,
                        disk_xml(root_info.format, fname, backing_store_xml(bi.format, path@)),
                    ),
                    (None, _) => r matches Some(x) && x@ == domain_xml(
                        *self,
                        disk_xml(root_info.format, fname, Seq::<char>::empty()),
                    ),
                }
            }),
    {
        let backing: String = match &root_info.backing_file {
            Some(path) => match backing_info {
                Some(bi) => {
                    let mut b = String::new();
                    b.append(BACKING_OPEN);
                    b.append(bi.format.text());
                    b.append(BACKING_AFTER_FORMAT);
                    b.append(path.as_str());
                    b.append(BACKING_CLOSE);
                    b
                },
                None => {
                    return None;
                },
            },
            None => String::new(),
        };
        let filename: &String = match &self.root_disk {
            Disk::File { filename, .. } => filename,
        };
        let mut disk = String::new();
        disk.append(DISK_OPEN);
        disk.append(root_info.format.text());
        disk.append(DISK_AFTER_FORMAT);
        disk.append(filename.as_str());
        disk.append(DISK_AFTER_SOURCE);
        disk.append(backing.as_str());
        disk.append(DISK_CLOSE);
        let ram = format_u64(self.ram_in_bytes);
        let cpus = format_u64(self.num_cpus);
        let fs: &'static str = match &self.root_disk {
            Disk::File { filesystem, .. } => filesystem.text(),
        };
        let mut x = String::new();
        x.append(DOMAIN_OPEN);
        x.append(self.name.as_str());
        x.append(AFTER_NAME);
        x.append(ram.as_str());
        x.append(AFTER_MEMORY);
        x.append(ram.as_str());
        x.append(AFTER_CURRENT_MEMORY);
        x.append(cpus.as_str());
        x.append(AFTER_VCPU);
        x.append(self.name.as_str());
        x.append(AFTER_NVRAM_NAME);
        x.append(self.kernel_file.as_str());
        x.append(AFTER_KERNEL);
        x.append(self.initrd_file.as_str());
        x.append(AFTER_INITRD);
        x.append(fs);
        x.append(AFTER_FSTYPE);
        x.append(disk.as_str());
        x.append(DEVICES_TAIL);
        Some(x)
    }
}

/// Law (descriptor completeness, backed chain): the descriptor rendered for
/// a root disk with a backing file holds the whole `backingStore` element
/// for that backing file's format and path, and the driver element carrying
/// the root disk's own format token.  A chain without a backing file
/// renders the empty backing section, so its descriptor holds no
/// `backingStore` element at all.
pub proof fn lemma_descriptor_completeness(
    vm: VirtualMachine,
    root_format: DiskFormat,
    fname: Seq<char>,
    backing_format: DiskFormat,
    path: Seq<char>,
)
    ensures
        contains_text(
            domain_xml(
                vm,
                disk_xml(root_format, fname, backing_store_xml(backing_format, path)),
            ),
            backing_store_xml(backing_format, path),
        ),
        contains_text(
            domain_xml(
                vm,
                disk_xml(root_format, fname, backing_store_xml(backing_format, path)),
            ),
            DISK_OPEN@ + format_name(root_format),
        ),
{
    let backing = backing_store_xml(backing_format, path);
    let disk = disk_xml(root_format, fname, backing);
    let t = domain_xml(vm, disk);
    let prefix = DOMAIN_OPEN@ + vm.name@ + AFTER_NAME@ + dec_str(vm.ram_in_bytes as nat)
        + AFTER_MEMORY@ + dec_str(vm.ram_in_bytes as nat) + AFTER_CURRENT_MEMORY@ + dec_str(
        vm.num_cpus as nat,
    ) + AFTER_VCPU@ + vm.name@ + AFTER_NVRAM_NAME@ + vm.kernel_file@ + AFTER_KERNEL@
        + vm.initrd_file@ + AFTER_INITRD@ + filesystem_name(disk_filesystem(vm.root_disk))
        + AFTER_FSTYPE@;
    assert(t == prefix + disk + DEVICES_TAIL@);
    lemma_concat_contains(prefix, disk, DEVICES_TAIL@);
    let disk_prefix = DISK_OPEN@ + format_name(root_format) + DISK_AFTER_FORMAT@ + fname
        + DISK_AFTER_SOURCE@;
    assert(disk == disk_prefix + backing + DISK_CLOSE@);
    lemma_concat_contains(disk_prefix, backing, DISK_CLOSE@);
    lemma_contains_trans(t, disk, backing);
    let driver = DISK_OPEN@ + format_name(root_format);
    let disk_rest = DISK_AFTER_FORMAT@ + fname + DISK_AFTER_SOURCE@ + backing + DISK_CLOSE@;
    assert(disk =~= driver + disk_rest);
    lemma_concat_contains_left(driver, disk_rest);
    assert(contains_text(driver + disk_rest, driver));
    assert(contains_text(disk, driver));
    lemma_contains_trans(t, disk, driver);
}

} // verus!
