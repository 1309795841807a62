//! Kernels installed in the boot directory: recognizing a kernel image's
//! file name and naming its matching initial ramdisk.
use vstd::prelude::*;

use crate::text::{capture_after, capture_suffix, opt_text};

verus! {

/// An installed kernel: image path, matching initial-ramdisk path, version,
/// and whether it is the one the boot symlink points at.
#[derive(Debug)]
pub struct LinuxKernel {
    pub kernel: String,
    pub initrd: String,
    pub version: String,
    pub active: bool,
}

/// The version a boot-directory file name carries: what follows the
/// leftmost `vmlinuz-` marker.  A name without the marker is not a kernel
/// image.
pub open spec fn kernel_version_of(name: Seq<char>) -> Option<Seq<char>> {
    capture_after(name, "vmlinuz-"@)
}

/// Reads the kernel version out of a boot-directory file name.
pub fn kernel_version(filename: &str) -> (r: Option<String>)
    ensures
        opt_text(r) == kernel_version_of(filename@),
{
    capture_suffix(filename, "vmlinuz-")
}

/// The initial-ramdisk file name that belongs to a kernel version.
pub open spec fn initrd_name_of(version: Seq<char>) -> Seq<char> {
    "initrd.img-"@ + version
}

/// Names the initial-ramdisk file for a kernel version.
pub fn initrd_name(version: &str) -> (r: String)
    ensures
        r@ == initrd_name_of(version@),
{
    let mut s = String::new();
    s.append("initrd.img-");
    s.append(version);
    s
}

} // verus!
