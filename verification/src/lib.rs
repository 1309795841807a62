//! Provisioning pipeline that turns a container image into a bootable
//! virtual-machine disk and a domain descriptor for a virtualization host.
//!
//! The library holds the pure logic of the pipeline: parsing the textual
//! reports of the disk-introspection tool, rendering the domain descriptor,
//! and the step-by-step workflows (disk provisioning, overlay creation,
//! image extraction) expressed as state machines.  An embedding program
//! performs the external-tool calls and feeds each outcome back as an event.
#![allow(unused_imports)]
use vstd::prelude::*;

pub mod definition;
pub mod disk_creator;
pub mod docker_image;
pub mod kernel;
pub mod step;
pub mod text;
