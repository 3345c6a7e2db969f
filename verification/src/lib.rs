//! Verified core of a disk provisioning pipeline: partition layout planning,
//! formatter-output parsing, and the staged install state machine. All disk
//! mutation is delegated to a driver program that performs the emitted
//! actions and feeds the observed events back into the machine.

use vstd::prelude::*;

pub mod bootconf;
pub mod disk_manager;
pub mod errors;
pub mod format;
pub mod layout;
pub mod pipeline;
pub mod text;
pub mod validation;

verus! {

/// Snapshot of one whole-disk block device, taken at enumeration time.
#[derive(Clone, Debug)]
pub struct DiskInfo {
    pub name: String,
    pub size: String,
    pub model: String,
    pub disk_type: String,
}

/// Which filesystem the root partition is formatted with.
#[derive(Clone, Copy, Debug, PartialEq, Eq, Structural)]
pub enum FilesystemType {
    RedoxFS,
    Ext4,
}

/// Installation parameters, fixed before the pipeline starts.
#[derive(Clone, Copy, Debug)]
pub struct InstallationConfig {
    pub efi_size_mb: u64,
    pub filesystem_type: FilesystemType,
}

} // verus!
