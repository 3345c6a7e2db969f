//! Boot-configuration generation: the text written to the three boot
//! configuration files, and the choice of root reference — the captured
//! volume identifier when the custom filesystem produced one, else the raw
//! root partition path.

use vstd::prelude::*;
use vstd::string::*;
use crate::format::VolumeIdentity;

verus! {

/// The boot-configuration text for a given root reference.
pub open spec fn boot_config_spec(root_ref: Seq<char>) -> Seq<char> {
    "# Redox OS Boot Configuration\nkernel=/boot/kernel\nroot="@ + root_ref
        + "\ninitfs=/boot/initfs\n"@
}

/// Render the boot-configuration text.
pub fn boot_config_text(root_ref: &str) -> (r: String)
    ensures
        r@ == boot_config_spec(root_ref@),
{
    String::from_str("# Redox OS Boot Configuration\nkernel=/boot/kernel\nroot=").concat(
        root_ref,
    ).concat("\ninitfs=/boot/initfs\n")
}

/// The reference the boot configuration names the root volume by.
pub open spec fn root_reference_spec(
    identity: Option<VolumeIdentity>,
    root_partition: Seq<char>,
) -> Seq<char> {
    match identity {
        Some(v) => v.text@,
        None => root_partition,
    }
}

/// Choose the root reference: the volume identifier when one was captured,
/// the root partition device path otherwise.
pub fn root_reference(identity: &Option<VolumeIdentity>, root_partition: &str) -> (r: String)
    ensures
        r@ == root_reference_spec(*identity, root_partition@),
{
    match identity {
        Some(v) => v.text.clone(),
        None => root_partition.to_owned(),
    }
}

} // verus!
