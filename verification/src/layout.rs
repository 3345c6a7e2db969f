//! Partition planner: derives the two GPT partition device paths from a disk
//! device path, by the kernel naming convention. Pure; no I/O.

use vstd::prelude::*;
use vstd::string::*;
use crate::text::{contains_seq, contains_sub, occurs_at};
use crate::{DiskInfo, InstallationConfig};

verus! {

/// The two derived partition device paths: the EFI system partition and the
/// root partition.
#[derive(Clone, Debug)]
pub struct PartitionLayout {
    pub efi_partition: String,
    pub root_partition: String,
}

/// Disk names in the NVMe and MMC families take a `p`-prefixed numeric
/// partition suffix; all others take the bare number.
pub open spec fn uses_p_suffix(name: Seq<char>) -> bool {
    contains_seq(name, "nvme"@) || contains_seq(name, "mmcblk"@)
}

/// The derived EFI partition path for a disk path.
pub open spec fn efi_partition_spec(name: Seq<char>) -> Seq<char> {
    if uses_p_suffix(name) {
        name + "p1"@
    } else {
        name + "1"@
    }
}

/// The derived root partition path for a disk path.
pub open spec fn root_partition_spec(name: Seq<char>) -> Seq<char> {
    if uses_p_suffix(name) {
        name + "p2"@
    } else {
        name + "2"@
    }
}

/// Compute the partition layout for a disk. Pure: the result is a function
/// of the disk device path alone; the configuration fixes nothing here but
/// is part of the planner's interface.
pub fn compute_layout(disk: &DiskInfo, _config: &InstallationConfig) -> (r: PartitionLayout)
    ensures
        r.efi_partition@ == efi_partition_spec(disk.name@),
        r.root_partition@ == root_partition_spec(disk.name@),
{
    layout_for_name(disk.name.as_str())
}

/// Compute the partition layout from the disk device path.
pub fn layout_for_name(name: &str) -> (r: PartitionLayout)
    ensures
        r.efi_partition@ == efi_partition_spec(name@),
        r.root_partition@ == root_partition_spec(name@),
{
    if contains_sub(name, "nvme") || contains_sub(name, "mmcblk") {
        PartitionLayout {
            efi_partition: name.to_owned().concat("p1"),
            root_partition: name.to_owned().concat("p2"),
        }
    } else {
        PartitionLayout {
            efi_partition: name.to_owned().concat("1"),
            root_partition: name.to_owned().concat("2"),
        }
    }
}

proof fn lemma_contains_append(h: Seq<char>, t: Seq<char>, n: Seq<char>)
    requires
        contains_seq(h, n),
    ensures
        contains_seq(h + t, n),
{
    let i = choose|i: int| occurs_at(h, n, i);
    assert((h + t).subrange(i, i + n.len() as int) =~= h.subrange(i, i + n.len() as int));
    assert(occurs_at(h + t, n, i));
}

/// Within one layout the two partition paths always differ.
pub proof fn lemma_layout_partitions_distinct(name: Seq<char>)
    ensures
        efi_partition_spec(name) != root_partition_spec(name),
{
    reveal_strlit("p1");
    reveal_strlit("p2");
    reveal_strlit("1");
    reveal_strlit("2");
    if uses_p_suffix(name) {
        assert((name + "p1"@).last() == '1');
        assert((name + "p2"@).last() == '2');
    } else {
        assert((name + "1"@).last() == '1');
        assert((name + "2"@).last() == '2');
    }
}

/// The two suffix conventions never collide: a disk named in the bare-number
/// style and a disk named in the `p`-suffix style can never derive a common
/// partition path.
pub proof fn lemma_layout_no_collision(a: Seq<char>, b: Seq<char>)
    requires
        !uses_p_suffix(a),
        uses_p_suffix(b),
    ensures
        efi_partition_spec(a) != efi_partition_spec(b),
        efi_partition_spec(a) != root_partition_spec(b),
        root_partition_spec(a) != efi_partition_spec(b),
        root_partition_spec(a) != root_partition_spec(b),
{
    reveal_strlit("p1");
    reveal_strlit("p2");
    reveal_strlit("1");
    reveal_strlit("2");
    reveal_strlit("p");
    if efi_partition_spec(a) == efi_partition_spec(b) {
        assert((a + "1"@).drop_last() =~= a);
        assert((b + "p1"@).drop_last() =~= b + "p"@);
        assert(a == b + "p"@);
        if contains_seq(b, "nvme"@) {
            lemma_contains_append(b, "p"@, "nvme"@);
        } else {
            lemma_contains_append(b, "p"@, "mmcblk"@);
        }
        assert(false);
    }
    if root_partition_spec(a) == root_partition_spec(b) {
        assert((a + "2"@).drop_last() =~= a);
        assert((b + "p2"@).drop_last() =~= b + "p"@);
        assert(a == b + "p"@);
        if contains_seq(b, "nvme"@) {
            lemma_contains_append(b, "p"@, "nvme"@);
        } else {
            lemma_contains_append(b, "p"@, "mmcblk"@);
        }
        assert(false);
    }
    assert((a + "1"@).last() == '1' && (b + "p2"@).last() == '2');
    assert((a + "2"@).last() == '2' && (b + "p1"@).last() == '1');
}

} // verus!
