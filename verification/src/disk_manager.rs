//! Disk enumeration support: parsing the whole-disk listing a block-device
//! listing utility prints, classifying disks by device name, and judging
//! mount state from mount-table text. All I/O stays with the caller; the
//! functions here work on the captured text alone.

use vstd::prelude::*;
use vstd::string::*;
use crate::text::{
    contains_seq, contains_sub, join_space, join_space_spec, lines_spec, split_lines, split_ws,
    split_ws_spec, strip_dev, strip_dev_prefix, trim_spec, trim_str,
};
use crate::DiskInfo;

verus! {

/// One whole-disk row parsed from the listing utility's output, before the
/// caller has probed accessibility or rotation.
#[derive(Clone, Debug)]
pub struct DiskEntry {
    pub name: String,
    pub size: String,
    pub model: String,
}

/// A listing line that describes a whole disk: at least four
/// whitespace-delimited fields, the last of which is `disk`.
pub open spec fn listing_entry_ok(l: Seq<char>) -> bool {
    let p = split_ws_spec(l);
    p.len() >= 4 && p.last() == "disk"@
}

/// The lines of a listing that describe whole disks.
pub open spec fn selected_lines(ls: Seq<Seq<char>>) -> Seq<Seq<char>> {
    ls.filter(|l: Seq<char>| listing_entry_ok(l))
}

/// The device path of a selected listing line.
pub open spec fn entry_name(l: Seq<char>) -> Seq<char> {
    "/dev/"@ + split_ws_spec(l)[0]
}

/// The size field of a selected listing line.
pub open spec fn entry_size(l: Seq<char>) -> Seq<char> {
    split_ws_spec(l)[1]
}

/// The model field of a selected listing line: the middle fields, re-joined.
pub open spec fn entry_model(l: Seq<char>) -> Seq<char> {
    join_space_spec(split_ws_spec(l).subrange(2, split_ws_spec(l).len() - 1))
}

/// Keeps the disks most recently handed over after enumeration.
pub struct DiskManager {
    disks: Vec<DiskInfo>,
}

impl DiskManager {
    /// An empty manager: no disks until a scan is handed over.
    pub fn new() -> (r: DiskManager)
        ensures
            r.scanned_disks().len() == 0,
    {
        DiskManager { disks: Vec::new() }
    }

    /// The disks currently held, as their name/size/model/type views.
    pub closed spec fn scanned_disks(&self) -> Seq<DiskInfo> {
        self.disks@
    }

    /// Replace the held disks with the outcome of an enumeration.
    pub fn set_disks(&mut self, disks: Vec<DiskInfo>)
        ensures
            final(self).scanned_disks() == disks@,
    {
        self.disks = disks;
    }

    /// The held disks, cloned for the caller.
    pub fn list_disks(&self) -> (r: Vec<DiskInfo>)
        ensures
            r@.len() == self.scanned_disks().len(),
            forall|i: int|
                0 <= i < r@.len() ==> r@[i].name@ == self.scanned_disks()[i].name@
                    && r@[i].size@ == self.scanned_disks()[i].size@ && r@[i].model@
                    == self.scanned_disks()[i].model@ && r@[i].disk_type@
                    == self.scanned_disks()[i].disk_type@,
    {
        let mut r: Vec<DiskInfo> = Vec::new();
        let mut i: usize = 0;
        while i < self.disks.len()
            invariant
                i <= self.disks@.len(),
                r@.len() == i,
                forall|k: int|
                    0 <= k < i ==> r@[k].name@ == self.disks@[k].name@ && r@[k].size@
                        == self.disks@[k].size@ && r@[k].model@ == self.disks@[k].model@
                        && r@[k].disk_type@ == self.disks@[k].disk_type@,
            decreases self.disks@.len() - i,
        {
            let d = &self.disks[i];
            r.push(
                DiskInfo {
                    name: d.name.clone(),
                    size: d.size.clone(),
                    model: d.model.clone(),
                    disk_type: d.disk_type.clone(),
                },
            );
            i += 1;
        }
        r
    }

    /// Parse the listing utility's whole-disk output: one entry per line
    /// whose last field is `disk`, carrying the `/dev/`-prefixed device
    /// path, the size field, and the model fields re-joined with spaces.
    pub fn parse_listing(text: &str) -> (r: Vec<DiskEntry>)
        ensures
            ({
                let sel = selected_lines(lines_spec(text@));
                r@.len() == sel.len() && forall|i: int|
                    0 <= i < sel.len() ==> r@[i].name@ == entry_name(sel[i]) && r@[i].size@
                        == entry_size(sel[i]) && r@[i].model@ == entry_model(sel[i])
            }),
    {
        let ghost ls = lines_spec(text@);
        let lines = split_lines(text);
        let mut r: Vec<DiskEntry> = Vec::new();
        let mut i: usize = 0;
        proof {
            assert(ls.subrange(0, 0) =~~= Seq::<Seq<char>>::empty());
            assert(selected_lines(Seq::<Seq<char>>::empty()) =~~= Seq::<Seq<char>>::empty());
        }
        while i < lines.len()
            invariant
                ls == lines_spec(text@),
                lines.deep_view() == ls,
                i <= lines@.len(),
                r@.len() == selected_lines(ls.subrange(0, i as int)).len(),
                forall|k: int|
                    0 <= k < r@.len() ==> r@[k].name@ == entry_name(
                        selected_lines(ls.subrange(0, i as int))[k],
                    ) && r@[k].size@ == entry_size(selected_lines(ls.subrange(0, i as int))[k])
                        && r@[k].model@ == entry_model(
                        selected_lines(ls.subrange(0, i as int))[k],
                    ),
            decreases lines@.len() - i,
        {
            let ghost pref = ls.subrange(0, i as int);
            let ghost pref1 = ls.subrange(0, i + 1);
            proof {
                assert(lines@[i as int]@ == ls[i as int]);
                assert(pref1.drop_last() =~~= pref);
                assert(pref1.last() == ls[i as int]);
                reveal_with_fuel(Seq::filter, 2);
                if listing_entry_ok(ls[i as int]) {
                    assert(selected_lines(pref1) =~~= selected_lines(pref).push(ls[i as int]));
                } else {
                    assert(selected_lines(pref1) =~~= selected_lines(pref));
                }
            }
            let line = &lines[i];
            let tokens = split_ws(line.as_str());
            let disk_word = String::from_str("disk");
            if tokens.len() >= 4 && tokens[tokens.len() - 1] == disk_word {
                proof {
                    assert(tokens.deep_view().last() == tokens@[tokens@.len() - 1]@);
                    assert(listing_entry_ok(ls[i as int]));
                    assert(tokens.deep_view()[0] == tokens@[0]@);
                    assert(tokens.deep_view()[1] == tokens@[1]@);
                }
                let name = String::from_str("/dev/").concat(tokens[0].as_str());
                let size = tokens[1].clone();
                let model = join_space(&tokens, 2, tokens.len() - 1);
                r.push(DiskEntry { name, size, model });
            } else {
                proof {
                    if tokens@.len() >= 4 {
                        assert(tokens.deep_view().last() == tokens@[tokens@.len() - 1]@);
                    }
                    assert(!listing_entry_ok(ls[i as int]));
                }
            }
            i += 1;
        }
        proof {
            assert(ls.subrange(0, i as int) =~~= ls);
        }
        r
    }

    /// Classify a disk by its device name, with the rotational probe text
    /// (if readable) deciding between the spinning and solid-state kinds.
    pub fn disk_type_for(name: &str, rotational: Option<&String>) -> (r: String)
        ensures
            r@ == disk_type_spec(
                name@,
                match rotational {
                    Some(t) => Some(t@),
                    None => None,
                },
            ),
    {
        if contains_sub(name, "nvme") {
            String::from_str("NVMe SSD")
        } else if contains_sub(name, "sd") {
            match rotational {
                Some(t) => {
                    let trimmed = trim_str(t.as_str());
                    let zero = String::from_str("0");
                    if trimmed == zero {
                        String::from_str("SATA SSD")
                    } else {
                        String::from_str("SATA HDD")
                    }
                },
                None => String::from_str("SATA/SCSI"),
            }
        } else if contains_sub(name, "hd") {
            String::from_str("IDE HDD")
        } else if contains_sub(name, "vd") {
            String::from_str("Virtual Disk")
        } else if contains_sub(name, "mmcblk") {
            String::from_str("MMC/SD Card")
        } else {
            String::from_str("Unknown")
        }
    }

    /// Whether mount-table text mentions a disk path.
    pub fn is_disk_mounted(mount_text: &str, disk_path: &str) -> (b: bool)
        ensures
            b == contains_seq(mount_text@, disk_path@),
    {
        contains_sub(mount_text, disk_path)
    }
}

/// The lines of mount-table text that mention the bare device name and
/// carry at least one field.
pub open spec fn unmount_selected(ls: Seq<Seq<char>>, dev: Seq<char>) -> Seq<Seq<char>> {
    ls.filter(|l: Seq<char>| contains_seq(l, dev) && split_ws_spec(l).len() > 0)
}

impl DiskManager {
    /// The mounted partitions of a disk, read from mount-table text: for
    /// each line mentioning the disk's bare device name, the first
    /// whitespace-delimited field. These are the paths to pass to the
    /// unmount tool before the disk may be repartitioned.
    pub fn partitions_to_unmount(mount_text: &str, disk_path: &str) -> (r: Vec<String>)
        ensures
            ({
                let sel = unmount_selected(lines_spec(mount_text@), strip_dev(disk_path@));
                r@.len() == sel.len() && forall|i: int|
                    0 <= i < sel.len() ==> r@[i]@ == split_ws_spec(sel[i])[0]
            }),
    {
        let dev = strip_dev_prefix(disk_path);
        let ghost dv = dev@;
        let ghost ls = lines_spec(mount_text@);
        let lines = split_lines(mount_text);
        let mut r: Vec<String> = Vec::new();
        let mut i: usize = 0;
        proof {
            assert(ls.subrange(0, 0) =~~= Seq::<Seq<char>>::empty());
            assert(unmount_selected(Seq::<Seq<char>>::empty(), dv) =~~= Seq::<Seq<char>>::empty());
        }
        while i < lines.len()
            invariant
                dv == strip_dev(disk_path@),
                dev@ == dv,
                ls == lines_spec(mount_text@),
                lines.deep_view() == ls,
                i <= lines@.len(),
                r@.len() == unmount_selected(ls.subrange(0, i as int), dv).len(),
                forall|k: int|
                    0 <= k < r@.len() ==> r@[k]@ == split_ws_spec(
                        unmount_selected(ls.subrange(0, i as int), dv)[k],
                    )[0],
            decreases lines@.len() - i,
        {
            let ghost pref = ls.subrange(0, i as int);
            let ghost pref1 = ls.subrange(0, i + 1);
            proof {
                assert(lines@[i as int]@ == ls[i as int]);
                assert(pref1.drop_last() =~~= pref);
                assert(pref1.last() == ls[i as int]);
                reveal_with_fuel(Seq::filter, 2);
                if contains_seq(ls[i as int], dv) && split_ws_spec(ls[i as int]).len() > 0 {
                    assert(unmount_selected(pref1, dv) =~~= unmount_selected(pref, dv).push(
                        ls[i as int],
                    ));
                } else {
                    assert(unmount_selected(pref1, dv) =~~= unmount_selected(pref, dv));
                }
            }
            let line = &lines[i];
            if contains_sub(line.as_str(), dev.as_str()) {
                let tokens = split_ws(line.as_str());
                if tokens.len() > 0 {
                    proof {
                        assert(tokens.deep_view()[0] == tokens@[0]@);
                    }
                    r.push(tokens[0].clone());
                }
            }
            i += 1;
        }
        proof {
            assert(ls.subrange(0, i as int) =~~= ls);
        }
        r
    }
}

/// The classification a disk device name receives.
pub open spec fn disk_type_spec(name: Seq<char>, rotational: Option<Seq<char>>) -> Seq<char> {
    if contains_seq(name, "nvme"@) {
        "NVMe SSD"@
    } else if contains_seq(name, "sd"@) {
        match rotational {
            Some(t) => if trim_spec(t) == "0"@ {
                "SATA SSD"@
            } else {
                "SATA HDD"@
            },
            None => "SATA/SCSI"@,
        }
    } else if contains_seq(name, "hd"@) {
        "IDE HDD"@
    } else if contains_seq(name, "vd"@) {
        "Virtual Disk"@
    } else if contains_seq(name, "mmcblk"@) {
        "MMC/SD Card"@
    } else {
        "Unknown"@
    }
}

} // verus!
