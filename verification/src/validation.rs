//! Pre-flight validation judgments: required external tools, build
//! artifacts, disk accessibility, and the minimum disk size. The caller
//! probes the machine and hands the observations in; the rules live here.

use vstd::prelude::*;
use vstd::string::*;
use crate::errors::InstallError;

verus! {

/// The least disk size accepted, in bytes (a two-gigabyte floor).
pub const MIN_DISK_BYTES: u64 = 2147483648;

/// The external commands the pipeline depends on.
pub open spec fn required_commands_spec() -> Seq<Seq<char>> {
    seq!["parted"@, "mkfs.vfat"@, "lsblk"@, "mount"@, "umount"@, "sync"@]
}

/// Gate-keeps pipeline entry.
pub struct SystemValidator;

/// Whether `v` holds a string whose view is `x`.
pub open spec fn holds_string(v: Seq<Seq<char>>, x: Seq<char>) -> bool {
    v.contains(x)
}

fn vec_contains_string(v: &Vec<String>, x: &String) -> (b: bool)
    ensures
        b == holds_string(v.deep_view(), x@),
{
    let mut i: usize = 0;
    while i < v.len()
        invariant
            i <= v@.len(),
            forall|k: int| 0 <= k < i ==> v.deep_view()[k] != x@,
        decreases v@.len() - i,
    {
        let same = v[i].eq(x);
        proof {
            assert(v.deep_view()[i as int] == v@[i as int]@);
        }
        if same {
            proof {
                assert(v.deep_view()[i as int] == x@);
            }
            return true;
        }
        i += 1;
    }
    proof {
        if holds_string(v.deep_view(), x@) {
            let w = choose|w: int| 0 <= w < v.deep_view().len() && v.deep_view()[w] == x@;
            assert(false);
        }
    }
    false
}

impl SystemValidator {
    pub fn new() -> SystemValidator {
        SystemValidator
    }

    /// The external commands the pipeline depends on, for the caller to
    /// probe.
    pub fn required_commands(&self) -> (r: Vec<String>)
        ensures
            r.deep_view() == required_commands_spec(),
    {
        let mut r: Vec<String> = Vec::new();
        r.push(String::from_str("parted"));
        r.push(String::from_str("mkfs.vfat"));
        r.push(String::from_str("lsblk"));
        r.push(String::from_str("mount"));
        r.push(String::from_str("umount"));
        r.push(String::from_str("sync"));
        proof {
            assert(r.deep_view() =~~= required_commands_spec());
        }
        r
    }

    /// Accept the system exactly when every required command is among the
    /// ones found available; otherwise report the first missing command.
    pub fn validate_system(&self, available: &Vec<String>) -> (r: Result<(), InstallError>)
        ensures
            ({
                let req = required_commands_spec();
                match r {
                    Ok(_) => forall|k: int|
                        0 <= k < req.len() ==> holds_string(available.deep_view(), req[k]),
                    Err(e) => exists|k: int|
                        0 <= k < req.len() && !holds_string(available.deep_view(), req[k]) && (
                        forall|j: int| 0 <= j < k ==> holds_string(available.deep_view(), req[j]))
                            && (e matches InstallError::Verify { what, detail } && what@
                            == "required command"@ && detail@ == req[k]),
                }
            }),
    {
        let ghost req = required_commands_spec();
        let required = self.required_commands();
        let mut k: usize = 0;
        while k < required.len()
            invariant
                req == required_commands_spec(),
                required.deep_view() == req,
                k <= req.len(),
                forall|j: int| 0 <= j < k ==> holds_string(available.deep_view(), req[j]),
            decreases req.len() - k,
        {
            if !vec_contains_string(available, &required[k]) {
                let e = InstallError::Verify {
                    what: String::from_str("required command"),
                    detail: required[k].clone(),
                };
                proof {
                    assert(required.deep_view()[k as int] == required@[k as int]@);
                    assert(exists|w: int|
                        0 <= w < required_commands_spec().len() && !holds_string(
                            available.deep_view(),
                            required_commands_spec()[w],
                        ) && (forall|j: int|
                            0 <= j < w ==> holds_string(
                                available.deep_view(),
                                required_commands_spec()[j],
                            )) && (e matches InstallError::Verify { what, detail } && what@
                        == "required command"@ && detail@ == required_commands_spec()[w])) by {
                        assert(!holds_string(
                            available.deep_view(),
                            required_commands_spec()[k as int],
                        ));
                        assert(forall|j: int|
                            0 <= j < k as int ==> holds_string(
                                available.deep_view(),
                                required_commands_spec()[j],
                            ));
                        assert(e matches InstallError::Verify { what, detail } && what@
                            == "required command"@ && detail@ == required_commands_spec()[k as int]);
                    }
                }
                return Err(e);
            }
            proof {
                assert(required.deep_view()[k as int] == required@[k as int]@);
            }
            k += 1;
        }
        Ok(())
    }

    /// Accept a disk path exactly when it exists and is a block device.
    pub fn validate_disk(&self, disk_path: &str, path_exists: bool, is_block_device: bool) -> (r:
        Result<(), InstallError>)
        ensures
            ({
                match r {
                    Ok(_) => path_exists && is_block_device,
                    Err(e) => (!path_exists || !is_block_device) && (e
                        matches InstallError::Verify { what, detail } && detail@ == disk_path@),
                }
            }),
    {
        if !path_exists {
            return Err(
                InstallError::Verify {
                    what: String::from_str("disk path exists"),
                    detail: disk_path.to_owned(),
                },
            );
        }
        if !is_block_device {
            return Err(
                InstallError::Verify {
                    what: String::from_str("disk path is a block device"),
                    detail: disk_path.to_owned(),
                },
            );
        }
        Ok(())
    }

    /// Accept a disk size exactly when it reaches the two-gigabyte floor.
    pub fn check_disk_space(&self, size_bytes: u64) -> (r: Result<(), InstallError>)
        ensures
            ({
                match r {
                    Ok(_) => size_bytes >= MIN_DISK_BYTES,
                    Err(e) => size_bytes < MIN_DISK_BYTES && e is Verify,
                }
            }),
    {
        if size_bytes < MIN_DISK_BYTES {
            return Err(
                InstallError::Verify {
                    what: String::from_str("disk size floor"),
                    detail: String::from_str("the disk is smaller than two gigabytes"),
                },
            );
        }
        Ok(())
    }

    /// Accept the build tree exactly when the three build directories and
    /// the two custom-filesystem binaries were all found; otherwise name
    /// the first missing artifact, with a build hint for the binaries.
    pub fn validate_redox_build(
        &self,
        build_tree_present: bool,
        kernel_recipe_present: bool,
        bootloader_recipe_present: bool,
        formatter_present: bool,
        driver_present: bool,
    ) -> (r: Result<(), InstallError>)
        ensures
            ({
                match r {
                    Ok(_) => build_tree_present && kernel_recipe_present
                        && bootloader_recipe_present && formatter_present && driver_present,
                    Err(e) => (e matches InstallError::Verify { what, detail } && ({
                        if !build_tree_present {
                            what@ == "build directory"@ && detail@ == "build/x86_64"@
                        } else if !kernel_recipe_present {
                            what@ == "build directory"@ && detail@
                                == "cookbook/recipes/core/kernel"@
                        } else if !bootloader_recipe_present {
                            what@ == "build directory"@ && detail@
                                == "cookbook/recipes/core/bootloader"@
                        } else if !formatter_present {
                            what@ == "custom filesystem binary"@ && detail@
                                == "/home/moebius/redox/redoxfs/target/release/redoxfs-mkfs; build the filesystem tools first: cd /home/moebius/redox/redoxfs && cargo build --release"@
                        } else {
                            !driver_present && what@ == "custom filesystem binary"@ && detail@
                                == "/home/moebius/redox/redoxfs/target/release/redoxfs; build the filesystem tools first: cd /home/moebius/redox/redoxfs && cargo build --release"@
                        }
                    })),
                }
            }),
    {
        if !build_tree_present {
            return Err(
                InstallError::Verify {
                    what: String::from_str("build directory"),
                    detail: String::from_str("build/x86_64"),
                },
            );
        }
        if !kernel_recipe_present {
            return Err(
                InstallError::Verify {
                    what: String::from_str("build directory"),
                    detail: String::from_str("cookbook/recipes/core/kernel"),
                },
            );
        }
        if !bootloader_recipe_present {
            return Err(
                InstallError::Verify {
                    what: String::from_str("build directory"),
                    detail: String::from_str("cookbook/recipes/core/bootloader"),
                },
            );
        }
        if !formatter_present {
            return Err(
                InstallError::Verify {
                    what: String::from_str("custom filesystem binary"),
                    detail: String::from_str(
                        "/home/moebius/redox/redoxfs/target/release/redoxfs-mkfs; build the filesystem tools first: cd /home/moebius/redox/redoxfs && cargo build --release",
                    ),
                },
            );
        }
        if !driver_present {
            return Err(
                InstallError::Verify {
                    what: String::from_str("custom filesystem binary"),
                    detail: String::from_str(
                        "/home/moebius/redox/redoxfs/target/release/redoxfs; build the filesystem tools first: cd /home/moebius/redox/redoxfs && cargo build --release",
                    ),
                },
            );
        }
        Ok(())
    }
}

} // verus!
