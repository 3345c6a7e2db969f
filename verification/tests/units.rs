use redox_disk_installer::bootconf::{boot_config_text, root_reference};
use redox_disk_installer::disk_manager::DiskManager;
use redox_disk_installer::errors::InstallError;
use redox_disk_installer::format::{
    extract_volume_identity, judge_custom_format, parse_block_size, stream_reports_success,
    VolumeIdentity,
};
use redox_disk_installer::layout::{compute_layout, layout_for_name};
use redox_disk_installer::text::{
    contains_sub, parse_u64, split_lines, split_ws, starts_with_str, strip_dev_prefix, trim_str,
    trim_trailing_digits, u64_to_dec,
};
use redox_disk_installer::validation::SystemValidator;
use redox_disk_installer::{DiskInfo, FilesystemType, InstallationConfig};

#[test]
fn layout_sata_style() {
    let l = layout_for_name("/dev/sdX");
    assert_eq!(l.efi_partition, "/dev/sdX1");
    assert_eq!(l.root_partition, "/dev/sdX2");
}

#[test]
fn layout_nvme_style() {
    let l = layout_for_name("/dev/nvme0n1");
    assert_eq!(l.efi_partition, "/dev/nvme0n1p1");
    assert_eq!(l.root_partition, "/dev/nvme0n1p2");
}

#[test]
fn layout_mmc_style() {
    let l = layout_for_name("/dev/mmcblk0");
    assert_eq!(l.efi_partition, "/dev/mmcblk0p1");
    assert_eq!(l.root_partition, "/dev/mmcblk0p2");
}

#[test]
fn layout_is_deterministic() {
    let a = layout_for_name("/dev/sda");
    let b = layout_for_name("/dev/sda");
    assert_eq!(a.efi_partition, b.efi_partition);
    assert_eq!(a.root_partition, b.root_partition);
}

#[test]
fn text_contains() {
    assert!(contains_sub("abc nvme xyz", "nvme"));
    assert!(!contains_sub("abc nvm xyz", "nvme"));
    assert!(contains_sub("anything", ""));
}

#[test]
fn text_split_ws() {
    let parts = split_ws("  a\tbb  ccc \n");
    let parts: Vec<&str> = parts.iter().map(|s| s.as_str()).collect();
    assert_eq!(parts, vec!["a", "bb", "ccc"]);
}

#[test]
fn text_split_lines() {
    let lines = split_lines("one\r\ntwo\n\nlast");
    let lines: Vec<&str> = lines.iter().map(|s| s.as_str()).collect();
    assert_eq!(lines, vec!["one", "two", "", "last"]);
}

#[test]
fn text_trim() {
    assert_eq!(trim_str("  8589934592\n"), "8589934592");
    assert_eq!(trim_str("\t \n"), "");
}

#[test]
fn text_parse_u64() {
    assert_eq!(parse_u64("512"), Some(512));
    assert_eq!(parse_u64(""), None);
    assert_eq!(parse_u64("51a2"), None);
    assert_eq!(parse_u64("18446744073709551615"), Some(u64::MAX));
    assert_eq!(parse_u64("18446744073709551616"), None);
}

#[test]
fn text_u64_to_dec() {
    assert_eq!(u64_to_dec(0), "0");
    assert_eq!(u64_to_dec(512), "512");
    assert_eq!(u64_to_dec(u64::MAX), "18446744073709551615");
}

#[test]
fn text_prefixes_and_suffixes() {
    assert!(starts_with_str("/dev/sda", "/dev/"));
    assert!(!starts_with_str("dev/sda", "/dev/"));
    assert_eq!(strip_dev_prefix("/dev/sda"), "sda");
    assert_eq!(strip_dev_prefix("sda"), "sda");
    assert_eq!(trim_trailing_digits("/dev/sda1"), "/dev/sda");
    assert_eq!(trim_trailing_digits("/dev/nvme0n1"), "/dev/nvme0n");
}

#[test]
fn listing_parses_whole_disks() {
    let text = "sda    931.5G Samsung SSD 870 disk\nsda1   512M             part\nnvme0n1 1.8T WD Black    disk\n";
    let entries = DiskManager::parse_listing(text);
    assert_eq!(entries.len(), 2);
    assert_eq!(entries[0].name, "/dev/sda");
    assert_eq!(entries[0].size, "931.5G");
    assert_eq!(entries[0].model, "Samsung SSD 870");
    assert_eq!(entries[1].name, "/dev/nvme0n1");
    assert_eq!(entries[1].model, "WD Black");
}

#[test]
fn disk_classification() {
    assert_eq!(DiskManager::disk_type_for("/dev/nvme0n1", None), "NVMe SSD");
    let zero = String::from("0\n");
    let one = String::from("1\n");
    assert_eq!(DiskManager::disk_type_for("/dev/sda", Some(&zero)), "SATA SSD");
    assert_eq!(DiskManager::disk_type_for("/dev/sda", Some(&one)), "SATA HDD");
    assert_eq!(DiskManager::disk_type_for("/dev/sda", None), "SATA/SCSI");
    assert_eq!(DiskManager::disk_type_for("/dev/hda", None), "IDE HDD");
    assert_eq!(DiskManager::disk_type_for("/dev/vda", None), "Virtual Disk");
    assert_eq!(DiskManager::disk_type_for("/dev/mmcblk0", None), "MMC/SD Card");
    assert_eq!(DiskManager::disk_type_for("/dev/loop0", None), "Unknown");
}

#[test]
fn mounted_and_unmount_targets() {
    let mounts = "/dev/sda1 on /boot type vfat\n/dev/sdb1 on /data type ext4\nproc on /proc\n";
    assert!(DiskManager::is_disk_mounted(mounts, "/dev/sda"));
    assert!(!DiskManager::is_disk_mounted(mounts, "/dev/sdc"));
    let parts = DiskManager::partitions_to_unmount(mounts, "/dev/sda");
    let parts: Vec<&str> = parts.iter().map(|s| s.as_str()).collect();
    assert_eq!(parts, vec!["/dev/sda1"]);
}

#[test]
fn validator_accepts_complete_tool_set() {
    let v = SystemValidator::new();
    let available: Vec<String> = ["parted", "mkfs.vfat", "lsblk", "mount", "umount", "sync", "dd"]
        .iter()
        .map(|s| s.to_string())
        .collect();
    assert!(v.validate_system(&available).is_ok());
}

#[test]
fn validator_reports_first_missing_tool() {
    let v = SystemValidator::new();
    let available: Vec<String> = ["parted", "lsblk", "mount", "umount", "sync"]
        .iter()
        .map(|s| s.to_string())
        .collect();
    match v.validate_system(&available) {
        Err(InstallError::Verify { what, detail }) => {
            assert_eq!(what, "required command");
            assert_eq!(detail, "mkfs.vfat");
        }
        other => panic!("expected a missing-command failure, got {:?}", other),
    }
}

#[test]
fn validator_disk_checks() {
    let v = SystemValidator::new();
    assert!(v.validate_disk("/dev/sda", true, true).is_ok());
    assert!(v.validate_disk("/dev/sda", false, true).is_err());
    assert!(v.validate_disk("/dev/sda", true, false).is_err());
    assert!(v.check_disk_space(2 * 1024 * 1024 * 1024).is_ok());
    assert!(v.check_disk_space(2 * 1024 * 1024 * 1024 - 1).is_err());
}

#[test]
fn validator_build_checks_name_the_missing_artifact() {
    let v = SystemValidator::new();
    assert!(v.validate_redox_build(true, true, true, true, true).is_ok());
    match v.validate_redox_build(true, false, true, true, true) {
        Err(InstallError::Verify { what, detail }) => {
            assert_eq!(what, "build directory");
            assert_eq!(detail, "cookbook/recipes/core/kernel");
        }
        other => panic!("expected a missing-directory failure, got {:?}", other),
    }
    match v.validate_redox_build(true, true, true, false, true) {
        Err(InstallError::Verify { what, detail }) => {
            assert_eq!(what, "custom filesystem binary");
            assert!(detail.contains("redoxfs-mkfs"));
            assert!(detail.contains("cargo build --release"));
        }
        other => panic!("expected a missing-binary failure, got {:?}", other),
    }
    match v.validate_redox_build(true, true, true, true, false) {
        Err(InstallError::Verify { what, detail }) => {
            assert_eq!(what, "custom filesystem binary");
            assert!(detail.contains("release/redoxfs;"));
        }
        other => panic!("expected a missing-binary failure, got {:?}", other),
    }
}

#[test]
fn formatter_success_marker_required_despite_zero_exit() {
    // Zero exit with no success marker in the diagnostic stream is failure.
    let r = judge_custom_format("mkfs-tool", true, "", "writing header\ndone\n");
    match r {
        Err(InstallError::Verify { what, .. }) => {
            assert_eq!(what, "formatter success marker");
        }
        other => panic!("expected a marker failure, got {:?}", other),
    }
}

#[test]
fn formatter_nonzero_exit_fails() {
    let r = judge_custom_format("mkfs-tool", false, "boom", "created filesystem\nuuid abcd\n");
    match r {
        Err(InstallError::ToolFailed { tool, detail }) => {
            assert_eq!(tool, "mkfs-tool");
            assert_eq!(detail, "boom");
        }
        other => panic!("expected a tool failure, got {:?}", other),
    }
}

#[test]
fn formatter_success_extracts_identity() {
    let stderr = "redoxfs-mkfs: created filesystem on /dev/sdX2\nredoxfs-mkfs: uuid abcd-1234\n";
    assert!(stream_reports_success(stderr));
    let r = judge_custom_format("mkfs-tool", true, "", stderr);
    match r {
        Ok(VolumeIdentity { text }) => assert_eq!(text, "abcd-1234"),
        other => panic!("expected an identity, got {:?}", other),
    }
}

#[test]
fn identity_extraction_fails_cleanly_without_keyword_line() {
    // No line mentions the identifier keyword: a clean parse failure, not a
    // panic and not a silent default.
    let r = extract_volume_identity("created filesystem on /dev/sdX2\nall good\n");
    match r {
        Err(InstallError::Parse { what, .. }) => assert_eq!(what, "volume identity"),
        other => panic!("expected a parse failure, got {:?}", other),
    }
}

#[test]
fn identity_takes_last_token_of_first_keyword_line() {
    let stderr = "uuid first-1111\nuuid second-2222\n";
    let r = extract_volume_identity(stderr).unwrap();
    assert_eq!(r.text, "first-1111");
}

#[test]
fn block_size_parsing() {
    assert_eq!(parse_block_size(" 8589934592\n").unwrap(), 8589934592);
    assert!(parse_block_size("not-a-number\n").is_err());
    assert!(parse_block_size("").is_err());
}

#[test]
fn boot_config_contents() {
    let text = boot_config_text("abcd-1234");
    assert_eq!(
        text,
        "# Redox OS Boot Configuration\nkernel=/boot/kernel\nroot=abcd-1234\ninitfs=/boot/initfs\n"
    );
}

#[test]
fn root_reference_prefers_identity() {
    let id = Some(VolumeIdentity { text: String::from("abcd-1234") });
    assert_eq!(root_reference(&id, "/dev/sdX2"), "abcd-1234");
    assert_eq!(root_reference(&None, "/dev/nvme0n1p2"), "/dev/nvme0n1p2");
}

#[test]
fn error_messages_carry_context() {
    let e = InstallError::Launch {
        tool: String::from("parted"),
        detail: String::from("not found"),
    };
    assert_eq!(e.message(), "failed to launch parted: not found");
    let t = InstallError::Timeout { what: String::from("partition device nodes") };
    assert_eq!(t.message(), "timed out waiting for partition device nodes");
}

#[test]
fn planner_layout_from_disk_and_config() {
    let d = DiskInfo {
        name: String::from("/dev/sdX"),
        size: String::from("1.8T"),
        model: String::from("Test Disk"),
        disk_type: String::from("Test"),
    };
    let config = InstallationConfig { efi_size_mb: 512, filesystem_type: FilesystemType::RedoxFS };
    let l = compute_layout(&d, &config);
    assert_eq!(l.efi_partition, "/dev/sdX1");
    assert_eq!(l.root_partition, "/dev/sdX2");
}

#[test]
fn disk_manager_keeps_handed_over_disks() {
    let mut manager = DiskManager::new();
    assert!(manager.list_disks().is_empty());
    manager.set_disks(vec![DiskInfo {
        name: String::from("/dev/sda"),
        size: String::from("500G"),
        model: String::from("Some SSD"),
        disk_type: String::from("SATA SSD"),
    }]);
    let disks = manager.list_disks();
    assert_eq!(disks.len(), 1);
    assert_eq!(disks[0].name, "/dev/sda");
    assert_eq!(disks[0].disk_type, "SATA SSD");
}
