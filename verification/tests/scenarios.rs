use redox_disk_installer::errors::InstallError;
use redox_disk_installer::pipeline::{Action, DirectInstaller, Event, InstallPipeline, Phase,
    RootMountKind, ToolOutcome};
use redox_disk_installer::{DiskInfo, FilesystemType, InstallationConfig};

fn disk(name: &str) -> DiskInfo {
    DiskInfo {
        name: name.to_string(),
        size: "1.8T".to_string(),
        model: "Test Disk".to_string(),
        disk_type: "Test".to_string(),
    }
}

fn ok_tool() -> Event {
    Event::Tool {
        outcome: ToolOutcome::Ran {
            exit_ok: true,
            stdout: String::new(),
            stderr: String::new(),
        },
    }
}

#[derive(Default)]
struct Recorder {
    tools: Vec<(String, Vec<String>)>,
    writes: Vec<(String, String)>,
}

/// Answer one action as a fully successful simulated machine would.
fn respond(action: &Action, rec: &mut Recorder, formatter_stderr: &str) -> Option<Event> {
    match action {
        Action::RunTool { tool } => {
            rec.tools.push((tool.program.clone(), tool.args.clone()));
            if tool.program.ends_with("redoxfs-mkfs") {
                Some(Event::Tool {
                    outcome: ToolOutcome::Ran {
                        exit_ok: true,
                        stdout: String::new(),
                        stderr: formatter_stderr.to_string(),
                    },
                })
            } else if tool.program == "blockdev" {
                Some(Event::Tool {
                    outcome: ToolOutcome::Ran {
                        exit_ok: true,
                        stdout: "8589934592\n".to_string(),
                        stderr: String::new(),
                    },
                })
            } else {
                Some(ok_tool())
            }
        }
        Action::RunToolBestEffort { tool } => {
            rec.tools.push((tool.program.clone(), tool.args.clone()));
            Some(ok_tool())
        }
        Action::RunBatchBestEffort { .. } => Some(Event::BatchDone),
        Action::CheckPath { path } => {
            // Staged application components are absent in this simulation;
            // everything else (disk nodes, binaries, build artifacts) exists.
            let exists = !path.contains("/stage");
            Some(Event::PathChecked { exists })
        }
        Action::Sleep { .. } => Some(Event::Slept),
        Action::ReadFile { .. } => Some(Event::FileRead { text: Some(String::new()) }),
        Action::EnsureDirs { .. }
        | Action::ReplaceSymlinks { .. }
        | Action::ProbeWrite { .. }
        | Action::RemoveDirs { .. } => Some(Event::FsDone { error: None }),
        Action::WriteFiles { files } => {
            for f in files {
                rec.writes.push((f.path.clone(), f.contents.clone()));
            }
            Some(Event::FsDone { error: None })
        }
        Action::CopyFile { .. } => Some(Event::Copied { error: None }),
        Action::QueryLength { .. } => Some(Event::Length { len: Some(4096) }),
        Action::SpawnDriver { .. } => Some(Event::Spawned { ok: true, detail: String::new() }),
        Action::CopyStage { .. } => Some(Event::StageCopied { count: 3, error: None }),
        Action::Done | Action::Abort { .. } => None,
    }
}

fn run_to_end(
    d: &DiskInfo,
    config: &InstallationConfig,
    formatter_stderr: &str,
) -> (InstallPipeline, Action, Recorder) {
    let installer = DirectInstaller::new();
    let (mut machine, mut action) = installer.begin_install(d, config);
    let mut rec = Recorder::default();
    for _ in 0..300 {
        match respond(&action, &mut rec, formatter_stderr) {
            Some(event) => {
                let (next, a) = machine.step(event);
                machine = next;
                action = a;
            }
            None => return (machine, action, rec),
        }
    }
    panic!("the pipeline did not terminate within the step budget");
}

#[test]
fn end_to_end_custom_filesystem_on_sata_disk() {
    let d = disk("/dev/sdX");
    let config = InstallationConfig { efi_size_mb: 512, filesystem_type: FilesystemType::RedoxFS };
    let installer = DirectInstaller::new();
    let (efi, root) = installer.get_partition_names(&d);
    assert_eq!(efi, "/dev/sdX1");
    assert_eq!(root, "/dev/sdX2");

    let stderr = "redoxfs-mkfs: created filesystem on /dev/sdX2\nredoxfs-mkfs: uuid abcd-1234\n";
    let (machine, action, rec) = run_to_end(&d, &config, stderr);
    assert!(matches!(action, Action::Done));
    assert_eq!(machine.phase, Phase::Finished);

    // The FAT format ran against partition 1.
    assert!(rec.tools.iter().any(|(p, args)| p == "mkfs.vfat"
        && args.last().map(|a| a.as_str()) == Some("/dev/sdX1")));
    // The custom formatter ran against partition 2.
    assert!(rec.tools.iter().any(|(p, args)| p.ends_with("redoxfs-mkfs")
        && args == &vec!["/dev/sdX2".to_string()]));
    // The EFI partition was laid out up to 512 MiB.
    assert!(rec.tools.iter().any(|(p, args)| p == "parted"
        && args.iter().any(|a| a == "512MiB")));

    // The captured identity is threaded to the boot configuration.
    assert_eq!(machine.volume_identity.as_ref().map(|v| v.text.as_str()), Some("abcd-1234"));
    let confs: Vec<&(String, String)> =
        rec.writes.iter().filter(|(p, _)| p.ends_with("redox.conf")).collect();
    assert_eq!(confs.len(), 3);
    for (_, contents) in confs {
        assert!(contents.contains("root=abcd-1234"));
    }
}

#[test]
fn end_to_end_standard_filesystem_on_nvme_disk() {
    let d = disk("/dev/nvme0n1");
    let config = InstallationConfig { efi_size_mb: 512, filesystem_type: FilesystemType::Ext4 };
    let (machine, action, rec) = run_to_end(&d, &config, "");
    assert!(matches!(action, Action::Done));
    assert_eq!(machine.phase, Phase::Finished);

    assert!(rec.tools.iter().any(|(p, args)| p == "mkfs.vfat"
        && args.last().map(|a| a.as_str()) == Some("/dev/nvme0n1p1")));
    assert!(rec.tools.iter().any(|(p, args)| p == "mkfs.ext4"
        && args.last().map(|a| a.as_str()) == Some("/dev/nvme0n1p2")));
    assert!(!rec.tools.iter().any(|(p, _)| p.ends_with("redoxfs-mkfs")));

    // With no volume identity, the raw partition path names the root.
    assert!(machine.volume_identity.is_none());
    let confs: Vec<&(String, String)> =
        rec.writes.iter().filter(|(p, _)| p.ends_with("redox.conf")).collect();
    assert_eq!(confs.len(), 3);
    for (_, contents) in confs {
        assert!(contents.contains("root=/dev/nvme0n1p2"));
    }
}

/// Drive a run until the next action satisfies `stop`, answering everything
/// before it with simulated successes.
fn run_until(
    d: &DiskInfo,
    config: &InstallationConfig,
    formatter_stderr: &str,
    stop: impl Fn(&Action) -> bool,
) -> (InstallPipeline, Action) {
    let installer = DirectInstaller::new();
    let (mut machine, mut action) = installer.begin_install(d, config);
    let mut rec = Recorder::default();
    for _ in 0..300 {
        if stop(&action) {
            return (machine, action);
        }
        match respond(&action, &mut rec, formatter_stderr) {
            Some(event) => {
                let (next, a) = machine.step(event);
                machine = next;
                action = a;
            }
            None => panic!("the run ended before the target action"),
        }
    }
    panic!("the target action was not reached within the step budget");
}

fn is_direct_root_mount(a: &Action) -> bool {
    matches!(a, Action::RunTool { tool }
        if tool.program == "mount" && tool.args.first().map(|s| s.as_str()) == Some("-t"))
}

#[test]
fn mount_fallback_surfaces_original_error_without_driver() {
    let d = disk("/dev/sdX");
    let config = InstallationConfig { efi_size_mb: 512, filesystem_type: FilesystemType::RedoxFS };
    let stderr = "redoxfs-mkfs: created filesystem\nredoxfs-mkfs: uuid abcd-1234\n";
    let (machine, _action) = run_until(&d, &config, stderr, is_direct_root_mount);

    // The direct mount fails.
    let (machine, action) = machine.step(Event::Tool {
        outcome: ToolOutcome::Ran {
            exit_ok: false,
            stdout: String::new(),
            stderr: "mount: unknown filesystem".to_string(),
        },
    });
    // The orchestrator asks whether the driver binary exists, spawning
    // nothing yet.
    let driver_path = match &action {
        Action::CheckPath { path } => path.clone(),
        other => panic!("expected a driver-binary check, got {:?}", other),
    };
    assert!(driver_path.ends_with("redoxfs"));

    // The driver binary does not exist: the original mount error surfaces.
    let (machine, action) = machine.step(Event::PathChecked { exists: false });
    assert_eq!(machine.phase, Phase::Failed);
    match action {
        Action::Abort { error: InstallError::ToolFailed { tool, detail } } => {
            assert_eq!(tool, "mount");
            assert_eq!(detail, "mount: unknown filesystem");
        }
        other => panic!("expected the original mount error, got {:?}", other),
    }
}

#[test]
fn mount_fallback_spawns_existing_driver() {
    let d = disk("/dev/sdX");
    let config = InstallationConfig { efi_size_mb: 512, filesystem_type: FilesystemType::RedoxFS };
    let stderr = "redoxfs-mkfs: created filesystem\nredoxfs-mkfs: uuid abcd-1234\n";
    let (machine, _action) = run_until(&d, &config, stderr, is_direct_root_mount);

    let (machine, _action) = machine.step(Event::Tool {
        outcome: ToolOutcome::Ran {
            exit_ok: false,
            stdout: String::new(),
            stderr: "mount: unknown filesystem".to_string(),
        },
    });
    // The driver binary exists: it is spawned on (partition 2, root mount).
    let (machine, action) = machine.step(Event::PathChecked { exists: true });
    match &action {
        Action::SpawnDriver { tool } => {
            assert!(tool.program.ends_with("redoxfs"));
            assert_eq!(tool.args[0], "/dev/sdX2");
            assert_eq!(tool.args[1], "/tmp/redox_install_root");
        }
        other => panic!("expected the driver spawn, got {:?}", other),
    }

    // Spawn, settle, mount-point check and write probe all succeed.
    let (machine, _a) = machine.step(Event::Spawned { ok: true, detail: String::new() });
    let (machine, _a) = machine.step(Event::Slept);
    let (machine, _a) = machine.step(ok_tool());
    let (machine, _a) = machine.step(Event::FsDone { error: None });
    assert_eq!(machine.root_mount, RootMountKind::MountedViaDriver);
}

#[test]
fn truncated_initial_filesystem_copy_is_detected() {
    let d = disk("/dev/sdX");
    let config = InstallationConfig { efi_size_mb: 512, filesystem_type: FilesystemType::Ext4 };
    // Stop at the length query of the initial-filesystem source image.
    let (machine, _action) = run_until(&d, &config, "", |a| {
        matches!(a, Action::QueryLength { path } if path.ends_with(".img"))
    });

    let (machine, _a) = machine.step(Event::Length { len: Some(1000) });
    let (machine, action) = machine.step(Event::Copied { error: None });
    match &action {
        Action::QueryLength { path } => assert!(path.ends_with("/boot/initfs")),
        other => panic!("expected the copied-length query, got {:?}", other),
    }
    // The destination is shorter than the source: the run fails loudly,
    // naming both byte lengths.
    let (machine, action) = machine.step(Event::Length { len: Some(999) });
    assert_eq!(machine.phase, Phase::Failed);
    match action {
        Action::Abort { error: InstallError::Verify { what, detail } } => {
            assert_eq!(what, "initial filesystem copy length");
            assert!(detail.contains("expected 1000 bytes"));
            assert!(detail.contains("found 999 bytes"));
        }
        other => panic!("expected a copy-length failure, got {:?}", other),
    }
}

#[test]
fn identical_initial_filesystem_copy_passes() {
    let d = disk("/dev/sdX");
    let config = InstallationConfig { efi_size_mb: 512, filesystem_type: FilesystemType::Ext4 };
    let (machine, _action) = run_until(&d, &config, "", |a| {
        matches!(a, Action::QueryLength { path } if path.ends_with(".img"))
    });
    let (machine, _a) = machine.step(Event::Length { len: Some(1000) });
    let (machine, _a) = machine.step(Event::Copied { error: None });
    let (machine, _a) = machine.step(Event::Length { len: Some(1000) });
    assert!(!matches!(machine.phase, Phase::Failed));
}

#[test]
fn formatter_without_marker_fails_pipeline_despite_zero_exit() {
    let d = disk("/dev/sdX");
    let config = InstallationConfig { efi_size_mb: 512, filesystem_type: FilesystemType::RedoxFS };
    // The simulated formatter exits zero but never prints the marker.
    let installer = DirectInstaller::new();
    let (mut machine, mut action) = installer.begin_install(&d, &config);
    let mut rec = Recorder::default();
    let mut last: Option<Action> = None;
    for _ in 0..300 {
        match respond(&action, &mut rec, "no marker here\n") {
            Some(event) => {
                let (next, a) = machine.step(event);
                machine = next;
                action = a;
            }
            None => {
                last = Some(action);
                break;
            }
        }
    }
    assert_eq!(machine.phase, Phase::Failed);
    match last {
        Some(Action::Abort { error: InstallError::Verify { what, .. } }) => {
            assert_eq!(what, "formatter success marker");
        }
        other => panic!("expected a marker failure, got {:?}", other),
    }
}

#[test]
fn launch_failure_aborts_with_launch_error() {
    let d = disk("/dev/sdX");
    let config = InstallationConfig { efi_size_mb: 512, filesystem_type: FilesystemType::Ext4 };
    let (machine, _action) = run_until(&d, &config, "", |a| {
        matches!(a, Action::RunTool { tool }
            if tool.program == "parted" && tool.args.iter().any(|x| x == "mklabel"))
    });
    let (machine, action) = machine.step(Event::Tool {
        outcome: ToolOutcome::LaunchFailed { detail: "no such program".to_string() },
    });
    assert_eq!(machine.phase, Phase::Failed);
    match action {
        Action::Abort { error: InstallError::Launch { tool, detail } } => {
            assert_eq!(tool, "parted");
            assert_eq!(detail, "no such program");
        }
        other => panic!("expected a launch failure, got {:?}", other),
    }
}

#[test]
fn missing_partition_nodes_time_out() {
    let d = disk("/dev/sdX");
    let config = InstallationConfig { efi_size_mb: 512, filesystem_type: FilesystemType::Ext4 };
    let (machine, _action) = run_until(&d, &config, "", |a| {
        matches!(a, Action::CheckPath { path } if path.ends_with("sdX1"))
    });
    // Neither partition device node becomes observable in the settle window.
    let (machine, _a) = machine.step(Event::PathChecked { exists: false });
    let (machine, action) = machine.step(Event::PathChecked { exists: false });
    assert_eq!(machine.phase, Phase::Failed);
    match action {
        Action::Abort { error: InstallError::Timeout { what } } => {
            assert_eq!(what, "partition device nodes");
        }
        other => panic!("expected a settle-window timeout, got {:?}", other),
    }
}

#[test]
fn mount_dir_failure_aborts_with_fs_error() {
    let d = disk("/dev/sdX");
    let config = InstallationConfig { efi_size_mb: 512, filesystem_type: FilesystemType::Ext4 };
    let (machine, _action) =
        run_until(&d, &config, "", |a| matches!(a, Action::EnsureDirs { .. }));
    let (machine, action) =
        machine.step(Event::FsDone { error: Some("disk full".to_string()) });
    assert_eq!(machine.phase, Phase::Failed);
    match action {
        Action::Abort { error: InstallError::Fs { detail, .. } } => {
            assert_eq!(detail, "disk full");
        }
        other => panic!("expected a filesystem failure, got {:?}", other),
    }
}

/// Answer `PathChecked { exists: false }` until the run aborts, and return
/// the abort.
fn exhaust_path_checks(mut machine: InstallPipeline, mut action: Action) -> (InstallPipeline, Action) {
    for _ in 0..20 {
        match &action {
            Action::CheckPath { .. } => {
                let (next, a) = machine.step(Event::PathChecked { exists: false });
                machine = next;
                action = a;
            }
            _ => return (machine, action),
        }
    }
    panic!("the path checks did not end within the step budget");
}

#[test]
fn missing_kernel_error_lists_candidates_searched() {
    let d = disk("/dev/sdX");
    let config = InstallationConfig { efi_size_mb: 512, filesystem_type: FilesystemType::Ext4 };
    let (machine, action) = run_until(&d, &config, "", |a| {
        matches!(a, Action::CheckPath { path } if path.ends_with("/kernel"))
    });
    let (machine, action) = exhaust_path_checks(machine, action);
    assert_eq!(machine.phase, Phase::Failed);
    match action {
        Action::Abort { error: InstallError::Verify { what, detail } } => {
            assert_eq!(what, "kernel image");
            assert!(detail.starts_with("searched: "));
            assert!(detail.contains("cookbook/recipes/core/kernel/target/x86_64-unknown-redox/build/kernel"));
            assert!(detail.contains("build/x86_64/desktop/harddrive/kernel"));
        }
        other => panic!("expected a kernel-not-found failure, got {:?}", other),
    }
}

#[test]
fn missing_bootloader_error_lists_candidates_searched() {
    let d = disk("/dev/sdX");
    let config = InstallationConfig { efi_size_mb: 512, filesystem_type: FilesystemType::Ext4 };
    let (machine, action) = run_until(&d, &config, "", |a| {
        matches!(a, Action::CheckPath { path } if path.ends_with(".efi"))
    });
    let (machine, action) = exhaust_path_checks(machine, action);
    assert_eq!(machine.phase, Phase::Failed);
    match action {
        Action::Abort { error: InstallError::Verify { what, detail } } => {
            assert_eq!(what, "bootloader image");
            assert!(detail.starts_with("searched: "));
            assert!(detail.contains("build/x86_64/desktop/bootloader-live.efi"));
            assert!(detail.contains("build/bootloader.efi"));
        }
        other => panic!("expected a bootloader-not-found failure, got {:?}", other),
    }
}

#[test]
fn missing_formatter_fails_fast_with_build_hint() {
    let d = disk("/dev/sdX");
    let config = InstallationConfig { efi_size_mb: 512, filesystem_type: FilesystemType::RedoxFS };
    let (machine, _action) = run_until(&d, &config, "", |a| {
        matches!(a, Action::CheckPath { path } if path.ends_with("redoxfs-mkfs"))
    });
    let (machine, action) = machine.step(Event::PathChecked { exists: false });
    assert_eq!(machine.phase, Phase::Failed);
    match action {
        Action::Abort { error: InstallError::Verify { what, detail } } => {
            assert_eq!(what, "custom filesystem formatter");
            assert!(detail.contains("redoxfs-mkfs"));
            assert!(detail.contains("cargo build --release"));
        }
        other => panic!("expected a missing-formatter failure, got {:?}", other),
    }
}
