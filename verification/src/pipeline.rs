//! The provisioning pipeline as a verified state machine. The machine never
//! touches the disk itself: each step emits an [`Action`] for an unverified
//! driver loop to perform, and consumes the [`Event`] the driver observed.
//! Every decision — what to run, in which order, what counts as failure,
//! when to fall back — is made here, under contract.

use vstd::prelude::*;
use vstd::string::*;
use crate::errors::InstallError;
use crate::DiskInfo;

verus! {

/// An external program invocation: program name and argument list.
#[derive(Clone, Debug)]
pub struct Tool {
    pub program: String,
    pub args: Vec<String>,
}

/// `t` runs `program` with exactly `args`.
pub open spec fn tool_is(t: Tool, program: Seq<char>, args: Seq<Seq<char>>) -> bool {
    t.program@ == program && t.args.deep_view() == args
}

/// What the driver observed of one synchronous tool run.
#[derive(Clone, Debug)]
pub enum ToolOutcome {
    /// The program could not be started.
    LaunchFailed { detail: String },
    /// The program ran to completion.
    Ran { exit_ok: bool, stdout: String, stderr: String },
}

/// A planned symbolic link: remove whatever sits at `link`, then link it
/// to `target`.
#[derive(Clone, Debug)]
pub struct SymlinkPlan {
    pub target: String,
    pub link: String,
}

/// A planned file write.
#[derive(Clone, Debug)]
pub struct FilePlan {
    pub path: String,
    pub contents: String,
}

/// A planned copy of the regular files of one staged source directory into
/// one destination directory.
#[derive(Clone, Debug)]
pub struct CopyMapping {
    pub source_dir: String,
    pub dest_dir: String,
}

/// The view of a symlink plan.
pub open spec fn link_view(p: SymlinkPlan) -> (Seq<char>, Seq<char>) {
    (p.target@, p.link@)
}

/// The view of a file plan.
pub open spec fn file_view(p: FilePlan) -> (Seq<char>, Seq<char>) {
    (p.path@, p.contents@)
}

/// The view of a copy mapping.
pub open spec fn mapping_view(p: CopyMapping) -> (Seq<char>, Seq<char>) {
    (p.source_dir@, p.dest_dir@)
}

/// What the driver loop must do next. Exactly one event answers each
/// action; `Done` and `Abort` end the run.
#[derive(Clone, Debug)]
pub enum Action {
    /// Run synchronously, capture output; failure matters. Answer: `Tool`.
    RunTool { tool: Tool },
    /// Run synchronously; the outcome is noted but never fatal.
    /// Answer: `Tool`.
    RunToolBestEffort { tool: Tool },
    /// Run each in order; outcomes are ignored. Answer: `BatchDone`.
    RunBatchBestEffort { tools: Vec<Tool> },
    /// Report whether the path exists. Answer: `PathChecked`.
    CheckPath { path: String },
    /// Wait out a settle window. Answer: `Slept`.
    Sleep { seconds: u64 },
    /// Read a text file. Answer: `FileRead`.
    ReadFile { path: String },
    /// Create each directory and its parents. Answer: `FsDone`.
    EnsureDirs { paths: Vec<String> },
    /// Replace each link path with a symbolic link. Answer: `FsDone`.
    ReplaceSymlinks { links: Vec<SymlinkPlan> },
    /// Write each file. Answer: `FsDone`.
    WriteFiles { files: Vec<FilePlan> },
    /// Copy one file. Answer: `Copied`.
    CopyFile { source: String, dest: String },
    /// Report a file's byte length. Answer: `Length`.
    QueryLength { path: String },
    /// Start a long-lived background process. Answer: `Spawned`.
    SpawnDriver { tool: Tool },
    /// Create and remove a probe directory inside `dir`. Answer: `FsDone`.
    ProbeWrite { dir: String },
    /// Remove each empty directory, best-effort. Answer: `FsDone`.
    RemoveDirs { paths: Vec<String> },
    /// For each mapping whose source directory exists, copy its regular
    /// files into the destination directory. Answer: `StageCopied`.
    CopyStage { mappings: Vec<CopyMapping> },
    /// The pipeline finished; nothing more to do.
    Done,
    /// The pipeline failed; nothing more to do.
    Abort { error: InstallError },
}

/// What the driver observed while performing the last action.
#[derive(Clone, Debug)]
pub enum Event {
    Tool { outcome: ToolOutcome },
    BatchDone,
    PathChecked { exists: bool },
    Slept,
    FileRead { text: Option<String> },
    FsDone { error: Option<String> },
    Copied { error: Option<String> },
    Length { len: Option<u64> },
    Spawned { ok: bool, detail: String },
    StageCopied { count: u64, error: Option<String> },
}

/// How the root partition is currently mounted.
#[derive(Clone, Copy, Debug, PartialEq, Eq, Structural)]
pub enum RootMountKind {
    Unmounted,
    MountedDirect,
    MountedViaDriver,
}

fn sv(s: &str) -> (r: String)
    ensures
        r@ == s@,
{
    String::from_str(s)
}

// ---------------------------------------------------------------------------
// Tool builders. Each pins the exact program and argument list.
// ---------------------------------------------------------------------------

fn tool_plain(program: &str) -> (t: Tool)
    ensures
        tool_is(t, program@, Seq::empty()),
{
    let t = Tool { program: sv(program), args: Vec::new() };
    proof {
        assert(t.args.deep_view() =~~= Seq::<Seq<char>>::empty());
    }
    t
}

fn tool_one_arg(program: &str, a0: &String) -> (t: Tool)
    ensures
        tool_is(t, program@, seq![a0@]),
{
    let mut args: Vec<String> = Vec::new();
    args.push(a0.clone());
    let t = Tool { program: sv(program), args };
    proof {
        assert(t.args.deep_view() =~~= seq![a0@]);
    }
    t
}

fn tool_two_args(program: &str, a0: &str, a1: &String) -> (t: Tool)
    ensures
        tool_is(t, program@, seq![a0@, a1@]),
{
    let mut args: Vec<String> = Vec::new();
    args.push(sv(a0));
    args.push(a1.clone());
    let t = Tool { program: sv(program), args };
    proof {
        assert(t.args.deep_view() =~~= seq![a0@, a1@]);
    }
    t
}

fn tool_parted_mklabel(disk: &String) -> (t: Tool)
    ensures
        tool_is(t, "parted"@, seq!["-s"@, disk@, "mklabel"@, "gpt"@]),
{
    let mut args: Vec<String> = Vec::new();
    args.push(sv("-s"));
    args.push(disk.clone());
    args.push(sv("mklabel"));
    args.push(sv("gpt"));
    let t = Tool { program: sv("parted"), args };
    proof {
        assert(t.args.deep_view() =~~= seq!["-s"@, disk@, "mklabel"@, "gpt"@]);
    }
    t
}

/// The parted end position of the EFI partition, `<megabytes>MiB`.
pub open spec fn efi_end_spec(efi_size_mb: u64) -> Seq<char> {
    crate::text::dec_of(efi_size_mb as nat) + "MiB"@
}

fn efi_end_text(efi_size_mb: u64) -> (r: String)
    ensures
        r@ == efi_end_spec(efi_size_mb),
{
    crate::text::u64_to_dec(efi_size_mb).concat("MiB")
}

fn tool_parted_mkpart_efi(disk: &String, efi_size_mb: u64) -> (t: Tool)
    ensures
        tool_is(
            t,
            "parted"@,
            seq![
                "-s"@,
                disk@,
                "mkpart"@,
                "primary"@,
                "fat32"@,
                "1MiB"@,
                efi_end_spec(efi_size_mb),
            ],
        ),
{
    let mut args: Vec<String> = Vec::new();
    args.push(sv("-s"));
    args.push(disk.clone());
    args.push(sv("mkpart"));
    args.push(sv("primary"));
    args.push(sv("fat32"));
    args.push(sv("1MiB"));
    args.push(efi_end_text(efi_size_mb));
    let t = Tool { program: sv("parted"), args };
    proof {
        assert(t.args.deep_view() =~~= seq![
            "-s"@,
            disk@,
            "mkpart"@,
            "primary"@,
            "fat32"@,
            "1MiB"@,
            efi_end_spec(efi_size_mb),
        ]);
    }
    t
}

fn tool_parted_set_esp(disk: &String) -> (t: Tool)
    ensures
        tool_is(t, "parted"@, seq!["-s"@, disk@, "set"@, "1"@, "esp"@, "on"@]),
{
    let mut args: Vec<String> = Vec::new();
    args.push(sv("-s"));
    args.push(disk.clone());
    args.push(sv("set"));
    args.push(sv("1"));
    args.push(sv("esp"));
    args.push(sv("on"));
    let t = Tool { program: sv("parted"), args };
    proof {
        assert(t.args.deep_view() =~~= seq!["-s"@, disk@, "set"@, "1"@, "esp"@, "on"@]);
    }
    t
}

fn tool_parted_mkpart_root(disk: &String, efi_size_mb: u64) -> (t: Tool)
    ensures
        tool_is(
            t,
            "parted"@,
            seq!["-s"@, disk@, "mkpart"@, "primary"@, efi_end_spec(efi_size_mb), "100%"@],
        ),
{
    let mut args: Vec<String> = Vec::new();
    args.push(sv("-s"));
    args.push(disk.clone());
    args.push(sv("mkpart"));
    args.push(sv("primary"));
    args.push(efi_end_text(efi_size_mb));
    args.push(sv("100%"));
    let t = Tool { program: sv("parted"), args };
    proof {
        assert(t.args.deep_view() =~~= seq![
            "-s"@,
            disk@,
            "mkpart"@,
            "primary"@,
            efi_end_spec(efi_size_mb),
            "100%"@,
        ]);
    }
    t
}

fn tool_mkfs_vfat(efi_partition: &String) -> (t: Tool)
    ensures
        tool_is(t, "mkfs.vfat"@, seq!["-F"@, "32"@, "-n"@, "REDOX_EFI"@, efi_partition@]),
{
    let mut args: Vec<String> = Vec::new();
    args.push(sv("-F"));
    args.push(sv("32"));
    args.push(sv("-n"));
    args.push(sv("REDOX_EFI"));
    args.push(efi_partition.clone());
    let t = Tool { program: sv("mkfs.vfat"), args };
    proof {
        assert(t.args.deep_view() =~~= seq!["-F"@, "32"@, "-n"@, "REDOX_EFI"@, efi_partition@]);
    }
    t
}

fn tool_mkfs_ext4(root_partition: &String) -> (t: Tool)
    ensures
        tool_is(t, "mkfs.ext4"@, seq!["-F"@, "-L"@, "REDOX_ROOT"@, root_partition@]),
{
    let mut args: Vec<String> = Vec::new();
    args.push(sv("-F"));
    args.push(sv("-L"));
    args.push(sv("REDOX_ROOT"));
    args.push(root_partition.clone());
    let t = Tool { program: sv("mkfs.ext4"), args };
    proof {
        assert(t.args.deep_view() =~~= seq!["-F"@, "-L"@, "REDOX_ROOT"@, root_partition@]);
    }
    t
}

fn tool_dd_zero(root_partition: &String) -> (t: Tool)
    ensures
        tool_is(
            t,
            "dd"@,
            seq![
                "if=/dev/zero"@,
                "of="@ + root_partition@,
                "bs=1M"@,
                "count=10"@,
                "conv=notrunc"@,
            ],
        ),
{
    let mut args: Vec<String> = Vec::new();
    args.push(sv("if=/dev/zero"));
    args.push(String::from_str("of=").concat(root_partition.as_str()));
    args.push(sv("bs=1M"));
    args.push(sv("count=10"));
    args.push(sv("conv=notrunc"));
    let t = Tool { program: sv("dd"), args };
    proof {
        assert(t.args.deep_view() =~~= seq![
            "if=/dev/zero"@,
            "of="@ + root_partition@,
            "bs=1M"@,
            "count=10"@,
            "conv=notrunc"@,
        ]);
    }
    t
}

fn tool_mount_auto(part: &String, mp: &String) -> (t: Tool)
    ensures
        tool_is(t, "mount"@, seq!["-t"@, "auto"@, part@, mp@]),
{
    let mut args: Vec<String> = Vec::new();
    args.push(sv("-t"));
    args.push(sv("auto"));
    args.push(part.clone());
    args.push(mp.clone());
    let t = Tool { program: sv("mount"), args };
    proof {
        assert(t.args.deep_view() =~~= seq!["-t"@, "auto"@, part@, mp@]);
    }
    t
}

fn tool_pair(program: &str, a0: &String, a1: &String) -> (t: Tool)
    ensures
        tool_is(t, program@, seq![a0@, a1@]),
{
    let mut args: Vec<String> = Vec::new();
    args.push(a0.clone());
    args.push(a1.clone());
    let t = Tool { program: sv(program), args };
    proof {
        assert(t.args.deep_view() =~~= seq![a0@, a1@]);
    }
    t
}

fn tool_efibootmgr(disk_base: &String) -> (t: Tool)
    ensures
        tool_is(
            t,
            "efibootmgr"@,
            seq![
                "--create"@,
                "--disk"@,
                disk_base@,
                "--part"@,
                "1"@,
                "--label"@,
                "Redox OS"@,
                "--loader"@,
                "\\EFI\\redox\\redox-bootloader.efi"@,
            ],
        ),
{
    let mut args: Vec<String> = Vec::new();
    args.push(sv("--create"));
    args.push(sv("--disk"));
    args.push(disk_base.clone());
    args.push(sv("--part"));
    args.push(sv("1"));
    args.push(sv("--label"));
    args.push(sv("Redox OS"));
    args.push(sv("--loader"));
    args.push(sv("\\EFI\\redox\\redox-bootloader.efi"));
    let t = Tool { program: sv("efibootmgr"), args };
    proof {
        assert(t.args.deep_view() =~~= seq![
            "--create"@,
            "--disk"@,
            disk_base@,
            "--part"@,
            "1"@,
            "--label"@,
            "Redox OS"@,
            "--loader"@,
            "\\EFI\\redox\\redox-bootloader.efi"@,
        ]);
    }
    t
}

// ---------------------------------------------------------------------------
// Fixed paths, candidate lists, and populate-stage plans.
// ---------------------------------------------------------------------------

/// Prioritized candidate locations of the built bootloader image.
pub open spec fn bootloader_candidates_spec() -> Seq<Seq<char>> {
    seq![
        "cookbook/recipes/core/bootloader/target/x86_64-unknown-redox/build/bootloader.efi"@,
        "cookbook/recipes/core/bootloader/target/x86_64-unknown-redox/stage/boot/bootloader.efi"@,
        "build/x86_64/desktop/bootloader-live.efi"@,
        "build/x86_64/desktop/bootloader.efi"@,
        "cookbook/recipes/core/bootloader/source/build/bootloader_x86_64-unknown-uefi.efi"@,
        "build/bootloader.efi"@,
    ]
}

fn bootloader_candidates() -> (r: Vec<String>)
    ensures
        r.deep_view() == bootloader_candidates_spec(),
{
    let mut r: Vec<String> = Vec::new();
    r.push(sv("cookbook/recipes/core/bootloader/target/x86_64-unknown-redox/build/bootloader.efi"));
    r.push(
        sv("cookbook/recipes/core/bootloader/target/x86_64-unknown-redox/stage/boot/bootloader.efi"),
    );
    r.push(sv("build/x86_64/desktop/bootloader-live.efi"));
    r.push(sv("build/x86_64/desktop/bootloader.efi"));
    r.push(sv("cookbook/recipes/core/bootloader/source/build/bootloader_x86_64-unknown-uefi.efi"));
    r.push(sv("build/bootloader.efi"));
    proof {
        assert(r.deep_view() =~~= bootloader_candidates_spec());
    }
    r
}

/// Prioritized candidate locations of the built kernel.
pub open spec fn kernel_candidates_spec() -> Seq<Seq<char>> {
    seq![
        "cookbook/recipes/core/kernel/target/x86_64-unknown-redox/build/kernel"@,
        "cookbook/recipes/core/kernel/target/x86_64-unknown-redox/stage/boot/kernel"@,
        "build/x86_64/desktop/kernel"@,
        "build/x86_64/desktop/harddrive/kernel"@,
        "cookbook/recipes/core/kernel/source/target/x86_64-unknown-redox/release/kernel"@,
    ]
}

fn kernel_candidates() -> (r: Vec<String>)
    ensures
        r.deep_view() == kernel_candidates_spec(),
{
    let mut r: Vec<String> = Vec::new();
    r.push(sv("cookbook/recipes/core/kernel/target/x86_64-unknown-redox/build/kernel"));
    r.push(sv("cookbook/recipes/core/kernel/target/x86_64-unknown-redox/stage/boot/kernel"));
    r.push(sv("build/x86_64/desktop/kernel"));
    r.push(sv("build/x86_64/desktop/harddrive/kernel"));
    r.push(sv("cookbook/recipes/core/kernel/source/target/x86_64-unknown-redox/release/kernel"));
    proof {
        assert(r.deep_view() =~~= kernel_candidates_spec());
    }
    r
}

/// Prioritized candidate locations of the initial-filesystem image.
pub open spec fn initfs_candidates_spec() -> Seq<Seq<char>> {
    seq![
        "cookbook/recipes/core/base-initfs/target/x86_64-unknown-redox/build/initfs.img"@,
        "build/x86_64/desktop/initfs.img"@,
        "build/x86_64/desktop/harddrive/initfs.img"@,
    ]
}

fn initfs_candidates() -> (r: Vec<String>)
    ensures
        r.deep_view() == initfs_candidates_spec(),
{
    let mut r: Vec<String> = Vec::new();
    r.push(sv("cookbook/recipes/core/base-initfs/target/x86_64-unknown-redox/build/initfs.img"));
    r.push(sv("build/x86_64/desktop/initfs.img"));
    r.push(sv("build/x86_64/desktop/harddrive/initfs.img"));
    proof {
        assert(r.deep_view() =~~= initfs_candidates_spec());
    }
    r
}

/// The staged application components, in install order. The
/// filesystem-and-driver component precedes the general driver component so
/// the former's files win any collision.
pub open spec fn recipes_spec() -> Seq<Seq<char>> {
    seq![
        "uutils"@,
        "base"@,
        "userutils"@,
        "coreutils"@,
        "drivers-initfs"@,
        "drivers"@,
        "ion"@,
        "extrautils"@,
        "netutils"@,
    ]
}

fn recipes() -> (r: Vec<String>)
    ensures
        r.deep_view() == recipes_spec(),
{
    let mut r: Vec<String> = Vec::new();
    r.push(sv("uutils"));
    r.push(sv("base"));
    r.push(sv("userutils"));
    r.push(sv("coreutils"));
    r.push(sv("drivers-initfs"));
    r.push(sv("drivers"));
    r.push(sv("ion"));
    r.push(sv("extrautils"));
    r.push(sv("netutils"));
    proof {
        assert(r.deep_view() =~~= recipes_spec());
    }
    r
}

/// The staged build-output directory of one component.
pub open spec fn stage_path_spec(recipe: Seq<char>) -> Seq<char> {
    "cookbook/recipes/core/"@ + recipe + "/target/x86_64-unknown-redox/stage"@
}

fn stage_path(recipe: &String) -> (r: String)
    ensures
        r@ == stage_path_spec(recipe@),
{
    String::from_str("cookbook/recipes/core/").concat(recipe.as_str()).concat(
        "/target/x86_64-unknown-redox/stage",
    )
}

/// The subdirectory-to-destination mappings of one staged component.
pub open spec fn stage_mappings_spec(stage: Seq<char>, root: Seq<char>) -> Seq<
    (Seq<char>, Seq<char>),
> {
    seq![
        (stage + "/bin"@, root + "/bin"@),
        (stage + "/sbin"@, root + "/sbin"@),
        (stage + "/usr/bin"@, root + "/usr/bin"@),
        (stage + "/usr/sbin"@, root + "/usr/sbin"@),
        (stage + "/usr/lib"@, root + "/usr/lib"@),
        (stage + "/etc"@, root + "/etc"@),
    ]
}

fn stage_mappings(stage: &String, root: &String) -> (r: Vec<CopyMapping>)
    ensures
        r@.map_values(|m: CopyMapping| mapping_view(m)) == stage_mappings_spec(stage@, root@),
{
    let mut r: Vec<CopyMapping> = Vec::new();
    r.push(
        CopyMapping {
            source_dir: stage.clone().concat("/bin"),
            dest_dir: root.clone().concat("/bin"),
        },
    );
    r.push(
        CopyMapping {
            source_dir: stage.clone().concat("/sbin"),
            dest_dir: root.clone().concat("/sbin"),
        },
    );
    r.push(
        CopyMapping {
            source_dir: stage.clone().concat("/usr/bin"),
            dest_dir: root.clone().concat("/usr/bin"),
        },
    );
    r.push(
        CopyMapping {
            source_dir: stage.clone().concat("/usr/sbin"),
            dest_dir: root.clone().concat("/usr/sbin"),
        },
    );
    r.push(
        CopyMapping {
            source_dir: stage.clone().concat("/usr/lib"),
            dest_dir: root.clone().concat("/usr/lib"),
        },
    );
    r.push(
        CopyMapping {
            source_dir: stage.clone().concat("/etc"),
            dest_dir: root.clone().concat("/etc"),
        },
    );
    proof {
        assert(r@.map_values(|m: CopyMapping| mapping_view(m)) =~~= stage_mappings_spec(
            stage@,
            root@,
        ));
    }
    r
}

/// The fixed directory tree created on the mounted root.
pub open spec fn tree_dirs_spec(root: Seq<char>) -> Seq<Seq<char>> {
    seq![
        root + "/boot"@,
        root + "/usr"@,
        root + "/usr/bin"@,
        root + "/usr/lib"@,
        root + "/usr/libexec"@,
        root + "/usr/share"@,
        root + "/usr/include"@,
        root + "/etc"@,
        root + "/var"@,
        root + "/var/log"@,
        root + "/var/lib"@,
        root + "/var/lib/pkg"@,
        root + "/tmp"@,
        root + "/home"@,
        root + "/root"@,
        root + "/proc"@,
        root + "/sys"@,
        root + "/dev"@,
        root + "/mnt"@,
        root + "/opt"@,
        root + "/etc/pkg.d"@,
        root + "/usr/lib/init.d"@,
    ]
}

fn tree_dirs(root: &String) -> (r: Vec<String>)
    ensures
        r.deep_view() == tree_dirs_spec(root@),
{
    let mut r: Vec<String> = Vec::new();
    r.push(root.clone().concat("/boot"));
    r.push(root.clone().concat("/usr"));
    r.push(root.clone().concat("/usr/bin"));
    r.push(root.clone().concat("/usr/lib"));
    r.push(root.clone().concat("/usr/libexec"));
    r.push(root.clone().concat("/usr/share"));
    r.push(root.clone().concat("/usr/include"));
    r.push(root.clone().concat("/etc"));
    r.push(root.clone().concat("/var"));
    r.push(root.clone().concat("/var/log"));
    r.push(root.clone().concat("/var/lib"));
    r.push(root.clone().concat("/var/lib/pkg"));
    r.push(root.clone().concat("/tmp"));
    r.push(root.clone().concat("/home"));
    r.push(root.clone().concat("/root"));
    r.push(root.clone().concat("/proc"));
    r.push(root.clone().concat("/sys"));
    r.push(root.clone().concat("/dev"));
    r.push(root.clone().concat("/mnt"));
    r.push(root.clone().concat("/opt"));
    r.push(root.clone().concat("/etc/pkg.d"));
    r.push(root.clone().concat("/usr/lib/init.d"));
    proof {
        assert(r.deep_view() =~~= tree_dirs_spec(root@));
    }
    r
}

/// The merged-usr symbolic links, plus the OS-release link.
pub open spec fn tree_links_spec(root: Seq<char>) -> Seq<(Seq<char>, Seq<char>)> {
    seq![
        ("/usr/bin"@, root + "/bin"@),
        ("/usr/lib"@, root + "/lib"@),
        ("/usr/include"@, root + "/include"@),
        ("/usr/sbin"@, root + "/sbin"@),
        ("../usr/lib/os-release"@, root + "/etc/os-release"@),
    ]
}

fn tree_links(root: &String) -> (r: Vec<SymlinkPlan>)
    ensures
        r@.map_values(|p: SymlinkPlan| link_view(p)) == tree_links_spec(root@),
{
    let mut r: Vec<SymlinkPlan> = Vec::new();
    r.push(SymlinkPlan { target: sv("/usr/bin"), link: root.clone().concat("/bin") });
    r.push(SymlinkPlan { target: sv("/usr/lib"), link: root.clone().concat("/lib") });
    r.push(SymlinkPlan { target: sv("/usr/include"), link: root.clone().concat("/include") });
    r.push(SymlinkPlan { target: sv("/usr/sbin"), link: root.clone().concat("/sbin") });
    r.push(
        SymlinkPlan {
            target: sv("../usr/lib/os-release"),
            link: root.clone().concat("/etc/os-release"),
        },
    );
    proof {
        assert(r@.map_values(|p: SymlinkPlan| link_view(p)) =~~= tree_links_spec(root@));
    }
    r
}

/// The fixed configuration and marker files written on the mounted root.
pub open spec fn base_files_spec(root: Seq<char>) -> Seq<(Seq<char>, Seq<char>)> {
    seq![
        (root + "/etc/hostname"@, "redox"@),
        (root + "/usr/lib/os-release"@, os_release_spec()),
        (root + "/etc/pkg.d/50_redox"@, "https://static.redox-os.org/pkg"@),
        (root + "/usr/lib/init.d/00_base"@, init_base_spec()),
        (root + "/usr/lib/init.d/00_drivers"@, init_drivers_spec()),
        (root + "/boot/.redox_boot"@, "Redox OS Boot Directory\nCreated by installer\n"@),
    ]
}

/// The OS-release metadata text.
pub open spec fn os_release_spec() -> Seq<char> {
    "PRETTY_NAME=\"Redox OS 0.9.0\"\nNAME=\"Redox OS\"\nVERSION_ID=\"0.9.0\"\nVERSION=\"0.9.0\"\nID=\"redox-os\"\n\nHOME_URL=\"https://redox-os.org/\"\nDOCUMENTATION_URL=\"https://redox-os.org/docs/\"\nSUPPORT_URL=\"https://redox-os.org/community/\"\n"@
}

/// The first init-stage script.
pub open spec fn init_base_spec() -> Seq<char> {
    "# clear and recreate tmpdir with 0o1777 permission\n/usr/bin/rm -r /tmp\n/usr/bin/mkdir -m a=rwxt /tmp\n\n/usr/bin/ipcd\n/usr/bin/ptyd\n/usr/bin/sudo --daemon\n"@
}

/// The second init-stage script.
pub open spec fn init_drivers_spec() -> Seq<char> {
    "/usr/bin/pcid-spawner /etc/pcid.d/\n"@
}

fn base_files(root: &String) -> (r: Vec<FilePlan>)
    ensures
        r@.map_values(|p: FilePlan| file_view(p)) == base_files_spec(root@),
{
    let mut r: Vec<FilePlan> = Vec::new();
    r.push(FilePlan { path: root.clone().concat("/etc/hostname"), contents: sv("redox") });
    r.push(
        FilePlan {
            path: root.clone().concat("/usr/lib/os-release"),
            contents: sv(
                "PRETTY_NAME=\"Redox OS 0.9.0\"\nNAME=\"Redox OS\"\nVERSION_ID=\"0.9.0\"\nVERSION=\"0.9.0\"\nID=\"redox-os\"\n\nHOME_URL=\"https://redox-os.org/\"\nDOCUMENTATION_URL=\"https://redox-os.org/docs/\"\nSUPPORT_URL=\"https://redox-os.org/community/\"\n",
            ),
        },
    );
    r.push(
        FilePlan {
            path: root.clone().concat("/etc/pkg.d/50_redox"),
            contents: sv("https://static.redox-os.org/pkg"),
        },
    );
    r.push(
        FilePlan {
            path: root.clone().concat("/usr/lib/init.d/00_base"),
            contents: sv(
                "# clear and recreate tmpdir with 0o1777 permission\n/usr/bin/rm -r /tmp\n/usr/bin/mkdir -m a=rwxt /tmp\n\n/usr/bin/ipcd\n/usr/bin/ptyd\n/usr/bin/sudo --daemon\n",
            ),
        },
    );
    r.push(
        FilePlan {
            path: root.clone().concat("/usr/lib/init.d/00_drivers"),
            contents: sv("/usr/bin/pcid-spawner /etc/pcid.d/\n"),
        },
    );
    r.push(
        FilePlan {
            path: root.clone().concat("/boot/.redox_boot"),
            contents: sv("Redox OS Boot Directory\nCreated by installer\n"),
        },
    );
    proof {
        assert(r@.map_values(|p: FilePlan| file_view(p)) =~~= base_files_spec(root@));
    }
    r
}

/// A short guide left on the EFI partition.
pub open spec fn readme_spec() -> Seq<char> {
    "Redox OS installation\n=====================\n\nThis disk holds a Redox OS installation.\n\n/boot/redox.conf      - boot configuration\n/EFI/BOOT/BOOTX64.EFI - UEFI bootloader\n\nEnable UEFI boot and select this disk to start the system.\n"@
}

/// The boot-configuration and EFI support files, for a given root
/// reference.
pub open spec fn config_files_spec(
    efi_mp: Seq<char>,
    root_mp: Seq<char>,
    root_ref: Seq<char>,
) -> Seq<(Seq<char>, Seq<char>)> {
    seq![
        (efi_mp + "/boot/redox.conf"@, crate::bootconf::boot_config_spec(root_ref)),
        (root_mp + "/boot/redox.conf"@, crate::bootconf::boot_config_spec(root_ref)),
        (root_mp + "/redox.conf"@, crate::bootconf::boot_config_spec(root_ref)),
        (efi_mp + "/startup.nsh"@, "\\EFI\\BOOT\\BOOTX64.EFI\n"@),
        (efi_mp + "/README.txt"@, readme_spec()),
    ]
}

fn config_files(efi_mp: &String, root_mp: &String, root_ref: &String) -> (r: Vec<FilePlan>)
    ensures
        r@.map_values(|p: FilePlan| file_view(p)) == config_files_spec(
            efi_mp@,
            root_mp@,
            root_ref@,
        ),
{
    let conf = crate::bootconf::boot_config_text(root_ref.as_str());
    let mut r: Vec<FilePlan> = Vec::new();
    r.push(FilePlan { path: efi_mp.clone().concat("/boot/redox.conf"), contents: conf.clone() });
    r.push(FilePlan { path: root_mp.clone().concat("/boot/redox.conf"), contents: conf.clone() });
    r.push(FilePlan { path: root_mp.clone().concat("/redox.conf"), contents: conf });
    r.push(
        FilePlan {
            path: efi_mp.clone().concat("/startup.nsh"),
            contents: sv("\\EFI\\BOOT\\BOOTX64.EFI\n"),
        },
    );
    r.push(
        FilePlan {
            path: efi_mp.clone().concat("/README.txt"),
            contents: sv(
                "Redox OS installation\n=====================\n\nThis disk holds a Redox OS installation.\n\n/boot/redox.conf      - boot configuration\n/EFI/BOOT/BOOTX64.EFI - UEFI bootloader\n\nEnable UEFI boot and select this disk to start the system.\n",
            ),
        },
    );
    proof {
        assert(r@.map_values(|p: FilePlan| file_view(p)) =~~= config_files_spec(
            efi_mp@,
            root_mp@,
            root_ref@,
        ));
    }
    r
}

// ---------------------------------------------------------------------------
// The pipeline machine.
// ---------------------------------------------------------------------------

/// Where the pipeline stands: each phase waits for exactly one event, the
/// answer to the action emitted on entering it.
#[derive(Clone, Copy, Debug, PartialEq, Eq, Structural)]
pub enum Phase {
    CheckingDiskPath,
    ReadingMountTable,
    ListingMounts,
    UnmountingExisting,
    SettlingAfterUnmount,
    WipingSignatures,
    SettlingAfterWipe,
    CreatingLabel,
    SettlingAfterLabel,
    CreatingEfiPartition,
    SettingEspFlag,
    SettlingAfterEsp,
    CreatingRootPartition,
    SyncingPartitions,
    SettlingAfterSync,
    RereadingTable,
    SettlingAfterReread,
    CheckingEfiNode,
    CheckingRootNode { efi_seen: bool },
    FormattingEfi,
    FormattingRootStandard,
    CheckingFormatterBinary,
    CheckingRootBeforeFormat,
    QueryingRootSize,
    WipingRootSignatures,
    ZeroingRootStart,
    SyncingBeforeFormat,
    SettlingBeforeFormat,
    FormattingRootCustom,
    PersistingIdentity,
    SyncingAfterFormat,
    SettlingAfterFormat,
    CreatingMountDirs,
    MountingEfi,
    MountingRootDirect,
    CheckingDriverBinary,
    SpawningDriver,
    SettlingAfterSpawn,
    CheckingMountpoint,
    ProbingRootWrite,
    CreatingEfiTree,
    FindingBootloader { index: usize },
    CopyingPrimaryLoader,
    CopyingVendorLoader,
    RegisteringBootEntry,
    CreatingTreeDirs,
    CreatingSymlinks,
    WritingBaseFiles,
    CheckingStage { index: usize },
    CopyingStage { index: usize },
    FindingKernel { index: usize },
    CopyingKernel,
    FindingInitfs { index: usize },
    QueryingInitfsLength,
    CopyingInitfs { expected: u64 },
    VerifyingInitfsLength { expected: u64 },
    CreatingEfiBootDir,
    WritingBootConfigs,
    SyncingBeforeUnmount,
    SettlingBeforeUnmount,
    UnmountingAll,
    CleaningMountDirs,
    Finished,
    Failed,
}

/// The mount-related phases and everything after them: once one of these is
/// reached, root formatting has fully succeeded.
pub open spec fn phase_past_format(p: Phase) -> bool {
    match p {
        Phase::CreatingMountDirs | Phase::MountingEfi | Phase::MountingRootDirect
            | Phase::CheckingDriverBinary | Phase::SpawningDriver | Phase::SettlingAfterSpawn
            | Phase::CheckingMountpoint | Phase::ProbingRootWrite | Phase::CreatingEfiTree
            | Phase::CopyingPrimaryLoader | Phase::CopyingVendorLoader
            | Phase::RegisteringBootEntry | Phase::CreatingTreeDirs | Phase::CreatingSymlinks
            | Phase::WritingBaseFiles | Phase::CopyingKernel | Phase::QueryingInitfsLength
            | Phase::CreatingEfiBootDir | Phase::WritingBootConfigs | Phase::SyncingBeforeUnmount
            | Phase::SettlingBeforeUnmount | Phase::UnmountingAll | Phase::CleaningMountDirs
            | Phase::Finished => true,
        Phase::FindingBootloader { .. } | Phase::CheckingStage { .. } | Phase::CopyingStage {
            ..
        } | Phase::FindingKernel { .. } | Phase::FindingInitfs { .. } | Phase::CopyingInitfs {
            ..
        } | Phase::VerifyingInitfsLength { .. } => true,
        _ => false,
    }
}

/// The phases of the custom-filesystem format protocol; they are entered
/// only when the custom filesystem kind was selected.
pub open spec fn phase_custom_format(p: Phase) -> bool {
    match p {
        Phase::CheckingFormatterBinary | Phase::CheckingRootBeforeFormat | Phase::QueryingRootSize
            | Phase::WipingRootSignatures | Phase::ZeroingRootStart | Phase::SyncingBeforeFormat
            | Phase::SettlingBeforeFormat | Phase::FormattingRootCustom
            | Phase::PersistingIdentity | Phase::SyncingAfterFormat
            | Phase::SettlingAfterFormat => true,
        _ => false,
    }
}

/// One provisioning run, stepped by the driver loop: emits actions, consumes
/// events, and aborts the remaining sequence on the first failure.
pub struct InstallPipeline {
    pub disk_name: String,
    pub efi_size_mb: u64,
    pub filesystem_type: crate::FilesystemType,
    pub efi_mount_point: String,
    pub root_mount_point: String,
    pub efi_partition: String,
    pub root_partition: String,
    pub phase: Phase,
    pub volume_identity: Option<crate::format::VolumeIdentity>,
    pub direct_mount_error: Option<String>,
    pub loader_source: Option<String>,
    pub initfs_source: Option<String>,
    pub efi_mounted: bool,
    pub root_mount: RootMountKind,
    pub files_installed: u64,
    pub failure: Option<InstallError>,
}

impl InstallPipeline {
    /// Structural soundness of a run: the partition paths agree with the
    /// planner, a failed run carries its failure (and only a failed run
    /// does), phase payload indices stay within their candidate lists, and
    /// once the custom-filesystem format has succeeded a volume identity is
    /// held.
    pub open spec fn wf(self) -> bool {
        &&& self.efi_partition@ == crate::layout::efi_partition_spec(self.disk_name@)
        &&& self.root_partition@ == crate::layout::root_partition_spec(self.disk_name@)
        &&& (self.phase is Failed <==> self.failure is Some)
        &&& (self.phase matches Phase::FindingBootloader { index } ==> index
            < bootloader_candidates_spec().len())
        &&& (self.phase matches Phase::FindingKernel { index } ==> index
            < kernel_candidates_spec().len())
        &&& (self.phase matches Phase::FindingInitfs { index } ==> index
            < initfs_candidates_spec().len())
        &&& (self.phase matches Phase::CheckingStage { index } ==> index < recipes_spec().len())
        &&& (self.phase matches Phase::CopyingStage { index } ==> index < recipes_spec().len())
        &&& (self.phase is CheckingDriverBinary ==> self.direct_mount_error is Some)
        &&& (self.phase is CopyingPrimaryLoader ==> self.loader_source is Some)
        &&& (self.phase is QueryingInitfsLength ==> self.initfs_source is Some)
        &&& (phase_past_format(self.phase) && self.filesystem_type is RedoxFS
            ==> self.volume_identity is Some)
        &&& (self.filesystem_type is Ext4 ==> self.volume_identity is None)
        &&& (phase_custom_format(self.phase) ==> self.filesystem_type is RedoxFS)
        &&& (self.phase is FormattingRootStandard ==> self.filesystem_type is Ext4)
        &&& ((self.phase is PersistingIdentity || self.phase is SyncingAfterFormat
            || self.phase is SettlingAfterFormat) ==> self.volume_identity is Some)
    }

    /// The event kind each phase awaits.
    pub open spec fn expects(self, e: Event) -> bool {
        match self.phase {
            Phase::CheckingDiskPath => e is PathChecked,
            Phase::ReadingMountTable => e is FileRead,
            Phase::ListingMounts => e is Tool,
            Phase::UnmountingExisting => e is BatchDone,
            Phase::SettlingAfterUnmount => e is Slept,
            Phase::WipingSignatures => e is Tool,
            Phase::SettlingAfterWipe => e is Slept,
            Phase::CreatingLabel => e is Tool,
            Phase::SettlingAfterLabel => e is Slept,
            Phase::CreatingEfiPartition => e is Tool,
            Phase::SettingEspFlag => e is Tool,
            Phase::SettlingAfterEsp => e is Slept,
            Phase::CreatingRootPartition => e is Tool,
            Phase::SyncingPartitions => e is Tool,
            Phase::SettlingAfterSync => e is Slept,
            Phase::RereadingTable => e is Tool,
            Phase::SettlingAfterReread => e is Slept,
            Phase::CheckingEfiNode => e is PathChecked,
            Phase::CheckingRootNode { .. } => e is PathChecked,
            Phase::FormattingEfi => e is Tool,
            Phase::FormattingRootStandard => e is Tool,
            Phase::CheckingFormatterBinary => e is PathChecked,
            Phase::CheckingRootBeforeFormat => e is PathChecked,
            Phase::QueryingRootSize => e is Tool,
            Phase::WipingRootSignatures => e is Tool,
            Phase::ZeroingRootStart => e is Tool,
            Phase::SyncingBeforeFormat => e is Tool,
            Phase::SettlingBeforeFormat => e is Slept,
            Phase::FormattingRootCustom => e is Tool,
            Phase::PersistingIdentity => e is FsDone,
            Phase::SyncingAfterFormat => e is Tool,
            Phase::SettlingAfterFormat => e is Slept,
            Phase::CreatingMountDirs => e is FsDone,
            Phase::MountingEfi => e is Tool,
            Phase::MountingRootDirect => e is Tool,
            Phase::CheckingDriverBinary => e is PathChecked,
            Phase::SpawningDriver => e is Spawned,
            Phase::SettlingAfterSpawn => e is Slept,
            Phase::CheckingMountpoint => e is Tool,
            Phase::ProbingRootWrite => e is FsDone,
            Phase::CreatingEfiTree => e is FsDone,
            Phase::FindingBootloader { .. } => e is PathChecked,
            Phase::CopyingPrimaryLoader => e is Copied,
            Phase::CopyingVendorLoader => e is Copied,
            Phase::RegisteringBootEntry => e is Tool,
            Phase::CreatingTreeDirs => e is FsDone,
            Phase::CreatingSymlinks => e is FsDone,
            Phase::WritingBaseFiles => e is FsDone,
            Phase::CheckingStage { .. } => e is PathChecked,
            Phase::CopyingStage { .. } => e is StageCopied,
            Phase::FindingKernel { .. } => e is PathChecked,
            Phase::CopyingKernel => e is Copied,
            Phase::FindingInitfs { .. } => e is PathChecked,
            Phase::QueryingInitfsLength => e is Length,
            Phase::CopyingInitfs { .. } => e is Copied,
            Phase::VerifyingInitfsLength { .. } => e is Length,
            Phase::CreatingEfiBootDir => e is FsDone,
            Phase::WritingBootConfigs => e is FsDone,
            Phase::SyncingBeforeUnmount => e is Tool,
            Phase::SettlingBeforeUnmount => e is Slept,
            Phase::UnmountingAll => e is BatchDone,
            Phase::CleaningMountDirs => e is FsDone,
            Phase::Finished => true,
            Phase::Failed => true,
        }
    }
}

/// The identifying configuration of a run is never changed by a step.
pub open spec fn same_core(pre: InstallPipeline, m: InstallPipeline) -> bool {
    &&& m.disk_name == pre.disk_name
    &&& m.efi_size_mb == pre.efi_size_mb
    &&& m.filesystem_type == pre.filesystem_type
    &&& m.efi_mount_point == pre.efi_mount_point
    &&& m.root_mount_point == pre.root_mount_point
    &&& m.efi_partition == pre.efi_partition
    &&& m.root_partition == pre.root_partition
}

/// The progress fields a step leaves untouched unless it says otherwise.
pub open spec fn same_aux(pre: InstallPipeline, m: InstallPipeline) -> bool {
    &&& m.volume_identity == pre.volume_identity
    &&& m.direct_mount_error == pre.direct_mount_error
    &&& m.loader_source == pre.loader_source
    &&& m.initfs_source == pre.initfs_source
    &&& m.efi_mounted == pre.efi_mounted
    &&& m.root_mount == pre.root_mount
    &&& m.files_installed == pre.files_installed
}

/// The common shape of a step that advances without failing.
pub open spec fn advanced(pre: InstallPipeline, m: InstallPipeline, p: Phase) -> bool {
    same_core(pre, m) && same_aux(pre, m) && m.phase == p && m.failure is None
}

/// The common shape of a step that aborts the run: the machine fails, keeps
/// its state, and the abort action carries the recorded failure.
pub open spec fn failed(pre: InstallPipeline, m: InstallPipeline, a: Action) -> bool {
    &&& same_core(pre, m)
    &&& same_aux(pre, m)
    &&& m.phase is Failed
    &&& m.failure is Some
    &&& (a matches Action::Abort { error } && m.failure == Some(error))
}

/// The umount targets derived from mount-table text: the first field of
/// each line that mentions the disk's bare device name.
pub open spec fn unmount_targets(mount_text: Seq<char>, disk: Seq<char>) -> Seq<Seq<char>> {
    crate::disk_manager::unmount_selected(
        crate::text::lines_spec(mount_text),
        crate::text::strip_dev(disk),
    ).map_values(|l: Seq<char>| crate::text::split_ws_spec(l)[0])
}

/// The transition relation of the preparation phases: verify the disk
/// exists, read the mount table, list mounts, force-unmount anything from
/// this disk, and let the unmounts settle.
pub open spec fn prepare_rel(pre: InstallPipeline, e: Event, m: InstallPipeline, a: Action) -> bool {
    match pre.phase {
        Phase::CheckingDiskPath => match e {
            Event::PathChecked { exists } => if exists {
                advanced(pre, m, Phase::ReadingMountTable) && (a matches Action::ReadFile { path }
                    && path@ == "/proc/mounts"@)
            } else {
                failed(pre, m, a) && (m.failure matches Some(InstallError::Verify { what, detail })
                    && what@ == "disk path exists"@ && detail@ == pre.disk_name@)
            },
            _ => true,
        },
        Phase::ReadingMountTable => match e {
            Event::FileRead { text } => match text {
                Some(_) => advanced(pre, m, Phase::ListingMounts) && (a
                    matches Action::RunTool { tool } && tool_is(tool, "mount"@, Seq::empty())),
                None => failed(pre, m, a) && (m.failure matches Some(
                    InstallError::Fs { path, detail },
                ) && path@ == "/proc/mounts"@),
            },
            _ => true,
        },
        Phase::ListingMounts => match e {
            Event::Tool { outcome } => match outcome {
                ToolOutcome::LaunchFailed { detail } => failed(pre, m, a) && (m.failure matches Some(
                    InstallError::Launch { tool, detail: d },
                ) && tool@ == "mount"@ && d@ == detail@),
                ToolOutcome::Ran { exit_ok, stdout, stderr } => advanced(
                    pre,
                    m,
                    Phase::UnmountingExisting,
                ) && (a matches Action::RunBatchBestEffort { tools } && ({
                    let parts = unmount_targets(stdout@, pre.disk_name@);
                    tools@.len() == parts.len() && forall|i: int|
                        0 <= i < parts.len() ==> tool_is(tools@[i], "umount"@, seq!["-f"@, parts[i]])
                })),
            },
            _ => true,
        },
        Phase::UnmountingExisting => match e {
            Event::BatchDone => advanced(pre, m, Phase::SettlingAfterUnmount) && (a
                matches Action::Sleep { seconds } && seconds == 1),
            _ => true,
        },
        Phase::SettlingAfterUnmount => match e {
            Event::Slept => advanced(pre, m, Phase::WipingSignatures) && (a
                matches Action::RunToolBestEffort { tool } && tool_is(
                tool,
                "wipefs"@,
                seq!["-a"@, pre.disk_name@],
            )),
            _ => true,
        },
        _ => true,
    }
}

impl InstallPipeline {
    /// Step the preparation phases.
    pub fn step_prepare(self, event: Event) -> (r: (InstallPipeline, Action))
        requires
            self.wf(),
            self.expects(event),
            self.phase == Phase::CheckingDiskPath || self.phase == Phase::ReadingMountTable
                || self.phase == Phase::ListingMounts || self.phase == Phase::UnmountingExisting
                || self.phase == Phase::SettlingAfterUnmount,
        ensures
            r.0.wf(),
            prepare_rel(self, event, r.0, r.1),
    {
        let mut m = self;
        match m.phase {
            Phase::CheckingDiskPath => match &event {
                Event::PathChecked { exists } => {
                    if *exists {
                        m.phase = Phase::ReadingMountTable;
                        (m, Action::ReadFile { path: sv("/proc/mounts") })
                    } else {
                        let err = InstallError::Verify {
                            what: sv("disk path exists"),
                            detail: m.disk_name.clone(),
                        };
                        m.phase = Phase::Failed;
                        m.failure = Some(err.duplicate());
                        (m, Action::Abort { error: err })
                    }
                },
                _ => (m, Action::Done),
            },
            Phase::ReadingMountTable => match &event {
                Event::FileRead { text } => match text {
                    Some(_) => {
                        m.phase = Phase::ListingMounts;
                        (m, Action::RunTool { tool: tool_plain("mount") })
                    },
                    None => {
                        let err = InstallError::Fs {
                            path: sv("/proc/mounts"),
                            detail: sv("could not read the mount table"),
                        };
                        m.phase = Phase::Failed;
                        m.failure = Some(err.duplicate());
                        (m, Action::Abort { error: err })
                    },
                },
                _ => (m, Action::Done),
            },
            Phase::ListingMounts => match &event {
                Event::Tool { outcome } => match outcome {
                    ToolOutcome::LaunchFailed { detail } => {
                        let err = InstallError::Launch {
                            tool: sv("mount"),
                            detail: detail.clone(),
                        };
                        m.phase = Phase::Failed;
                        m.failure = Some(err.duplicate());
                        (m, Action::Abort { error: err })
                    },
                    ToolOutcome::Ran { stdout, .. } => {
                        let parts = crate::disk_manager::DiskManager::partitions_to_unmount(
                            stdout.as_str(),
                            m.disk_name.as_str(),
                        );
                        let ghost targets = unmount_targets(stdout@, m.disk_name@);
                        let mut tools: Vec<Tool> = Vec::new();
                        let mut i: usize = 0;
                        while i < parts.len()
                            invariant
                                parts@.len() == targets.len(),
                                forall|k: int|
                                    0 <= k < targets.len() ==> parts@[k]@ == targets[k],
                                i <= targets.len(),
                                tools@.len() == i,
                                forall|k: int|
                                    0 <= k < i ==> tool_is(
                                        tools@[k],
                                        "umount"@,
                                        seq!["-f"@, targets[k]],
                                    ),
                            decreases targets.len() - i,
                        {
                            tools.push(tool_two_args("umount", "-f", &parts[i]));
                            i += 1;
                        }
                        m.phase = Phase::UnmountingExisting;
                        (m, Action::RunBatchBestEffort { tools })
                    },
                },
                _ => (m, Action::Done),
            },
            Phase::UnmountingExisting => match &event {
                Event::BatchDone => {
                    m.phase = Phase::SettlingAfterUnmount;
                    (m, Action::Sleep { seconds: 1 })
                },
                _ => (m, Action::Done),
            },
            Phase::SettlingAfterUnmount => match &event {
                Event::Slept => {
                    m.phase = Phase::WipingSignatures;
                    let tool = tool_two_args("wipefs", "-a", &m.disk_name);
                    (m, Action::RunToolBestEffort { tool })
                },
                _ => (m, Action::Done),
            },
            _ => (m, Action::Done),
        }
    }
}

fn abort_with(m: InstallPipeline, err: InstallError) -> (r: (InstallPipeline, Action))
    ensures
        same_core(m, r.0),
        same_aux(m, r.0),
        r.0.phase is Failed,
        r.0.failure == Some(err),
        (r.1 matches Action::Abort { error } && error == err),
{
    let mut m2 = m;
    m2.phase = Phase::Failed;
    m2.failure = Some(err.duplicate());
    (m2, Action::Abort { error: err })
}

/// The transition relation of the partitioning phases: wipe, label, create
/// both partitions, flag the EFI system partition, re-read the table, and
/// verify within the settle window that both device nodes appeared.
pub open spec fn partition_rel(pre: InstallPipeline, e: Event, m: InstallPipeline, a: Action) -> bool {
    match pre.phase {
        Phase::WipingSignatures => match e {
            Event::Tool { .. } => advanced(pre, m, Phase::SettlingAfterWipe) && (a
                matches Action::Sleep { seconds } && seconds == 1),
            _ => true,
        },
        Phase::SettlingAfterWipe => match e {
            Event::Slept => advanced(pre, m, Phase::CreatingLabel) && (a
                matches Action::RunTool { tool } && tool_is(
                tool,
                "parted"@,
                seq!["-s"@, pre.disk_name@, "mklabel"@, "gpt"@],
            )),
            _ => true,
        },
        Phase::CreatingLabel => match e {
            Event::Tool { outcome } => match outcome {
                ToolOutcome::LaunchFailed { detail } => failed(pre, m, a) && (m.failure
                    matches Some(InstallError::Launch { tool, detail: d }) && tool@ == "parted"@
                    && d@ == detail@),
                ToolOutcome::Ran { exit_ok, stdout, stderr } => if exit_ok {
                    advanced(pre, m, Phase::SettlingAfterLabel) && (a
                        matches Action::Sleep { seconds } && seconds == 1)
                } else {
                    failed(pre, m, a) && (m.failure matches Some(
                        InstallError::ToolFailed { tool, detail },
                    ) && tool@ == "parted"@ && detail@ == stderr@)
                },
            },
            _ => true,
        },
        Phase::SettlingAfterLabel => match e {
            Event::Slept => advanced(pre, m, Phase::CreatingEfiPartition) && (a
                matches Action::RunTool { tool } && tool_is(
                tool,
                "parted"@,
                seq![
                    "-s"@,
                    pre.disk_name@,
                    "mkpart"@,
                    "primary"@,
                    "fat32"@,
                    "1MiB"@,
                    efi_end_spec(pre.efi_size_mb),
                ],
            )),
            _ => true,
        },
        Phase::CreatingEfiPartition => match e {
            Event::Tool { outcome } => match outcome {
                ToolOutcome::LaunchFailed { detail } => failed(pre, m, a) && (m.failure
                    matches Some(InstallError::Launch { tool, detail: d }) && tool@ == "parted"@
                    && d@ == detail@),
                ToolOutcome::Ran { exit_ok, stdout, stderr } => if exit_ok {
                    advanced(pre, m, Phase::SettingEspFlag) && (a matches Action::RunTool { tool }
                        && tool_is(
                        tool,
                        "parted"@,
                        seq!["-s"@, pre.disk_name@, "set"@, "1"@, "esp"@, "on"@],
                    ))
                } else {
                    failed(pre, m, a) && (m.failure matches Some(
                        InstallError::ToolFailed { tool, detail },
                    ) && tool@ == "parted"@ && detail@ == stderr@)
                },
            },
            _ => true,
        },
        Phase::SettingEspFlag => match e {
            Event::Tool { outcome } => match outcome {
                ToolOutcome::LaunchFailed { detail } => failed(pre, m, a) && (m.failure
                    matches Some(InstallError::Launch { tool, detail: d }) && tool@ == "parted"@
                    && d@ == detail@),
                ToolOutcome::Ran { exit_ok, stdout, stderr } => if exit_ok {
                    advanced(pre, m, Phase::SettlingAfterEsp) && (a
                        matches Action::Sleep { seconds } && seconds == 1)
                } else {
                    failed(pre, m, a) && (m.failure matches Some(
                        InstallError::ToolFailed { tool, detail },
                    ) && tool@ == "parted"@ && detail@ == stderr@)
                },
            },
            _ => true,
        },
        Phase::SettlingAfterEsp => match e {
            Event::Slept => advanced(pre, m, Phase::CreatingRootPartition) && (a
                matches Action::RunTool { tool } && tool_is(
                tool,
                "parted"@,
                seq![
                    "-s"@,
                    pre.disk_name@,
                    "mkpart"@,
                    "primary"@,
                    efi_end_spec(pre.efi_size_mb),
                    "100%"@,
                ],
            )),
            _ => true,
        },
        Phase::CreatingRootPartition => match e {
            Event::Tool { outcome } => match outcome {
                ToolOutcome::LaunchFailed { detail } => failed(pre, m, a) && (m.failure
                    matches Some(InstallError::Launch { tool, detail: d }) && tool@ == "parted"@
                    && d@ == detail@),
                ToolOutcome::Ran { exit_ok, stdout, stderr } => if exit_ok {
                    advanced(pre, m, Phase::SyncingPartitions) && (a
                        matches Action::RunToolBestEffort { tool } && tool_is(
                        tool,
                        "sync"@,
                        Seq::empty(),
                    ))
                } else {
                    failed(pre, m, a) && (m.failure matches Some(
                        InstallError::ToolFailed { tool, detail },
                    ) && tool@ == "parted"@ && detail@ == stderr@)
                },
            },
            _ => true,
        },
        Phase::SyncingPartitions => match e {
            Event::Tool { .. } => advanced(pre, m, Phase::SettlingAfterSync) && (a
                matches Action::Sleep { seconds } && seconds == 2),
            _ => true,
        },
        Phase::SettlingAfterSync => match e {
            Event::Slept => advanced(pre, m, Phase::RereadingTable) && (a
                matches Action::RunToolBestEffort { tool } && tool_is(
                tool,
                "partprobe"@,
                seq![pre.disk_name@],
            )),
            _ => true,
        },
        Phase::RereadingTable => match e {
            Event::Tool { .. } => advanced(pre, m, Phase::SettlingAfterReread) && (a
                matches Action::Sleep { seconds } && seconds == 2),
            _ => true,
        },
        Phase::SettlingAfterReread => match e {
            Event::Slept => advanced(pre, m, Phase::CheckingEfiNode) && (a
                matches Action::CheckPath { path } && path@ == pre.efi_partition@),
            _ => true,
        },
        Phase::CheckingEfiNode => match e {
            Event::PathChecked { exists } => advanced(
                pre,
                m,
                Phase::CheckingRootNode { efi_seen: exists },
            ) && (a matches Action::CheckPath { path } && path@ == pre.root_partition@),
            _ => true,
        },
        Phase::CheckingRootNode { efi_seen } => match e {
            Event::PathChecked { exists } => if efi_seen && exists {
                advanced(pre, m, Phase::FormattingEfi) && (a matches Action::RunTool { tool }
                    && tool_is(
                    tool,
                    "mkfs.vfat"@,
                    seq!["-F"@, "32"@, "-n"@, "REDOX_EFI"@, pre.efi_partition@],
                ))
            } else {
                failed(pre, m, a) && (m.failure matches Some(InstallError::Timeout { what })
                    && what@ == "partition device nodes"@)
            },
            _ => true,
        },
        _ => true,
    }
}

/// Whether `p` is one of the partitioning phases.
pub open spec fn phase_in_partition(p: Phase) -> bool {
    match p {
        Phase::WipingSignatures | Phase::SettlingAfterWipe | Phase::CreatingLabel
            | Phase::SettlingAfterLabel | Phase::CreatingEfiPartition | Phase::SettingEspFlag
            | Phase::SettlingAfterEsp | Phase::CreatingRootPartition | Phase::SyncingPartitions
            | Phase::SettlingAfterSync | Phase::RereadingTable | Phase::SettlingAfterReread
            | Phase::CheckingEfiNode | Phase::CheckingRootNode { .. } => true,
        _ => false,
    }
}

impl InstallPipeline {
    /// Step the partitioning phases.
    pub fn step_partition(self, event: Event) -> (r: (InstallPipeline, Action))
        requires
            self.wf(),
            self.expects(event),
            phase_in_partition(self.phase),
        ensures
            r.0.wf(),
            partition_rel(self, event, r.0, r.1),
    {
        let mut m = self;
        match m.phase {
            Phase::WipingSignatures => match &event {
                Event::Tool { .. } => {
                    m.phase = Phase::SettlingAfterWipe;
                    (m, Action::Sleep { seconds: 1 })
                },
                _ => (m, Action::Done),
            },
            Phase::SettlingAfterWipe => match &event {
                Event::Slept => {
                    m.phase = Phase::CreatingLabel;
                    let tool = tool_parted_mklabel(&m.disk_name);
                    (m, Action::RunTool { tool })
                },
                _ => (m, Action::Done),
            },
            Phase::CreatingLabel => match &event {
                Event::Tool { outcome } => match outcome {
                    ToolOutcome::LaunchFailed { detail } => {
                        let err = InstallError::Launch { tool: sv("parted"), detail: detail.clone() };
                        abort_with(m, err)
                    },
                    ToolOutcome::Ran { exit_ok, stderr, .. } => {
                        if *exit_ok {
                            m.phase = Phase::SettlingAfterLabel;
                            (m, Action::Sleep { seconds: 1 })
                        } else {
                            let err = InstallError::ToolFailed {
                                tool: sv("parted"),
                                detail: stderr.clone(),
                            };
                            abort_with(m, err)
                        }
                    },
                },
                _ => (m, Action::Done),
            },
            Phase::SettlingAfterLabel => match &event {
                Event::Slept => {
                    m.phase = Phase::CreatingEfiPartition;
                    let tool = tool_parted_mkpart_efi(&m.disk_name, m.efi_size_mb);
                    (m, Action::RunTool { tool })
                },
                _ => (m, Action::Done),
            },
            Phase::CreatingEfiPartition => match &event {
                Event::Tool { outcome } => match outcome {
                    ToolOutcome::LaunchFailed { detail } => {
                        let err = InstallError::Launch { tool: sv("parted"), detail: detail.clone() };
                        abort_with(m, err)
                    },
                    ToolOutcome::Ran { exit_ok, stderr, .. } => {
                        if *exit_ok {
                            m.phase = Phase::SettingEspFlag;
                            let tool = tool_parted_set_esp(&m.disk_name);
                            (m, Action::RunTool { tool })
                        } else {
                            let err = InstallError::ToolFailed {
                                tool: sv("parted"),
                                detail: stderr.clone(),
                            };
                            abort_with(m, err)
                        }
                    },
                },
                _ => (m, Action::Done),
            },
            Phase::SettingEspFlag => match &event {
                Event::Tool { outcome } => match outcome {
                    ToolOutcome::LaunchFailed { detail } => {
                        let err = InstallError::Launch { tool: sv("parted"), detail: detail.clone() };
                        abort_with(m, err)
                    },
                    ToolOutcome::Ran { exit_ok, stderr, .. } => {
                        if *exit_ok {
                            m.phase = Phase::SettlingAfterEsp;
                            (m, Action::Sleep { seconds: 1 })
                        } else {
                            let err = InstallError::ToolFailed {
                                tool: sv("parted"),
                                detail: stderr.clone(),
                            };
                            abort_with(m, err)
                        }
                    },
                },
                _ => (m, Action::Done),
            },
            Phase::SettlingAfterEsp => match &event {
                Event::Slept => {
                    m.phase = Phase::CreatingRootPartition;
                    let tool = tool_parted_mkpart_root(&m.disk_name, m.efi_size_mb);
                    (m, Action::RunTool { tool })
                },
                _ => (m, Action::Done),
            },
            Phase::CreatingRootPartition => match &event {
                Event::Tool { outcome } => match outcome {
                    ToolOutcome::LaunchFailed { detail } => {
                        let err = InstallError::Launch { tool: sv("parted"), detail: detail.clone() };
                        abort_with(m, err)
                    },
                    ToolOutcome::Ran { exit_ok, stderr, .. } => {
                        if *exit_ok {
                            m.phase = Phase::SyncingPartitions;
                            let tool = tool_plain("sync");
                            (m, Action::RunToolBestEffort { tool })
                        } else {
                            let err = InstallError::ToolFailed {
                                tool: sv("parted"),
                                detail: stderr.clone(),
                            };
                            abort_with(m, err)
                        }
                    },
                },
                _ => (m, Action::Done),
            },
            Phase::SyncingPartitions => match &event {
                Event::Tool { .. } => {
                    m.phase = Phase::SettlingAfterSync;
                    (m, Action::Sleep { seconds: 2 })
                },
                _ => (m, Action::Done),
            },
            Phase::SettlingAfterSync => match &event {
                Event::Slept => {
                    m.phase = Phase::RereadingTable;
                    let tool = tool_one_arg("partprobe", &m.disk_name);
                    (m, Action::RunToolBestEffort { tool })
                },
                _ => (m, Action::Done),
            },
            Phase::RereadingTable => match &event {
                Event::Tool { .. } => {
                    m.phase = Phase::SettlingAfterReread;
                    (m, Action::Sleep { seconds: 2 })
                },
                _ => (m, Action::Done),
            },
            Phase::SettlingAfterReread => match &event {
                Event::Slept => {
                    m.phase = Phase::CheckingEfiNode;
                    let path = m.efi_partition.clone();
                    (m, Action::CheckPath { path })
                },
                _ => (m, Action::Done),
            },
            Phase::CheckingEfiNode => match &event {
                Event::PathChecked { exists } => {
                    m.phase = Phase::CheckingRootNode { efi_seen: *exists };
                    let path = m.root_partition.clone();
                    (m, Action::CheckPath { path })
                },
                _ => (m, Action::Done),
            },
            Phase::CheckingRootNode { efi_seen } => match &event {
                Event::PathChecked { exists } => {
                    if efi_seen && *exists {
                        m.phase = Phase::FormattingEfi;
                        let tool = tool_mkfs_vfat(&m.efi_partition);
                        (m, Action::RunTool { tool })
                    } else {
                        let err = InstallError::Timeout { what: sv("partition device nodes") };
                        abort_with(m, err)
                    }
                },
                _ => (m, Action::Done),
            },
            _ => (m, Action::Done),
        }
    }
}

/// The progress fields other than the volume identity are untouched.
pub open spec fn same_aux_except_identity(pre: InstallPipeline, m: InstallPipeline) -> bool {
    &&& m.direct_mount_error == pre.direct_mount_error
    &&& m.loader_source == pre.loader_source
    &&& m.initfs_source == pre.initfs_source
    &&& m.efi_mounted == pre.efi_mounted
    &&& m.root_mount == pre.root_mount
    &&& m.files_installed == pre.files_installed
}

/// The transition relation of the formatting phases: format the EFI
/// partition, then the root partition by the selected kind. For the custom
/// kind: formatter present, partition present and of non-zero size, wipe
/// and zero the start, format, judge the diagnostic stream, and persist the
/// captured volume identity.
pub open spec fn format_rel(pre: InstallPipeline, e: Event, m: InstallPipeline, a: Action) -> bool {
    match pre.phase {
        Phase::FormattingEfi => match e {
            Event::Tool { outcome } => match outcome {
                ToolOutcome::LaunchFailed { detail } => failed(pre, m, a) && (m.failure
                    matches Some(InstallError::Launch { tool, detail: d }) && tool@ == "mkfs.vfat"@
                    && d@ == detail@),
                ToolOutcome::Ran { exit_ok, stdout, stderr } => if !exit_ok {
                    failed(pre, m, a) && (m.failure matches Some(
                        InstallError::ToolFailed { tool, detail },
                    ) && tool@ == "mkfs.vfat"@ && detail@ == stderr@)
                } else if pre.filesystem_type is Ext4 {
                    advanced(pre, m, Phase::FormattingRootStandard) && (a
                        matches Action::RunTool { tool } && tool_is(
                        tool,
                        "mkfs.ext4"@,
                        seq!["-F"@, "-L"@, "REDOX_ROOT"@, pre.root_partition@],
                    ))
                } else {
                    advanced(pre, m, Phase::CheckingFormatterBinary) && (a
                        matches Action::CheckPath { path } && path@
                        == "/home/moebius/redox/redoxfs/target/release/redoxfs-mkfs"@)
                },
            },
            _ => true,
        },
        Phase::FormattingRootStandard => match e {
            Event::Tool { outcome } => match outcome {
                ToolOutcome::LaunchFailed { detail } => failed(pre, m, a) && (m.failure
                    matches Some(InstallError::Launch { tool, detail: d }) && tool@ == "mkfs.ext4"@
                    && d@ == detail@),
                ToolOutcome::Ran { exit_ok, stdout, stderr } => if exit_ok {
                    advanced(pre, m, Phase::CreatingMountDirs) && (a
                        matches Action::EnsureDirs { paths } && paths.deep_view() == seq![
                        pre.efi_mount_point@,
                        pre.root_mount_point@,
                    ])
                } else {
                    failed(pre, m, a) && (m.failure matches Some(
                        InstallError::ToolFailed { tool, detail },
                    ) && tool@ == "mkfs.ext4"@ && detail@ == stderr@)
                },
            },
            _ => true,
        },
        Phase::CheckingFormatterBinary => match e {
            Event::PathChecked { exists } => if exists {
                advanced(pre, m, Phase::CheckingRootBeforeFormat) && (a
                    matches Action::CheckPath { path } && path@ == pre.root_partition@)
            } else {
                failed(pre, m, a) && (m.failure matches Some(InstallError::Verify { what, detail })
                    && what@ == "custom filesystem formatter"@ && detail@
                    == "/home/moebius/redox/redoxfs/target/release/redoxfs-mkfs; build the filesystem tools first: cd /home/moebius/redox/redoxfs && cargo build --release"@)
            },
            _ => true,
        },
        Phase::CheckingRootBeforeFormat => match e {
            Event::PathChecked { exists } => if exists {
                advanced(pre, m, Phase::QueryingRootSize) && (a matches Action::RunTool { tool }
                    && tool_is(tool, "blockdev"@, seq!["--getsize64"@, pre.root_partition@]))
            } else {
                failed(pre, m, a) && (m.failure matches Some(InstallError::Verify { what, detail })
                    && what@ == "root partition exists"@ && detail@ == pre.root_partition@)
            },
            _ => true,
        },
        Phase::QueryingRootSize => match e {
            Event::Tool { outcome } => match outcome {
                ToolOutcome::LaunchFailed { detail } => failed(pre, m, a) && (m.failure
                    matches Some(InstallError::Launch { tool, detail: d }) && tool@ == "blockdev"@
                    && d@ == detail@),
                ToolOutcome::Ran { exit_ok, stdout, stderr } => if !exit_ok {
                    failed(pre, m, a) && (m.failure matches Some(
                        InstallError::ToolFailed { tool, detail },
                    ) && tool@ == "blockdev"@ && detail@ == stderr@)
                } else {
                    let t = crate::text::trim_spec(stdout@);
                    if t.len() == 0 || !crate::text::all_digits(t) || crate::text::digits_val(t)
                        > u64::MAX {
                        failed(pre, m, a) && (m.failure matches Some(
                            InstallError::Parse { what, detail },
                        ))
                    } else if crate::text::digits_val(t) == 0 {
                        failed(pre, m, a) && (m.failure matches Some(
                            InstallError::Verify { what, detail },
                        ) && what@ == "root partition size"@ && detail@ == pre.root_partition@)
                    } else {
                        advanced(pre, m, Phase::WipingRootSignatures) && (a
                            matches Action::RunToolBestEffort { tool } && tool_is(
                            tool,
                            "wipefs"@,
                            seq!["-a"@, pre.root_partition@],
                        ))
                    }
                },
            },
            _ => true,
        },
        Phase::WipingRootSignatures => match e {
            Event::Tool { .. } => advanced(pre, m, Phase::ZeroingRootStart) && (a
                matches Action::RunToolBestEffort { tool } && tool_is(
                tool,
                "dd"@,
                seq![
                    "if=/dev/zero"@,
                    "of="@ + pre.root_partition@,
                    "bs=1M"@,
                    "count=10"@,
                    "conv=notrunc"@,
                ],
            )),
            _ => true,
        },
        Phase::ZeroingRootStart => match e {
            Event::Tool { .. } => advanced(pre, m, Phase::SyncingBeforeFormat) && (a
                matches Action::RunToolBestEffort { tool } && tool_is(tool, "sync"@, Seq::empty())),
            _ => true,
        },
        Phase::SyncingBeforeFormat => match e {
            Event::Tool { .. } => advanced(pre, m, Phase::SettlingBeforeFormat) && (a
                matches Action::Sleep { seconds } && seconds == 1),
            _ => true,
        },
        Phase::SettlingBeforeFormat => match e {
            Event::Slept => advanced(pre, m, Phase::FormattingRootCustom) && (a
                matches Action::RunTool { tool } && tool_is(
                tool,
                "/home/moebius/redox/redoxfs/target/release/redoxfs-mkfs"@,
                seq![pre.root_partition@],
            )),
            _ => true,
        },
        Phase::FormattingRootCustom => match e {
            Event::Tool { outcome } => match outcome {
                ToolOutcome::LaunchFailed { detail } => failed(pre, m, a) && (m.failure
                    matches Some(InstallError::Launch { tool, detail: d }) && tool@
                    == "/home/moebius/redox/redoxfs/target/release/redoxfs-mkfs"@ && d@
                    == detail@),
                ToolOutcome::Ran { exit_ok, stdout, stderr } => {
                    let ls = crate::text::lines_spec(stderr@);
                    if !exit_ok {
                        failed(pre, m, a) && (m.failure matches Some(
                            InstallError::ToolFailed { tool, detail },
                        ) && tool@ == "/home/moebius/redox/redoxfs/target/release/redoxfs-mkfs"@
                            && detail@ == stderr@)
                    } else if !crate::format::has_success_marker(stderr@) {
                        failed(pre, m, a) && (m.failure matches Some(
                            InstallError::Verify { what, detail },
                        ) && what@ == "formatter success marker"@ && detail@ == stderr@)
                    } else if exists|i: int|
                        crate::format::first_identity_line(ls, i) && crate::text::split_ws_spec(
                            ls[i],
                        ).len() > 0 {
                        &&& same_core(pre, m)
                        &&& same_aux_except_identity(pre, m)
                        &&& m.phase == Phase::PersistingIdentity
                        &&& m.failure is None
                        &&& (m.volume_identity matches Some(v) && exists|i: int|
                            crate::format::first_identity_line(ls, i) && crate::text::split_ws_spec(
                                ls[i],
                            ).len() > 0 && v.text@ == crate::text::split_ws_spec(ls[i]).last())
                        &&& (a matches Action::WriteFiles { files } && files@.len() == 1
                            && files@[0].path@ == "/tmp/redox_install_uuid"@ && (m.volume_identity
                            matches Some(v) && files@[0].contents@ == v.text@))
                    } else {
                        failed(pre, m, a) && (m.failure matches Some(
                            InstallError::Parse { what, detail },
                        ))
                    }
                },
            },
            _ => true,
        },
        Phase::PersistingIdentity => match e {
            Event::FsDone { error } => match error {
                Some(detail) => failed(pre, m, a) && (m.failure matches Some(
                    InstallError::Fs { path, detail: d },
                ) && path@ == "/tmp/redox_install_uuid"@ && d@ == detail@),
                None => advanced(pre, m, Phase::SyncingAfterFormat) && (a
                    matches Action::RunToolBestEffort { tool } && tool_is(
                    tool,
                    "sync"@,
                    Seq::empty(),
                )),
            },
            _ => true,
        },
        Phase::SyncingAfterFormat => match e {
            Event::Tool { .. } => advanced(pre, m, Phase::SettlingAfterFormat) && (a
                matches Action::Sleep { seconds } && seconds == 2),
            _ => true,
        },
        Phase::SettlingAfterFormat => match e {
            Event::Slept => advanced(pre, m, Phase::CreatingMountDirs) && (a
                matches Action::EnsureDirs { paths } && paths.deep_view() == seq![
                pre.efi_mount_point@,
                pre.root_mount_point@,
            ]),
            _ => true,
        },
        _ => true,
    }
}

/// Whether `p` is one of the formatting phases.
pub open spec fn phase_in_format(p: Phase) -> bool {
    p == Phase::FormattingEfi || p == Phase::FormattingRootStandard || phase_custom_format(p)
}

impl InstallPipeline {
    /// Step the formatting phases. A zero exit code of the custom formatter
    /// is not taken as success: the diagnostic stream must carry the
    /// success marker, and the volume identity must be extractable from it.
    pub fn step_format(self, event: Event) -> (r: (InstallPipeline, Action))
        requires
            self.wf(),
            self.expects(event),
            phase_in_format(self.phase),
        ensures
            r.0.wf(),
            format_rel(self, event, r.0, r.1),
    {
        let mut m = self;
        match m.phase {
            Phase::FormattingEfi => match &event {
                Event::Tool { outcome } => match outcome {
                    ToolOutcome::LaunchFailed { detail } => {
                        let err = InstallError::Launch {
                            tool: sv("mkfs.vfat"),
                            detail: detail.clone(),
                        };
                        abort_with(m, err)
                    },
                    ToolOutcome::Ran { exit_ok, stderr, .. } => {
                        if !*exit_ok {
                            let err = InstallError::ToolFailed {
                                tool: sv("mkfs.vfat"),
                                detail: stderr.clone(),
                            };
                            abort_with(m, err)
                        } else {
                            match m.filesystem_type {
                                crate::FilesystemType::Ext4 => {
                                    m.phase = Phase::FormattingRootStandard;
                                    let tool = tool_mkfs_ext4(&m.root_partition);
                                    (m, Action::RunTool { tool })
                                },
                                crate::FilesystemType::RedoxFS => {
                                    m.phase = Phase::CheckingFormatterBinary;
                                    let path = sv(
                                        "/home/moebius/redox/redoxfs/target/release/redoxfs-mkfs",
                                    );
                                    (m, Action::CheckPath { path })
                                },
                            }
                        }
                    },
                },
                _ => (m, Action::Done),
            },
            Phase::FormattingRootStandard => match &event {
                Event::Tool { outcome } => match outcome {
                    ToolOutcome::LaunchFailed { detail } => {
                        let err = InstallError::Launch {
                            tool: sv("mkfs.ext4"),
                            detail: detail.clone(),
                        };
                        abort_with(m, err)
                    },
                    ToolOutcome::Ran { exit_ok, stderr, .. } => {
                        if *exit_ok {
                            m.phase = Phase::CreatingMountDirs;
                            let mut paths: Vec<String> = Vec::new();
                            paths.push(m.efi_mount_point.clone());
                            paths.push(m.root_mount_point.clone());
                            proof {
                                assert(paths.deep_view() =~~= seq![
                                    m.efi_mount_point@,
                                    m.root_mount_point@,
                                ]);
                            }
                            (m, Action::EnsureDirs { paths })
                        } else {
                            let err = InstallError::ToolFailed {
                                tool: sv("mkfs.ext4"),
                                detail: stderr.clone(),
                            };
                            abort_with(m, err)
                        }
                    },
                },
                _ => (m, Action::Done),
            },
            Phase::CheckingFormatterBinary => match &event {
                Event::PathChecked { exists } => {
                    if *exists {
                        m.phase = Phase::CheckingRootBeforeFormat;
                        let path = m.root_partition.clone();
                        (m, Action::CheckPath { path })
                    } else {
                        let err = InstallError::Verify {
                            what: sv("custom filesystem formatter"),
                            detail: sv(
                                "/home/moebius/redox/redoxfs/target/release/redoxfs-mkfs; build the filesystem tools first: cd /home/moebius/redox/redoxfs && cargo build --release",
                            ),
                        };
                        abort_with(m, err)
                    }
                },
                _ => (m, Action::Done),
            },
            Phase::CheckingRootBeforeFormat => match &event {
                Event::PathChecked { exists } => {
                    if *exists {
                        m.phase = Phase::QueryingRootSize;
                        let tool = tool_two_args("blockdev", "--getsize64", &m.root_partition);
                        (m, Action::RunTool { tool })
                    } else {
                        let err = InstallError::Verify {
                            what: sv("root partition exists"),
                            detail: m.root_partition.clone(),
                        };
                        abort_with(m, err)
                    }
                },
                _ => (m, Action::Done),
            },
            Phase::QueryingRootSize => match &event {
                Event::Tool { outcome } => match outcome {
                    ToolOutcome::LaunchFailed { detail } => {
                        let err = InstallError::Launch {
                            tool: sv("blockdev"),
                            detail: detail.clone(),
                        };
                        abort_with(m, err)
                    },
                    ToolOutcome::Ran { exit_ok, stdout, stderr } => {
                        if !*exit_ok {
                            let err = InstallError::ToolFailed {
                                tool: sv("blockdev"),
                                detail: stderr.clone(),
                            };
                            abort_with(m, err)
                        } else {
                            match crate::format::parse_block_size(stdout.as_str()) {
                                Err(e) => abort_with(m, e),
                                Ok(size) => {
                                    if size == 0 {
                                        let err = InstallError::Verify {
                                            what: sv("root partition size"),
                                            detail: m.root_partition.clone(),
                                        };
                                        abort_with(m, err)
                                    } else {
                                        m.phase = Phase::WipingRootSignatures;
                                        let tool = tool_two_args("wipefs", "-a", &m.root_partition);
                                        (m, Action::RunToolBestEffort { tool })
                                    }
                                },
                            }
                        }
                    },
                },
                _ => (m, Action::Done),
            },
            Phase::WipingRootSignatures => match &event {
                Event::Tool { .. } => {
                    m.phase = Phase::ZeroingRootStart;
                    let tool = tool_dd_zero(&m.root_partition);
                    (m, Action::RunToolBestEffort { tool })
                },
                _ => (m, Action::Done),
            },
            Phase::ZeroingRootStart => match &event {
                Event::Tool { .. } => {
                    m.phase = Phase::SyncingBeforeFormat;
                    let tool = tool_plain("sync");
                    (m, Action::RunToolBestEffort { tool })
                },
                _ => (m, Action::Done),
            },
            Phase::SyncingBeforeFormat => match &event {
                Event::Tool { .. } => {
                    m.phase = Phase::SettlingBeforeFormat;
                    (m, Action::Sleep { seconds: 1 })
                },
                _ => (m, Action::Done),
            },
            Phase::SettlingBeforeFormat => match &event {
                Event::Slept => {
                    m.phase = Phase::FormattingRootCustom;
                    let tool = tool_one_arg(
                        "/home/moebius/redox/redoxfs/target/release/redoxfs-mkfs",
                        &m.root_partition,
                    );
                    (m, Action::RunTool { tool })
                },
                _ => (m, Action::Done),
            },
            Phase::FormattingRootCustom => match &event {
                Event::Tool { outcome } => match outcome {
                    ToolOutcome::LaunchFailed { detail } => {
                        let err = InstallError::Launch {
                            tool: sv("/home/moebius/redox/redoxfs/target/release/redoxfs-mkfs"),
                            detail: detail.clone(),
                        };
                        abort_with(m, err)
                    },
                    ToolOutcome::Ran { exit_ok, stderr, .. } => {
                        match crate::format::judge_custom_format(
                            "/home/moebius/redox/redoxfs/target/release/redoxfs-mkfs",
                            *exit_ok,
                            stderr.as_str(),
                            stderr.as_str(),
                        ) {
                            Err(e) => {
                                proof {
                                    let ls = crate::text::lines_spec(stderr@);
                                    if *exit_ok && crate::format::has_success_marker(stderr@) {
                                        if exists|i: int|
                                            crate::format::first_identity_line(ls, i)
                                                && crate::text::split_ws_spec(ls[i]).len() > 0 {
                                            let i = choose|i: int|
                                                crate::format::first_identity_line(ls, i)
                                                    && crate::text::split_ws_spec(ls[i]).len() > 0;
                                            if exists|j: int|
                                                crate::format::first_identity_line(ls, j)
                                                    && crate::text::split_ws_spec(ls[j]).len()
                                                    == 0 {
                                                let j = choose|j: int|
                                                    crate::format::first_identity_line(ls, j)
                                                        && crate::text::split_ws_spec(
                                                        ls[j],
                                                    ).len() == 0;
                                                assert(crate::format::is_identity_line(ls[i]));
                                                assert(crate::format::is_identity_line(ls[j]));
                                                assert(i == j);
                                            }
                                        }
                                    }
                                }
                                abort_with(m, e)
                            },
                            Ok(v) => {
                                let contents = v.text.clone();
                                m.volume_identity = Some(v);
                                m.phase = Phase::PersistingIdentity;
                                let mut files: Vec<FilePlan> = Vec::new();
                                files.push(
                                    FilePlan { path: sv("/tmp/redox_install_uuid"), contents },
                                );
                                (m, Action::WriteFiles { files })
                            },
                        }
                    },
                },
                _ => (m, Action::Done),
            },
            Phase::PersistingIdentity => match &event {
                Event::FsDone { error } => match error {
                    Some(detail) => {
                        let err = InstallError::Fs {
                            path: sv("/tmp/redox_install_uuid"),
                            detail: detail.clone(),
                        };
                        abort_with(m, err)
                    },
                    None => {
                        m.phase = Phase::SyncingAfterFormat;
                        let tool = tool_plain("sync");
                        (m, Action::RunToolBestEffort { tool })
                    },
                },
                _ => (m, Action::Done),
            },
            Phase::SyncingAfterFormat => match &event {
                Event::Tool { .. } => {
                    m.phase = Phase::SettlingAfterFormat;
                    (m, Action::Sleep { seconds: 2 })
                },
                _ => (m, Action::Done),
            },
            Phase::SettlingAfterFormat => match &event {
                Event::Slept => {
                    m.phase = Phase::CreatingMountDirs;
                    let mut paths: Vec<String> = Vec::new();
                    paths.push(m.efi_mount_point.clone());
                    paths.push(m.root_mount_point.clone());
                    proof {
                        assert(paths.deep_view() =~~= seq![m.efi_mount_point@, m.root_mount_point@]);
                    }
                    (m, Action::EnsureDirs { paths })
                },
                _ => (m, Action::Done),
            },
            _ => (m, Action::Done),
        }
    }
}

/// The progress fields other than the mount state are untouched.
pub open spec fn same_aux_except_mounts(pre: InstallPipeline, m: InstallPipeline) -> bool {
    &&& m.volume_identity == pre.volume_identity
    &&& m.direct_mount_error == pre.direct_mount_error
    &&& m.loader_source == pre.loader_source
    &&& m.initfs_source == pre.initfs_source
    &&& m.files_installed == pre.files_installed
}

/// The transition relation of the mount phases: create the mount points,
/// mount the EFI partition (fatal on failure, no fallback), attempt the
/// direct root mount, and on its failure — only if the background driver
/// binary exists — start the driver and probe readiness; with no driver
/// binary the original direct-mount error is surfaced.
pub open spec fn mount_rel(pre: InstallPipeline, e: Event, m: InstallPipeline, a: Action) -> bool {
    match pre.phase {
        Phase::CreatingMountDirs => match e {
            Event::FsDone { error } => match error {
                Some(detail) => failed(pre, m, a) && (m.failure matches Some(
                    InstallError::Fs { path, detail: d },
                ) && path@ == pre.efi_mount_point@ && d@ == detail@),
                None => advanced(pre, m, Phase::MountingEfi) && (a matches Action::RunTool { tool }
                    && tool_is(tool, "mount"@, seq![pre.efi_partition@, pre.efi_mount_point@])),
            },
            _ => true,
        },
        Phase::MountingEfi => match e {
            Event::Tool { outcome } => match outcome {
                ToolOutcome::LaunchFailed { detail } => failed(pre, m, a) && (m.failure
                    matches Some(InstallError::Launch { tool, detail: d }) && tool@ == "mount"@
                    && d@ == detail@),
                ToolOutcome::Ran { exit_ok, stdout, stderr } => if exit_ok {
                    &&& same_core(pre, m)
                    &&& same_aux_except_mounts(pre, m)
                    &&& m.efi_mounted == true
                    &&& m.root_mount == pre.root_mount
                    &&& m.phase == Phase::MountingRootDirect
                    &&& m.failure is None
                    &&& (a matches Action::RunTool { tool } && tool_is(
                        tool,
                        "mount"@,
                        seq!["-t"@, "auto"@, pre.root_partition@, pre.root_mount_point@],
                    ))
                } else {
                    failed(pre, m, a) && (m.failure matches Some(
                        InstallError::ToolFailed { tool, detail },
                    ) && tool@ == "mount"@ && detail@ == stderr@)
                },
            },
            _ => true,
        },
        Phase::MountingRootDirect => match e {
            Event::Tool { outcome } => match outcome {
                ToolOutcome::LaunchFailed { detail } => failed(pre, m, a) && (m.failure
                    matches Some(InstallError::Launch { tool, detail: d }) && tool@ == "mount"@
                    && d@ == detail@),
                ToolOutcome::Ran { exit_ok, stdout, stderr } => if exit_ok {
                    &&& same_core(pre, m)
                    &&& same_aux_except_mounts(pre, m)
                    &&& m.efi_mounted == pre.efi_mounted
                    &&& m.root_mount == RootMountKind::MountedDirect
                    &&& m.phase == Phase::CreatingEfiTree
                    &&& m.failure is None
                    &&& (a matches Action::EnsureDirs { paths } && paths.deep_view() == seq![
                        pre.efi_mount_point@ + "/EFI/BOOT"@,
                        pre.efi_mount_point@ + "/EFI/redox"@,
                    ])
                } else {
                    &&& same_core(pre, m)
                    &&& m.volume_identity == pre.volume_identity
                    &&& m.loader_source == pre.loader_source
                    &&& m.initfs_source == pre.initfs_source
                    &&& m.efi_mounted == pre.efi_mounted
                    &&& m.root_mount == pre.root_mount
                    &&& m.files_installed == pre.files_installed
                    &&& (m.direct_mount_error matches Some(d) && d@ == stderr@)
                    &&& m.phase == Phase::CheckingDriverBinary
                    &&& m.failure is None
                    &&& (a matches Action::CheckPath { path } && path@
                        == "/home/moebius/redox/redoxfs/target/release/redoxfs"@)
                },
            },
            _ => true,
        },
        Phase::CheckingDriverBinary => match e {
            Event::PathChecked { exists } => if exists {
                advanced(pre, m, Phase::SpawningDriver) && (a matches Action::SpawnDriver { tool }
                    && tool_is(
                    tool,
                    "/home/moebius/redox/redoxfs/target/release/redoxfs"@,
                    seq![pre.root_partition@, pre.root_mount_point@],
                ))
            } else {
                failed(pre, m, a) && (m.failure matches Some(
                    InstallError::ToolFailed { tool, detail },
                ) && tool@ == "mount"@ && Some(detail@) == match pre.direct_mount_error {
                    Some(d) => Some(d@),
                    None => None,
                })
            },
            _ => true,
        },
        Phase::SpawningDriver => match e {
            Event::Spawned { ok, detail } => if ok {
                advanced(pre, m, Phase::SettlingAfterSpawn) && (a matches Action::Sleep { seconds }
                    && seconds == 3)
            } else {
                failed(pre, m, a) && (m.failure matches Some(InstallError::Launch { tool, detail: d })
                    && tool@ == "/home/moebius/redox/redoxfs/target/release/redoxfs"@ && d@
                    == detail@)
            },
            _ => true,
        },
        Phase::SettlingAfterSpawn => match e {
            Event::Slept => advanced(pre, m, Phase::CheckingMountpoint) && (a
                matches Action::RunTool { tool } && tool_is(
                tool,
                "mountpoint"@,
                seq![pre.root_mount_point@],
            )),
            _ => true,
        },
        Phase::CheckingMountpoint => match e {
            Event::Tool { outcome } => match outcome {
                ToolOutcome::LaunchFailed { detail } => failed(pre, m, a) && (m.failure
                    matches Some(InstallError::Verify { what, detail: d }) && what@
                    == "root mount point check"@ && d@ == detail@),
                ToolOutcome::Ran { exit_ok, stdout, stderr } => if exit_ok {
                    advanced(pre, m, Phase::ProbingRootWrite) && (a
                        matches Action::ProbeWrite { dir } && dir@ == pre.root_mount_point@)
                } else {
                    failed(pre, m, a) && (m.failure matches Some(
                        InstallError::Verify { what, detail },
                    ) && what@ == "root mount point active"@ && detail@ == stderr@)
                },
            },
            _ => true,
        },
        Phase::ProbingRootWrite => match e {
            Event::FsDone { error } => match error {
                Some(detail) => failed(pre, m, a) && (m.failure matches Some(
                    InstallError::Verify { what, detail: d },
                ) && what@ == "root mount point writable"@ && d@ == detail@),
                None => {
                    &&& same_core(pre, m)
                    &&& same_aux_except_mounts(pre, m)
                    &&& m.efi_mounted == pre.efi_mounted
                    &&& m.root_mount == RootMountKind::MountedViaDriver
                    &&& m.phase == Phase::CreatingEfiTree
                    &&& m.failure is None
                    &&& (a matches Action::EnsureDirs { paths } && paths.deep_view() == seq![
                        pre.efi_mount_point@ + "/EFI/BOOT"@,
                        pre.efi_mount_point@ + "/EFI/redox"@,
                    ])
                },
            },
            _ => true,
        },
        _ => true,
    }
}

/// Whether `p` is one of the mount phases.
pub open spec fn phase_in_mount(p: Phase) -> bool {
    match p {
        Phase::CreatingMountDirs | Phase::MountingEfi | Phase::MountingRootDirect
            | Phase::CheckingDriverBinary | Phase::SpawningDriver | Phase::SettlingAfterSpawn
            | Phase::CheckingMountpoint | Phase::ProbingRootWrite => true,
        _ => false,
    }
}

impl InstallPipeline {
    /// Step the mount phases. A direct-mount failure of the root partition
    /// falls back to the background driver exactly when the driver binary
    /// exists; otherwise the original mount error is surfaced.
    pub fn step_mount(self, event: Event) -> (r: (InstallPipeline, Action))
        requires
            self.wf(),
            self.expects(event),
            phase_in_mount(self.phase),
        ensures
            r.0.wf(),
            mount_rel(self, event, r.0, r.1),
    {
        let mut m = self;
        match m.phase {
            Phase::CreatingMountDirs => match &event {
                Event::FsDone { error } => match error {
                    Some(detail) => {
                        let err = InstallError::Fs {
                            path: m.efi_mount_point.clone(),
                            detail: detail.clone(),
                        };
                        abort_with(m, err)
                    },
                    None => {
                        m.phase = Phase::MountingEfi;
                        let tool = tool_pair("mount", &m.efi_partition, &m.efi_mount_point);
                        (m, Action::RunTool { tool })
                    },
                },
                _ => (m, Action::Done),
            },
            Phase::MountingEfi => match &event {
                Event::Tool { outcome } => match outcome {
                    ToolOutcome::LaunchFailed { detail } => {
                        let err = InstallError::Launch { tool: sv("mount"), detail: detail.clone() };
                        abort_with(m, err)
                    },
                    ToolOutcome::Ran { exit_ok, stderr, .. } => {
                        if *exit_ok {
                            m.efi_mounted = true;
                            m.phase = Phase::MountingRootDirect;
                            let tool = tool_mount_auto(&m.root_partition, &m.root_mount_point);
                            (m, Action::RunTool { tool })
                        } else {
                            let err = InstallError::ToolFailed {
                                tool: sv("mount"),
                                detail: stderr.clone(),
                            };
                            abort_with(m, err)
                        }
                    },
                },
                _ => (m, Action::Done),
            },
            Phase::MountingRootDirect => match &event {
                Event::Tool { outcome } => match outcome {
                    ToolOutcome::LaunchFailed { detail } => {
                        let err = InstallError::Launch { tool: sv("mount"), detail: detail.clone() };
                        abort_with(m, err)
                    },
                    ToolOutcome::Ran { exit_ok, stderr, .. } => {
                        if *exit_ok {
                            m.root_mount = RootMountKind::MountedDirect;
                            m.phase = Phase::CreatingEfiTree;
                            let mut paths: Vec<String> = Vec::new();
                            paths.push(m.efi_mount_point.clone().concat("/EFI/BOOT"));
                            paths.push(m.efi_mount_point.clone().concat("/EFI/redox"));
                            proof {
                                assert(paths.deep_view() =~~= seq![
                                    m.efi_mount_point@ + "/EFI/BOOT"@,
                                    m.efi_mount_point@ + "/EFI/redox"@,
                                ]);
                            }
                            (m, Action::EnsureDirs { paths })
                        } else {
                            m.direct_mount_error = Some(stderr.clone());
                            m.phase = Phase::CheckingDriverBinary;
                            let path = sv("/home/moebius/redox/redoxfs/target/release/redoxfs");
                            (m, Action::CheckPath { path })
                        }
                    },
                },
                _ => (m, Action::Done),
            },
            Phase::CheckingDriverBinary => match &event {
                Event::PathChecked { exists } => {
                    if *exists {
                        m.phase = Phase::SpawningDriver;
                        let tool = tool_pair(
                            "/home/moebius/redox/redoxfs/target/release/redoxfs",
                            &m.root_partition,
                            &m.root_mount_point,
                        );
                        (m, Action::SpawnDriver { tool })
                    } else {
                        let detail = match &m.direct_mount_error {
                            Some(d) => d.clone(),
                            None => sv("the direct mount failed"),
                        };
                        let err = InstallError::ToolFailed { tool: sv("mount"), detail };
                        abort_with(m, err)
                    }
                },
                _ => (m, Action::Done),
            },
            Phase::SpawningDriver => match &event {
                Event::Spawned { ok, detail } => {
                    if *ok {
                        m.phase = Phase::SettlingAfterSpawn;
                        (m, Action::Sleep { seconds: 3 })
                    } else {
                        let err = InstallError::Launch {
                            tool: sv("/home/moebius/redox/redoxfs/target/release/redoxfs"),
                            detail: detail.clone(),
                        };
                        abort_with(m, err)
                    }
                },
                _ => (m, Action::Done),
            },
            Phase::SettlingAfterSpawn => match &event {
                Event::Slept => {
                    m.phase = Phase::CheckingMountpoint;
                    let tool = tool_one_arg("mountpoint", &m.root_mount_point);
                    (m, Action::RunTool { tool })
                },
                _ => (m, Action::Done),
            },
            Phase::CheckingMountpoint => match &event {
                Event::Tool { outcome } => match outcome {
                    ToolOutcome::LaunchFailed { detail } => {
                        let err = InstallError::Verify {
                            what: sv("root mount point check"),
                            detail: detail.clone(),
                        };
                        abort_with(m, err)
                    },
                    ToolOutcome::Ran { exit_ok, stderr, .. } => {
                        if *exit_ok {
                            m.phase = Phase::ProbingRootWrite;
                            let dir = m.root_mount_point.clone();
                            (m, Action::ProbeWrite { dir })
                        } else {
                            let err = InstallError::Verify {
                                what: sv("root mount point active"),
                                detail: stderr.clone(),
                            };
                            abort_with(m, err)
                        }
                    },
                },
                _ => (m, Action::Done),
            },
            Phase::ProbingRootWrite => match &event {
                Event::FsDone { error } => match error {
                    Some(detail) => {
                        let err = InstallError::Verify {
                            what: sv("root mount point writable"),
                            detail: detail.clone(),
                        };
                        abort_with(m, err)
                    },
                    None => {
                        m.root_mount = RootMountKind::MountedViaDriver;
                        m.phase = Phase::CreatingEfiTree;
                        let mut paths: Vec<String> = Vec::new();
                        paths.push(m.efi_mount_point.clone().concat("/EFI/BOOT"));
                        paths.push(m.efi_mount_point.clone().concat("/EFI/redox"));
                        proof {
                            assert(paths.deep_view() =~~= seq![
                                m.efi_mount_point@ + "/EFI/BOOT"@,
                                m.efi_mount_point@ + "/EFI/redox"@,
                            ]);
                        }
                        (m, Action::EnsureDirs { paths })
                    },
                },
                _ => (m, Action::Done),
            },
            _ => (m, Action::Done),
        }
    }
}

/// The progress fields other than the loader source are untouched.
pub open spec fn same_aux_except_loader(pre: InstallPipeline, m: InstallPipeline) -> bool {
    &&& m.volume_identity == pre.volume_identity
    &&& m.direct_mount_error == pre.direct_mount_error
    &&& m.initfs_source == pre.initfs_source
    &&& m.efi_mounted == pre.efi_mounted
    &&& m.root_mount == pre.root_mount
    &&& m.files_installed == pre.files_installed
}

/// The transition relation of the bootloader phases: create the EFI tree,
/// take the first existing bootloader candidate, copy it to the removable
/// boot path and the vendor path, and register a firmware boot entry
/// best-effort.
pub open spec fn bootloader_rel(pre: InstallPipeline, e: Event, m: InstallPipeline, a: Action) -> bool {
    match pre.phase {
        Phase::CreatingEfiTree => match e {
            Event::FsDone { error } => match error {
                Some(detail) => failed(pre, m, a) && (m.failure matches Some(
                    InstallError::Fs { path, detail: d },
                ) && path@ == pre.efi_mount_point@ && d@ == detail@),
                None => advanced(pre, m, Phase::FindingBootloader { index: 0 }) && (a
                    matches Action::CheckPath { path } && path@ == bootloader_candidates_spec()[0]),
            },
            _ => true,
        },
        Phase::FindingBootloader { index } => match e {
            Event::PathChecked { exists } => if exists {
                &&& same_core(pre, m)
                &&& same_aux_except_loader(pre, m)
                &&& (m.loader_source matches Some(src) && src@
                    == bootloader_candidates_spec()[index as int])
                &&& m.phase == Phase::CopyingPrimaryLoader
                &&& m.failure is None
                &&& (a matches Action::CopyFile { source, dest } && source@
                    == bootloader_candidates_spec()[index as int] && dest@ == pre.efi_mount_point@
                    + "/EFI/BOOT/BOOTX64.EFI"@)
            } else if (index + 1) < bootloader_candidates_spec().len() {
                advanced(pre, m, Phase::FindingBootloader { index: (index + 1) as usize }) && (a
                    matches Action::CheckPath { path } && path@
                    == bootloader_candidates_spec()[index + 1])
            } else {
                failed(pre, m, a) && (m.failure matches Some(InstallError::Verify { what, detail })
                    && what@ == "bootloader image"@ && detail@ == "searched: "@
                    + crate::text::join_sep_spec(bootloader_candidates_spec(), ", "@))
            },
            _ => true,
        },
        Phase::CopyingPrimaryLoader => match e {
            Event::Copied { error } => match error {
                Some(detail) => failed(pre, m, a) && (m.failure matches Some(
                    InstallError::Fs { path, detail: d },
                ) && path@ == pre.efi_mount_point@ + "/EFI/BOOT/BOOTX64.EFI"@ && d@ == detail@),
                None => advanced(pre, m, Phase::CopyingVendorLoader) && (a
                    matches Action::CopyFile { source, dest } && Some(source@) == match pre
                    .loader_source {
                    Some(s) => Some(s@),
                    None => None,
                } && dest@ == pre.efi_mount_point@ + "/EFI/redox/redox-bootloader.efi"@),
            },
            _ => true,
        },
        Phase::CopyingVendorLoader => match e {
            Event::Copied { error } => match error {
                Some(detail) => failed(pre, m, a) && (m.failure matches Some(
                    InstallError::Fs { path, detail: d },
                ) && path@ == pre.efi_mount_point@ + "/EFI/redox/redox-bootloader.efi"@ && d@
                    == detail@),
                None => advanced(pre, m, Phase::RegisteringBootEntry) && (a
                    matches Action::RunToolBestEffort { tool } && tool_is(
                    tool,
                    "efibootmgr"@,
                    seq![
                        "--create"@,
                        "--disk"@,
                        crate::text::trim_digits_back(pre.disk_name@),
                        "--part"@,
                        "1"@,
                        "--label"@,
                        "Redox OS"@,
                        "--loader"@,
                        "\\EFI\\redox\\redox-bootloader.efi"@,
                    ],
                )),
            },
            _ => true,
        },
        Phase::RegisteringBootEntry => match e {
            Event::Tool { .. } => advanced(pre, m, Phase::CreatingTreeDirs) && (a
                matches Action::EnsureDirs { paths } && paths.deep_view() == tree_dirs_spec(
                pre.root_mount_point@,
            )),
            _ => true,
        },
        _ => true,
    }
}

/// Whether `p` is one of the bootloader phases.
pub open spec fn phase_in_bootloader(p: Phase) -> bool {
    match p {
        Phase::CreatingEfiTree | Phase::FindingBootloader { .. } | Phase::CopyingPrimaryLoader
            | Phase::CopyingVendorLoader | Phase::RegisteringBootEntry => true,
        _ => false,
    }
}

impl InstallPipeline {
    /// Step the bootloader phases.
    pub fn step_bootloader(self, event: Event) -> (r: (InstallPipeline, Action))
        requires
            self.wf(),
            self.expects(event),
            phase_in_bootloader(self.phase),
        ensures
            r.0.wf(),
            bootloader_rel(self, event, r.0, r.1),
    {
        let mut m = self;
        match m.phase {
            Phase::CreatingEfiTree => match &event {
                Event::FsDone { error } => match error {
                    Some(detail) => {
                        let err = InstallError::Fs {
                            path: m.efi_mount_point.clone(),
                            detail: detail.clone(),
                        };
                        abort_with(m, err)
                    },
                    None => {
                        m.phase = Phase::FindingBootloader { index: 0 };
                        let candidates = bootloader_candidates();
                        let path = candidates[0].clone();
                        proof {
                            assert(candidates.deep_view()[0] == candidates@[0]@);
                        }
                        (m, Action::CheckPath { path })
                    },
                },
                _ => (m, Action::Done),
            },
            Phase::FindingBootloader { index } => match &event {
                Event::PathChecked { exists } => {
                    let candidates = bootloader_candidates();
                    proof {
                        assert(candidates.deep_view()[index as int] == candidates@[index as int]@);
                    }
                    if *exists {
                        m.loader_source = Some(candidates[index].clone());
                        m.phase = Phase::CopyingPrimaryLoader;
                        let source = candidates[index].clone();
                        let dest = m.efi_mount_point.clone().concat("/EFI/BOOT/BOOTX64.EFI");
                        (m, Action::CopyFile { source, dest })
                    } else if index + 1 < candidates.len() {
                        m.phase = Phase::FindingBootloader { index: index + 1 };
                        let path = candidates[index + 1].clone();
                        proof {
                            assert(candidates.deep_view()[index + 1] == candidates@[
                                index as int + 1
                            ]@);
                        }
                        (m, Action::CheckPath { path })
                    } else {
                        let listing = crate::text::join_with(&candidates, 0, candidates.len(), ", ");
                        proof {
                            assert(candidates.deep_view().subrange(0, candidates@.len() as int)
                                =~~= bootloader_candidates_spec());
                        }
                        let err = InstallError::Verify {
                            what: sv("bootloader image"),
                            detail: String::from_str("searched: ").concat(listing.as_str()),
                        };
                        abort_with(m, err)
                    }
                },
                _ => (m, Action::Done),
            },
            Phase::CopyingPrimaryLoader => match &event {
                Event::Copied { error } => match error {
                    Some(detail) => {
                        let err = InstallError::Fs {
                            path: m.efi_mount_point.clone().concat("/EFI/BOOT/BOOTX64.EFI"),
                            detail: detail.clone(),
                        };
                        abort_with(m, err)
                    },
                    None => {
                        let source = match &m.loader_source {
                            Some(s) => s.clone(),
                            None => sv(""),
                        };
                        m.phase = Phase::CopyingVendorLoader;
                        let dest = m.efi_mount_point.clone().concat(
                            "/EFI/redox/redox-bootloader.efi",
                        );
                        (m, Action::CopyFile { source, dest })
                    },
                },
                _ => (m, Action::Done),
            },
            Phase::CopyingVendorLoader => match &event {
                Event::Copied { error } => match error {
                    Some(detail) => {
                        let err = InstallError::Fs {
                            path: m.efi_mount_point.clone().concat(
                                "/EFI/redox/redox-bootloader.efi",
                            ),
                            detail: detail.clone(),
                        };
                        abort_with(m, err)
                    },
                    None => {
                        m.phase = Phase::RegisteringBootEntry;
                        let disk_base = crate::text::trim_trailing_digits(m.disk_name.as_str());
                        let tool = tool_efibootmgr(&disk_base);
                        (m, Action::RunToolBestEffort { tool })
                    },
                },
                _ => (m, Action::Done),
            },
            Phase::RegisteringBootEntry => match &event {
                Event::Tool { .. } => {
                    m.phase = Phase::CreatingTreeDirs;
                    let paths = tree_dirs(&m.root_mount_point);
                    (m, Action::EnsureDirs { paths })
                },
                _ => (m, Action::Done),
            },
            _ => (m, Action::Done),
        }
    }
}

/// Addition on the file counter, capped at the counter's maximum.
pub open spec fn sat_add_u64(a: u64, b: u64) -> u64 {
    if a + b <= u64::MAX {
        (a + b) as u64
    } else {
        u64::MAX
    }
}

/// The progress fields other than the file counter are untouched.
pub open spec fn same_aux_except_installed(pre: InstallPipeline, m: InstallPipeline) -> bool {
    &&& m.volume_identity == pre.volume_identity
    &&& m.direct_mount_error == pre.direct_mount_error
    &&& m.loader_source == pre.loader_source
    &&& m.initfs_source == pre.initfs_source
    &&& m.efi_mounted == pre.efi_mounted
    &&& m.root_mount == pre.root_mount
}

/// The transition relation of the populate phases: create the fixed
/// directory tree, the merged-usr links, and the fixed configuration files,
/// then install each staged component in order, skipping components with no
/// staged build output and counting the files copied.
pub open spec fn populate_rel(pre: InstallPipeline, e: Event, m: InstallPipeline, a: Action) -> bool {
    match pre.phase {
        Phase::CreatingTreeDirs => match e {
            Event::FsDone { error } => match error {
                Some(detail) => failed(pre, m, a) && (m.failure matches Some(
                    InstallError::Fs { path, detail: d },
                ) && path@ == pre.root_mount_point@ && d@ == detail@),
                None => advanced(pre, m, Phase::CreatingSymlinks) && (a
                    matches Action::ReplaceSymlinks { links } && links@.map_values(
                    |p: SymlinkPlan| link_view(p),
                ) == tree_links_spec(pre.root_mount_point@)),
            },
            _ => true,
        },
        Phase::CreatingSymlinks => match e {
            Event::FsDone { error } => match error {
                Some(detail) => failed(pre, m, a) && (m.failure matches Some(
                    InstallError::Fs { path, detail: d },
                ) && path@ == pre.root_mount_point@ && d@ == detail@),
                None => advanced(pre, m, Phase::WritingBaseFiles) && (a
                    matches Action::WriteFiles { files } && files@.map_values(
                    |p: FilePlan| file_view(p),
                ) == base_files_spec(pre.root_mount_point@)),
            },
            _ => true,
        },
        Phase::WritingBaseFiles => match e {
            Event::FsDone { error } => match error {
                Some(detail) => failed(pre, m, a) && (m.failure matches Some(
                    InstallError::Fs { path, detail: d },
                ) && path@ == pre.root_mount_point@ && d@ == detail@),
                None => advanced(pre, m, Phase::CheckingStage { index: 0 }) && (a
                    matches Action::CheckPath { path } && path@ == stage_path_spec(
                    recipes_spec()[0],
                )),
            },
            _ => true,
        },
        Phase::CheckingStage { index } => match e {
            Event::PathChecked { exists } => if exists {
                advanced(pre, m, Phase::CopyingStage { index }) && (a
                    matches Action::CopyStage { mappings } && mappings@.map_values(
                    |p: CopyMapping| mapping_view(p),
                ) == stage_mappings_spec(
                    stage_path_spec(recipes_spec()[index as int]),
                    pre.root_mount_point@,
                ))
            } else if (index + 1) < recipes_spec().len() {
                advanced(pre, m, Phase::CheckingStage { index: (index + 1) as usize }) && (a
                    matches Action::CheckPath { path } && path@ == stage_path_spec(
                    recipes_spec()[index + 1],
                ))
            } else {
                advanced(pre, m, Phase::FindingKernel { index: 0 }) && (a
                    matches Action::CheckPath { path } && path@ == kernel_candidates_spec()[0])
            },
            _ => true,
        },
        Phase::CopyingStage { index } => match e {
            Event::StageCopied { count, error } => match error {
                Some(detail) => failed(pre, m, a) && (m.failure matches Some(
                    InstallError::Fs { path, detail: d },
                ) && path@ == stage_path_spec(recipes_spec()[index as int]) && d@ == detail@),
                None => {
                    &&& same_core(pre, m)
                    &&& same_aux_except_installed(pre, m)
                    &&& m.files_installed == sat_add_u64(pre.files_installed, count)
                    &&& m.failure is None
                    &&& if (index + 1) < recipes_spec().len() {
                        m.phase == Phase::CheckingStage { index: (index + 1) as usize } && (a
                            matches Action::CheckPath { path } && path@ == stage_path_spec(
                            recipes_spec()[index + 1],
                        ))
                    } else {
                        m.phase == Phase::FindingKernel { index: 0 } && (a
                            matches Action::CheckPath { path } && path@
                            == kernel_candidates_spec()[0])
                    }
                },
            },
            _ => true,
        },
        _ => true,
    }
}

/// Whether `p` is one of the populate phases.
pub open spec fn phase_in_populate(p: Phase) -> bool {
    match p {
        Phase::CreatingTreeDirs | Phase::CreatingSymlinks | Phase::WritingBaseFiles
            | Phase::CheckingStage { .. } | Phase::CopyingStage { .. } => true,
        _ => false,
    }
}

impl InstallPipeline {
    /// Step the populate phases.
    pub fn step_populate(self, event: Event) -> (r: (InstallPipeline, Action))
        requires
            self.wf(),
            self.expects(event),
            phase_in_populate(self.phase),
        ensures
            r.0.wf(),
            populate_rel(self, event, r.0, r.1),
    {
        let mut m = self;
        match m.phase {
            Phase::CreatingTreeDirs => match &event {
                Event::FsDone { error } => match error {
                    Some(detail) => {
                        let err = InstallError::Fs {
                            path: m.root_mount_point.clone(),
                            detail: detail.clone(),
                        };
                        abort_with(m, err)
                    },
                    None => {
                        m.phase = Phase::CreatingSymlinks;
                        let links = tree_links(&m.root_mount_point);
                        (m, Action::ReplaceSymlinks { links })
                    },
                },
                _ => (m, Action::Done),
            },
            Phase::CreatingSymlinks => match &event {
                Event::FsDone { error } => match error {
                    Some(detail) => {
                        let err = InstallError::Fs {
                            path: m.root_mount_point.clone(),
                            detail: detail.clone(),
                        };
                        abort_with(m, err)
                    },
                    None => {
                        m.phase = Phase::WritingBaseFiles;
                        let files = base_files(&m.root_mount_point);
                        (m, Action::WriteFiles { files })
                    },
                },
                _ => (m, Action::Done),
            },
            Phase::WritingBaseFiles => match &event {
                Event::FsDone { error } => match error {
                    Some(detail) => {
                        let err = InstallError::Fs {
                            path: m.root_mount_point.clone(),
                            detail: detail.clone(),
                        };
                        abort_with(m, err)
                    },
                    None => {
                        m.phase = Phase::CheckingStage { index: 0 };
                        let names = recipes();
                        proof {
                            assert(names.deep_view().len() == 9);
                            assert(names@.len() == 9);
                            assert(names.deep_view()[0] == names@[0]@);
                        }
                        let path = stage_path(&names[0]);
                        (m, Action::CheckPath { path })
                    },
                },
                _ => (m, Action::Done),
            },
            Phase::CheckingStage { index } => match &event {
                Event::PathChecked { exists } => {
                    let names = recipes();
                    proof {
                        assert(names.deep_view().len() == 9);
                        assert(names@.len() == 9);
                        assert(names.deep_view()[index as int] == names@[index as int]@);
                    }
                    if *exists {
                        m.phase = Phase::CopyingStage { index };
                        let stage = stage_path(&names[index]);
                        let mappings = stage_mappings(&stage, &m.root_mount_point);
                        (m, Action::CopyStage { mappings })
                    } else if index + 1 < names.len() {
                        m.phase = Phase::CheckingStage { index: index + 1 };
                        proof {
                            assert(names.deep_view()[index + 1] == names@[index as int + 1]@);
                        }
                        let path = stage_path(&names[index + 1]);
                        (m, Action::CheckPath { path })
                    } else {
                        m.phase = Phase::FindingKernel { index: 0 };
                        let candidates = kernel_candidates();
                        proof {
                            assert(candidates.deep_view().len() == 5);
                            assert(candidates@.len() == 5);
                            assert(candidates.deep_view()[0] == candidates@[0]@);
                        }
                        let path = candidates[0].clone();
                        (m, Action::CheckPath { path })
                    }
                },
                _ => (m, Action::Done),
            },
            Phase::CopyingStage { index } => match &event {
                Event::StageCopied { count, error } => match error {
                    Some(detail) => {
                        let names = recipes();
                        proof {
                            assert(names.deep_view().len() == 9);
                            assert(names@.len() == 9);
                            assert(names.deep_view()[index as int] == names@[index as int]@);
                        }
                        let err = InstallError::Fs {
                            path: stage_path(&names[index]),
                            detail: detail.clone(),
                        };
                        abort_with(m, err)
                    },
                    None => {
                        m.files_installed = match m.files_installed.checked_add(*count) {
                            Some(v) => v,
                            None => u64::MAX,
                        };
                        let names = recipes();
                        proof {
                            assert(names.deep_view().len() == 9);
                            assert(names@.len() == 9);
                        }
                        if index + 1 < names.len() {
                            m.phase = Phase::CheckingStage { index: index + 1 };
                            proof {
                                assert(names.deep_view()[index + 1] == names@[index as int + 1]@);
                            }
                            let path = stage_path(&names[index + 1]);
                            (m, Action::CheckPath { path })
                        } else {
                            m.phase = Phase::FindingKernel { index: 0 };
                            let candidates = kernel_candidates();
                            proof {
                                assert(candidates.deep_view().len() == 5);
                                assert(candidates@.len() == 5);
                                assert(candidates.deep_view()[0] == candidates@[0]@);
                            }
                            let path = candidates[0].clone();
                            (m, Action::CheckPath { path })
                        }
                    },
                },
                _ => (m, Action::Done),
            },
            _ => (m, Action::Done),
        }
    }
}

/// The progress fields other than the initial-filesystem source are
/// untouched.
pub open spec fn same_aux_except_initfs(pre: InstallPipeline, m: InstallPipeline) -> bool {
    &&& m.volume_identity == pre.volume_identity
    &&& m.direct_mount_error == pre.direct_mount_error
    &&& m.loader_source == pre.loader_source
    &&& m.efi_mounted == pre.efi_mounted
    &&& m.root_mount == pre.root_mount
    &&& m.files_installed == pre.files_installed
}

/// The transition relation of the kernel phases: copy the first existing
/// kernel candidate into the root boot directory; then, if an
/// initial-filesystem image exists, copy it and verify the copied byte
/// length equals the source length, failing loudly on mismatch. A missing
/// image is no error; a corrupt copy is.
pub open spec fn kernel_rel(pre: InstallPipeline, e: Event, m: InstallPipeline, a: Action) -> bool {
    match pre.phase {
        Phase::FindingKernel { index } => match e {
            Event::PathChecked { exists } => if exists {
                advanced(pre, m, Phase::CopyingKernel) && (a matches Action::CopyFile {
                    source,
                    dest,
                } && source@ == kernel_candidates_spec()[index as int] && dest@
                    == pre.root_mount_point@ + "/boot/kernel"@)
            } else if (index + 1) < kernel_candidates_spec().len() {
                advanced(pre, m, Phase::FindingKernel { index: (index + 1) as usize }) && (a
                    matches Action::CheckPath { path } && path@
                    == kernel_candidates_spec()[index + 1])
            } else {
                failed(pre, m, a) && (m.failure matches Some(InstallError::Verify { what, detail })
                    && what@ == "kernel image"@ && detail@ == "searched: "@
                    + crate::text::join_sep_spec(kernel_candidates_spec(), ", "@))
            },
            _ => true,
        },
        Phase::CopyingKernel => match e {
            Event::Copied { error } => match error {
                Some(detail) => failed(pre, m, a) && (m.failure matches Some(
                    InstallError::Fs { path, detail: d },
                ) && path@ == pre.root_mount_point@ + "/boot/kernel"@ && d@ == detail@),
                None => advanced(pre, m, Phase::FindingInitfs { index: 0 }) && (a
                    matches Action::CheckPath { path } && path@ == initfs_candidates_spec()[0]),
            },
            _ => true,
        },
        Phase::FindingInitfs { index } => match e {
            Event::PathChecked { exists } => if exists {
                &&& same_core(pre, m)
                &&& same_aux_except_initfs(pre, m)
                &&& (m.initfs_source matches Some(src) && src@ == initfs_candidates_spec()[
                    index as int])
                &&& m.phase == Phase::QueryingInitfsLength
                &&& m.failure is None
                &&& (a matches Action::QueryLength { path } && path@ == initfs_candidates_spec()[
                    index as int])
            } else if (index + 1) < initfs_candidates_spec().len() {
                advanced(pre, m, Phase::FindingInitfs { index: (index + 1) as usize }) && (a
                    matches Action::CheckPath { path } && path@
                    == initfs_candidates_spec()[index + 1])
            } else {
                advanced(pre, m, Phase::CreatingEfiBootDir) && (a
                    matches Action::EnsureDirs { paths } && paths.deep_view() == seq![
                    pre.efi_mount_point@ + "/boot"@,
                ])
            },
            _ => true,
        },
        Phase::QueryingInitfsLength => match e {
            Event::Length { len } => match len {
                None => failed(pre, m, a) && (m.failure matches Some(
                    InstallError::Fs { path, detail },
                ) && Some(path@) == match pre.initfs_source {
                    Some(s) => Some(s@),
                    None => None,
                }),
                Some(n) => advanced(pre, m, Phase::CopyingInitfs { expected: n }) && (a
                    matches Action::CopyFile { source, dest } && Some(source@) == match pre
                    .initfs_source {
                    Some(s) => Some(s@),
                    None => None,
                } && dest@ == pre.root_mount_point@ + "/boot/initfs"@),
            },
            _ => true,
        },
        Phase::CopyingInitfs { expected } => match e {
            Event::Copied { error } => match error {
                Some(detail) => failed(pre, m, a) && (m.failure matches Some(
                    InstallError::Fs { path, detail: d },
                ) && path@ == pre.root_mount_point@ + "/boot/initfs"@ && d@ == detail@),
                None => advanced(pre, m, Phase::VerifyingInitfsLength { expected }) && (a
                    matches Action::QueryLength { path } && path@ == pre.root_mount_point@
                    + "/boot/initfs"@),
            },
            _ => true,
        },
        Phase::VerifyingInitfsLength { expected } => match e {
            Event::Length { len } => match len {
                None => failed(pre, m, a) && (m.failure matches Some(
                    InstallError::Fs { path, detail },
                ) && path@ == pre.root_mount_point@ + "/boot/initfs"@),
                Some(n) => if n == expected {
                    advanced(pre, m, Phase::CreatingEfiBootDir) && (a
                        matches Action::EnsureDirs { paths } && paths.deep_view() == seq![
                        pre.efi_mount_point@ + "/boot"@,
                    ])
                } else {
                    failed(pre, m, a) && (m.failure matches Some(
                        InstallError::Verify { what, detail },
                    ) && what@ == "initial filesystem copy length"@ && detail@
                        == pre.root_mount_point@ + "/boot/initfs: expected "@
                        + crate::text::dec_of(expected as nat) + " bytes, found "@
                        + crate::text::dec_of(n as nat) + " bytes"@)
                },
            },
            _ => true,
        },
        _ => true,
    }
}

/// Whether `p` is one of the kernel phases.
pub open spec fn phase_in_kernel(p: Phase) -> bool {
    match p {
        Phase::FindingKernel { .. } | Phase::CopyingKernel | Phase::FindingInitfs { .. }
            | Phase::QueryingInitfsLength | Phase::CopyingInitfs { .. }
            | Phase::VerifyingInitfsLength { .. } => true,
        _ => false,
    }
}

impl InstallPipeline {
    /// Step the kernel phases. A corrupted or truncated copy of the
    /// initial-filesystem image is detected by byte-length comparison and
    /// fails the run.
    pub fn step_kernel(self, event: Event) -> (r: (InstallPipeline, Action))
        requires
            self.wf(),
            self.expects(event),
            phase_in_kernel(self.phase),
        ensures
            r.0.wf(),
            kernel_rel(self, event, r.0, r.1),
    {
        let mut m = self;
        match m.phase {
            Phase::FindingKernel { index } => match &event {
                Event::PathChecked { exists } => {
                    let candidates = kernel_candidates();
                    proof {
                        assert(candidates.deep_view().len() == 5);
                        assert(candidates@.len() == 5);
                        assert(candidates.deep_view()[index as int] == candidates@[index as int]@);
                    }
                    if *exists {
                        m.phase = Phase::CopyingKernel;
                        let source = candidates[index].clone();
                        let dest = m.root_mount_point.clone().concat("/boot/kernel");
                        (m, Action::CopyFile { source, dest })
                    } else if index + 1 < candidates.len() {
                        m.phase = Phase::FindingKernel { index: index + 1 };
                        proof {
                            assert(candidates.deep_view()[index + 1] == candidates@[
                                index as int + 1
                            ]@);
                        }
                        let path = candidates[index + 1].clone();
                        (m, Action::CheckPath { path })
                    } else {
                        let listing = crate::text::join_with(&candidates, 0, candidates.len(), ", ");
                        proof {
                            assert(candidates.deep_view().subrange(0, candidates@.len() as int)
                                =~~= kernel_candidates_spec());
                        }
                        let err = InstallError::Verify {
                            what: sv("kernel image"),
                            detail: String::from_str("searched: ").concat(listing.as_str()),
                        };
                        abort_with(m, err)
                    }
                },
                _ => (m, Action::Done),
            },
            Phase::CopyingKernel => match &event {
                Event::Copied { error } => match error {
                    Some(detail) => {
                        let err = InstallError::Fs {
                            path: m.root_mount_point.clone().concat("/boot/kernel"),
                            detail: detail.clone(),
                        };
                        abort_with(m, err)
                    },
                    None => {
                        m.phase = Phase::FindingInitfs { index: 0 };
                        let candidates = initfs_candidates();
                        proof {
                            assert(candidates.deep_view().len() == 3);
                            assert(candidates@.len() == 3);
                            assert(candidates.deep_view()[0] == candidates@[0]@);
                        }
                        let path = candidates[0].clone();
                        (m, Action::CheckPath { path })
                    },
                },
                _ => (m, Action::Done),
            },
            Phase::FindingInitfs { index } => match &event {
                Event::PathChecked { exists } => {
                    let candidates = initfs_candidates();
                    proof {
                        assert(candidates.deep_view().len() == 3);
                        assert(candidates@.len() == 3);
                        assert(candidates.deep_view()[index as int] == candidates@[index as int]@);
                    }
                    if *exists {
                        m.initfs_source = Some(candidates[index].clone());
                        m.phase = Phase::QueryingInitfsLength;
                        let path = candidates[index].clone();
                        (m, Action::QueryLength { path })
                    } else if index + 1 < candidates.len() {
                        m.phase = Phase::FindingInitfs { index: index + 1 };
                        proof {
                            assert(candidates.deep_view()[index + 1] == candidates@[
                                index as int + 1
                            ]@);
                        }
                        let path = candidates[index + 1].clone();
                        (m, Action::CheckPath { path })
                    } else {
                        m.phase = Phase::CreatingEfiBootDir;
                        let mut paths: Vec<String> = Vec::new();
                        paths.push(m.efi_mount_point.clone().concat("/boot"));
                        proof {
                            assert(paths.deep_view() =~~= seq![m.efi_mount_point@ + "/boot"@]);
                        }
                        (m, Action::EnsureDirs { paths })
                    }
                },
                _ => (m, Action::Done),
            },
            Phase::QueryingInitfsLength => match &event {
                Event::Length { len } => match len {
                    None => {
                        let path = match &m.initfs_source {
                            Some(s) => s.clone(),
                            None => sv(""),
                        };
                        let err = InstallError::Fs {
                            path,
                            detail: sv("could not read the image length"),
                        };
                        abort_with(m, err)
                    },
                    Some(n) => {
                        let source = match &m.initfs_source {
                            Some(s) => s.clone(),
                            None => sv(""),
                        };
                        m.phase = Phase::CopyingInitfs { expected: *n };
                        let dest = m.root_mount_point.clone().concat("/boot/initfs");
                        (m, Action::CopyFile { source, dest })
                    },
                },
                _ => (m, Action::Done),
            },
            Phase::CopyingInitfs { expected } => match &event {
                Event::Copied { error } => match error {
                    Some(detail) => {
                        let err = InstallError::Fs {
                            path: m.root_mount_point.clone().concat("/boot/initfs"),
                            detail: detail.clone(),
                        };
                        abort_with(m, err)
                    },
                    None => {
                        m.phase = Phase::VerifyingInitfsLength { expected };
                        let path = m.root_mount_point.clone().concat("/boot/initfs");
                        (m, Action::QueryLength { path })
                    },
                },
                _ => (m, Action::Done),
            },
            Phase::VerifyingInitfsLength { expected } => match &event {
                Event::Length { len } => match len {
                    None => {
                        let err = InstallError::Fs {
                            path: m.root_mount_point.clone().concat("/boot/initfs"),
                            detail: sv("could not read the copied length"),
                        };
                        abort_with(m, err)
                    },
                    Some(n) => {
                        if *n == expected {
                            m.phase = Phase::CreatingEfiBootDir;
                            let mut paths: Vec<String> = Vec::new();
                            paths.push(m.efi_mount_point.clone().concat("/boot"));
                            proof {
                                assert(paths.deep_view() =~~= seq![m.efi_mount_point@ + "/boot"@]);
                            }
                            (m, Action::EnsureDirs { paths })
                        } else {
                            let detail = m.root_mount_point.clone().concat(
                                "/boot/initfs: expected ",
                            ).concat(crate::text::u64_to_dec(expected).as_str()).concat(
                                " bytes, found ",
                            ).concat(crate::text::u64_to_dec(*n).as_str()).concat(" bytes");
                            let err = InstallError::Verify {
                                what: sv("initial filesystem copy length"),
                                detail,
                            };
                            abort_with(m, err)
                        }
                    },
                },
                _ => (m, Action::Done),
            },
            _ => (m, Action::Done),
        }
    }
}

/// The transition relation of the closing phases: write the boot
/// configuration to its three locations with the chosen root reference,
/// leave the UEFI auto-boot script, sync, unmount both partitions
/// best-effort, and clean up the mount-point directories.
pub open spec fn finish_rel(pre: InstallPipeline, e: Event, m: InstallPipeline, a: Action) -> bool {
    match pre.phase {
        Phase::CreatingEfiBootDir => match e {
            Event::FsDone { error } => match error {
                Some(detail) => failed(pre, m, a) && (m.failure matches Some(
                    InstallError::Fs { path, detail: d },
                ) && path@ == pre.efi_mount_point@ + "/boot"@ && d@ == detail@),
                None => advanced(pre, m, Phase::WritingBootConfigs) && (a
                    matches Action::WriteFiles { files } && files@.map_values(
                    |p: FilePlan| file_view(p),
                ) == config_files_spec(
                    pre.efi_mount_point@,
                    pre.root_mount_point@,
                    crate::bootconf::root_reference_spec(
                        pre.volume_identity,
                        pre.root_partition@,
                    ),
                )),
            },
            _ => true,
        },
        Phase::WritingBootConfigs => match e {
            Event::FsDone { error } => match error {
                Some(detail) => failed(pre, m, a) && (m.failure matches Some(
                    InstallError::Fs { path, detail: d },
                ) && path@ == pre.efi_mount_point@ + "/boot/redox.conf"@ && d@ == detail@),
                None => advanced(pre, m, Phase::SyncingBeforeUnmount) && (a
                    matches Action::RunToolBestEffort { tool } && tool_is(
                    tool,
                    "sync"@,
                    Seq::empty(),
                )),
            },
            _ => true,
        },
        Phase::SyncingBeforeUnmount => match e {
            Event::Tool { .. } => advanced(pre, m, Phase::SettlingBeforeUnmount) && (a
                matches Action::Sleep { seconds } && seconds == 1),
            _ => true,
        },
        Phase::SettlingBeforeUnmount => match e {
            Event::Slept => advanced(pre, m, Phase::UnmountingAll) && (a
                matches Action::RunBatchBestEffort { tools } && tools@.len() == 2 && tool_is(
                tools@[0],
                "umount"@,
                seq![pre.root_mount_point@],
            ) && tool_is(tools@[1], "umount"@, seq![pre.efi_mount_point@])),
            _ => true,
        },
        Phase::UnmountingAll => match e {
            Event::BatchDone => {
                &&& same_core(pre, m)
                &&& same_aux_except_mounts(pre, m)
                &&& m.efi_mounted == false
                &&& m.root_mount == RootMountKind::Unmounted
                &&& m.phase == Phase::CleaningMountDirs
                &&& m.failure is None
                &&& (a matches Action::RemoveDirs { paths } && paths.deep_view() == seq![
                    pre.root_mount_point@,
                    pre.efi_mount_point@,
                ])
            },
            _ => true,
        },
        Phase::CleaningMountDirs => match e {
            Event::FsDone { .. } => advanced(pre, m, Phase::Finished) && a is Done,
            _ => true,
        },
        _ => true,
    }
}

/// Whether `p` is one of the closing phases.
pub open spec fn phase_in_finish(p: Phase) -> bool {
    match p {
        Phase::CreatingEfiBootDir | Phase::WritingBootConfigs | Phase::SyncingBeforeUnmount
            | Phase::SettlingBeforeUnmount | Phase::UnmountingAll
            | Phase::CleaningMountDirs => true,
        _ => false,
    }
}

impl InstallPipeline {
    /// Step the closing phases. The boot configuration names the root by
    /// the captured volume identity when one exists, else by the root
    /// partition device path.
    pub fn step_finish(self, event: Event) -> (r: (InstallPipeline, Action))
        requires
            self.wf(),
            self.expects(event),
            phase_in_finish(self.phase),
        ensures
            r.0.wf(),
            finish_rel(self, event, r.0, r.1),
    {
        let mut m = self;
        match m.phase {
            Phase::CreatingEfiBootDir => match &event {
                Event::FsDone { error } => match error {
                    Some(detail) => {
                        let err = InstallError::Fs {
                            path: m.efi_mount_point.clone().concat("/boot"),
                            detail: detail.clone(),
                        };
                        abort_with(m, err)
                    },
                    None => {
                        m.phase = Phase::WritingBootConfigs;
                        let root_ref = crate::bootconf::root_reference(
                            &m.volume_identity,
                            m.root_partition.as_str(),
                        );
                        let files = config_files(&m.efi_mount_point, &m.root_mount_point, &root_ref);
                        (m, Action::WriteFiles { files })
                    },
                },
                _ => (m, Action::Done),
            },
            Phase::WritingBootConfigs => match &event {
                Event::FsDone { error } => match error {
                    Some(detail) => {
                        let err = InstallError::Fs {
                            path: m.efi_mount_point.clone().concat("/boot/redox.conf"),
                            detail: detail.clone(),
                        };
                        abort_with(m, err)
                    },
                    None => {
                        m.phase = Phase::SyncingBeforeUnmount;
                        let tool = tool_plain("sync");
                        (m, Action::RunToolBestEffort { tool })
                    },
                },
                _ => (m, Action::Done),
            },
            Phase::SyncingBeforeUnmount => match &event {
                Event::Tool { .. } => {
                    m.phase = Phase::SettlingBeforeUnmount;
                    (m, Action::Sleep { seconds: 1 })
                },
                _ => (m, Action::Done),
            },
            Phase::SettlingBeforeUnmount => match &event {
                Event::Slept => {
                    m.phase = Phase::UnmountingAll;
                    let mut tools: Vec<Tool> = Vec::new();
                    tools.push(tool_one_arg("umount", &m.root_mount_point));
                    tools.push(tool_one_arg("umount", &m.efi_mount_point));
                    (m, Action::RunBatchBestEffort { tools })
                },
                _ => (m, Action::Done),
            },
            Phase::UnmountingAll => match &event {
                Event::BatchDone => {
                    m.efi_mounted = false;
                    m.root_mount = RootMountKind::Unmounted;
                    m.phase = Phase::CleaningMountDirs;
                    let mut paths: Vec<String> = Vec::new();
                    paths.push(m.root_mount_point.clone());
                    paths.push(m.efi_mount_point.clone());
                    proof {
                        assert(paths.deep_view() =~~= seq![
                            m.root_mount_point@,
                            m.efi_mount_point@,
                        ]);
                    }
                    (m, Action::RemoveDirs { paths })
                },
                _ => (m, Action::Done),
            },
            Phase::CleaningMountDirs => match &event {
                Event::FsDone { .. } => {
                    m.phase = Phase::Finished;
                    (m, Action::Done)
                },
                _ => (m, Action::Done),
            },
            _ => (m, Action::Done),
        }
    }

    /// The full transition relation of one step, by phase group.
    pub open spec fn step_rel(pre: InstallPipeline, e: Event, m: InstallPipeline, a: Action) -> bool {
        if pre.phase is Finished {
            m == pre && a is Done
        } else if pre.phase is Failed {
            m == pre && (a matches Action::Abort { error } && pre.failure == Some(error))
        } else if phase_in_partition(pre.phase) {
            partition_rel(pre, e, m, a)
        } else if phase_in_format(pre.phase) {
            format_rel(pre, e, m, a)
        } else if phase_in_mount(pre.phase) {
            mount_rel(pre, e, m, a)
        } else if phase_in_bootloader(pre.phase) {
            bootloader_rel(pre, e, m, a)
        } else if phase_in_populate(pre.phase) {
            populate_rel(pre, e, m, a)
        } else if phase_in_kernel(pre.phase) {
            kernel_rel(pre, e, m, a)
        } else if phase_in_finish(pre.phase) {
            finish_rel(pre, e, m, a)
        } else {
            prepare_rel(pre, e, m, a)
        }
    }

    /// Step the pipeline: consume the event answering the last action and
    /// emit the next action. Terminal phases repeat their terminal action.
    pub fn step(self, event: Event) -> (r: (InstallPipeline, Action))
        requires
            self.wf(),
            self.expects(event),
        ensures
            r.0.wf(),
            InstallPipeline::step_rel(self, event, r.0, r.1),
    {
        match self.phase {
            Phase::Finished => (self, Action::Done),
            Phase::Failed => {
                let err = match &self.failure {
                    Some(e) => e.duplicate(),
                    None => InstallError::Verify {
                        what: sv("pipeline state"),
                        detail: sv("failed without a recorded failure"),
                    },
                };
                (self, Action::Abort { error: err })
            },
            Phase::CheckingDiskPath | Phase::ReadingMountTable | Phase::ListingMounts
                | Phase::UnmountingExisting | Phase::SettlingAfterUnmount => self.step_prepare(
                event,
            ),
            Phase::WipingSignatures | Phase::SettlingAfterWipe | Phase::CreatingLabel
                | Phase::SettlingAfterLabel | Phase::CreatingEfiPartition | Phase::SettingEspFlag
                | Phase::SettlingAfterEsp | Phase::CreatingRootPartition
                | Phase::SyncingPartitions | Phase::SettlingAfterSync | Phase::RereadingTable
                | Phase::SettlingAfterReread | Phase::CheckingEfiNode | Phase::CheckingRootNode {
                ..
            } => self.step_partition(event),
            Phase::FormattingEfi | Phase::FormattingRootStandard | Phase::CheckingFormatterBinary
                | Phase::CheckingRootBeforeFormat | Phase::QueryingRootSize
                | Phase::WipingRootSignatures | Phase::ZeroingRootStart
                | Phase::SyncingBeforeFormat | Phase::SettlingBeforeFormat
                | Phase::FormattingRootCustom | Phase::PersistingIdentity
                | Phase::SyncingAfterFormat | Phase::SettlingAfterFormat => self.step_format(event),
            Phase::CreatingMountDirs | Phase::MountingEfi | Phase::MountingRootDirect
                | Phase::CheckingDriverBinary | Phase::SpawningDriver | Phase::SettlingAfterSpawn
                | Phase::CheckingMountpoint | Phase::ProbingRootWrite => self.step_mount(event),
            Phase::CreatingEfiTree | Phase::FindingBootloader { .. } | Phase::CopyingPrimaryLoader
                | Phase::CopyingVendorLoader | Phase::RegisteringBootEntry => self.step_bootloader(
                event,
            ),
            Phase::CreatingTreeDirs | Phase::CreatingSymlinks | Phase::WritingBaseFiles
                | Phase::CheckingStage { .. } | Phase::CopyingStage { .. } => self.step_populate(
                event,
            ),
            Phase::FindingKernel { .. } | Phase::CopyingKernel | Phase::FindingInitfs { .. }
                | Phase::QueryingInitfsLength | Phase::CopyingInitfs { .. }
                | Phase::VerifyingInitfsLength { .. } => self.step_kernel(event),
            Phase::CreatingEfiBootDir | Phase::WritingBootConfigs | Phase::SyncingBeforeUnmount
                | Phase::SettlingBeforeUnmount | Phase::UnmountingAll
                | Phase::CleaningMountDirs => self.step_finish(event),
        }
    }
}

/// Owns the fixed mount points and starts provisioning runs.
pub struct DirectInstaller {
    efi_mount_point: String,
    root_mount_point: String,
}

impl DirectInstaller {
    /// The mount point the EFI partition is mounted on.
    pub closed spec fn spec_efi_mount_point(&self) -> Seq<char> {
        self.efi_mount_point@
    }

    /// The mount point the root partition is mounted on.
    pub closed spec fn spec_root_mount_point(&self) -> Seq<char> {
        self.root_mount_point@
    }

    /// An installer with the fixed temporary mount points.
    pub fn new() -> (r: DirectInstaller)
        ensures
            r.spec_efi_mount_point() == "/tmp/redox_install_efi"@,
            r.spec_root_mount_point() == "/tmp/redox_install_root"@,
    {
        DirectInstaller {
            efi_mount_point: sv("/tmp/redox_install_efi"),
            root_mount_point: sv("/tmp/redox_install_root"),
        }
    }

    /// The two partition device paths derived from the disk path.
    pub fn get_partition_names(&self, disk: &DiskInfo) -> (r: (String, String))
        ensures
            r.0@ == crate::layout::efi_partition_spec(disk.name@),
            r.1@ == crate::layout::root_partition_spec(disk.name@),
    {
        let layout = crate::layout::layout_for_name(disk.name.as_str());
        (layout.efi_partition, layout.root_partition)
    }

    /// Begin a provisioning run: the returned machine is well formed, set
    /// to the selected disk and configuration, and its first action checks
    /// that the disk path exists.
    pub fn begin_install(&self, disk: &DiskInfo, config: &crate::InstallationConfig) -> (r: (
        InstallPipeline,
        Action,
    ))
        ensures
            r.0.wf(),
            r.0.disk_name@ == disk.name@,
            r.0.efi_size_mb == config.efi_size_mb,
            r.0.filesystem_type == config.filesystem_type,
            r.0.efi_mount_point@ == self.spec_efi_mount_point(),
            r.0.root_mount_point@ == self.spec_root_mount_point(),
            r.0.phase == Phase::CheckingDiskPath,
            r.0.volume_identity is None,
            r.0.direct_mount_error is None,
            r.0.loader_source is None,
            r.0.initfs_source is None,
            r.0.efi_mounted == false,
            r.0.root_mount == RootMountKind::Unmounted,
            r.0.files_installed == 0,
            r.0.failure is None,
            (r.1 matches Action::CheckPath { path } && path@ == disk.name@),
    {
        let layout = crate::layout::layout_for_name(disk.name.as_str());
        let m = InstallPipeline {
            disk_name: disk.name.clone(),
            efi_size_mb: config.efi_size_mb,
            filesystem_type: config.filesystem_type,
            efi_mount_point: self.efi_mount_point.clone(),
            root_mount_point: self.root_mount_point.clone(),
            efi_partition: layout.efi_partition,
            root_partition: layout.root_partition,
            phase: Phase::CheckingDiskPath,
            volume_identity: None,
            direct_mount_error: None,
            loader_source: None,
            initfs_source: None,
            efi_mounted: false,
            root_mount: RootMountKind::Unmounted,
            files_installed: 0,
            failure: None,
        };
        let path = disk.name.clone();
        (m, Action::CheckPath { path })
    }
}

} // verus!
