//! What the machine monitor is told: shares, disks, the guest entrypoint,
//! and the way to reach the guest.

use vstd::prelude::*;

use crate::error::BoxliteError;
use crate::error::ErrorKind;
use crate::error::ErrorView;
use crate::options::SecurityOptions;
use crate::text::chars_of;
use crate::text::chars_eq_str;
use crate::text::clone_option;
use crate::text::clone_pairs;
use crate::text::clone_strings;
use crate::text::push_str;
use crate::text::string_of;
use crate::text::to_lowercase;
use crate::text::unicode_lowercase;

verus! {

// ============================================================================
// Engines
// ============================================================================

/// The machine monitors that can host a box.
#[derive(Clone, Copy, Debug, PartialEq, Eq, Hash, Structural)]
pub enum VmmKind {
    Libkrun,
    Firecracker,
}

/// The failure reported for an engine name that is not known.
pub open spec fn unknown_engine_failure(name: Seq<char>) -> ErrorView {
    ErrorView {
        kind: ErrorKind::Engine,
        message: "Unknown engine type: '"@ + name + "'. Supported: libkrun, firecracker"@,
    }
}

/// The engine that a name in lowercase stands for.
pub open spec fn engine_named(lower: Seq<char>) -> Option<VmmKind> {
    if lower == "libkrun"@ {
        Some(VmmKind::Libkrun)
    } else if lower == "firecracker"@ {
        Some(VmmKind::Firecracker)
    } else {
        None
    }
}

impl VmmKind {
    /// The engine that `lower` names. `lower` is the lowercase form of the
    /// name `given`, which is quoted in the failure.
    pub fn from_lowercase(lower: &str, given: &str) -> (r: Result<VmmKind, BoxliteError>)
        ensures
            match r {
                Ok(kind) => engine_named(lower@) == Some(kind),
                Err(e) => engine_named(lower@) is None && e.deep_view() == unknown_engine_failure(
                    given@,
                ),
            },
    {
        let l = chars_of(lower);
        if chars_eq_str(&l, "libkrun") {
            Ok(VmmKind::Libkrun)
        } else if chars_eq_str(&l, "firecracker") {
            Ok(VmmKind::Firecracker)
        } else {
            let mut m = chars_of("Unknown engine type: '");
            push_str(&mut m, given);
            push_str(&mut m, "'. Supported: libkrun, firecracker");
            Err(BoxliteError::Engine(string_of(&m)))
        }
    }

    /// The engine that a name stands for, whatever its case.
    pub fn from_str(s: &str) -> (r: Result<VmmKind, BoxliteError>)
        ensures
            match r {
                Ok(kind) => engine_named(unicode_lowercase(s@)) == Some(kind),
                Err(e) => engine_named(unicode_lowercase(s@)) is None && e.deep_view()
                    == unknown_engine_failure(s@),
            },
    {
        let lower = to_lowercase(s);
        VmmKind::from_lowercase(lower.as_str(), s)
    }
}

// ============================================================================
// Transport
// ============================================================================

/// How the host reaches the guest agent.
#[derive(Clone, Debug)]
pub enum Transport {
    /// A Unix-domain socket on the host.
    Unix { socket_path: String },
    /// A vsock port.
    Vsock { port: u32 },
}

pub enum TransportView {
    Unix { socket_path: Seq<char> },
    Vsock { port: u32 },
}

impl DeepView for Transport {
    type V = TransportView;

    open spec fn deep_view(&self) -> TransportView {
        match self {
            Transport::Unix { socket_path } => TransportView::Unix { socket_path: socket_path@ },
            Transport::Vsock { port } => TransportView::Vsock { port: *port },
        }
    }
}

impl Transport {
    /// The transport over the Unix socket at the given path.
    pub fn unix(socket_path: &str) -> (r: Transport)
        ensures
            r.deep_view() == (TransportView::Unix { socket_path: socket_path@ }),
    {
        Transport::Unix { socket_path: socket_path.to_string() }
    }

    /// The socket file of the transport, where it has one. A socket file
    /// left by an earlier run must be removed before the socket is bound.
    pub fn socket_file(&self) -> (r: Option<&str>)
        ensures
            match self.deep_view() {
                TransportView::Unix { socket_path } => r matches Some(p) && p@ == socket_path,
                TransportView::Vsock { .. } => r is None,
            },
    {
        match self {
            Transport::Unix { socket_path } => Some(socket_path.as_str()),
            Transport::Vsock { .. } => None,
        }
    }

    pub fn duplicate(&self) -> (r: Transport)
        ensures
            r.deep_view() == self.deep_view(),
    {
        match self {
            Transport::Unix { socket_path } => Transport::Unix { socket_path: socket_path.clone() },
            Transport::Vsock { port } => Transport::Vsock { port: *port },
        }
    }
}

// ============================================================================
// Shares
// ============================================================================

/// A host directory shared with the guest. The guest finds it by its tag.
#[derive(Clone, Debug)]
pub struct FsShare {
    pub tag: String,
    pub host_path: String,
    pub read_only: bool,
}

pub struct FsShareView {
    pub tag: Seq<char>,
    pub host_path: Seq<char>,
    pub read_only: bool,
}

impl DeepView for FsShare {
    type V = FsShareView;

    open spec fn deep_view(&self) -> FsShareView {
        FsShareView { tag: self.tag@, host_path: self.host_path@, read_only: self.read_only }
    }
}

/// The directories shared with the guest, in the order they were added.
#[derive(Clone, Debug)]
pub struct FsShares {
    shares: Vec<FsShare>,
}

impl DeepView for FsShares {
    type V = Seq<FsShareView>;

    closed spec fn deep_view(&self) -> Seq<FsShareView> {
        self.shares.deep_view()
    }
}

impl FsShares {
    pub fn new() -> (r: FsShares)
        ensures
            r.deep_view() == Seq::<FsShareView>::empty(),
    {
        let r = FsShares { shares: Vec::new() };
        assert(r.shares.deep_view() =~= Seq::empty());
        r
    }

    /// Adds a share after those already there.
    pub fn add(&mut self, tag: &str, path: String, read_only: bool)
        ensures
            final(self).deep_view() == old(self).deep_view().push(
                FsShareView { tag: tag@, host_path: path@, read_only },
            ),
    {
        let ghost before = self.shares.deep_view();
        let share = FsShare { tag: tag.to_string(), host_path: path, read_only };
        self.shares.push(share);
        assert(self.shares.deep_view() =~= before.push(share.deep_view()));
    }

    pub fn shares(&self) -> (r: &Vec<FsShare>)
        ensures
            r.deep_view() == self.deep_view(),
    {
        &self.shares
    }

    pub fn duplicate(&self) -> (r: FsShares)
        ensures
            r.deep_view() == self.deep_view(),
    {
        let mut shares: Vec<FsShare> = Vec::new();
        let mut i: usize = 0;
        while i < self.shares.len()
            invariant
                i <= self.shares.len(),
                shares.len() == i,
                forall|j: int|
                    0 <= j < i ==> (#[trigger] shares@[j]).deep_view()
                        == self.shares@[j].deep_view(),
            decreases self.shares.len() - i,
        {
            let s = &self.shares[i];
            shares.push(
                FsShare { tag: s.tag.clone(), host_path: s.host_path.clone(), read_only: s.read_only },
            );
            i += 1;
        }
        assert(shares.deep_view() =~= self.shares.deep_view());
        FsShares { shares }
    }
}

impl Default for FsShares {
    fn default() -> (r: FsShares)
        ensures
            r.deep_view() == Seq::<FsShareView>::empty(),
    {
        FsShares::new()
    }
}

// ============================================================================
// Disks
// ============================================================================

/// The format of a disk image.
#[derive(Clone, Copy, Debug, PartialEq, Eq, Structural)]
pub enum DiskFormat {
    /// A raw image, without a header.
    Raw,
    /// QCOW2, copy on write.
    Qcow2,
}

impl DiskFormat {
    /// The name of the format as the machine monitor knows it.
    pub fn as_str(&self) -> (r: &'static str)
        ensures
            r@ == match *self {
                DiskFormat::Raw => "raw"@,
                DiskFormat::Qcow2 => "qcow2"@,
            },
    {
        match self {
            DiskFormat::Raw => "raw",
            DiskFormat::Qcow2 => "qcow2",
        }
    }
}

/// A disk image attached to the machine. The guest sees it as
/// `/dev/{block_id}`.
#[derive(Clone, Debug)]
pub struct BlockDevice {
    /// `vda`, `vdb`, ...
    pub block_id: String,
    /// The image file on the host.
    pub disk_path: String,
    pub read_only: bool,
    pub format: DiskFormat,
}

pub struct BlockDeviceView {
    pub block_id: Seq<char>,
    pub disk_path: Seq<char>,
    pub read_only: bool,
    pub format: DiskFormat,
}

impl DeepView for BlockDevice {
    type V = BlockDeviceView;

    open spec fn deep_view(&self) -> BlockDeviceView {
        BlockDeviceView {
            block_id: self.block_id@,
            disk_path: self.disk_path@,
            read_only: self.read_only,
            format: self.format,
        }
    }
}

/// The disks attached to the machine, in the order they were added.
#[derive(Clone, Debug)]
pub struct BlockDevices {
    devices: Vec<BlockDevice>,
}

impl DeepView for BlockDevices {
    type V = Seq<BlockDeviceView>;

    closed spec fn deep_view(&self) -> Seq<BlockDeviceView> {
        self.devices.deep_view()
    }
}

impl BlockDevices {
    pub fn new() -> (r: BlockDevices)
        ensures
            r.deep_view() == Seq::<BlockDeviceView>::empty(),
    {
        let r = BlockDevices { devices: Vec::new() };
        assert(r.devices.deep_view() =~= Seq::empty());
        r
    }

    /// Adds a disk after those already there.
    pub fn add(&mut self, device: BlockDevice)
        ensures
            final(self).deep_view() == old(self).deep_view().push(device.deep_view()),
    {
        let ghost before = self.devices.deep_view();
        self.devices.push(device);
        assert(self.devices.deep_view() =~= before.push(device.deep_view()));
    }

    pub fn devices(&self) -> (r: &Vec<BlockDevice>)
        ensures
            r.deep_view() == self.deep_view(),
    {
        &self.devices
    }

    pub fn duplicate(&self) -> (r: BlockDevices)
        ensures
            r.deep_view() == self.deep_view(),
    {
        let mut devices: Vec<BlockDevice> = Vec::new();
        let mut i: usize = 0;
        while i < self.devices.len()
            invariant
                i <= self.devices.len(),
                devices.len() == i,
                forall|j: int|
                    0 <= j < i ==> (#[trigger] devices@[j]).deep_view()
                        == self.devices@[j].deep_view(),
            decreases self.devices.len() - i,
        {
            let d = &self.devices[i];
            devices.push(
                BlockDevice {
                    block_id: d.block_id.clone(),
                    disk_path: d.disk_path.clone(),
                    read_only: d.read_only,
                    format: d.format,
                },
            );
            i += 1;
        }
        assert(devices.deep_view() =~= self.devices.deep_view());
        BlockDevices { devices }
    }
}

impl Default for BlockDevices {
    fn default() -> (r: BlockDevices)
        ensures
            r.deep_view() == Seq::<BlockDeviceView>::empty(),
    {
        BlockDevices::new()
    }
}

// ============================================================================
// The guest's entrypoint and root filesystem
// ============================================================================

/// What the guest runs first.
#[derive(Clone, Debug)]
pub struct Entrypoint {
    pub executable: String,
    pub args: Vec<String>,
    pub env: Vec<(String, String)>,
}

pub struct EntrypointView {
    pub executable: Seq<char>,
    pub args: Seq<Seq<char>>,
    pub env: Seq<(Seq<char>, Seq<char>)>,
}

impl DeepView for Entrypoint {
    type V = EntrypointView;

    open spec fn deep_view(&self) -> EntrypointView {
        EntrypointView {
            executable: self.executable@,
            args: self.args.deep_view(),
            env: self.env.deep_view(),
        }
    }
}

/// How the guest finds its root filesystem.
#[derive(Clone, Debug)]
pub enum RootfsInit {
    /// A directory that holds all layers merged.
    Merged { path: String },
    /// Layer directories under a writable upper directory.
    Overlay { lower_dirs: Vec<String>, upper_dir: String, work_dir: String, merged_dir: String },
    /// A block device that the guest mounts.
    Disk { device: String, mount_point: String },
}

pub enum RootfsInitView {
    Merged { path: Seq<char> },
    Overlay {
        lower_dirs: Seq<Seq<char>>,
        upper_dir: Seq<char>,
        work_dir: Seq<char>,
        merged_dir: Seq<char>,
    },
    Disk { device: Seq<char>, mount_point: Seq<char> },
}

impl DeepView for RootfsInit {
    type V = RootfsInitView;

    open spec fn deep_view(&self) -> RootfsInitView {
        match self {
            RootfsInit::Merged { path } => RootfsInitView::Merged { path: path@ },
            RootfsInit::Overlay { lower_dirs, upper_dir, work_dir, merged_dir } => {
                RootfsInitView::Overlay {
                    lower_dirs: lower_dirs.deep_view(),
                    upper_dir: upper_dir@,
                    work_dir: work_dir@,
                    merged_dir: merged_dir@,
                }
            },
            RootfsInit::Disk { device, mount_point } => RootfsInitView::Disk {
                device: device@,
                mount_point: mount_point@,
            },
        }
    }
}

impl RootfsInit {
    pub fn duplicate(&self) -> (r: RootfsInit)
        ensures
            r.deep_view() == self.deep_view(),
    {
        match self {
            RootfsInit::Merged { path } => RootfsInit::Merged { path: path.clone() },
            RootfsInit::Overlay { lower_dirs, upper_dir, work_dir, merged_dir } => {
                RootfsInit::Overlay {
                    lower_dirs: clone_strings(lower_dirs),
                    upper_dir: upper_dir.clone(),
                    work_dir: work_dir.clone(),
                    merged_dir: merged_dir.clone(),
                }
            },
            RootfsInit::Disk { device, mount_point } => RootfsInit::Disk {
                device: device.clone(),
                mount_point: mount_point.clone(),
            },
        }
    }
}

// ============================================================================
// The instance
// ============================================================================

/// Everything the process that hosts the machine is told.
#[derive(Clone, Debug)]
pub struct InstanceSpec {
    /// The box that the machine belongs to.
    pub box_id: String,
    pub security: SecurityOptions,
    pub cpus: Option<u8>,
    pub memory_mib: Option<u32>,
    pub fs_shares: FsShares,
    pub block_devices: BlockDevices,
    pub guest_entrypoint: Entrypoint,
    /// How the host reaches the guest agent.
    pub transport: Transport,
    /// Where the host listens for the guest's ready signal.
    pub ready_transport: Transport,
    pub init_rootfs: RootfsInit,
    /// The socket of the network backend. Filled in by the hosting process.
    pub network_backend_endpoint: Option<String>,
    pub home_dir: String,
    /// A file that receives the console of the machine.
    pub console_output: Option<String>,
    /// The machine outlives the process that started it.
    pub detach: bool,
    /// The process that started the machine.
    pub parent_pid: u32,
}

pub struct InstanceSpecView {
    pub box_id: Seq<char>,
    pub security: SecurityOptions,
    pub cpus: Option<u8>,
    pub memory_mib: Option<u32>,
    pub fs_shares: Seq<FsShareView>,
    pub block_devices: Seq<BlockDeviceView>,
    pub guest_entrypoint: EntrypointView,
    pub transport: TransportView,
    pub ready_transport: TransportView,
    pub init_rootfs: RootfsInitView,
    pub network_backend_endpoint: Option<Seq<char>>,
    pub home_dir: Seq<char>,
    pub console_output: Option<Seq<char>>,
    pub detach: bool,
    pub parent_pid: u32,
}

impl DeepView for InstanceSpec {
    type V = InstanceSpecView;

    open spec fn deep_view(&self) -> InstanceSpecView {
        InstanceSpecView {
            box_id: self.box_id@,
            security: self.security,
            cpus: self.cpus,
            memory_mib: self.memory_mib,
            fs_shares: self.fs_shares.deep_view(),
            block_devices: self.block_devices.deep_view(),
            guest_entrypoint: self.guest_entrypoint.deep_view(),
            transport: self.transport.deep_view(),
            ready_transport: self.ready_transport.deep_view(),
            init_rootfs: self.init_rootfs.deep_view(),
            network_backend_endpoint: self.network_backend_endpoint.deep_view(),
            home_dir: self.home_dir@,
            console_output: self.console_output.deep_view(),
            detach: self.detach,
            parent_pid: self.parent_pid,
        }
    }
}

/// The environment variable that carries the log filter into the hosting
/// process.
pub const LOG_FILTER_VAR: &'static str = "RUST_LOG";

/// The environment of the guest entrypoint with the host's log filter
/// added at the end, where the host has one.
pub open spec fn env_with_log_filter(env: Seq<(Seq<char>, Seq<char>)>, filter: Option<Seq<char>>) -> Seq<
    (Seq<char>, Seq<char>),
> {
    match filter {
        Some(f) => env.push((LOG_FILTER_VAR@, f)),
        None => env,
    }
}

/// The instance as it is handed to the hosting process: the machine as
/// configured, under the given box and security options, with the host's
/// log filter in the guest's environment and no network endpoint.
pub open spec fn handed_over(
    config: InstanceSpecView,
    box_id: Seq<char>,
    security: SecurityOptions,
    log_filter: Option<Seq<char>>,
) -> InstanceSpecView {
    InstanceSpecView {
        box_id,
        security,
        guest_entrypoint: EntrypointView {
            env: env_with_log_filter(config.guest_entrypoint.env, log_filter),
            ..config.guest_entrypoint
        },
        network_backend_endpoint: None,
        ..config
    }
}

impl InstanceSpec {
    /// The instance as it is handed to the hosting process.
    pub fn hand_over(
        &self,
        box_id: &str,
        security: SecurityOptions,
        log_filter: &Option<String>,
    ) -> (r: InstanceSpec)
        ensures
            r.deep_view() == handed_over(
                self.deep_view(),
                box_id@,
                security,
                log_filter.deep_view(),
            ),
    {
        let mut env = clone_pairs(&self.guest_entrypoint.env);
        let ghost env_before = env.deep_view();
        match log_filter {
            Some(f) => {
                env.push((LOG_FILTER_VAR.to_string(), f.clone()));
                assert(env.deep_view() =~= env_before.push((LOG_FILTER_VAR@, f@)));
            },
            None => {},
        }
        InstanceSpec {
            box_id: box_id.to_string(),
            security,
            cpus: self.cpus,
            memory_mib: self.memory_mib,
            fs_shares: self.fs_shares.duplicate(),
            block_devices: self.block_devices.duplicate(),
            guest_entrypoint: Entrypoint {
                executable: self.guest_entrypoint.executable.clone(),
                args: clone_strings(&self.guest_entrypoint.args),
                env,
            },
            transport: self.transport.duplicate(),
            ready_transport: self.ready_transport.duplicate(),
            init_rootfs: self.init_rootfs.duplicate(),
            network_backend_endpoint: None,
            home_dir: self.home_dir.clone(),
            console_output: clone_option(&self.console_output),
            detach: self.detach,
            parent_pid: self.parent_pid,
        }
    }
}

} // verus!
