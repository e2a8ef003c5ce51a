//! What a user asks of a box: image, resources, environment, volumes, ports.

use vstd::prelude::*;

use crate::error::BoxliteError;
use crate::error::ErrorKind;
use crate::text::clone_option;
use crate::text::clone_pairs;

verus! {

/// The transport protocol of a published port.
#[derive(Clone, Copy, Debug, PartialEq, Eq, Structural)]
pub enum PortProtocol {
    Tcp,
    Udp,
}

/// A port of the box published on the host.
#[derive(Clone, Debug)]
pub struct PortSpec {
    /// The host port; `None` lets the runtime pick one.
    pub host_port: Option<u16>,
    /// The port inside the box.
    pub guest_port: u16,
    pub protocol: PortProtocol,
    /// The host address to bind; `None` binds all.
    pub host_ip: Option<String>,
}

pub struct PortSpecView {
    pub host_port: Option<u16>,
    pub guest_port: u16,
    pub protocol: PortProtocol,
    pub host_ip: Option<Seq<char>>,
}

impl DeepView for PortSpec {
    type V = PortSpecView;

    open spec fn deep_view(&self) -> PortSpecView {
        PortSpecView {
            host_port: self.host_port,
            guest_port: self.guest_port,
            protocol: self.protocol,
            host_ip: self.host_ip.deep_view(),
        }
    }
}

/// A host directory mounted into the box.
#[derive(Clone, Debug)]
pub struct VolumeSpec {
    pub host_path: String,
    pub guest_path: String,
    pub read_only: bool,
}

pub struct VolumeSpecView {
    pub host_path: Seq<char>,
    pub guest_path: Seq<char>,
    pub read_only: bool,
}

impl DeepView for VolumeSpec {
    type V = VolumeSpecView;

    open spec fn deep_view(&self) -> VolumeSpecView {
        VolumeSpecView {
            host_path: self.host_path@,
            guest_path: self.guest_path@,
            read_only: self.read_only,
        }
    }
}

/// Where the root filesystem of the container comes from.
#[derive(Clone, Debug)]
pub enum RootfsSpec {
    /// An image reference, pulled from a registry.
    Image(String),
    /// A directory on the host that already holds a root filesystem.
    RootfsPath(String),
}

pub enum RootfsSpecView {
    Image(Seq<char>),
    RootfsPath(Seq<char>),
}

impl DeepView for RootfsSpec {
    type V = RootfsSpecView;

    open spec fn deep_view(&self) -> RootfsSpecView {
        match self {
            RootfsSpec::Image(r) => RootfsSpecView::Image(r@),
            RootfsSpec::RootfsPath(p) => RootfsSpecView::RootfsPath(p@),
        }
    }
}

impl RootfsSpec {
    /// The text of the reference or path.
    pub fn text(&self) -> (r: &str)
        ensures
            r@ == match self.deep_view() {
                RootfsSpecView::Image(t) => t,
                RootfsSpecView::RootfsPath(t) => t,
            },
    {
        match self {
            RootfsSpec::Image(r) => r.as_str(),
            RootfsSpec::RootfsPath(p) => p.as_str(),
        }
    }
}

/// Hints on how tightly the machine monitor is confined.
#[derive(Clone, Copy, Debug, PartialEq, Eq, Structural)]
pub struct SecurityOptions {
    /// Run the machine monitor inside a jail.
    pub jailer_enabled: bool,
    /// Filter the machine monitor's system calls.
    pub seccomp_enabled: bool,
}

/// The options of one box. A closed set of named fields.
#[derive(Clone, Debug)]
pub struct BoxOptions {
    /// CPUs of the machine; at least 1 where set.
    pub cpus: Option<u8>,
    /// Memory of the machine in MiB.
    pub memory_mib: Option<u32>,
    /// Working directory of commands run in the box.
    pub working_dir: Option<String>,
    /// Environment, in order. Duplicates are kept; the guest takes the last.
    pub env: Vec<(String, String)>,
    pub rootfs: RootfsSpec,
    pub volumes: Vec<VolumeSpec>,
    pub ports: Vec<PortSpec>,
    /// The box outlives the process that started it.
    pub detach: bool,
    /// The box is removed when it stops.
    pub auto_remove: bool,
    pub security: SecurityOptions,
}

pub struct BoxOptionsView {
    pub cpus: Option<u8>,
    pub memory_mib: Option<u32>,
    pub working_dir: Option<Seq<char>>,
    pub env: Seq<(Seq<char>, Seq<char>)>,
    pub rootfs: RootfsSpecView,
    pub volumes: Seq<VolumeSpecView>,
    pub ports: Seq<PortSpecView>,
    pub detach: bool,
    pub auto_remove: bool,
    pub security: SecurityOptions,
}

impl DeepView for BoxOptions {
    type V = BoxOptionsView;

    open spec fn deep_view(&self) -> BoxOptionsView {
        BoxOptionsView {
            cpus: self.cpus,
            memory_mib: self.memory_mib,
            working_dir: self.working_dir.deep_view(),
            env: self.env.deep_view(),
            rootfs: self.rootfs.deep_view(),
            volumes: self.volumes.deep_view(),
            ports: self.ports.deep_view(),
            detach: self.detach,
            auto_remove: self.auto_remove,
            security: self.security,
        }
    }
}

/// The options of a box for which nothing was asked: the image
/// `alpine:latest`, default resources, nothing mounted or published,
/// attached, removed on stop.
pub open spec fn default_box_options() -> BoxOptionsView {
    BoxOptionsView {
        cpus: None,
        memory_mib: None,
        working_dir: None,
        env: Seq::empty(),
        rootfs: RootfsSpecView::Image("alpine:latest"@),
        volumes: Seq::empty(),
        ports: Seq::empty(),
        detach: false,
        auto_remove: true,
        security: SecurityOptions { jailer_enabled: false, seccomp_enabled: false },
    }
}

impl Default for BoxOptions {
    fn default() -> (r: BoxOptions)
        ensures
            r.deep_view() == default_box_options(),
    {
        let r = BoxOptions {
            cpus: None,
            memory_mib: None,
            working_dir: None,
            env: Vec::new(),
            rootfs: RootfsSpec::Image("alpine:latest".to_string()),
            volumes: Vec::new(),
            ports: Vec::new(),
            detach: false,
            auto_remove: true,
            security: SecurityOptions { jailer_enabled: false, seccomp_enabled: false },
        };
        assert(r.env.deep_view() =~= Seq::empty());
        assert(r.volumes.deep_view() =~= Seq::empty());
        assert(r.ports.deep_view() =~= Seq::empty());
        r
    }
}

/// The CPU count given to a box that asked for none.
pub const DEFAULT_CPUS: u8 = 2;

/// The memory, in MiB, given to a box that asked for none.
pub const DEFAULT_MEMORY_MIB: u32 = 512;

/// Options are accepted when the image reference or root filesystem path is
/// not empty and the CPU count, where set, is at least 1.
pub open spec fn options_valid(o: BoxOptionsView) -> bool {
    &&& match o.rootfs {
        RootfsSpecView::Image(t) => t.len() > 0,
        RootfsSpecView::RootfsPath(t) => t.len() > 0,
    }
    &&& o.cpus != Some(0u8)
}

impl PortSpec {
    pub fn duplicate(&self) -> (r: PortSpec)
        ensures
            r.deep_view() == self.deep_view(),
    {
        PortSpec {
            host_port: self.host_port,
            guest_port: self.guest_port,
            protocol: self.protocol,
            host_ip: clone_option(&self.host_ip),
        }
    }
}

impl VolumeSpec {
    pub fn duplicate(&self) -> (r: VolumeSpec)
        ensures
            r.deep_view() == self.deep_view(),
    {
        VolumeSpec {
            host_path: self.host_path.clone(),
            guest_path: self.guest_path.clone(),
            read_only: self.read_only,
        }
    }
}

impl RootfsSpec {
    pub fn duplicate(&self) -> (r: RootfsSpec)
        ensures
            r.deep_view() == self.deep_view(),
    {
        match self {
            RootfsSpec::Image(r) => RootfsSpec::Image(r.clone()),
            RootfsSpec::RootfsPath(p) => RootfsSpec::RootfsPath(p.clone()),
        }
    }
}

impl BoxOptions {
    pub fn duplicate(&self) -> (r: BoxOptions)
        ensures
            r.deep_view() == self.deep_view(),
    {
        let mut volumes: Vec<VolumeSpec> = Vec::new();
        let mut i: usize = 0;
        while i < self.volumes.len()
            invariant
                i <= self.volumes.len(),
                volumes.len() == i,
                forall|j: int|
                    0 <= j < i ==> (#[trigger] volumes@[j]).deep_view()
                        == self.volumes@[j].deep_view(),
            decreases self.volumes.len() - i,
        {
            volumes.push(self.volumes[i].duplicate());
            i += 1;
        }
        assert(volumes.deep_view() =~= self.volumes.deep_view());
        let mut ports: Vec<PortSpec> = Vec::new();
        let mut k: usize = 0;
        while k < self.ports.len()
            invariant
                k <= self.ports.len(),
                ports.len() == k,
                forall|j: int|
                    0 <= j < k ==> (#[trigger] ports@[j]).deep_view() == self.ports@[j].deep_view(),
            decreases self.ports.len() - k,
        {
            ports.push(self.ports[k].duplicate());
            k += 1;
        }
        assert(ports.deep_view() =~= self.ports.deep_view());
        BoxOptions {
            cpus: self.cpus,
            memory_mib: self.memory_mib,
            working_dir: clone_option(&self.working_dir),
            env: clone_pairs(&self.env),
            rootfs: self.rootfs.duplicate(),
            volumes,
            ports,
            detach: self.detach,
            auto_remove: self.auto_remove,
            security: self.security,
        }
    }

    /// Checks the options before a box is created or built.
    pub fn sanitize(&self) -> (r: Result<(), BoxliteError>)
        ensures
            r is Ok <==> options_valid(self.deep_view()),
            r matches Err(e) ==> e.spec_kind() == ErrorKind::Config,
    {
        if self.rootfs.text().unicode_len() == 0 {
            return Err(BoxliteError::Config("image reference must not be empty".to_string()));
        }
        match self.cpus {
            Some(0) => Err(BoxliteError::Config("cpus must be at least 1".to_string())),
            _ => Ok(()),
        }
    }

    /// The CPU count of the machine.
    pub fn effective_cpus(&self) -> (r: u8)
        ensures
            r == match self.cpus {
                Some(c) => c,
                None => DEFAULT_CPUS,
            },
    {
        match self.cpus {
            Some(c) => c,
            None => DEFAULT_CPUS,
        }
    }

    /// The memory of the machine in MiB.
    pub fn effective_memory_mib(&self) -> (r: u32)
        ensures
            r == match self.memory_mib {
                Some(m) => m,
                None => DEFAULT_MEMORY_MIB,
            },
    {
        match self.memory_mib {
            Some(m) => m,
            None => DEFAULT_MEMORY_MIB,
        }
    }
}

/// The options of the runtime as a whole.
#[derive(Clone, Debug)]
pub struct BoxliteOptions {
    /// The home directory that holds the database, images and boxes.
    pub home_dir: String,
    /// Registries tried, in order, for an image reference that names none.
    pub image_registries: Vec<String>,
}

pub struct BoxliteOptionsView {
    pub home_dir: Seq<char>,
    pub image_registries: Seq<Seq<char>>,
}

impl DeepView for BoxliteOptions {
    type V = BoxliteOptionsView;

    open spec fn deep_view(&self) -> BoxliteOptionsView {
        BoxliteOptionsView {
            home_dir: self.home_dir@,
            image_registries: self.image_registries.deep_view(),
        }
    }
}

} // verus!
