//! What is fixed about a box when it is created.

use vstd::prelude::*;

use crate::clock::Timestamp;
use crate::ids::ContainerId;
use crate::options::BoxOptions;
use crate::options::BoxOptionsView;
use crate::options::RootfsSpec;
use crate::options::RootfsSpecView;
use crate::text::clone_option;
use crate::text::clone_strings;
use crate::vmm::Transport;
use crate::vmm::TransportView;
use crate::vmm::VmmKind;

verus! {

/// What the image says about the container: environment, command and
/// working directory.
#[derive(Clone, Debug)]
pub struct ContainerImageConfig {
    /// `KEY=VALUE` items.
    pub env: Vec<String>,
    pub cmd: Vec<String>,
    pub working_dir: Option<String>,
}

pub struct ContainerImageConfigView {
    pub env: Seq<Seq<char>>,
    pub cmd: Seq<Seq<char>>,
    pub working_dir: Option<Seq<char>>,
}

impl DeepView for ContainerImageConfig {
    type V = ContainerImageConfigView;

    open spec fn deep_view(&self) -> ContainerImageConfigView {
        ContainerImageConfigView {
            env: self.env.deep_view(),
            cmd: self.cmd.deep_view(),
            working_dir: self.working_dir.deep_view(),
        }
    }
}

impl ContainerImageConfig {
    pub fn duplicate(&self) -> (r: ContainerImageConfig)
        ensures
            r.deep_view() == self.deep_view(),
    {
        ContainerImageConfig {
            env: clone_strings(&self.env),
            cmd: clone_strings(&self.cmd),
            working_dir: clone_option(&self.working_dir),
        }
    }
}

/// The container of a box: its identifier, where its root filesystem comes
/// from and, once the image is pulled, what the image says about it.
#[derive(Clone, Debug)]
pub struct ContainerRuntimeConfig {
    pub id: ContainerId,
    pub image: RootfsSpec,
    pub image_config: Option<ContainerImageConfig>,
}

pub struct ContainerRuntimeConfigView {
    pub id: Seq<char>,
    pub image: RootfsSpecView,
    pub image_config: Option<ContainerImageConfigView>,
}

impl DeepView for ContainerRuntimeConfig {
    type V = ContainerRuntimeConfigView;

    open spec fn deep_view(&self) -> ContainerRuntimeConfigView {
        ContainerRuntimeConfigView {
            id: self.id@,
            image: self.image.deep_view(),
            image_config: self.image_config.deep_view(),
        }
    }
}

impl ContainerRuntimeConfig {
    pub fn duplicate(&self) -> (r: ContainerRuntimeConfig)
        ensures
            r.deep_view() == self.deep_view(),
    {
        ContainerRuntimeConfig {
            id: self.id.clone(),
            image: self.image.duplicate(),
            image_config: match &self.image_config {
                Some(c) => Some(c.duplicate()),
                None => None,
            },
        }
    }
}

/// The configuration of a box. Written once when the box is created and
/// never changed.
#[derive(Clone, Debug)]
pub struct BoxConfig {
    pub id: String,
    /// The user's name for the box. No two boxes share a name.
    pub name: Option<String>,
    pub created_at: Timestamp,
    pub container: ContainerRuntimeConfig,
    /// The options the user gave, kept so that a restart uses them again.
    pub options: BoxOptions,
    pub engine_kind: VmmKind,
    pub transport: Transport,
    /// The directory of the box.
    pub box_home: String,
    /// Where the host listens for the guest's ready signal.
    pub ready_socket_path: String,
}

pub struct BoxConfigView {
    pub id: Seq<char>,
    pub name: Option<Seq<char>>,
    pub created_at: Timestamp,
    pub container: ContainerRuntimeConfigView,
    pub options: BoxOptionsView,
    pub engine_kind: VmmKind,
    pub transport: TransportView,
    pub box_home: Seq<char>,
    pub ready_socket_path: Seq<char>,
}

impl DeepView for BoxConfig {
    type V = BoxConfigView;

    open spec fn deep_view(&self) -> BoxConfigView {
        BoxConfigView {
            id: self.id@,
            name: self.name.deep_view(),
            created_at: self.created_at,
            container: self.container.deep_view(),
            options: self.options.deep_view(),
            engine_kind: self.engine_kind,
            transport: self.transport.deep_view(),
            box_home: self.box_home@,
            ready_socket_path: self.ready_socket_path@,
        }
    }
}

impl BoxConfig {
    pub fn duplicate(&self) -> (r: BoxConfig)
        ensures
            r.deep_view() == self.deep_view(),
    {
        BoxConfig {
            id: self.id.clone(),
            name: clone_option(&self.name),
            created_at: self.created_at,
            container: self.container.duplicate(),
            options: self.options.duplicate(),
            engine_kind: self.engine_kind,
            transport: self.transport.duplicate(),
            box_home: self.box_home.clone(),
            ready_socket_path: self.ready_socket_path.clone(),
        }
    }
}

} // verus!
