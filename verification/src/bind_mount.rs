//! Bind mounts on the host, and what stands in for them where the host has
//! none.
//!
//! On Linux a directory is bound with `mount(2)`. On macOS a symbolic link
//! takes its place. Either is made in steps, each one call into the
//! system. This module says which steps to take, in which order, and what
//! a failed step means; the caller makes the calls.

use vstd::prelude::*;

use crate::error::BoxliteError;
use crate::error::ErrorKind;
use crate::error::ErrorView;
use crate::probe::parent_path;
use crate::probe::path_parent;
use crate::text::chars_of;
use crate::text::push_str;
use crate::text::string_of;

verus! {

/// What to bind where.
#[derive(Clone, Debug)]
pub struct BindMountConfig {
    /// The directory to bind from.
    pub source: String,
    /// Where the bound directory appears.
    pub target: String,
    pub read_only: bool,
}

pub struct BindMountConfigView {
    pub source: Seq<char>,
    pub target: Seq<char>,
    pub read_only: bool,
}

impl DeepView for BindMountConfig {
    type V = BindMountConfigView;

    open spec fn deep_view(&self) -> BindMountConfigView {
        BindMountConfigView {
            source: self.source@,
            target: self.target@,
            read_only: self.read_only,
        }
    }
}

impl BindMountConfig {
    /// A writable bind of `source` at `target`.
    pub fn new(source: &str, target: &str) -> (r: BindMountConfig)
        ensures
            r.deep_view() == (BindMountConfigView {
                source: source@,
                target: target@,
                read_only: false,
            }),
    {
        BindMountConfig { source: source.to_string(), target: target.to_string(), read_only: false }
    }

    /// The same bind, read-only.
    pub fn read_only(self) -> (r: BindMountConfig)
        ensures
            r.deep_view() == (BindMountConfigView { read_only: true, ..self.deep_view() }),
    {
        BindMountConfig { source: self.source, target: self.target, read_only: true }
    }
}

/// A storage failure with the given message.
pub open spec fn storage_failure(message: Seq<char>) -> ErrorView {
    ErrorView { kind: ErrorKind::Storage, message }
}

fn storage_error(message: &Vec<char>) -> (e: BoxliteError)
    ensures
        e.deep_view() == storage_failure(message@),
{
    BoxliteError::Storage(string_of(message))
}

// ============================================================================
// Linux
// ============================================================================

/// One step of a bind mount on Linux.
#[derive(Clone, Copy, Debug, PartialEq, Eq, Structural)]
pub enum MountStep {
    /// Create the target directory and its parents.
    CreateTarget,
    /// Bind the source at the target.
    Bind,
    /// Make the mount a slave, so that mount events do not spread from it.
    MakeSlave,
    /// Mount again, read-only.
    RemountReadOnly,
}

/// The steps of a bind mount, in order: the target is created, the source
/// bound, the mount made a slave and, for a read-only bind, mounted again
/// read-only.
pub open spec fn mount_steps(read_only: bool) -> Seq<MountStep> {
    if read_only {
        seq![
            MountStep::CreateTarget,
            MountStep::Bind,
            MountStep::MakeSlave,
            MountStep::RemountReadOnly,
        ]
    } else {
        seq![MountStep::CreateTarget, MountStep::Bind, MountStep::MakeSlave]
    }
}

/// Whether the target must be unmounted when the step fails: it must once
/// the bind itself has succeeded.
pub open spec fn unmount_after_failed(step: MountStep) -> bool {
    step == MountStep::MakeSlave || step == MountStep::RemountReadOnly
}

/// The failure reported when a step fails with the system's message
/// `cause`.
pub open spec fn mount_step_failure(step: MountStep, config: BindMountConfigView, cause: Seq<char>) -> ErrorView {
    storage_failure(
        match step {
            MountStep::CreateTarget => "Failed to create bind mount target "@ + config.target
                + ": "@ + cause,
            MountStep::Bind => "Failed to create bind mount "@ + config.source + " -> "@
                + config.target + ": "@ + cause,
            MountStep::MakeSlave => "Failed to set slave propagation on "@ + config.target + ": "@
                + cause,
            MountStep::RemountReadOnly => "Failed to remount "@ + config.target
                + " as read-only: "@ + cause,
        },
    )
}

/// The failure reported when the unmount fails.
pub open spec fn unmount_failure(target: Seq<char>, cause: Seq<char>) -> ErrorView {
    storage_failure("Failed to unmount "@ + target + ": "@ + cause)
}

/// What a failed step asks of the caller.
#[derive(Clone, Debug)]
pub struct MountFailure {
    /// Unmount the target first, ignoring the outcome.
    pub unmount_target: bool,
    /// Then report this.
    pub error: BoxliteError,
}

/// A bind mount on Linux.
#[derive(Debug)]
pub struct LinuxBindMount {
    target: String,
    mounted: bool,
}

pub struct MountView {
    pub target: Seq<char>,
    /// Whether the mount, or the link, is still in place.
    pub active: bool,
}

impl DeepView for LinuxBindMount {
    type V = MountView;

    closed spec fn deep_view(&self) -> MountView {
        MountView { target: self.target@, active: self.mounted }
    }
}

impl LinuxBindMount {
    /// The steps to take, in order.
    pub fn steps(config: &BindMountConfig) -> (r: Vec<MountStep>)
        ensures
            r@ == mount_steps(config.read_only),
    {
        let mut r: Vec<MountStep> = Vec::new();
        r.push(MountStep::CreateTarget);
        r.push(MountStep::Bind);
        r.push(MountStep::MakeSlave);
        if config.read_only {
            r.push(MountStep::RemountReadOnly);
        }
        assert(r@ =~= mount_steps(config.read_only));
        r
    }

    /// What to do when `step` has failed with the system's message
    /// `cause`.
    pub fn step_failed(step: MountStep, config: &BindMountConfig, cause: &str) -> (r: MountFailure)
        ensures
            r.unmount_target == unmount_after_failed(step),
            r.error.deep_view() == mount_step_failure(step, config.deep_view(), cause@),
    {
        let mut m: Vec<char> = Vec::new();
        match step {
            MountStep::CreateTarget => {
                push_str(&mut m, "Failed to create bind mount target ");
                push_str(&mut m, config.target.as_str());
                push_str(&mut m, ": ");
            },
            MountStep::Bind => {
                push_str(&mut m, "Failed to create bind mount ");
                push_str(&mut m, config.source.as_str());
                push_str(&mut m, " -> ");
                push_str(&mut m, config.target.as_str());
                push_str(&mut m, ": ");
            },
            MountStep::MakeSlave => {
                push_str(&mut m, "Failed to set slave propagation on ");
                push_str(&mut m, config.target.as_str());
                push_str(&mut m, ": ");
            },
            MountStep::RemountReadOnly => {
                push_str(&mut m, "Failed to remount ");
                push_str(&mut m, config.target.as_str());
                push_str(&mut m, " as read-only: ");
            },
        }
        push_str(&mut m, cause);
        let unmount_target = match step {
            MountStep::MakeSlave => true,
            MountStep::RemountReadOnly => true,
            _ => false,
        };
        assert(m@ =~= mount_step_failure(step, config.deep_view(), cause@).message);
        MountFailure { unmount_target, error: storage_error(&m) }
    }

    /// The mount, once every step has succeeded.
    pub fn create(config: &BindMountConfig) -> (r: LinuxBindMount)
        ensures
            r.deep_view() == (MountView { target: config.target@, active: true }),
    {
        LinuxBindMount { target: config.target.clone(), mounted: true }
    }

    pub fn target(&self) -> (r: &str)
        ensures
            r@ == self.deep_view().target,
    {
        self.target.as_str()
    }

    /// Begins the cleanup: returns the target to unmount, if the mount is
    /// still in place, and marks the mount as gone. A second cleanup has
    /// nothing to unmount.
    pub fn cleanup(&mut self) -> (r: Option<String>)
        ensures
            final(self).deep_view() == (MountView { active: false, ..old(self).deep_view() }),
            r.deep_view() == if old(self).deep_view().active {
                Some(old(self).deep_view().target)
            } else {
                None
            },
    {
        if !self.mounted {
            return None;
        }
        self.mounted = false;
        Some(self.target.clone())
    }

    /// The failure reported when the unmount of the target fails with the
    /// system's message `cause`.
    pub fn unmount_failed(&self, cause: &str) -> (e: BoxliteError)
        ensures
            e.deep_view() == unmount_failure(self.deep_view().target, cause@),
    {
        let mut m = chars_of("Failed to unmount ");
        push_str(&mut m, self.target.as_str());
        push_str(&mut m, ": ");
        push_str(&mut m, cause);
        storage_error(&m)
    }
}

// ============================================================================
// macOS
// ============================================================================

/// What is found at the target of a link before the link is made.
#[derive(Clone, Copy, Debug, PartialEq, Eq, Structural)]
pub enum TargetKind {
    /// Nothing.
    Absent,
    /// A symbolic link or a file.
    LinkOrFile,
    /// A directory that holds nothing.
    EmptyDir,
    /// A directory that holds something.
    FullDir,
    /// Something else.
    Other,
}

/// One step of making the link that stands in for a bind mount.
#[derive(Clone, Debug)]
pub enum LinkStep {
    /// Create the directory and its parents.
    CreateParent { path: String },
    /// Remove the file or link at the target.
    RemoveFile,
    /// Remove the empty directory at the target.
    RemoveDir,
    /// Link the target to the source.
    Link,
}

pub enum LinkStepView {
    CreateParent { path: Seq<char> },
    RemoveFile,
    RemoveDir,
    Link,
}

impl DeepView for LinkStep {
    type V = LinkStepView;

    open spec fn deep_view(&self) -> LinkStepView {
        match self {
            LinkStep::CreateParent { path } => LinkStepView::CreateParent { path: path@ },
            LinkStep::RemoveFile => LinkStepView::RemoveFile,
            LinkStep::RemoveDir => LinkStepView::RemoveDir,
            LinkStep::Link => LinkStepView::Link,
        }
    }
}

/// The failure reported when the target is a directory that holds
/// something.
pub open spec fn target_in_use_failure(target: Seq<char>) -> ErrorView {
    storage_failure("Target "@ + target + " exists and is not empty"@)
}

/// The steps that make the link, in order, given the parent of the target
/// and what is found at the target. The parent is created; a file, link or
/// empty directory at the target is removed; the link is made. A directory
/// that holds something is left alone and the link is refused.
pub open spec fn link_steps(parent: Option<Seq<char>>, existing: TargetKind) -> Option<
    Seq<LinkStepView>,
> {
    let first = match parent {
        Some(p) => seq![LinkStepView::CreateParent { path: p }],
        None => Seq::empty(),
    };
    match existing {
        TargetKind::FullDir => None,
        TargetKind::LinkOrFile => Some(first + seq![LinkStepView::RemoveFile, LinkStepView::Link]),
        TargetKind::EmptyDir => Some(first + seq![LinkStepView::RemoveDir, LinkStepView::Link]),
        _ => Some(first.push(LinkStepView::Link)),
    }
}

/// The failure reported when a step fails with the system's message
/// `cause`.
pub open spec fn link_step_failure(step: LinkStepView, config: BindMountConfigView, cause: Seq<char>) -> ErrorView {
    storage_failure(
        match step {
            LinkStepView::CreateParent { .. } => "Failed to create parent directory for "@
                + config.target + ": "@ + cause,
            LinkStepView::RemoveFile => "Failed to remove existing file/symlink "@ + config.target
                + ": "@ + cause,
            LinkStepView::RemoveDir => "Failed to remove empty directory "@ + config.target
                + ": "@ + cause,
            LinkStepView::Link => "Failed to create symlink "@ + config.target + " -> "@
                + config.source + ": "@ + cause,
        },
    )
}

/// The failure reported when the link cannot be removed.
pub open spec fn unlink_failure(target: Seq<char>, cause: Seq<char>) -> ErrorView {
    storage_failure("Failed to remove symlink "@ + target + ": "@ + cause)
}

/// A symbolic link that stands in for a bind mount. The link cannot be
/// read-only: it has the permissions of what it points to.
#[derive(Debug)]
pub struct MacosSymlink {
    target: String,
    created: bool,
}

impl DeepView for MacosSymlink {
    type V = MountView;

    closed spec fn deep_view(&self) -> MountView {
        MountView { target: self.target@, active: self.created }
    }
}

impl MacosSymlink {
    /// The steps to take, in order, given the parent of the target and
    /// what is found at the target.
    pub fn steps_with(config: &BindMountConfig, parent: &Option<String>, existing: TargetKind) -> (r:
        Result<Vec<LinkStep>, BoxliteError>)
        ensures
            match r {
                Ok(steps) => link_steps(parent.deep_view(), existing) == Some(steps.deep_view()),
                Err(e) => link_steps(parent.deep_view(), existing) is None && e.deep_view()
                    == target_in_use_failure(config.target@),
            },
    {
        let mut steps: Vec<LinkStep> = Vec::new();
        match parent {
            Some(p) => {
                steps.push(LinkStep::CreateParent { path: p.clone() });
            },
            None => {},
        }
        match existing {
            TargetKind::FullDir => {
                let mut m = chars_of("Target ");
                push_str(&mut m, config.target.as_str());
                push_str(&mut m, " exists and is not empty");
                return Err(storage_error(&m));
            },
            TargetKind::LinkOrFile => {
                steps.push(LinkStep::RemoveFile);
            },
            TargetKind::EmptyDir => {
                steps.push(LinkStep::RemoveDir);
            },
            _ => {},
        }
        steps.push(LinkStep::Link);
        assert(steps.deep_view() =~= link_steps(parent.deep_view(), existing)->0);
        Ok(steps)
    }

    /// The steps to take, in order, given what is found at the target.
    pub fn steps(config: &BindMountConfig, existing: TargetKind) -> (r: Result<
        Vec<LinkStep>,
        BoxliteError,
    >)
        ensures
            match r {
                Ok(steps) => link_steps(parent_path(config.target@), existing) == Some(
                    steps.deep_view(),
                ),
                Err(e) => link_steps(parent_path(config.target@), existing) is None
                    && e.deep_view() == target_in_use_failure(config.target@),
            },
    {
        let parent = path_parent(config.target.as_str());
        MacosSymlink::steps_with(config, &parent, existing)
    }

    /// The failure reported when `step` has failed with the system's
    /// message `cause`.
    pub fn step_failed(step: &LinkStep, config: &BindMountConfig, cause: &str) -> (e: BoxliteError)
        ensures
            e.deep_view() == link_step_failure(step.deep_view(), config.deep_view(), cause@),
    {
        let mut m: Vec<char> = Vec::new();
        match step {
            LinkStep::CreateParent { .. } => {
                push_str(&mut m, "Failed to create parent directory for ");
                push_str(&mut m, config.target.as_str());
            },
            LinkStep::RemoveFile => {
                push_str(&mut m, "Failed to remove existing file/symlink ");
                push_str(&mut m, config.target.as_str());
            },
            LinkStep::RemoveDir => {
                push_str(&mut m, "Failed to remove empty directory ");
                push_str(&mut m, config.target.as_str());
            },
            LinkStep::Link => {
                push_str(&mut m, "Failed to create symlink ");
                push_str(&mut m, config.target.as_str());
                push_str(&mut m, " -> ");
                push_str(&mut m, config.source.as_str());
            },
        }
        push_str(&mut m, ": ");
        push_str(&mut m, cause);
        assert(m@ =~= link_step_failure(step.deep_view(), config.deep_view(), cause@).message);
        storage_error(&m)
    }

    /// The link, once every step has succeeded.
    pub fn create(config: &BindMountConfig) -> (r: MacosSymlink)
        ensures
            r.deep_view() == (MountView { target: config.target@, active: true }),
    {
        MacosSymlink { target: config.target.clone(), created: true }
    }

    /// Where the link is.
    pub fn target(&self) -> (r: &str)
        ensures
            r@ == self.deep_view().target,
    {
        self.target.as_str()
    }

    /// Begins the cleanup: returns the link to remove, if it is still in
    /// place, and marks it as gone. The caller removes it only if it still
    /// is a link. A second cleanup has nothing to remove.
    pub fn cleanup(&mut self) -> (r: Option<String>)
        ensures
            final(self).deep_view() == (MountView { active: false, ..old(self).deep_view() }),
            r.deep_view() == if old(self).deep_view().active {
                Some(old(self).deep_view().target)
            } else {
                None
            },
    {
        if !self.created {
            return None;
        }
        self.created = false;
        Some(self.target.clone())
    }

    /// The failure reported when the link cannot be removed.
    pub fn unlink_failed(&self, cause: &str) -> (e: BoxliteError)
        ensures
            e.deep_view() == unlink_failure(self.deep_view().target, cause@),
    {
        let mut m = chars_of("Failed to remove symlink ");
        push_str(&mut m, self.target.as_str());
        push_str(&mut m, ": ");
        push_str(&mut m, cause);
        storage_error(&m)
    }
}

// ============================================================================
// Any platform
// ============================================================================

/// The platforms of the host.
#[derive(Clone, Copy, Debug, PartialEq, Eq, Structural)]
pub enum Platform {
    Linux,
    Macos,
    Other,
}

/// A bind mount, or what stands in for it, that is undone when the handle
/// is given up.
#[derive(Debug)]
pub enum BindMountHandle {
    Linux(LinuxBindMount),
    Macos(MacosSymlink),
}

impl DeepView for BindMountHandle {
    type V = MountView;

    open spec fn deep_view(&self) -> MountView {
        match self {
            BindMountHandle::Linux(m) => m.deep_view(),
            BindMountHandle::Macos(m) => m.deep_view(),
        }
    }
}

impl BindMountHandle {
    /// The platform that made the handle.
    pub open spec fn platform(&self) -> Platform {
        match self {
            BindMountHandle::Linux(_) => Platform::Linux,
            BindMountHandle::Macos(_) => Platform::Macos,
        }
    }

    /// Where the mount appears.
    pub fn target(&self) -> (r: &str)
        ensures
            r@ == self.deep_view().target,
    {
        match self {
            BindMountHandle::Linux(m) => m.target(),
            BindMountHandle::Macos(m) => m.target(),
        }
    }

    /// Begins the undoing: returns the target to unmount or unlink, if the
    /// mount is still in place, and marks it as gone.
    pub fn unmount(&mut self) -> (r: Option<String>)
        ensures
            final(self).deep_view() == (MountView { active: false, ..old(self).deep_view() }),
            final(self).platform() == old(self).platform(),
            r.deep_view() == if old(self).deep_view().active {
                Some(old(self).deep_view().target)
            } else {
                None
            },
    {
        match self {
            BindMountHandle::Linux(m) => m.cleanup(),
            BindMountHandle::Macos(m) => m.cleanup(),
        }
    }
}

/// The failure reported on a platform without bind mounts.
pub open spec fn unsupported_platform_failure() -> ErrorView {
    ErrorView {
        kind: ErrorKind::Unsupported,
        message: "Bind mounts not supported on this platform"@,
    }
}

/// The handle of a bind mount whose steps have all succeeded on the given
/// platform: a mount on Linux, a link on macOS. Other platforms have
/// neither.
pub fn create_bind_mount(config: &BindMountConfig, platform: Platform) -> (r: Result<
    BindMountHandle,
    BoxliteError,
>)
    ensures
        r is Ok <==> platform != Platform::Other,
        r matches Ok(h) ==> h.platform() == platform && h.deep_view() == (MountView {
            target: config.target@,
            active: true,
        }),
        r matches Err(e) ==> e.deep_view() == unsupported_platform_failure(),
{
    match platform {
        Platform::Linux => Ok(BindMountHandle::Linux(LinuxBindMount::create(config))),
        Platform::Macos => Ok(BindMountHandle::Macos(MacosSymlink::create(config))),
        Platform::Other => Err(
            BoxliteError::Unsupported("Bind mounts not supported on this platform".to_string()),
        ),
    }
}

/// A cleanup leaves nothing for a second one: the mount is marked as gone
/// whatever it was before.
pub proof fn lemma_cleanup_is_idempotent(before: MountView)
    ensures
        ({
            let after = MountView { active: false, ..before };
            &&& !after.active
            &&& (MountView { active: false, ..after }) == after
        }),
{
}

} // verus!
