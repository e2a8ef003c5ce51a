//! The directory layout shared by host and guest.
//!
//! Paths are texts with `/` between their components. Every path here is a
//! function of a base path and identifiers; nothing touches the disk.
//!
//! ```text
//! {base}/
//! └── containers/
//!     └── {cid}/
//!         ├── overlayfs/{upper,work}
//!         └── rootfs/
//! ```

pub mod dirs;

use vstd::prelude::*;

use crate::error::BoxliteError;
use crate::error::ErrorKind;
use crate::error::ErrorView;
use crate::error::config_error;
use crate::text::chars_of;
use crate::text::debug_text;
use crate::text::decimal_text;
use crate::text::push_chars;
use crate::text::push_quoted;
use crate::text::string_of;
use crate::text::write_decimal;

verus! {

/// The base path of the guest's runtime directories.
pub const GUEST_BASE: &'static str = "/run/boxlite";

// ============================================================================
// Paths
// ============================================================================

/// A path with one more component. An absolute component replaces the base;
/// otherwise the component follows the base, after a `/` unless the base is
/// empty or ends in one.
pub open spec fn join_path(base: Seq<char>, component: Seq<char>) -> Seq<char> {
    if component.len() > 0 && component[0] == '/' {
        component
    } else if base.len() > 0 && base.last() != '/' {
        base + seq!['/'] + component
    } else {
        base + component
    }
}

/// A path is relative unless it starts with `/`.
pub open spec fn is_relative_path(path: Seq<char>) -> bool {
    !(path.len() > 0 && path[0] == '/')
}

pub fn join_chars(base: &Vec<char>, component: &Vec<char>) -> (r: Vec<char>)
    ensures
        r@ == join_path(base@, component@),
{
    if component.len() > 0 && component[0] == '/' {
        let mut r: Vec<char> = Vec::new();
        push_chars(&mut r, component);
        return r;
    }
    let mut r: Vec<char> = Vec::new();
    push_chars(&mut r, base);
    if base.len() > 0 && base[base.len() - 1] != '/' {
        r.push('/');
    }
    push_chars(&mut r, component);
    r
}

/// The path `base` with one more component.
pub fn join(base: &str, component: &str) -> (r: String)
    ensures
        r@ == join_path(base@, component@),
{
    let b = chars_of(base);
    let c = chars_of(component);
    string_of(&join_chars(&b, &c))
}

// ============================================================================
// Identifiers in paths
// ============================================================================

/// A control character: one that does not print.
pub open spec fn is_control(c: char) -> bool {
    let n = c as u32;
    n <= 0x1F || (0x7F <= n <= 0x9F)
}

/// Whether a text holds two dots in a row.
pub open spec fn has_dot_dot(s: Seq<char>) -> bool {
    exists|i: int| 0 <= i < s.len() - 1 && #[trigger] s[i] == '.' && s[i + 1] == '.'
}

/// An identifier that may become a path component: it holds no `/`, no
/// `..` and no control character.
pub open spec fn is_path_safe_id(s: Seq<char>) -> bool {
    &&& forall|i: int| 0 <= i < s.len() ==> #[trigger] s[i] != '/'
    &&& forall|i: int| 0 <= i < s.len() ==> !is_control(#[trigger] s[i])
    &&& !has_dot_dot(s)
}

/// The failure reported for an identifier that may not become a path
/// component.
pub open spec fn unsafe_id_failure(id: Seq<char>) -> ErrorView {
    ErrorView {
        kind: ErrorKind::Config,
        message: "invalid identifier "@ + debug_text(id)
            + ": must not contain '/', '..' or control characters"@,
    }
}

/// Whether `r` is `Ok` exactly when `id` is safe, and the failure for `id`
/// otherwise.
pub open spec fn id_checked<T>(r: Result<T, BoxliteError>, id: Seq<char>) -> bool {
    &&& r is Ok <==> is_path_safe_id(id)
    &&& r matches Err(e) ==> e.deep_view() == unsafe_id_failure(id)
}

/// Accepts an identifier that may become a path component.
pub fn check_path_id(id: &str) -> (r: Result<(), BoxliteError>)
    ensures
        id_checked(r, id@),
{
    let v = chars_of(id);
    let mut i: usize = 0;
    let mut safe = true;
    while i < v.len() && safe
        invariant
            i <= v.len(),
            safe ==> forall|j: int| 0 <= j < i ==> #[trigger] v@[j] != '/',
            safe ==> forall|j: int| 0 <= j < i ==> !is_control(#[trigger] v@[j]),
            safe ==> forall|j: int| 0 <= j < i - 1 ==> !(#[trigger] v@[j] == '.' && v@[j + 1] == '.'),
            !safe ==> !is_path_safe_id(v@),
        decreases v.len() - i + if safe { 1int } else { 0int },
    {
        let c = v[i];
        let n: u32 = c as u32;
        if c == '/' || n <= 0x1F || (0x7F <= n && n <= 0x9F) {
            safe = false;
        } else if c == '.' && i > 0 && v[i - 1] == '.' {
            assert(v@[i - 1] == '.' && v@[i - 1 + 1] == '.');
            safe = false;
        } else {
            i += 1;
        }
    }
    if safe {
        Ok(())
    } else {
        let mut m = chars_of("invalid identifier ");
        push_quoted(&mut m, &v);
        push_chars(&mut m, &chars_of(": must not contain '/', '..' or control characters"));
        Err(config_error(&m))
    }
}

// ============================================================================
// The directories of one container in the shared filesystem
// ============================================================================

/// The directories of one container within the shared filesystem.
///
/// ```text
/// {root}/
/// ├── overlayfs/
/// │   ├── upper/
/// │   └── work/
/// └── rootfs/
/// ```
#[derive(Debug)]
pub struct SharedContainerLayout {
    root: String,
}

impl Clone for SharedContainerLayout {
    fn clone(&self) -> (r: SharedContainerLayout)
        ensures
            r@ == self@,
    {
        SharedContainerLayout { root: self.root.clone() }
    }
}

impl View for SharedContainerLayout {
    type V = Seq<char>;

    /// The root path.
    closed spec fn view(&self) -> Seq<char> {
        self.root@
    }
}

impl SharedContainerLayout {
    /// The layout rooted at the given path.
    pub fn new(root: &str) -> (r: SharedContainerLayout)
        ensures
            r@ == root@,
    {
        SharedContainerLayout { root: root.to_string() }
    }

    /// The root directory of this container.
    pub fn root(&self) -> (r: &str)
        ensures
            r@ == self@,
    {
        self.root.as_str()
    }

    /// `{root}/overlayfs`
    pub fn overlayfs_dir(&self) -> (r: String)
        ensures
            r@ == join_path(self@, dirs::OVERLAYFS@),
    {
        join(self.root.as_str(), dirs::OVERLAYFS)
    }

    /// `{root}/overlayfs/upper`, the writable layer.
    pub fn upper_dir(&self) -> (r: String)
        ensures
            r@ == join_path(join_path(self@, dirs::OVERLAYFS@), dirs::UPPER@),
    {
        join(self.overlayfs_dir().as_str(), dirs::UPPER)
    }

    /// `{root}/overlayfs/work`
    pub fn work_dir(&self) -> (r: String)
        ensures
            r@ == join_path(join_path(self@, dirs::OVERLAYFS@), dirs::WORK@),
    {
        join(self.overlayfs_dir().as_str(), dirs::WORK)
    }

    /// `{root}/rootfs`, where every strategy mounts the root filesystem.
    pub fn rootfs_dir(&self) -> (r: String)
        ensures
            r@ == join_path(self@, dirs::ROOTFS@),
    {
        join(self.root.as_str(), dirs::ROOTFS)
    }

    /// The directories that must exist before the container is assembled:
    /// upper, work and rootfs, in that order.
    pub fn prepare_dirs(&self) -> (r: Vec<String>)
        ensures
            r.deep_view() == seq![
                join_path(join_path(self@, dirs::OVERLAYFS@), dirs::UPPER@),
                join_path(join_path(self@, dirs::OVERLAYFS@), dirs::WORK@),
                join_path(self@, dirs::ROOTFS@),
            ],
    {
        let mut r: Vec<String> = Vec::new();
        r.push(self.upper_dir());
        r.push(self.work_dir());
        r.push(self.rootfs_dir());
        assert(r.deep_view() =~= seq![
            join_path(join_path(self@, dirs::OVERLAYFS@), dirs::UPPER@),
            join_path(join_path(self@, dirs::OVERLAYFS@), dirs::WORK@),
            join_path(self@, dirs::ROOTFS@),
        ]);
        r
    }
}

// ============================================================================
// The shared filesystem
// ============================================================================

/// The shared directory: the same structure on the host, under
/// `boxes/{box-id}/mounts`, and in the guest, under `/run/boxlite/shared`.
#[derive(Debug)]
pub struct SharedGuestLayout {
    base: String,
}

impl Clone for SharedGuestLayout {
    fn clone(&self) -> (r: SharedGuestLayout)
        ensures
            r@ == self@,
    {
        SharedGuestLayout { base: self.base.clone() }
    }
}

impl View for SharedGuestLayout {
    type V = Seq<char>;

    /// The base path.
    closed spec fn view(&self) -> Seq<char> {
        self.base@
    }
}

impl SharedGuestLayout {
    /// The shared layout at the given base path.
    pub fn new(base: &str) -> (r: SharedGuestLayout)
        ensures
            r@ == base@,
    {
        SharedGuestLayout { base: base.to_string() }
    }

    /// The base directory.
    pub fn base(&self) -> (r: &str)
        ensures
            r@ == self@,
    {
        self.base.as_str()
    }

    /// `{base}/containers`
    pub fn containers_dir(&self) -> (r: String)
        ensures
            r@ == join_path(self@, dirs::CONTAINERS@),
    {
        join(self.base.as_str(), dirs::CONTAINERS)
    }

    /// The layout of one container, `{base}/containers/{cid}`. The
    /// identifier is refused unless it is safe as a path component.
    pub fn container(&self, container_id: &str) -> (r: Result<SharedContainerLayout, BoxliteError>)
        ensures
            id_checked(r, container_id@),
            r matches Ok(c) ==> c@ == join_path(
                join_path(self@, dirs::CONTAINERS@),
                container_id@,
            ),
    {
        check_path_id(container_id)?;
        let root = join(self.containers_dir().as_str(), container_id);
        Ok(SharedContainerLayout { root })
    }
}

// ============================================================================
// The runtime directory of one container in the guest
// ============================================================================

/// The bundle directory of one container in the guest.
///
/// ```text
/// {root}/
/// ├── rootfs/
/// └── state/
/// ```
#[derive(Debug)]
pub struct ContainerLayout {
    root: String,
}

impl Clone for ContainerLayout {
    fn clone(&self) -> (r: ContainerLayout)
        ensures
            r@ == self@,
    {
        ContainerLayout { root: self.root.clone() }
    }
}

impl View for ContainerLayout {
    type V = Seq<char>;

    /// The root path.
    closed spec fn view(&self) -> Seq<char> {
        self.root@
    }
}

impl ContainerLayout {
    /// The layout rooted at the given path.
    pub fn new(root: &str) -> (r: ContainerLayout)
        ensures
            r@ == root@,
    {
        ContainerLayout { root: root.to_string() }
    }

    /// The root directory.
    pub fn root(&self) -> (r: &str)
        ensures
            r@ == self@,
    {
        self.root.as_str()
    }

    /// `{root}/rootfs`, bound to the shared root filesystem.
    pub fn rootfs_dir(&self) -> (r: String)
        ensures
            r@ == join_path(self@, dirs::ROOTFS@),
    {
        join(self.root.as_str(), dirs::ROOTFS)
    }

    /// The directories that must exist before the container starts.
    pub fn prepare_dirs(&self) -> (r: Vec<String>)
        ensures
            r.deep_view() == seq![join_path(self@, dirs::ROOTFS@)],
    {
        let mut r: Vec<String> = Vec::new();
        r.push(self.rootfs_dir());
        assert(r.deep_view() =~= seq![join_path(self@, dirs::ROOTFS@)]);
        r
    }
}

// ============================================================================
// The guest's runtime directories
// ============================================================================

/// The guest's runtime directories.
///
/// ```text
/// {base}/
/// ├── shared/
/// │   └── containers/{cid}/...
/// └── containers/
///     └── {cid}/
///         ├── rootfs/
///         └── state/
/// ```
#[derive(Debug)]
pub struct GuestLayout {
    base: String,
    shared: SharedGuestLayout,
}

impl Clone for GuestLayout {
    fn clone(&self) -> (r: GuestLayout)
        ensures
            r@ == self@,
    {
        proof {
            use_type_invariant(self);
        }
        GuestLayout { base: self.base.clone(), shared: self.shared.clone() }
    }
}

impl View for GuestLayout {
    type V = Seq<char>;

    /// The base path.
    closed spec fn view(&self) -> Seq<char> {
        self.base@
    }
}

impl GuestLayout {
    #[verifier::type_invariant]
    spec fn well_formed(&self) -> bool {
        self.shared@ == join_path(self.base@, dirs::SHARED@)
    }

    /// The layout at the default base, `/run/boxlite`.
    pub fn new() -> (r: GuestLayout)
        ensures
            r@ == GUEST_BASE@,
    {
        GuestLayout::with_base(GUEST_BASE)
    }

    /// The layout at the given base path.
    pub fn with_base(base: &str) -> (r: GuestLayout)
        ensures
            r@ == base@,
    {
        let shared = SharedGuestLayout::new(join(base, dirs::SHARED).as_str());
        GuestLayout { base: base.to_string(), shared }
    }

    /// The base directory.
    pub fn base(&self) -> (r: &str)
        ensures
            r@ == self@,
    {
        self.base.as_str()
    }

    /// The shared layout, at `{base}/shared`.
    pub fn shared(&self) -> (r: &SharedGuestLayout)
        ensures
            r@ == join_path(self@, dirs::SHARED@),
    {
        proof {
            use_type_invariant(self);
        }
        &self.shared
    }

    /// `{base}/shared`
    pub fn shared_dir(&self) -> (r: &str)
        ensures
            r@ == join_path(self@, dirs::SHARED@),
    {
        proof {
            use_type_invariant(self);
        }
        self.shared.base()
    }

    /// `{base}/containers`
    pub fn containers_dir(&self) -> (r: String)
        ensures
            r@ == join_path(self@, dirs::CONTAINERS@),
    {
        join(self.base.as_str(), dirs::CONTAINERS)
    }

    /// `{base}/volumes/{n}`, where the guest mounts the volume that the
    /// host shares as its `n`th, counted from zero.
    pub fn volume_dir(&self, n: u64) -> (r: String)
        ensures
            r@ == join_path(join_path(self@, dirs::VOLUMES@), decimal_text(n as nat)),
    {
        let volumes = join(self.base.as_str(), dirs::VOLUMES);
        let number = string_of(&write_decimal(n));
        join(volumes.as_str(), number.as_str())
    }

    /// `{base}/containers/{cid}`, the bundle of one container. The
    /// identifier is refused unless it is safe as a path component.
    pub fn container_bundle_dir(&self, container_id: &str) -> (r: Result<String, BoxliteError>)
        ensures
            id_checked(r, container_id@),
            r matches Ok(p) ==> p@ == join_path(
                join_path(self@, dirs::CONTAINERS@),
                container_id@,
            ),
    {
        check_path_id(container_id)?;
        Ok(join(self.containers_dir().as_str(), container_id))
    }

    /// `{base}/containers/{cid}/state`, the state of one container.
    pub fn container_state_dir(&self, container_id: &str) -> (r: Result<String, BoxliteError>)
        ensures
            id_checked(r, container_id@),
            r matches Ok(p) ==> p@ == join_path(
                join_path(join_path(self@, dirs::CONTAINERS@), container_id@),
                dirs::STATE@,
            ),
    {
        let bundle = self.container_bundle_dir(container_id)?;
        Ok(join(bundle.as_str(), dirs::STATE))
    }

    /// The layout of one container's bundle.
    pub fn container(&self, container_id: &str) -> (r: Result<ContainerLayout, BoxliteError>)
        ensures
            id_checked(r, container_id@),
            r matches Ok(c) ==> c@ == join_path(
                join_path(self@, dirs::CONTAINERS@),
                container_id@,
            ),
    {
        let bundle = self.container_bundle_dir(container_id)?;
        Ok(ContainerLayout { root: bundle })
    }

    /// The directories that must exist before the shared filesystem is
    /// mounted.
    pub fn prepare_base_dirs(&self) -> (r: Vec<String>)
        ensures
            r.deep_view() == seq![join_path(self@, dirs::SHARED@)],
    {
        let mut r: Vec<String> = Vec::new();
        r.push(self.shared_dir().to_string());
        assert(r.deep_view() =~= seq![join_path(self@, dirs::SHARED@)]);
        r
    }
}

impl Default for GuestLayout {
    fn default() -> (r: GuestLayout)
        ensures
            r@ == GUEST_BASE@,
    {
        GuestLayout::new()
    }
}

} // verus!
