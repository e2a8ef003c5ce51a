//! Assembling the root filesystem of a container from image layers.
//!
//! With an overlay the extracted layers are the lower directories, the
//! topmost layer first; what the container writes goes to the upper
//! directory of the box. Where layers are merged by copying, an entry of
//! a layer may stand for a deletion.

use vstd::prelude::*;

use crate::layout::dirs;
use crate::layout::join_path;
use crate::layout::SharedContainerLayout;
use crate::text::chars_eq_str;
use crate::text::chars_of;
use crate::text::string_of;
use crate::text::sub_vec;
use crate::vmm::RootfsInit;
use crate::vmm::RootfsInitView;

verus! {

/// The prefix of the name of an entry that stands for a deletion.
pub const WHITEOUT_PREFIX: &'static str = ".wh.";

/// The name of the entry that hides what lower layers hold in its
/// directory.
pub const OPAQUE_MARKER: &'static str = ".wh..wh..opq";

/// What an entry of a layer means when layers are merged.
#[derive(Clone, Debug, PartialEq, Eq)]
pub enum LayerEntry {
    /// A file or directory to copy.
    Regular,
    /// A whiteout: the entry of the given name in the same directory is
    /// deleted, whatever lower layers hold there.
    Whiteout { target: String },
    /// An opaque marker: lower layers show nothing in this directory.
    Opaque,
}

pub enum LayerEntryView {
    Regular,
    Whiteout { target: Seq<char> },
    Opaque,
}

impl DeepView for LayerEntry {
    type V = LayerEntryView;

    open spec fn deep_view(&self) -> LayerEntryView {
        match self {
            LayerEntry::Regular => LayerEntryView::Regular,
            LayerEntry::Whiteout { target } => LayerEntryView::Whiteout { target: target@ },
            LayerEntry::Opaque => LayerEntryView::Opaque,
        }
    }
}

/// What the entry of the given file name means: the opaque marker hides
/// the lower layers; a name that starts with `.wh.` deletes the entry
/// named by the rest; any other name is copied.
pub open spec fn entry_meaning(file_name: Seq<char>) -> LayerEntryView {
    if file_name == OPAQUE_MARKER@ {
        LayerEntryView::Opaque
    } else if WHITEOUT_PREFIX@.is_prefix_of(file_name) {
        LayerEntryView::Whiteout { target: file_name.skip(WHITEOUT_PREFIX@.len() as int) }
    } else {
        LayerEntryView::Regular
    }
}

/// What the entry of the given file name means when layers are merged.
pub fn classify_entry(file_name: &str) -> (r: LayerEntry)
    ensures
        r.deep_view() == entry_meaning(file_name@),
{
    let v = chars_of(file_name);
    if chars_eq_str(&v, OPAQUE_MARKER) {
        return LayerEntry::Opaque;
    }
    let prefix = chars_of(WHITEOUT_PREFIX);
    let n = prefix.len();
    let has_prefix = v.len() >= n && crate::text::chars_eq(&sub_vec(&v, 0, n), &prefix);
    proof {
        if has_prefix {
            assert(prefix@ =~= v@.subrange(0, n as int));
        }
        if prefix@.is_prefix_of(v@) {
            assert(v@.subrange(0, n as int) =~= prefix@);
        }
    }
    if has_prefix {
        LayerEntry::Whiteout { target: string_of(&sub_vec(&v, n, v.len())) }
    } else {
        LayerEntry::Regular
    }
}

/// The lower directories of an overlay: the extracted layers, the topmost
/// first. Layers are given lowest first, as an image lists them.
pub fn overlay_lower_dirs(layer_dirs: &Vec<String>) -> (r: Vec<String>)
    ensures
        r.deep_view() == layer_dirs.deep_view().reverse(),
{
    let mut r: Vec<String> = Vec::new();
    let n = layer_dirs.len();
    let mut i: usize = 0;
    while i < n
        invariant
            i <= n,
            n == layer_dirs.len(),
            r.len() == i,
            forall|j: int| 0 <= j < i ==> (#[trigger] r@[j])@ == layer_dirs@[n - 1 - j]@,
        decreases n - i,
    {
        r.push(layer_dirs[n - 1 - i].clone());
        i += 1;
    }
    assert(r.deep_view() =~= layer_dirs.deep_view().reverse());
    r
}

/// The overlay of a container: the layers as lower directories, the
/// topmost first, over the upper, work and root filesystem directories of
/// the container's layout.
pub open spec fn overlay_of(layer_dirs: Seq<Seq<char>>, root: Seq<char>) -> RootfsInitView {
    RootfsInitView::Overlay {
        lower_dirs: layer_dirs.reverse(),
        upper_dir: join_path(join_path(root, dirs::OVERLAYFS@), dirs::UPPER@),
        work_dir: join_path(join_path(root, dirs::OVERLAYFS@), dirs::WORK@),
        merged_dir: join_path(root, dirs::ROOTFS@),
    }
}

/// The overlay of a container with the given layers, lowest first, in the
/// given layout.
pub fn overlay_rootfs(layer_dirs: &Vec<String>, layout: &SharedContainerLayout) -> (r: RootfsInit)
    ensures
        r.deep_view() == overlay_of(layer_dirs.deep_view(), layout@),
{
    RootfsInit::Overlay {
        lower_dirs: overlay_lower_dirs(layer_dirs),
        upper_dir: layout.upper_dir(),
        work_dir: layout.work_dir(),
        merged_dir: layout.rootfs_dir(),
    }
}

/// The topmost layer comes first: lower directory `i` of the overlay is
/// layer `i` counted from the top, and every layer is among them.
pub proof fn lemma_topmost_layer_first(layer_dirs: Seq<Seq<char>>, root: Seq<char>)
    ensures
        overlay_of(layer_dirs, root) matches RootfsInitView::Overlay { lower_dirs, .. } && {
            &&& lower_dirs.len() == layer_dirs.len()
            &&& forall|i: int|
                0 <= i < layer_dirs.len() ==> #[trigger] lower_dirs[i] == layer_dirs[layer_dirs.len()
                    - 1 - i]
            &&& lower_dirs.reverse() =~= layer_dirs
        },
{
}

} // verus!
