//! The volumes of a box, as the guest and the container see them.
//!
//! A host directory reaches the container in two hops: it is shared with
//! the guest under a tag and mounted there, and the place where the guest
//! mounts it is bound into the container.

use vstd::prelude::*;

use crate::text::chars_of;
use crate::text::decimal_text;
use crate::text::push_chars;
use crate::text::string_of;
use crate::text::write_decimal;
use crate::vmm::FsShareView;
use crate::vmm::FsShares;

verus! {

/// A bind mount from the guest into the container.
#[derive(Clone, Debug)]
pub struct ContainerMount {
    /// The path in the guest.
    pub source: String,
    /// The path in the container.
    pub destination: String,
    pub read_only: bool,
}

pub struct ContainerMountView {
    pub source: Seq<char>,
    pub destination: Seq<char>,
    pub read_only: bool,
}

impl DeepView for ContainerMount {
    type V = ContainerMountView;

    open spec fn deep_view(&self) -> ContainerMountView {
        ContainerMountView {
            source: self.source@,
            destination: self.destination@,
            read_only: self.read_only,
        }
    }
}

/// A directory shared with the guest and where the guest mounts it.
#[derive(Clone, Debug)]
pub struct FsShareEntry {
    pub tag: String,
    pub host_path: String,
    pub guest_path: String,
    pub read_only: bool,
}

pub struct FsShareEntryView {
    pub tag: Seq<char>,
    pub host_path: Seq<char>,
    pub guest_path: Seq<char>,
    pub read_only: bool,
}

impl DeepView for FsShareEntry {
    type V = FsShareEntryView;

    open spec fn deep_view(&self) -> FsShareEntryView {
        FsShareEntryView {
            tag: self.tag@,
            host_path: self.host_path@,
            guest_path: self.guest_path@,
            read_only: self.read_only,
        }
    }
}

/// The tag given to the `n`-th volume that names none: `vol` and the
/// number.
pub open spec fn auto_tag(n: nat) -> Seq<char> {
    "vol"@ + decimal_text(n)
}

/// The volumes of the guest.
#[derive(Clone, Debug)]
pub struct GuestVolumeManager {
    shares: Vec<FsShareEntry>,
    next_tag: u64,
}

pub struct GuestVolumesView {
    pub shares: Seq<FsShareEntryView>,
    /// The number of the next tag to give out.
    pub next_tag: u64,
}

impl DeepView for GuestVolumeManager {
    type V = GuestVolumesView;

    closed spec fn deep_view(&self) -> GuestVolumesView {
        GuestVolumesView { shares: self.shares.deep_view(), next_tag: self.next_tag }
    }
}

impl GuestVolumeManager {
    pub fn new() -> (r: GuestVolumeManager)
        ensures
            r.deep_view() == (GuestVolumesView { shares: Seq::empty(), next_tag: 0 }),
    {
        let r = GuestVolumeManager { shares: Vec::new(), next_tag: 0 };
        assert(r.shares.deep_view() =~= Seq::empty());
        r
    }

    /// A tag that was not given out before.
    pub fn next_auto_tag(&mut self) -> (r: String)
        requires
            old(self).deep_view().next_tag < u64::MAX,
        ensures
            r@ == auto_tag(old(self).deep_view().next_tag as nat),
            final(self).deep_view() == (GuestVolumesView {
                next_tag: (old(self).deep_view().next_tag + 1) as u64,
                ..old(self).deep_view()
            }),
    {
        let mut out = chars_of("vol");
        push_chars(&mut out, &write_decimal(self.next_tag));
        self.next_tag = self.next_tag + 1;
        string_of(&out)
    }

    /// Shares a host directory with the guest.
    pub fn add_fs_share(&mut self, tag: &str, host_path: String, guest_path: &str, read_only: bool)
        ensures
            final(self).deep_view() == (GuestVolumesView {
                shares: old(self).deep_view().shares.push(
                    FsShareEntryView {
                        tag: tag@,
                        host_path: host_path@,
                        guest_path: guest_path@,
                        read_only,
                    },
                ),
                ..old(self).deep_view()
            }),
    {
        let ghost before = self.shares.deep_view();
        let entry = FsShareEntry {
            tag: tag.to_string(),
            host_path,
            guest_path: guest_path.to_string(),
            read_only,
        };
        self.shares.push(entry);
        assert(self.shares.deep_view() =~= before.push(entry.deep_view()));
    }

    pub fn shares(&self) -> (r: &Vec<FsShareEntry>)
        ensures
            r.deep_view() == self.deep_view().shares,
    {
        &self.shares
    }

    /// The shares as the machine monitor takes them.
    pub fn build_fs_shares(&self) -> (r: FsShares)
        ensures
            r.deep_view() == Seq::new(
                self.deep_view().shares.len(),
                |i: int|
                    FsShareView {
                        tag: self.deep_view().shares[i].tag,
                        host_path: self.deep_view().shares[i].host_path,
                        read_only: self.deep_view().shares[i].read_only,
                    },
            ),
    {
        let mut shares = FsShares::new();
        let mut i: usize = 0;
        let ghost all = self.deep_view().shares;
        while i < self.shares.len()
            invariant
                i <= self.shares.len(),
                all == self.deep_view().shares,
                shares.deep_view() == Seq::new(
                    i as nat,
                    |k: int|
                        FsShareView {
                            tag: all[k].tag,
                            host_path: all[k].host_path,
                            read_only: all[k].read_only,
                        },
                ),
            decreases self.shares.len() - i,
        {
            let e = &self.shares[i];
            let ghost before = shares.deep_view();
            shares.add(e.tag.as_str(), e.host_path.clone(), e.read_only);
            assert(shares.deep_view() =~= Seq::new(
                (i + 1) as nat,
                |k: int|
                    FsShareView {
                        tag: all[k].tag,
                        host_path: all[k].host_path,
                        read_only: all[k].read_only,
                    },
            ));
            i += 1;
        }
        shares
    }
}

/// The volumes of the container.
#[derive(Clone, Debug)]
pub struct ContainerVolumeManager {
    container_mounts: Vec<ContainerMount>,
}

impl DeepView for ContainerVolumeManager {
    type V = Seq<ContainerMountView>;

    /// The mounts in the order they were added.
    closed spec fn deep_view(&self) -> Seq<ContainerMountView> {
        self.container_mounts.deep_view()
    }
}

impl ContainerVolumeManager {
    pub fn new() -> (r: ContainerVolumeManager)
        ensures
            r.deep_view() == Seq::<ContainerMountView>::empty(),
    {
        let r = ContainerVolumeManager { container_mounts: Vec::new() };
        assert(r.container_mounts.deep_view() =~= Seq::empty());
        r
    }

    /// Adds a host directory that guest and container both see: it is
    /// shared with the guest under a new tag, mounted at `guest_path`, and
    /// bound from there to `container_path`.
    pub fn add_volume(
        &mut self,
        guest: &mut GuestVolumeManager,
        host_path: String,
        guest_path: &str,
        container_path: &str,
        read_only: bool,
    )
        requires
            old(guest).deep_view().next_tag < u64::MAX,
        ensures
            final(guest).deep_view() == (GuestVolumesView {
                shares: old(guest).deep_view().shares.push(
                    FsShareEntryView {
                        tag: auto_tag(old(guest).deep_view().next_tag as nat),
                        host_path: host_path@,
                        guest_path: guest_path@,
                        read_only,
                    },
                ),
                next_tag: (old(guest).deep_view().next_tag + 1) as u64,
            }),
            final(self).deep_view() == old(self).deep_view().push(
                ContainerMountView {
                    source: guest_path@,
                    destination: container_path@,
                    read_only,
                },
            ),
    {
        let tag = guest.next_auto_tag();
        guest.add_fs_share(tag.as_str(), host_path, guest_path, read_only);
        self.add_bind(guest_path, container_path, read_only);
    }

    /// Binds a path of the guest into the container.
    pub fn add_bind(&mut self, guest_path: &str, container_path: &str, read_only: bool)
        ensures
            final(self).deep_view() == old(self).deep_view().push(
                ContainerMountView {
                    source: guest_path@,
                    destination: container_path@,
                    read_only,
                },
            ),
    {
        let ghost before = self.container_mounts.deep_view();
        let mount = ContainerMount {
            source: guest_path.to_string(),
            destination: container_path.to_string(),
            read_only,
        };
        self.container_mounts.push(mount);
        assert(self.container_mounts.deep_view() =~= before.push(mount.deep_view()));
    }

    /// The mounts of the container, in the order they were added.
    pub fn build_container_mounts(&self) -> (r: Vec<ContainerMount>)
        ensures
            r.deep_view() == self.deep_view(),
    {
        let mut r: Vec<ContainerMount> = Vec::new();
        let mut i: usize = 0;
        while i < self.container_mounts.len()
            invariant
                i <= self.container_mounts.len(),
                r.len() == i,
                forall|j: int|
                    0 <= j < i ==> (#[trigger] r@[j]).deep_view()
                        == self.container_mounts@[j].deep_view(),
            decreases self.container_mounts.len() - i,
        {
            let m = &self.container_mounts[i];
            r.push(
                ContainerMount {
                    source: m.source.clone(),
                    destination: m.destination.clone(),
                    read_only: m.read_only,
                },
            );
            i += 1;
        }
        assert(r.deep_view() =~= self.container_mounts.deep_view());
        r
    }
}

impl Default for ContainerVolumeManager {
    fn default() -> (r: ContainerVolumeManager)
        ensures
            r.deep_view() == Seq::<ContainerMountView>::empty(),
    {
        ContainerVolumeManager::new()
    }
}

} // verus!
