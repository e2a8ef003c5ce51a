//! The runtime: the table of boxes, the handles given out for them, and
//! the decisions on creating, finding, stopping and removing boxes.
//!
//! A handle names a box and a generation. The runtime keeps one live
//! entry for a box at most; a handle is current while the entry of its
//! generation is there. A stop drops the entry, so that every handle of
//! that generation is stale from then on, and a later `get` makes an entry
//! of a new generation.

use vstd::prelude::*;

use crate::clock::Timestamp;
use crate::command::BoxCommand;
use crate::config::BoxConfig;
use crate::config::BoxConfigView;
use crate::config::ContainerRuntimeConfig;
use crate::config::ContainerRuntimeConfigView;
use crate::error::BoxliteError;
use crate::error::ErrorKind;
use crate::error::ErrorView;
use crate::home::box_dir_path;
use crate::home::sockets_dir_path;
use crate::home::HomeLayout;
use crate::home::GRPC_SOCKET;
use crate::home::READY_SOCKET;
use crate::ids::generate_box_id;
use crate::ids::is_box_id;
use crate::ids::is_container_id;
use crate::ids::ContainerId;
use crate::info::info_of;
use crate::info::BoxInfo;
use crate::layout::is_path_safe_id;
use crate::layout::join_path;
use crate::layout::unsafe_id_failure;
use crate::litebox::command_for_guest;
use crate::litebox::stopped_failure;
use crate::litebox::BoxImpl;
use crate::litebox::BoxImplView;
use crate::litebox::HANDLE_INVALIDATED;
use crate::manager::ambiguous_error;
use crate::manager::ambiguous_failure;
use crate::manager::has_id;
use crate::manager::has_name;
use crate::manager::id_taken_failure;
use crate::manager::key_names_row;
use crate::manager::lookup_is;
use crate::manager::name_taken_failure;
use crate::manager::not_found_error;
use crate::manager::not_found_failure;
use crate::manager::table_wf;
use crate::manager::BoxManager;
use crate::manager::BoxRowView;
use crate::manager::Lookup;
use crate::metrics::RuntimeMetrics;
use crate::metrics::RuntimeMetricsStorage;
use crate::options::options_valid;
use crate::options::BoxOptions;
use crate::options::BoxOptionsView;
use crate::options::BoxliteOptions;
use crate::state::BoxState;
use crate::state::BoxStatus;
use crate::text::chars_eq;
use crate::text::chars_of;
use crate::text::clone_option;
use crate::vmm::Transport;
use crate::vmm::TransportView;
use crate::vmm::VmmKind;

verus! {

/// The engine of a box that names none.
pub const DEFAULT_ENGINE: VmmKind = VmmKind::Libkrun;

/// A handle to a box.
#[derive(Clone, Debug)]
pub struct LiteBox {
    id: String,
    name: Option<String>,
    generation: u64,
}

pub struct LiteBoxView {
    pub id: Seq<char>,
    pub name: Option<Seq<char>>,
    pub generation: u64,
}

impl DeepView for LiteBox {
    type V = LiteBoxView;

    closed spec fn deep_view(&self) -> LiteBoxView {
        LiteBoxView { id: self.id@, name: self.name.deep_view(), generation: self.generation }
    }
}

impl LiteBox {
    pub fn id(&self) -> (r: &str)
        ensures
            r@ == self.deep_view().id,
    {
        self.id.as_str()
    }

    pub fn name(&self) -> (r: Option<&str>)
        ensures
            r.deep_view() == self.deep_view().name,
    {
        match &self.name {
            Some(n) => Some(n.as_str()),
            None => None,
        }
    }
}

/// The live entry of a box.
pub struct CacheEntry {
    generation: u64,
    inner: BoxImpl,
}

pub struct CacheEntryView {
    pub generation: u64,
    pub inner: BoxImplView,
}

impl DeepView for CacheEntry {
    type V = CacheEntryView;

    closed spec fn deep_view(&self) -> CacheEntryView {
        CacheEntryView { generation: self.generation, inner: self.inner.deep_view() }
    }
}

/// The mathematical content of a [`BoxliteRuntime`].
pub struct RuntimeView {
    pub home: Seq<char>,
    /// The registries asked, in order, for an image.
    pub registries: Seq<Seq<char>>,
    /// The table of boxes.
    pub rows: Seq<BoxRowView>,
    /// The live entries.
    pub cache: Seq<CacheEntryView>,
    /// Whether the runtime has been shut down.
    pub shut_down: bool,
    pub next_generation: u64,
    pub next_lock_id: u64,
    /// The counters on which the runtime counts.
    pub counters: RuntimeMetricsStorage,
}

/// Whether the box has a live entry.
pub open spec fn is_cached(cache: Seq<CacheEntryView>, id: Seq<char>) -> bool {
    exists|i: int| 0 <= i < cache.len() && (#[trigger] cache[i]).inner.config.id == id
}

/// A handle is current while the entry of its box and generation is
/// there.
pub open spec fn handle_current(v: RuntimeView, h: LiteBoxView) -> bool {
    exists|i: int|
        0 <= i < v.cache.len() && (#[trigger] v.cache[i]).generation == h.generation
            && v.cache[i].inner.config.id == h.id
}

/// A runtime is well formed when its table is; no box has two live
/// entries; every live entry is of a box in the table, is valid, and has a
/// generation that was given out already.
pub open spec fn runtime_wf(v: RuntimeView) -> bool {
    &&& table_wf(v.rows)
    &&& forall|i: int, j: int|
        0 <= i < j < v.cache.len() ==> (#[trigger] v.cache[i]).inner.config.id != (
        #[trigger] v.cache[j]).inner.config.id
    &&& forall|i: int|
        0 <= i < v.cache.len() ==> {
            &&& (#[trigger] v.cache[i]).generation < v.next_generation
            &&& !v.cache[i].inner.invalidated
            &&& has_id(v.rows, v.cache[i].inner.config.id)
        }
}

/// The configuration of a box created in the home directory.
pub open spec fn created_config(
    home: Seq<char>,
    options: BoxOptionsView,
    name: Option<Seq<char>>,
    box_id: Seq<char>,
    container_id: Seq<char>,
    now: Timestamp,
) -> BoxConfigView {
    BoxConfigView {
        id: box_id,
        name,
        created_at: now,
        container: ContainerRuntimeConfigView {
            id: container_id,
            image: options.rootfs,
            image_config: None,
        },
        options,
        engine_kind: DEFAULT_ENGINE,
        transport: TransportView::Unix {
            socket_path: join_path(sockets_dir_path(home, box_id), GRPC_SOCKET@),
        },
        box_home: box_dir_path(home, box_id),
        ready_socket_path: join_path(sockets_dir_path(home, box_id), READY_SOCKET@),
    }
}

/// The next lock to give out once a box with the given lock was taken in:
/// one past the lock where that is not below what it was, and never past
/// the last.
pub open spec fn lock_after(next_lock_id: u64, lock_id: Option<u64>) -> u64 {
    match lock_id {
        Some(l) => if l >= next_lock_id {
            if l == u64::MAX {
                u64::MAX
            } else {
                (l + 1) as u64
            }
        } else {
            next_lock_id
        },
        None => next_lock_id,
    }
}

/// The state of a box that was just created: configured, without a PID,
/// with its lock.
pub open spec fn created_state(now: Timestamp, lock_id: u64) -> BoxState {
    BoxState { status: BoxStatus::Configured, last_updated: now, pid: None, lock_id: Some(lock_id) }
}

pub open spec fn shut_down_failure() -> ErrorView {
    ErrorView { kind: ErrorKind::Stopped, message: "runtime has been shut down"@ }
}

pub open spec fn invalid_options_failure() -> ErrorView {
    ErrorView {
        kind: ErrorKind::Config,
        message: "invalid options: the image reference must not be empty and cpus must be at least 1"@,
    }
}

pub open spec fn exhausted_failure() -> ErrorView {
    ErrorView { kind: ErrorKind::Internal, message: "identifiers exhausted"@ }
}

/// Why a box cannot be created, if it cannot. The reasons are tried in
/// this order: the runtime is shut down; the options are not valid; the
/// identifier is not safe as a path component; the name is taken; the
/// identifier is taken; the runtime has run out of generations or locks.
pub open spec fn create_refusal(
    v: RuntimeView,
    options: BoxOptionsView,
    name: Option<Seq<char>>,
    box_id: Seq<char>,
) -> Option<ErrorView> {
    if v.shut_down {
        Some(shut_down_failure())
    } else if !options_valid(options) {
        Some(invalid_options_failure())
    } else if !is_path_safe_id(box_id) {
        Some(unsafe_id_failure(box_id))
    } else if name matches Some(n) && has_name(v.rows, n) {
        Some(name_taken_failure(name->0))
    } else if has_id(v.rows, box_id) {
        Some(id_taken_failure(box_id))
    } else if v.next_generation == u64::MAX || v.next_lock_id == u64::MAX {
        Some(exhausted_failure())
    } else {
        None
    }
}

/// The runtime after a box was created.
pub open spec fn after_create(
    v: RuntimeView,
    options: BoxOptionsView,
    name: Option<Seq<char>>,
    box_id: Seq<char>,
    container_id: Seq<char>,
    now: Timestamp,
) -> RuntimeView {
    let config = created_config(v.home, options, name, box_id, container_id, now);
    let state = created_state(now, v.next_lock_id);
    RuntimeView {
        rows: v.rows.push(BoxRowView { config, state }),
        cache: v.cache.push(
            CacheEntryView {
                generation: v.next_generation,
                inner: BoxImplView { config, state, invalidated: false, live: None },
            },
        ),
        next_generation: (v.next_generation + 1) as u64,
        next_lock_id: (v.next_lock_id + 1) as u64,
        ..v
    }
}

/// Whether `r` and `after` are the outcome of creating a box in `before`:
/// the box is refused for the first reason of [`create_refusal`] that
/// holds, and then nothing changes; otherwise it is created and the handle
/// returned is that of its live entry.
pub open spec fn create_outcome(
    before: RuntimeView,
    after: RuntimeView,
    options: BoxOptionsView,
    name: Option<Seq<char>>,
    box_id: Seq<char>,
    container_id: Seq<char>,
    now: Timestamp,
    r: Result<LiteBox, BoxliteError>,
) -> bool {
    match r {
        Ok(h) => {
            &&& create_refusal(before, options, name, box_id) is None
            &&& after == after_create(before, options, name, box_id, container_id, now)
            &&& h.deep_view() == (LiteBoxView {
                id: box_id,
                name,
                generation: before.next_generation,
            })
            &&& handle_current(after, h.deep_view())
        },
        Err(e) => {
            &&& after == before
            &&& Some(e.deep_view()) == create_refusal(before, options, name, box_id)
        },
    }
}

/// The runtime.
pub struct BoxliteRuntime {
    layout: HomeLayout,
    image_registries: Vec<String>,
    manager: BoxManager,
    cache: Vec<CacheEntry>,
    shut_down: bool,
    metrics: RuntimeMetricsStorage,
    next_generation: u64,
    next_lock_id: u64,
}

impl DeepView for BoxliteRuntime {
    type V = RuntimeView;

    closed spec fn deep_view(&self) -> RuntimeView {
        RuntimeView {
            home: self.layout@,
            registries: self.image_registries.deep_view(),
            rows: self.manager.deep_view(),
            cache: self.cache.deep_view(),
            shut_down: self.shut_down,
            next_generation: self.next_generation,
            next_lock_id: self.next_lock_id,
            counters: self.metrics,
        }
    }
}

impl BoxliteRuntime {
    /// A runtime without boxes.
    pub fn new(options: BoxliteOptions) -> (r: BoxliteRuntime)
        ensures
            runtime_wf(r.deep_view()),
            r.deep_view() == (RuntimeView {
                home: options.home_dir@,
                registries: options.image_registries.deep_view(),
                rows: Seq::empty(),
                cache: Seq::empty(),
                shut_down: false,
                next_generation: 0,
                next_lock_id: 0,
                counters: r.deep_view().counters,
            }),
    {
        let r = BoxliteRuntime {
            layout: HomeLayout::new(options.home_dir.as_str()),
            image_registries: options.image_registries,
            manager: BoxManager::new(),
            cache: Vec::new(),
            shut_down: false,
            metrics: RuntimeMetricsStorage::new(),
            next_generation: 0,
            next_lock_id: 0,
        };
        assert(r.cache.deep_view() =~= Seq::empty());
        r
    }

    pub fn layout(&self) -> (r: &HomeLayout)
        ensures
            r@ == self.deep_view().home,
    {
        &self.layout
    }

    /// The registries asked, in order, for an image.
    pub fn image_registries(&self) -> (r: &Vec<String>)
        ensures
            r.deep_view() == self.deep_view().registries,
    {
        &self.image_registries
    }

    /// The table of boxes.
    pub fn manager(&self) -> (r: &BoxManager)
        ensures
            r.deep_view() == self.deep_view().rows,
    {
        &self.manager
    }

    /// A handle for reading the counters of the runtime: it reads the
    /// counters on which the runtime counts, now and later.
    pub fn metrics(&self) -> (r: RuntimeMetrics)
        ensures
            r.counters() == self.deep_view().counters,
    {
        RuntimeMetrics::new(self.metrics.clone())
    }

    pub fn is_shut_down(&self) -> (r: bool)
        ensures
            r == self.deep_view().shut_down,
    {
        self.shut_down
    }

    fn find_cached(&self, id: &str) -> (r: Option<usize>)
        ensures
            match r {
                Some(i) => i < self.deep_view().cache.len() && self.deep_view().cache[i as int].inner.config.id
                    == id@,
                None => !is_cached(self.deep_view().cache, id@),
            },
    {
        let wanted = chars_of(id);
        let mut i: usize = 0;
        while i < self.cache.len()
            invariant
                i <= self.cache.len(),
                wanted@ == id@,
                forall|j: int|
                    0 <= j < i ==> (#[trigger] self.deep_view().cache[j]).inner.config.id != id@,
            decreases self.cache.len() - i,
        {
            let found = chars_of(self.cache[i].inner.id());
            if chars_eq(&found, &wanted) {
                return Some(i);
            }
            i += 1;
        }
        None
    }

    fn find_handle(&self, handle: &LiteBox) -> (r: Option<usize>)
        requires
            runtime_wf(self.deep_view()),
        ensures
            r is Some <==> handle_current(self.deep_view(), handle.deep_view()),
            r matches Some(i) ==> {
                &&& i < self.deep_view().cache.len()
                &&& self.deep_view().cache[i as int].inner.config.id == handle.deep_view().id
                &&& self.deep_view().cache[i as int].generation == handle.deep_view().generation
            },
    {
        match self.find_cached(handle.id.as_str()) {
            Some(i) => {
                if self.cache[i].generation == handle.generation {
                    Some(i)
                } else {
                    proof {
                        let v = self.deep_view();
                        let h = handle.deep_view();
                        if handle_current(v, h) {
                            let k = choose|k: int|
                                0 <= k < v.cache.len() && (#[trigger] v.cache[k]).generation
                                    == h.generation && v.cache[k].inner.config.id == h.id;
                            if k < i {
                                assert(v.cache[k].inner.config.id != v.cache[i as int].inner.config.id);
                            } else if k > i {
                                assert(v.cache[i as int].inner.config.id != v.cache[k].inner.config.id);
                            }
                        }
                    }
                    None
                }
            },
            None => None,
        }
    }

    /// Takes in a box that was created by an earlier run of the runtime,
    /// with its configuration and state as they were stored. The box gets
    /// no live entry. Locks given out from now on are newer than the lock
    /// of the box.
    ///
    /// Fails with `AlreadyExists`, and changes nothing, where the name or
    /// the identifier of the box is taken.
    pub fn adopt(&mut self, config: BoxConfig, state: BoxState) -> (r: Result<(), BoxliteError>)
        requires
            runtime_wf(old(self).deep_view()),
        ensures
            runtime_wf(final(self).deep_view()),
            r is Ok <==> !has_id(old(self).deep_view().rows, config.id@) && !(
            config.name matches Some(n) && has_name(old(self).deep_view().rows, n@)),
            r is Ok ==> final(self).deep_view() == (RuntimeView {
                rows: old(self).deep_view().rows.push(
                    BoxRowView { config: config.deep_view(), state },
                ),
                next_lock_id: lock_after(old(self).deep_view().next_lock_id, state.lock_id),
                ..old(self).deep_view()
            }),
            r matches Err(e) ==> final(self).deep_view() == old(self).deep_view()
                && e.spec_kind() == ErrorKind::AlreadyExists,
    {
        let ghost before = self.deep_view();
        let ghost id = config.id@;
        self.manager.add_box(config, state)?;
        match state.lock_id {
            Some(l) => {
                if l >= self.next_lock_id {
                    self.next_lock_id = if l == u64::MAX {
                        u64::MAX
                    } else {
                        l + 1
                    };
                }
            },
            None => {},
        }
        proof {
            let after = self.deep_view();
            assert forall|i: int| 0 <= i < after.cache.len() implies has_id(
                after.rows,
                (#[trigger] after.cache[i]).inner.config.id,
            ) by {
                let other = before.cache[i].inner.config.id;
                let w = choose|w: int|
                    0 <= w < before.rows.len() && (#[trigger] before.rows[w]).config.id == other;
                assert(after.rows[w].config.id == other);
            }
        }
        Ok(())
    }

    /// Creates a box with the given identifiers at time `now`.
    ///
    /// The box is refused for the first reason of [`create_refusal`] that
    /// holds; then nothing changes. Otherwise it is added to the table in
    /// the configured status, with its lock, it gets a live entry, and the
    /// handle returned is current.
    pub fn create_with_ids(
        &mut self,
        options: BoxOptions,
        name: Option<String>,
        box_id: String,
        container_id: ContainerId,
        now: Timestamp,
    ) -> (r: Result<LiteBox, BoxliteError>)
        requires
            runtime_wf(old(self).deep_view()),
        ensures
            runtime_wf(final(self).deep_view()),
            create_outcome(
                old(self).deep_view(),
                final(self).deep_view(),
                options.deep_view(),
                name.deep_view(),
                box_id@,
                container_id@,
                now,
                r,
            ),
    {
        let ghost before = self.deep_view();
        if self.shut_down {
            return Err(BoxliteError::Stopped("runtime has been shut down".to_string()));
        }
        if options.sanitize().is_err() {
            return Err(
                BoxliteError::Config(
                    "invalid options: the image reference must not be empty and cpus must be at least 1".to_string(),
                ),
            );
        }
        let box_layout = self.layout.box_layout(box_id.as_str())?;
        match &name {
            Some(n) => {
                if self.name_taken(n.as_str()) {
                    return Err(name_taken_error(n.as_str()));
                }
            },
            None => {},
        }
        if self.id_taken(box_id.as_str()) {
            return Err(id_taken_error(box_id.as_str()));
        }
        if self.next_generation == u64::MAX || self.next_lock_id == u64::MAX {
            return Err(BoxliteError::Internal("identifiers exhausted".to_string()));
        }
        let state = BoxState {
            status: BoxStatus::Configured,
            last_updated: now,
            pid: None,
            lock_id: Some(self.next_lock_id),
        };
        let config = BoxConfig {
            id: box_id,
            name,
            created_at: now,
            container: ContainerRuntimeConfig {
                id: container_id,
                image: options.rootfs.duplicate(),
                image_config: None,
            },
            options,
            engine_kind: DEFAULT_ENGINE,
            transport: Transport::unix(box_layout.grpc_socket().as_str()),
            box_home: box_layout.root().to_string(),
            ready_socket_path: box_layout.ready_socket(),
        };
        let handle = LiteBox {
            id: config.id.clone(),
            name: clone_option(&config.name),
            generation: self.next_generation,
        };
        let added = self.manager.add_box(config.duplicate(), state);
        assert(added is Ok);
        let ghost cache_before = self.cache.deep_view();
        let entry = CacheEntry { generation: self.next_generation, inner: BoxImpl::new(config, state) };
        let ghost entry_view = entry.deep_view();
        self.cache.push(entry);
        self.next_generation = self.next_generation + 1;
        self.next_lock_id = self.next_lock_id + 1;
        self.metrics.record_created();
        proof {
            let after = self.deep_view();
            assert(after.cache =~= cache_before.push(entry_view));
            assert(after == after_create(
                before,
                options.deep_view(),
                name.deep_view(),
                box_id@,
                container_id@,
                now,
            ));
            lemma_create_keeps_wf(
                before,
                options.deep_view(),
                name.deep_view(),
                box_id@,
                container_id@,
                now,
            );
            assert(after.cache[before.cache.len() as int] == entry_view);
        }
        Ok(handle)
    }

    fn name_taken(&self, name: &str) -> (r: bool)
        ensures
            r == has_name(self.deep_view().rows, name@),
    {
        let rows = self.manager.list();
        let wanted = chars_of(name);
        let mut i: usize = 0;
        while i < rows.len()
            invariant
                i <= rows.len(),
                wanted@ == name@,
                rows.deep_view() == self.deep_view().rows,
                forall|j: int|
                    0 <= j < i ==> (#[trigger] rows.deep_view()[j]).config.name != Some(name@),
            decreases rows.len() - i,
        {
            match &rows[i].config.name {
                Some(n) => {
                    if chars_eq(&chars_of(n.as_str()), &wanted) {
                        assert(rows.deep_view()[i as int].config.name == Some(name@));
                        return true;
                    }
                },
                None => {},
            }
            i += 1;
        }
        false
    }

    fn id_taken(&self, id: &str) -> (r: bool)
        ensures
            r == has_id(self.deep_view().rows, id@),
    {
        let rows = self.manager.list();
        let wanted = chars_of(id);
        let mut i: usize = 0;
        while i < rows.len()
            invariant
                i <= rows.len(),
                wanted@ == id@,
                rows.deep_view() == self.deep_view().rows,
                forall|j: int| 0 <= j < i ==> (#[trigger] rows.deep_view()[j]).config.id != id@,
            decreases rows.len() - i,
        {
            if chars_eq(&chars_of(rows[i].config.id.as_str()), &wanted) {
                assert(rows.deep_view()[i as int].config.id == id@);
                return true;
            }
            i += 1;
        }
        false
    }

    /// Creates a box at time `now`, with a new box identifier and a new
    /// container identifier.
    ///
    /// The identifiers are random. With the identifiers that were drawn,
    /// the box is created or refused as by
    /// [`BoxliteRuntime::create_with_ids`].
    pub fn create(&mut self, options: BoxOptions, name: Option<String>, now: Timestamp) -> (r: Result<
        LiteBox,
        BoxliteError,
    >)
        requires
            runtime_wf(old(self).deep_view()),
        ensures
            runtime_wf(final(self).deep_view()),
            exists|box_id: Seq<char>, container_id: Seq<char>|
                {
                    &&& is_box_id(box_id)
                    &&& is_container_id(container_id)
                    &&& #[trigger] create_outcome(
                        old(self).deep_view(),
                        final(self).deep_view(),
                        options.deep_view(),
                        name.deep_view(),
                        box_id,
                        container_id,
                        now,
                        r,
                    )
                },
    {
        let box_id = generate_box_id();
        let container_id = ContainerId::new();
        let ghost b = box_id@;
        let ghost c = container_id@;
        let r = self.create_with_ids(options, name, box_id, container_id, now);
        assert(create_outcome(
            old(self).deep_view(),
            self.deep_view(),
            options.deep_view(),
            name.deep_view(),
            b,
            c,
            now,
            r,
        ));
        r
    }
}

// ============================================================================
// Finding, stopping and removing
// ============================================================================

/// Whether `r` is what a start answers for a box with a live entry: a box
/// that cannot be built in its status is refused with `InvalidState`; a
/// box that runs in this process needs nothing; every other box is to be
/// built by the plan of its status.
pub open spec fn start_outcome(
    inner: BoxImplView,
    r: Result<crate::litebox::StartAction, BoxliteError>,
) -> bool {
    let status = inner.state.status;
    if !crate::init::can_build(status) {
        r matches Err(e) && e.deep_view() == crate::init::cannot_build_failure(status)
    } else if status == BoxStatus::Running && inner.live is Some {
        r matches Ok(action) && action is Nothing
    } else {
        r matches Ok(action) && (action matches crate::litebox::StartAction::Build { plan }
            && plan.deep_view() == crate::init::plan_for(status))
    }
}

/// A handle is stale when its generation was given out and its entry is
/// gone. A stale handle never becomes current again.
pub open spec fn handle_stale(v: RuntimeView, h: LiteBoxView) -> bool {
    h.generation < v.next_generation && !handle_current(v, h)
}

/// How long each box is given to stop when the runtime shuts down, in
/// milliseconds; nothing where there is no limit. Without a timeout a box
/// is given 10 seconds; a negative timeout sets no limit.
pub open spec fn shutdown_limit_ms(timeout_secs: Option<i32>) -> Option<u64> {
    match timeout_secs {
        None => Some(10_000u64),
        Some(t) => if t < 0 {
            None
        } else {
            Some((t * 1000) as u64)
        },
    }
}

/// The boxes with a live entry that run, in the order of the entries.
pub open spec fn running_ids(cache: Seq<CacheEntryView>) -> Seq<Seq<char>>
    decreases cache.len(),
{
    if cache.len() == 0 {
        Seq::empty()
    } else if cache.last().inner.state.status == BoxStatus::Running {
        running_ids(cache.drop_last()).push(cache.last().inner.config.id)
    } else {
        running_ids(cache.drop_last())
    }
}

/// A key that stands for a row is neither missing nor ambiguous.
pub proof fn lemma_found_is_not_missing(rows: Seq<BoxRowView>, key: Seq<char>, i: int)
    requires
        key_names_row(rows, key, i),
    ensures
        !lookup_is(rows, key, Lookup::Missing),
        !lookup_is(rows, key, Lookup::Ambiguous),
{
    if rows[i].config.name == Some(key) {
        assert(has_name(rows, key));
    } else if rows[i].config.id == key {
        assert(has_id(rows, key));
    }
}

/// The runtime after a handle was given out for the box of the row at
/// `i`: unchanged where the box has a live entry; otherwise the box has a
/// new entry, of the next generation, that holds nothing yet.
pub open spec fn after_get(v: RuntimeView, i: int) -> RuntimeView {
    if is_cached(v.cache, v.rows[i].config.id) {
        v
    } else {
        RuntimeView {
            cache: v.cache.push(
                CacheEntryView {
                    generation: v.next_generation,
                    inner: BoxImplView {
                        config: v.rows[i].config,
                        state: v.rows[i].state,
                        invalidated: false,
                        live: None,
                    },
                },
            ),
            next_generation: (v.next_generation + 1) as u64,
            ..v
        }
    }
}

/// The runtime after the build of the box with the live entry at `k` and
/// the row at `i` succeeded at time `now`: the entry holds what the build
/// produced, and entry and row hold the running state.
pub open spec fn after_started(
    v: RuntimeView,
    k: int,
    i: int,
    live: crate::init::LiveStateView,
    now: Timestamp,
) -> RuntimeView {
    let inner = v.cache[k].inner;
    let state = BoxState {
        status: BoxStatus::Running,
        last_updated: crate::clock::later(inner.state.last_updated, now),
        pid: Some(live.handler.pid),
        lock_id: inner.state.lock_id,
    };
    RuntimeView {
        rows: v.rows.update(i, BoxRowView { state, ..v.rows[i] }),
        cache: v.cache.update(
            k,
            CacheEntryView { inner: BoxImplView { state, live: Some(live), ..inner }, ..v.cache[k] },
        ),
        ..v
    }
}

/// The live entries without the one of the box, if it has one.
pub open spec fn cache_without(cache: Seq<CacheEntryView>, id: Seq<char>, after: Seq<CacheEntryView>) -> bool {
    if is_cached(cache, id) {
        exists|k: int|
            0 <= k < cache.len() && (#[trigger] cache[k]).inner.config.id == id && after
                == cache.remove(k)
    } else {
        after == cache
    }
}

/// Whether the live entry at `k` is the one of the handle.
pub open spec fn entry_of(v: RuntimeView, h: LiteBoxView, k: int) -> bool {
    &&& 0 <= k < v.cache.len()
    &&& v.cache[k].generation == h.generation
    &&& v.cache[k].inner.config.id == h.id
}

/// Whether the row at `i` is the one of the handle's box.
pub open spec fn row_of(v: RuntimeView, h: LiteBoxView, i: int) -> bool {
    0 <= i < v.rows.len() && v.rows[i].config.id == h.id
}

/// The runtime after the box with the live entry at `k` and the row at `i`
/// was stopped at time `now`: the entry is dropped; the row holds the
/// stopped state, or is removed where the box asked for that.
pub open spec fn after_stop(v: RuntimeView, k: int, i: int, now: Timestamp) -> RuntimeView {
    let inner = v.cache[k].inner;
    let stopped = BoxRowView {
        state: crate::state::transitioned(inner.state, BoxStatus::Stopped, now),
        ..v.rows[i]
    };
    RuntimeView {
        rows: if inner.config.options.auto_remove {
            v.rows.remove(i)
        } else {
            v.rows.update(i, stopped)
        },
        cache: v.cache.remove(k),
        ..v
    }
}

/// Whether `r` and `after` are the outcome of stopping the box of a
/// handle in `before` at time `now`.
pub open spec fn stop_outcome(
    before: RuntimeView,
    after: RuntimeView,
    h: LiteBoxView,
    now: Timestamp,
    r: Result<Vec<crate::litebox::StopStep>, BoxliteError>,
) -> bool {
    if !handle_current(before, h) {
        &&& r matches Err(e) && e.deep_view() == stopped_failure()
        &&& after == before
    } else {
        exists|k: int|
            #[trigger] entry_of(before, h, k) && {
                let status = before.cache[k].inner.state.status;
                if status == BoxStatus::Stopped || status == BoxStatus::Unknown {
                    &&& r matches Ok(steps) && steps.deep_view()
                        == Seq::<crate::litebox::StopStepView>::empty()
                    &&& after == before
                } else if status == BoxStatus::Configured || status == BoxStatus::Running {
                    &&& r matches Ok(steps) && steps.deep_view() == crate::litebox::stop_steps(
                        before.cache[k].inner,
                        now,
                    )
                    &&& exists|i: int| #[trigger]
                        row_of(before, h, i) && after == after_stop(before, k, i, now)
                } else {
                    &&& r matches Err(e) && e.spec_kind() == ErrorKind::InvalidState
                    &&& after == before
                }
            }
    }
}

/// In a well-formed table two rows with one identifier are one row.
pub proof fn lemma_same_row(rows: Seq<BoxRowView>, i: int, j: int)
    requires
        table_wf(rows),
        0 <= i < rows.len(),
        0 <= j < rows.len(),
        rows[i].config.id == rows[j].config.id,
    ensures
        i == j,
{
    if i < j {
        assert(rows[i].config.id != rows[j].config.id);
    } else if j < i {
        assert(rows[j].config.id != rows[i].config.id);
    }
}

/// A start that failed: the failure, and what is to be undone, in order.
#[derive(Debug)]
pub struct StartFailure {
    pub error: BoxliteError,
    pub cleanup: Vec<crate::init::CleanupAction>,
}

/// What is to be undone for a machine whose start cannot be recorded: a
/// machine that the start spawned is stopped; one that it attached to is
/// left running.
pub open spec fn orphan_cleanup(handler: crate::shim::ShimHandlerView) -> Seq<
    crate::init::CleanupActionView,
> {
    if handler.owned {
        seq![crate::init::CleanupActionView::StopMachine { pid: handler.pid }]
    } else {
        Seq::empty()
    }
}

/// What a shutdown asks of the caller.
#[derive(Clone, Debug)]
pub struct ShutdownPlan {
    /// The boxes to stop, all at once.
    pub box_ids: Vec<String>,
    /// How long each is given, in milliseconds; `None` for no limit.
    pub limit_ms: Option<u64>,
}

/// One step of removing a box, for the caller to take.
#[derive(Clone, Debug)]
pub enum RemoveStep {
    /// Stop the process that hosts the machine.
    StopMachine { pid: u32 },
    /// Delete the row of the box in the database.
    DeleteRow { id: String },
    /// Remove the directory of the box and all it holds.
    RemoveDirectory { path: String },
}

pub enum RemoveStepView {
    StopMachine { pid: u32 },
    DeleteRow { id: Seq<char> },
    RemoveDirectory { path: Seq<char> },
}

impl DeepView for RemoveStep {
    type V = RemoveStepView;

    open spec fn deep_view(&self) -> RemoveStepView {
        match self {
            RemoveStep::StopMachine { pid } => RemoveStepView::StopMachine { pid: *pid },
            RemoveStep::DeleteRow { id } => RemoveStepView::DeleteRow { id: id@ },
            RemoveStep::RemoveDirectory { path } => RemoveStepView::RemoveDirectory { path: path@ },
        }
    }
}

pub open spec fn running_failure(id: Seq<char>) -> ErrorView {
    ErrorView {
        kind: ErrorKind::InvalidState,
        message: "cannot remove running box "@ + id + "; stop it first or use force"@,
    }
}

/// The steps of removing the box of a row.
pub open spec fn remove_steps(row: BoxRowView) -> Seq<RemoveStepView> {
    (if row.state.status == BoxStatus::Running && row.state.pid is Some {
        seq![RemoveStepView::StopMachine { pid: row.state.pid->0 }]
    } else {
        Seq::empty()
    }) + seq![
        RemoveStepView::DeleteRow { id: row.config.id },
        RemoveStepView::RemoveDirectory { path: row.config.box_home },
    ]
}

impl BoxliteRuntime {
    /// The record of every box, in the order they were created. Nothing
    /// is started.
    pub fn list_info(&self) -> (r: Vec<BoxInfo>)
        ensures
            r.len() == self.deep_view().rows.len(),
            forall|i: int|
                0 <= i < r.len() ==> (#[trigger] r[i]).deep_view() == info_of(
                    self.deep_view().rows[i].config,
                    self.deep_view().rows[i].state,
                ),
    {
        self.manager.list_info()
    }

    /// The record of the box that the key stands for, if there is one.
    /// Nothing is started.
    pub fn get_info(&self, key: &str) -> (r: Result<Option<BoxInfo>, BoxliteError>)
        ensures
            match r {
                Ok(Some(info)) => exists|i: int|
                    #[trigger] key_names_row(self.deep_view().rows, key@, i) && info.deep_view()
                        == info_of(
                        self.deep_view().rows[i].config,
                        self.deep_view().rows[i].state,
                    ),
                Ok(None) => lookup_is(self.deep_view().rows, key@, Lookup::Missing),
                Err(e) => lookup_is(self.deep_view().rows, key@, Lookup::Ambiguous)
                    && e.deep_view() == ambiguous_failure(key@),
            },
    {
        match self.manager.lookup(key) {
            Lookup::Found { index } => {
                let row = self.manager.row(index);
                assert(key_names_row(self.deep_view().rows, key@, index as int));
                Ok(Some(BoxInfo::new(&row.config, &row.state)))
            },
            Lookup::Missing => Ok(None),
            Lookup::Ambiguous => Err(ambiguous_error(key)),
        }
    }

    /// A handle to the box that the key stands for, if there is one.
    ///
    /// The handle shares the live entry of the box where it has one;
    /// otherwise the box gets an entry of a new generation. Stale handles
    /// stay stale.
    pub fn get(&mut self, key: &str) -> (r: Result<Option<LiteBox>, BoxliteError>)
        requires
            runtime_wf(old(self).deep_view()),
        ensures
            runtime_wf(final(self).deep_view()),
            final(self).deep_view().rows == old(self).deep_view().rows,
            final(self).deep_view().shut_down == old(self).deep_view().shut_down,
            forall|h: LiteBoxView| #[trigger]
                handle_stale(old(self).deep_view(), h) ==> handle_stale(final(self).deep_view(), h),
            forall|h: LiteBoxView| #[trigger]
                handle_current(old(self).deep_view(), h) ==> handle_current(
                    final(self).deep_view(),
                    h,
                ),
            match r {
                Ok(Some(h)) => handle_current(final(self).deep_view(), h.deep_view()) && exists|
                    i: int,
                |
                    {
                        &&& #[trigger] key_names_row(old(self).deep_view().rows, key@, i)
                        &&& h.deep_view().id == old(self).deep_view().rows[i].config.id
                        &&& h.deep_view().name == old(self).deep_view().rows[i].config.name
                        &&& final(self).deep_view() == after_get(
                            old(self).deep_view(),
                            i,
                        )
                        &&& !is_cached(old(self).deep_view().cache, h.deep_view().id)
                            ==> h.deep_view().generation == old(self).deep_view().next_generation
                    },
                Ok(None) => lookup_is(old(self).deep_view().rows, key@, Lookup::Missing)
                    && final(self).deep_view() == old(self).deep_view(),
                Err(e) => final(self).deep_view() == old(self).deep_view() && (if lookup_is(
                    old(self).deep_view().rows,
                    key@,
                    Lookup::Ambiguous,
                ) {
                    e.deep_view() == ambiguous_failure(key@)
                } else {
                    &&& e.deep_view() == exhausted_failure()
                    &&& old(self).deep_view().next_generation == u64::MAX
                    &&& exists|i: int|
                        #[trigger] key_names_row(old(self).deep_view().rows, key@, i)
                            && !is_cached(
                            old(self).deep_view().cache,
                            old(self).deep_view().rows[i].config.id,
                        )
                }),
            },
            lookup_is(old(self).deep_view().rows, key@, Lookup::Missing) ==> r matches Ok(None),
            lookup_is(old(self).deep_view().rows, key@, Lookup::Ambiguous) ==> r is Err,
            forall|i: int| #[trigger]
                key_names_row(old(self).deep_view().rows, key@, i) ==> (if is_cached(
                    old(self).deep_view().cache,
                    old(self).deep_view().rows[i].config.id,
                ) || old(self).deep_view().next_generation < u64::MAX {
                    r matches Ok(Some(_))
                } else {
                    r is Err
                }),
    {
        let ghost before = self.deep_view();
        proof {
            self.lemma_lookup_exclusive(key@);
            assert forall|i: int| #[trigger] key_names_row(before.rows, key@, i) implies !lookup_is(
                before.rows,
                key@,
                Lookup::Missing,
            ) && !lookup_is(before.rows, key@, Lookup::Ambiguous) by {
                lemma_found_is_not_missing(before.rows, key@, i);
            }
        }
        let index = match self.manager.lookup(key) {
            Lookup::Found { index } => index,
            Lookup::Missing => {
                return Ok(None);
            },
            Lookup::Ambiguous => {
                return Err(ambiguous_error(key));
            },
        };
        proof {
            assert forall|i: int| #[trigger] key_names_row(before.rows, key@, i) implies i
                == index as int by {
                crate::manager::lemma_lookup_is_unique(before.rows, key@, i, index as int);
            }
        }
        let row = self.manager.row(index);
        assert(before.rows[index as int].config.id == row.config.id@);
        match self.find_cached(row.config.id.as_str()) {
            Some(k) => {
                let h = LiteBox {
                    id: row.config.id.clone(),
                    name: clone_option(&row.config.name),
                    generation: self.cache[k].generation,
                };
                assert(before.cache[k as int].generation == h.deep_view().generation);
                assert(key_names_row(before.rows, key@, index as int));
                assert(is_cached(before.cache, before.rows[index as int].config.id));
                Ok(Some(h))
            },
            None => {
                if self.next_generation == u64::MAX {
                    assert(key_names_row(before.rows, key@, index as int));
                    return Err(BoxliteError::Internal("identifiers exhausted".to_string()));
                }
                let h = LiteBox {
                    id: row.config.id.clone(),
                    name: clone_option(&row.config.name),
                    generation: self.next_generation,
                };
                let entry = CacheEntry {
                    generation: self.next_generation,
                    inner: BoxImpl::new(row.config.duplicate(), row.state),
                };
                let ghost entry_view = entry.deep_view();
                self.cache.push(entry);
                self.next_generation = self.next_generation + 1;
                proof {
                    let after = self.deep_view();
                    let m = before.cache.len() as int;
                    assert(after.cache =~= before.cache.push(entry_view));
                    assert(after.cache[m] == entry_view);
                    assert(key_names_row(before.rows, key@, index as int));
                    assert(after == after_get(before, index as int));
                    assert forall|i: int, j: int| 0 <= i < j < after.cache.len() implies (
                    #[trigger] after.cache[i]).inner.config.id != (
                    #[trigger] after.cache[j]).inner.config.id by {
                        if j == m {
                            assert(before.cache[i].inner.config.id != entry_view.inner.config.id);
                        }
                    }
                    assert forall|i: int| 0 <= i < after.cache.len() implies {
                        &&& (#[trigger] after.cache[i]).generation < after.next_generation
                        &&& !after.cache[i].inner.invalidated
                        &&& has_id(after.rows, after.cache[i].inner.config.id)
                    } by {
                        if i == m {
                            assert(after.rows[index as int].config.id == entry_view.inner.config.id);
                        }
                    }
                    assert forall|h: LiteBoxView| #[trigger]
                        handle_stale(before, h) implies handle_stale(after, h) by {
                        if handle_current(after, h) {
                            let k = choose|k: int|
                                0 <= k < after.cache.len() && (#[trigger] after.cache[k]).generation
                                    == h.generation && after.cache[k].inner.config.id == h.id;
                            if k < m {
                                assert(before.cache[k].generation == h.generation);
                            }
                        }
                    }
                    assert forall|h: LiteBoxView| #[trigger]
                        handle_current(before, h) implies handle_current(after, h) by {
                        let k = choose|k: int|
                            0 <= k < before.cache.len() && (#[trigger] before.cache[k]).generation
                                == h.generation && before.cache[k].inner.config.id == h.id;
                        assert(after.cache[k].generation == h.generation);
                    }
                }
                Ok(Some(h))
            },
        }
    }

    proof fn lemma_lookup_exclusive(&self, key: Seq<char>)
        ensures
            !(lookup_is(self.deep_view().rows, key, Lookup::Missing) && lookup_is(
                self.deep_view().rows,
                key,
                Lookup::Ambiguous,
            )),
    {
    }

    /// The command as it is sent to the guest, or `Stopped` for a handle
    /// that is not current.
    pub fn exec(&self, handle: &LiteBox, command: BoxCommand) -> (r: Result<BoxCommand, BoxliteError>)
        requires
            runtime_wf(self.deep_view()),
        ensures
            r is Ok <==> handle_current(self.deep_view(), handle.deep_view()),
            r matches Err(e) ==> e.deep_view() == stopped_failure(),
            r matches Ok(c) ==> exists|i: int|
                {
                    &&& 0 <= i < self.deep_view().cache.len()
                    &&& (#[trigger] self.deep_view().cache[i]).generation
                        == handle.deep_view().generation
                    &&& self.deep_view().cache[i].inner.config.id == handle.deep_view().id
                    &&& c.deep_view() == command_for_guest(
                        command.deep_view(),
                        self.deep_view().cache[i].inner.config.container.id,
                        self.deep_view().cache[i].inner.config.options.working_dir,
                    )
                },
    {
        match self.find_handle(handle) {
            Some(k) => {
                assert(!self.deep_view().cache[k as int].inner.invalidated);
                assert(self.cache[k as int].deep_view() == self.deep_view().cache[k as int]);
                self.cache[k].inner.exec(command)
            },
            None => Err(BoxliteError::Stopped(HANDLE_INVALIDATED.to_string())),
        }
    }

    /// Counts a command that was sent to the guest, and its failure if it
    /// failed. Nothing is counted for a handle that is not current.
    pub fn record_exec(&self, handle: &LiteBox, failed: bool)
        requires
            runtime_wf(self.deep_view()),
    {
        match self.find_handle(handle) {
            Some(k) => {
                self.cache[k].inner.record_exec(&self.metrics, failed);
            },
            None => {},
        }
    }

    /// Stops the box of a handle at time `now` and returns what to do on
    /// the host, in order.
    ///
    /// A handle that is not current fails with `Stopped`. A box that is
    /// stopped already needs nothing. A box that is starting or stopping
    /// fails with `InvalidState`. Otherwise the box's state is written to
    /// the table; the live entry is dropped, so that the handle and every
    /// other handle of its generation are stale from then on; and a box
    /// that asked to be removed when it stops is removed from the table.
    pub fn stop(&mut self, handle: &LiteBox, now: Timestamp) -> (r: Result<
        Vec<crate::litebox::StopStep>,
        BoxliteError,
    >)
        requires
            runtime_wf(old(self).deep_view()),
        ensures
            runtime_wf(final(self).deep_view()),
            forall|h: LiteBoxView| #[trigger]
                handle_stale(old(self).deep_view(), h) ==> handle_stale(final(self).deep_view(), h),
            stop_outcome(
                old(self).deep_view(),
                final(self).deep_view(),
                handle.deep_view(),
                now,
                r,
            ),
            r matches Ok(steps) ==> (steps.len() > 0 ==> handle_stale(
                final(self).deep_view(),
                handle.deep_view(),
            ) && !is_cached(final(self).deep_view().cache, handle.deep_view().id)),
    {
        let ghost before = self.deep_view();
        let k = match self.find_handle(handle) {
            Some(k) => k,
            None => {
                return Err(BoxliteError::Stopped(HANDLE_INVALIDATED.to_string()));
            },
        };
        let ghost inner_before = before.cache[k as int].inner;
        assert(self.cache[k as int].deep_view() == before.cache[k as int]);
        let status = self.cache[k].inner.state().status;
        match status {
            BoxStatus::Stopped => {
                let steps: Vec<crate::litebox::StopStep> = Vec::new();
                assert(steps.deep_view() =~= Seq::empty());
                assert(entry_of(before, handle.deep_view(), k as int));
                return Ok(steps);
            },
            BoxStatus::Unknown => {
                let steps: Vec<crate::litebox::StopStep> = Vec::new();
                assert(steps.deep_view() =~= Seq::empty());
                assert(entry_of(before, handle.deep_view(), k as int));
                return Ok(steps);
            },
            BoxStatus::Configured => {},
            BoxStatus::Running => {},
            _ => {
                assert(entry_of(before, handle.deep_view(), k as int));
                return Err(
                    BoxliteError::InvalidState(
                        "cannot stop a box that is starting or stopping".to_string(),
                    ),
                );
            },
        }
        let mut entry = self.cache.remove(k);
        assert(entry.deep_view() == before.cache[k as int]);
        let steps = match entry.inner.stop(now) {
            Ok(steps) => steps,
            Err(e) => {
                // Not reached: an entry is never invalidated, and its
                // box is configured or running here.
                assert(false);
                return Err(e);
            },
        };
        let auto_remove = entry.inner.config().options.auto_remove;
        let state = entry.inner.state();
        let ghost w = choose|w: int|
            0 <= w < before.rows.len() && (#[trigger] before.rows[w]).config.id
                == handle.deep_view().id;
        let saved = self.manager.save_box(handle.id.as_str(), &state);
        proof {
            assert(saved is Ok);
            let mid = self.manager.deep_view();
            let i1 = choose|i1: int|
                {
                    &&& 0 <= i1 < before.rows.len()
                    &&& (#[trigger] before.rows[i1]).config.id == handle.deep_view().id
                    &&& mid == before.rows.update(
                        i1,
                        BoxRowView { state, ..before.rows[i1] },
                    )
                };
            lemma_same_row(before.rows, i1, w);
        }
        let ghost mid = self.manager.deep_view();
        if auto_remove {
            let removed = self.manager.remove(handle.id.as_str());
            proof {
                assert(mid[w].config.id == handle.deep_view().id);
                assert(removed is Ok);
                let last = self.manager.deep_view();
                let i2 = choose|i2: int|
                    {
                        &&& 0 <= i2 < mid.len()
                        &&& (#[trigger] mid[i2]).config.id == handle.deep_view().id
                        &&& last == mid.remove(i2)
                    };
                assert(before.rows[i2].config.id == mid[i2].config.id);
                lemma_same_row(before.rows, i2, w);
                assert(last =~= before.rows.remove(w));
            }
        }
        self.metrics.record_stopped();
        proof {
            let after = self.deep_view();
            let id = handle.deep_view().id;
            assert(after.cache =~= before.cache.remove(k as int));
            assert(after == after_stop(before, k as int, w, now));
            assert forall|i: int| 0 <= i < after.cache.len() implies (
            #[trigger] after.cache[i]).inner.config.id != id by {
                let i0 = if i < k { i } else { i + 1 };
                assert(after.cache[i] == before.cache[i0]);
                if i0 < k {
                    assert(before.cache[i0].inner.config.id != before.cache[k as int].inner.config.id);
                } else {
                    assert(before.cache[k as int].inner.config.id != before.cache[i0].inner.config.id);
                }
            }
            assert forall|i: int, j: int| 0 <= i < j < after.cache.len() implies (
            #[trigger] after.cache[i]).inner.config.id != (
            #[trigger] after.cache[j]).inner.config.id by {
                let i0 = if i < k { i } else { i + 1 };
                let j0 = if j < k { j } else { j + 1 };
                assert(after.cache[i] == before.cache[i0] && after.cache[j] == before.cache[j0]);
            }
            assert forall|i: int| 0 <= i < after.cache.len() implies {
                &&& (#[trigger] after.cache[i]).generation < after.next_generation
                &&& !after.cache[i].inner.invalidated
                &&& has_id(after.rows, after.cache[i].inner.config.id)
            } by {
                let i0 = if i < k { i } else { i + 1 };
                assert(after.cache[i] == before.cache[i0]);
                let other = before.cache[i0].inner.config.id;
                assert(other != id);
                let x = choose|x: int|
                    0 <= x < before.rows.len() && (#[trigger] before.rows[x]).config.id == other;
                if auto_remove {
                    let x1 = if x < w { x } else { x - 1 };
                    assert(after.rows[x1] == before.rows[x]);
                } else {
                    assert(after.rows[x].config.id == other);
                }
            }
            assert forall|h: LiteBoxView| #[trigger]
                handle_stale(before, h) implies handle_stale(after, h) by {
                if handle_current(after, h) {
                    let c = choose|c: int|
                        0 <= c < after.cache.len() && (#[trigger] after.cache[c]).generation
                            == h.generation && after.cache[c].inner.config.id == h.id;
                    let c0 = if c < k { c } else { c + 1 };
                    assert(after.cache[c] == before.cache[c0]);
                    assert(before.cache[c0].generation == h.generation);
                }
            }
            if handle_current(after, handle.deep_view()) {
                let c = choose|c: int|
                    0 <= c < after.cache.len() && (#[trigger] after.cache[c]).generation
                        == handle.deep_view().generation && after.cache[c].inner.config.id == id;
                assert(after.cache[c].inner.config.id != id);
            }
            assert(steps.deep_view().len() > 0) by {
                crate::litebox::lemma_stop_steps_shape(inner_before, now);
            }
            assert(entry_of(before, handle.deep_view(), k as int));
            assert(row_of(before, handle.deep_view(), w));
        }
        Ok(steps)
    }

    /// What a start asks of the caller.
    ///
    /// A handle that is not current fails with `Stopped`. A box that runs
    /// in this process already needs nothing. A box that is configured,
    /// stopped, or found running without being held by this process is to
    /// be built by the plan of its status. Any other box fails with
    /// `InvalidState`. Nothing changes.
    pub fn start(&self, handle: &LiteBox) -> (r: Result<crate::litebox::StartAction, BoxliteError>)
        requires
            runtime_wf(self.deep_view()),
        ensures
            !handle_current(self.deep_view(), handle.deep_view()) ==> (r matches Err(e)
                && e.deep_view() == stopped_failure()),
            forall|k: int| #[trigger]
                entry_of(self.deep_view(), handle.deep_view(), k) ==> start_outcome(
                    self.deep_view().cache[k].inner,
                    r,
                ),
    {
        match self.find_handle(handle) {
            Some(k) => {
                assert(self.cache[k as int].deep_view() == self.deep_view().cache[k as int]);
                proof {
                    let v = self.deep_view();
                    assert forall|j: int| #[trigger]
                        entry_of(v, handle.deep_view(), j) implies j == k as int by {
                        if j < k {
                            assert(v.cache[j].inner.config.id != v.cache[k as int].inner.config.id);
                        } else if (k as int) < j {
                            assert(v.cache[k as int].inner.config.id != v.cache[j].inner.config.id);
                        }
                    }
                }
                self.cache[k].inner.start()
            },
            None => Err(BoxliteError::Stopped(HANDLE_INVALIDATED.to_string())),
        }
    }

    /// Records that the build of a box succeeded at time `now`: the box
    /// holds what the build produced, runs under the handler's process,
    /// and its state is written to the table.
    ///
    /// Fails with `Stopped` for a handle that is not current, and with
    /// `InvalidState` for a box that cannot be built in its status; then
    /// nothing changes.
    pub fn started(&mut self, handle: &LiteBox, live: crate::init::LiveState, now: Timestamp) -> (r:
        Result<(), BoxliteError>)
        requires
            runtime_wf(old(self).deep_view()),
        ensures
            runtime_wf(final(self).deep_view()),
            !handle_current(old(self).deep_view(), handle.deep_view()) ==> (r matches Err(e)
                && e.deep_view() == stopped_failure()),
            r is Err ==> final(self).deep_view() == old(self).deep_view(),
            forall|h: LiteBoxView|
                handle_current(old(self).deep_view(), h) == handle_current(
                    final(self).deep_view(),
                    h,
                ),
            forall|k: int|
                #[trigger] entry_of(old(self).deep_view(), handle.deep_view(), k) ==> (r is Ok
                    <==> crate::init::can_build(old(self).deep_view().cache[k].inner.state.status)),
            handle_current(old(self).deep_view(), handle.deep_view()) ==> (r matches Err(e)
                ==> e.spec_kind() == ErrorKind::InvalidState),
            r is Ok ==> exists|k: int, i: int|
                {
                    &&& #[trigger] entry_of(old(self).deep_view(), handle.deep_view(), k)
                    &&& #[trigger] row_of(old(self).deep_view(), handle.deep_view(), i)
                    &&& crate::init::can_build(old(self).deep_view().cache[k].inner.state.status)
                    &&& final(self).deep_view() == after_started(
                        old(self).deep_view(),
                        k,
                        i,
                        live.deep_view(),
                        now,
                    )
                },
    {
        let ghost before = self.deep_view();
        let k = match self.find_handle(handle) {
            Some(k) => k,
            None => {
                return Err(BoxliteError::Stopped(HANDLE_INVALIDATED.to_string()));
            },
        };
        assert(self.cache[k as int].deep_view() == before.cache[k as int]);
        proof {
            assert forall|c: int| #[trigger] entry_of(before, handle.deep_view(), c) implies c
                == k by {
                if c < k {
                    assert(before.cache[c].inner.config.id != before.cache[k as int].inner.config.id);
                } else if c > k {
                    assert(before.cache[k as int].inner.config.id != before.cache[c].inner.config.id);
                }
            }
        }
        let status = self.cache[k].inner.state().status;
        match status {
            BoxStatus::Configured => {},
            BoxStatus::Stopped => {},
            BoxStatus::Running => {},
            _ => {
                return Err(
                    BoxliteError::InvalidState("the box cannot be started in its status".to_string()),
                );
            },
        }
        let ghost w = choose|w: int|
            0 <= w < before.rows.len() && (#[trigger] before.rows[w]).config.id
                == handle.deep_view().id;
        self.cache[k].inner.started(live, now);
        let state = self.cache[k].inner.state();
        let saved = self.manager.save_box(handle.id.as_str(), &state);
        proof {
            assert(saved is Ok);
            let rows_now = self.manager.deep_view();
            let i1 = choose|i1: int|
                {
                    &&& 0 <= i1 < before.rows.len()
                    &&& (#[trigger] before.rows[i1]).config.id == handle.deep_view().id
                    &&& rows_now == before.rows.update(
                        i1,
                        BoxRowView { state, ..before.rows[i1] },
                    )
                };
            lemma_same_row(before.rows, i1, w);
            assert(self.cache.deep_view() =~= before.cache.update(
                k as int,
                self.cache[k as int].deep_view(),
            ));
            assert(self.deep_view() == after_started(before, k as int, w, live.deep_view(), now));
            assert(entry_of(before, handle.deep_view(), k as int));
            assert(row_of(before, handle.deep_view(), w));
        }
        proof {
            let after = self.deep_view();
            assert(after.cache.len() == before.cache.len());
            assert forall|i: int| 0 <= i < after.cache.len() implies (
            #[trigger] after.cache[i]).inner.config == before.cache[i].inner.config
                && after.cache[i].generation == before.cache[i].generation
                && after.cache[i].inner.invalidated == before.cache[i].inner.invalidated by {
                assert(after.cache[i] == self.cache[i].deep_view());
                if i != k {
                    assert(after.cache[i] == before.cache[i]);
                }
            }
            assert forall|i: int, j: int| 0 <= i < j < after.cache.len() implies (
            #[trigger] after.cache[i]).inner.config.id != (
            #[trigger] after.cache[j]).inner.config.id by {
                assert(before.cache[i].inner.config.id != before.cache[j].inner.config.id);
            }
            assert forall|i: int| 0 <= i < after.cache.len() implies {
                &&& (#[trigger] after.cache[i]).generation < after.next_generation
                &&& !after.cache[i].inner.invalidated
                &&& has_id(after.rows, after.cache[i].inner.config.id)
            } by {
                assert(before.cache[i].generation < before.next_generation);
                let other = before.cache[i].inner.config.id;
                let w = choose|w: int|
                    0 <= w < before.rows.len() && (#[trigger] before.rows[w]).config.id == other;
                assert(saved is Ok);
                assert(after.rows[w].config.id == other);
            }
            assert forall|h: LiteBoxView|
                handle_current(before, h) == handle_current(after, h) by {
                if handle_current(before, h) {
                    let c = choose|c: int|
                        0 <= c < before.cache.len() && (#[trigger] before.cache[c]).generation
                            == h.generation && before.cache[c].inner.config.id == h.id;
                    assert(after.cache[c].generation == h.generation);
                }
                if handle_current(after, h) {
                    let c = choose|c: int|
                        0 <= c < after.cache.len() && (#[trigger] after.cache[c]).generation
                            == h.generation && after.cache[c].inner.config.id == h.id;
                    assert(before.cache[c].generation == h.generation);
                }
            }
            assert(after.cache[k as int] == self.cache[k as int].deep_view());
        }
        Ok(())
    }

    /// Ends a start of the box of a handle at time `now`, given how the
    /// start ended.
    ///
    /// A failed start changes nothing: the box keeps the state it had, so
    /// that a box that was configured stays configured and can be started
    /// again. The failure is handed on unchanged, with what is to be
    /// undone. A start that succeeded is recorded as by
    /// [`BoxliteRuntime::started`]; where that is refused, nothing changes
    /// either, and a machine that the start spawned is to be stopped.
    pub fn finish_start(
        &mut self,
        handle: &LiteBox,
        outcome: crate::init::StartOutcome,
        now: Timestamp,
    ) -> (r: Result<(), StartFailure>)
        requires
            runtime_wf(old(self).deep_view()),
        ensures
            runtime_wf(final(self).deep_view()),
            r is Err ==> final(self).deep_view() == old(self).deep_view(),
            match outcome {
                crate::init::StartOutcome::Failed { error, cleanup } => r matches Err(f)
                    && f.error.deep_view() == error.deep_view() && f.cleanup.deep_view()
                    == cleanup.deep_view(),
                crate::init::StartOutcome::Started { live } => {
                    &&& !handle_current(old(self).deep_view(), handle.deep_view()) ==> (
                    r matches Err(f) && f.error.deep_view() == stopped_failure())
                    &&& forall|k: int|
                        #[trigger] entry_of(old(self).deep_view(), handle.deep_view(), k) ==> (
                        r is Ok <==> crate::init::can_build(
                            old(self).deep_view().cache[k].inner.state.status,
                        ))
                    &&& r matches Err(f) ==> f.cleanup.deep_view() == orphan_cleanup(
                        live.deep_view().handler,
                    )
                    &&& r is Ok ==> exists|k: int, i: int|
                        {
                            &&& #[trigger] entry_of(old(self).deep_view(), handle.deep_view(), k)
                            &&& #[trigger] row_of(old(self).deep_view(), handle.deep_view(), i)
                            &&& final(self).deep_view() == after_started(
                                old(self).deep_view(),
                                k,
                                i,
                                live.deep_view(),
                                now,
                            )
                        }
                },
            },
    {
        match outcome {
            crate::init::StartOutcome::Failed { error, cleanup } => {
                self.metrics.record_failed();
                Err(StartFailure { error, cleanup })
            },
            crate::init::StartOutcome::Started { live } => {
                let pid = live.handler.pid();
                let owned = live.handler.is_owned();
                match self.started(handle, live, now) {
                    Ok(_) => Ok(()),
                    Err(error) => {
                        self.metrics.record_failed();
                        let mut cleanup: Vec<crate::init::CleanupAction> = Vec::new();
                        if owned {
                            cleanup.push(crate::init::CleanupAction::StopMachine { pid });
                        }
                        assert(cleanup.deep_view() =~= orphan_cleanup(live.deep_view().handler));
                        Err(StartFailure { error, cleanup })
                    },
                }
            },
        }
    }

    /// Removes the box that the key stands for at time `now`, and returns
    /// what to do on the host, in order.
    ///
    /// Fails with `NotFound` where the key stands for no box, and with
    /// `InvalidState` where it is a prefix of several identifiers or
    /// where the box runs and `force` is not set. Otherwise the row of the
    /// box and its live entry are dropped: the box is gone, and every
    /// handle to it is stale.
    pub fn remove(&mut self, key: &str, force: bool) -> (r: Result<Vec<RemoveStep>, BoxliteError>)
        requires
            runtime_wf(old(self).deep_view()),
        ensures
            runtime_wf(final(self).deep_view()),
            final(self).deep_view().shut_down == old(self).deep_view().shut_down,
            final(self).deep_view().next_generation == old(self).deep_view().next_generation,
            forall|h: LiteBoxView| #[trigger]
                handle_stale(old(self).deep_view(), h) ==> handle_stale(final(self).deep_view(), h),
            lookup_is(old(self).deep_view().rows, key@, Lookup::Missing) ==> (r matches Err(e)
                && e.deep_view() == not_found_failure(key@)),
            lookup_is(old(self).deep_view().rows, key@, Lookup::Ambiguous) ==> (r matches Err(e)
                && e.deep_view() == ambiguous_failure(key@)),
            r is Err ==> final(self).deep_view() == old(self).deep_view(),
            r matches Ok(steps) ==> exists|i: int|
                {
                    &&& #[trigger] key_names_row(old(self).deep_view().rows, key@, i)
                    &&& (force || old(self).deep_view().rows[i].state.status != BoxStatus::Running)
                    &&& steps.deep_view() == remove_steps(old(self).deep_view().rows[i])
                    &&& final(self).deep_view().rows == old(self).deep_view().rows.remove(i)
                    &&& !has_id(
                        final(self).deep_view().rows,
                        old(self).deep_view().rows[i].config.id,
                    )
                    &&& !is_cached(
                        final(self).deep_view().cache,
                        old(self).deep_view().rows[i].config.id,
                    )
                    &&& cache_without(
                        old(self).deep_view().cache,
                        old(self).deep_view().rows[i].config.id,
                        final(self).deep_view().cache,
                    )
                },
            forall|i: int|
                #[trigger] key_names_row(old(self).deep_view().rows, key@, i) && !force && old(
                    self,
                ).deep_view().rows[i].state.status == BoxStatus::Running ==> (r matches Err(e)
                    && e.deep_view() == running_failure(old(self).deep_view().rows[i].config.id)),
            forall|i: int|
                #[trigger] key_names_row(old(self).deep_view().rows, key@, i) && (force || old(
                    self,
                ).deep_view().rows[i].state.status != BoxStatus::Running) ==> r is Ok,
    {
        let ghost before = self.deep_view();
        proof {
            self.lemma_lookup_exclusive(key@);
        }
        let index = match self.manager.lookup(key) {
            Lookup::Found { index } => index,
            Lookup::Missing => {
                proof {
                    assert forall|i: int| #[trigger]
                        key_names_row(before.rows, key@, i) implies false by {
                        lemma_found_is_not_missing(before.rows, key@, i);
                    }
                }
                return Err(not_found_error(key));
            },
            Lookup::Ambiguous => {
                proof {
                    assert forall|i: int| #[trigger]
                        key_names_row(before.rows, key@, i) implies false by {
                        lemma_found_is_not_missing(before.rows, key@, i);
                    }
                }
                return Err(ambiguous_error(key));
            },
        };
        proof {
            self.manager.lemma_found_excludes(key@, index as int);
            assert forall|i: int| #[trigger] key_names_row(before.rows, key@, i) implies i
                == index by {
                crate::manager::lemma_lookup_is_unique(before.rows, key@, i, index as int);
            }
        }
        let row = self.manager.row(index);
        let running = row.state.status.is_running();
        if running && !force {
            let mut m = chars_of("cannot remove running box ");
            crate::text::push_str(&mut m, row.config.id.as_str());
            crate::text::push_str(&mut m, "; stop it first or use force");
            return Err(BoxliteError::InvalidState(crate::text::string_of(&m)));
        }
        let mut steps: Vec<RemoveStep> = Vec::new();
        if running {
            match row.state.pid {
                Some(pid) => {
                    steps.push(RemoveStep::StopMachine { pid });
                },
                None => {},
            }
        }
        steps.push(RemoveStep::DeleteRow { id: row.config.id.clone() });
        steps.push(RemoveStep::RemoveDirectory { path: row.config.box_home.clone() });
        assert(steps.deep_view() =~= remove_steps(before.rows[index as int]));
        let id = row.config.id.clone();
        let cached = self.find_cached(id.as_str());
        let removed = self.manager.remove(id.as_str());
        assert(removed is Ok);
        proof {
            let mid_rows = self.manager.deep_view();
            let x = choose|x: int|
                {
                    &&& 0 <= x < before.rows.len()
                    &&& (#[trigger] before.rows[x]).config.id == id@
                    &&& mid_rows == before.rows.remove(x)
                };
            if x < index {
                assert(before.rows[x].config.id != before.rows[index as int].config.id);
            } else if x > index {
                assert(before.rows[index as int].config.id != before.rows[x].config.id);
            }
            assert(x == index);
        }
        match cached {
            Some(k) => {
                let dropped = self.cache.remove(k);
            },
            None => {},
        }
        proof {
            let after = self.deep_view();
            let removed_at: int = match cached {
                Some(k) => k as int,
                None => -1,
            };
            assert(cached is Some ==> after.cache =~= before.cache.remove(removed_at));
            assert(cached is None ==> after.cache =~= before.cache);
            if cached is Some {
                assert(before.cache[removed_at].inner.config.id == id@);
            }
            assert(cache_without(before.cache, id@, after.cache));
            assert forall|i: int| 0 <= i < after.cache.len() implies (
            #[trigger] after.cache[i]).inner.config.id != id@ by {
                let i0 = if removed_at < 0 || i < removed_at { i } else { i + 1 };
                assert(after.cache[i] == before.cache[i0]);
                if removed_at >= 0 {
                    if i0 < removed_at {
                        assert(before.cache[i0].inner.config.id
                            != before.cache[removed_at].inner.config.id);
                    } else {
                        assert(before.cache[removed_at].inner.config.id
                            != before.cache[i0].inner.config.id);
                    }
                }
            }
            assert forall|i: int, j: int| 0 <= i < j < after.cache.len() implies (
            #[trigger] after.cache[i]).inner.config.id != (
            #[trigger] after.cache[j]).inner.config.id by {
                let i0 = if removed_at < 0 || i < removed_at { i } else { i + 1 };
                let j0 = if removed_at < 0 || j < removed_at { j } else { j + 1 };
                assert(after.cache[i] == before.cache[i0] && after.cache[j] == before.cache[j0]);
            }
            assert forall|i: int| 0 <= i < after.cache.len() implies {
                &&& (#[trigger] after.cache[i]).generation < after.next_generation
                &&& !after.cache[i].inner.invalidated
                &&& has_id(after.rows, after.cache[i].inner.config.id)
            } by {
                let i0 = if removed_at < 0 || i < removed_at { i } else { i + 1 };
                assert(after.cache[i] == before.cache[i0]);
                let other = before.cache[i0].inner.config.id;
                assert(other != id@);
                let w = choose|w: int|
                    0 <= w < before.rows.len() && (#[trigger] before.rows[w]).config.id == other;
                let w1 = if w < index { w } else { w - 1 };
                assert(after.rows[w1] == before.rows[w]);
            }
            assert forall|h: LiteBoxView| #[trigger]
                handle_stale(before, h) implies handle_stale(after, h) by {
                if handle_current(after, h) {
                    let c = choose|c: int|
                        0 <= c < after.cache.len() && (#[trigger] after.cache[c]).generation
                            == h.generation && after.cache[c].inner.config.id == h.id;
                    let c0 = if removed_at < 0 || c < removed_at { c } else { c + 1 };
                    assert(after.cache[c] == before.cache[c0]);
                    assert(before.cache[c0].generation == h.generation);
                }
            }
            assert(key_names_row(before.rows, key@, index as int));
        }
        Ok(steps)
    }

    /// Shuts the runtime down and returns the boxes to stop and how long
    /// each is given. From then on no box can be created.
    pub fn shutdown(&mut self, timeout_secs: Option<i32>) -> (r: ShutdownPlan)
        requires
            runtime_wf(old(self).deep_view()),
        ensures
            runtime_wf(final(self).deep_view()),
            final(self).deep_view() == (RuntimeView { shut_down: true, ..old(self).deep_view() }),
            r.limit_ms == shutdown_limit_ms(timeout_secs),
            r.box_ids.deep_view() == running_ids(old(self).deep_view().cache),
    {
        self.shut_down = true;
        let limit_ms: Option<u64> = match timeout_secs {
            None => Some(10_000),
            Some(t) => {
                if t < 0 {
                    None
                } else {
                    let wide: u64 = t as u64;
                    Some(wide * 1000)
                }
            },
        };
        let mut box_ids: Vec<String> = Vec::new();
        let ghost cache = self.cache.deep_view();
        let mut i: usize = 0;
        assert(cache.take(0) =~= Seq::empty());
        while i < self.cache.len()
            invariant
                i <= self.cache.len(),
                cache == self.cache.deep_view(),
                box_ids.deep_view() == running_ids(cache.take(i as int)),
            decreases self.cache.len() - i,
        {
            let ghost before = box_ids.deep_view();
            proof {
                assert(cache.take(i + 1).drop_last() == cache.take(i as int));
                assert(cache.take(i + 1).last() == cache[i as int]);
                assert(self.cache[i as int].deep_view() == cache[i as int]);
            }
            if self.cache[i].inner.state().status.is_running() {
                box_ids.push(self.cache[i].inner.id().to_string());
                assert(box_ids.deep_view() =~= before.push(cache[i as int].inner.config.id));
            }
            i += 1;
        }
        assert(cache.take(self.cache.len() as int) == cache);
        ShutdownPlan { box_ids, limit_ms }
    }
}

fn name_taken_error(name: &str) -> (e: BoxliteError)
    ensures
        e.deep_view() == name_taken_failure(name@),
{
    let mut m = chars_of("box with name '");
    crate::text::push_str(&mut m, name);
    crate::text::push_str(&mut m, "' already exists");
    BoxliteError::AlreadyExists(crate::text::string_of(&m))
}

fn id_taken_error(id: &str) -> (e: BoxliteError)
    ensures
        e.deep_view() == id_taken_failure(id@),
{
    let mut m = chars_of("box with id '");
    crate::text::push_str(&mut m, id);
    crate::text::push_str(&mut m, "' already exists");
    BoxliteError::AlreadyExists(crate::text::string_of(&m))
}

/// Creating a box that is not refused keeps the runtime well formed.
pub proof fn lemma_create_keeps_wf(
    v: RuntimeView,
    options: BoxOptionsView,
    name: Option<Seq<char>>,
    box_id: Seq<char>,
    container_id: Seq<char>,
    now: Timestamp,
)
    requires
        runtime_wf(v),
        create_refusal(v, options, name, box_id) is None,
    ensures
        runtime_wf(after_create(v, options, name, box_id, container_id, now)),
{
    let after = after_create(v, options, name, box_id, container_id, now);
    let n = v.rows.len() as int;
    let m = v.cache.len() as int;
    assert forall|i: int, j: int| 0 <= i < j < after.rows.len() implies (#[trigger] after.rows[i]).config.id != (
    #[trigger] after.rows[j]).config.id by {
        if j == n {
            assert(v.rows[i].config.id != box_id);
        }
    }
    assert forall|i: int, j: int|
        0 <= i < j < after.rows.len() && (#[trigger] after.rows[i]).config.name is Some implies after.rows[i].config.name
        != (#[trigger] after.rows[j]).config.name by {
        if j == n {
            if name is Some {
                assert(v.rows[i].config.name != Some(name->0));
            }
        }
    }
    assert forall|i: int, j: int| 0 <= i < j < after.cache.len() implies (
    #[trigger] after.cache[i]).inner.config.id != (#[trigger] after.cache[j]).inner.config.id by {
        if j == m {
            assert(has_id(v.rows, v.cache[i].inner.config.id));
        }
    }
    assert forall|i: int| 0 <= i < after.cache.len() implies {
        &&& (#[trigger] after.cache[i]).generation < after.next_generation
        &&& !after.cache[i].inner.invalidated
        &&& has_id(after.rows, after.cache[i].inner.config.id)
    } by {
        if i < m {
            let k = choose|k: int|
                0 <= k < v.rows.len() && (#[trigger] v.rows[k]).config.id
                    == v.cache[i].inner.config.id;
            assert(after.rows[k].config.id == v.cache[i].inner.config.id);
        } else {
            assert(after.rows[n].config.id == box_id);
        }
    }
}

// ============================================================================
// Laws of creation
// ============================================================================

/// No two boxes share a name: once a box of some name is created, creating
/// another of that name is refused with `AlreadyExists`, whatever its
/// options and identifiers, as long as the runtime is up and the options
/// are valid.
pub proof fn lemma_second_create_with_name_is_refused(
    v: RuntimeView,
    first_options: BoxOptionsView,
    name: Seq<char>,
    first_id: Seq<char>,
    first_container: Seq<char>,
    t1: Timestamp,
    second_options: BoxOptionsView,
    second_id: Seq<char>,
)
    requires
        runtime_wf(v),
        create_refusal(v, first_options, Some(name), first_id) is None,
        options_valid(second_options),
        is_path_safe_id(second_id),
    ensures
        create_refusal(
            after_create(v, first_options, Some(name), first_id, first_container, t1),
            second_options,
            Some(name),
            second_id,
        ) == Some(name_taken_failure(name)),
{
    let after = after_create(v, first_options, Some(name), first_id, first_container, t1);
    assert(after.rows[v.rows.len() as int].config.name == Some(name));
}

/// A box that was just created is configured, has its lock and no PID, is
/// in the table under its identifier and name, and its handle is current.
pub proof fn lemma_created_box(
    v: RuntimeView,
    options: BoxOptionsView,
    name: Option<Seq<char>>,
    box_id: Seq<char>,
    container_id: Seq<char>,
    now: Timestamp,
)
    requires
        runtime_wf(v),
        create_refusal(v, options, name, box_id) is None,
    ensures
        ({
            let after = after_create(v, options, name, box_id, container_id, now);
            let row = after.rows.last();
            &&& has_id(after.rows, box_id)
            &&& row.config.id == box_id
            &&& row.config.name == name
            &&& row.config.options == options
            &&& row.state.status == BoxStatus::Configured
            &&& row.state.lock_id == Some(v.next_lock_id)
            &&& row.state.pid is None
            &&& handle_current(
                after,
                LiteBoxView { id: box_id, name, generation: v.next_generation },
            )
        }),
{
    let after = after_create(v, options, name, box_id, container_id, now);
    assert(after.rows[v.rows.len() as int].config.id == box_id);
    assert(after.cache[v.cache.len() as int].generation == v.next_generation);
}

/// A stale handle stays stale when a box is created: the new live entry
/// has a generation that no handle has yet.
pub proof fn lemma_stale_after_create(
    v: RuntimeView,
    options: BoxOptionsView,
    name: Option<Seq<char>>,
    box_id: Seq<char>,
    container_id: Seq<char>,
    now: Timestamp,
    h: LiteBoxView,
)
    requires
        runtime_wf(v),
        create_refusal(v, options, name, box_id) is None,
        handle_stale(v, h),
    ensures
        handle_stale(after_create(v, options, name, box_id, container_id, now), h),
{
    let after = after_create(v, options, name, box_id, container_id, now);
    if handle_current(after, h) {
        let k = choose|k: int|
            0 <= k < after.cache.len() && (#[trigger] after.cache[k]).generation == h.generation
                && after.cache[k].inner.config.id == h.id;
        if k < v.cache.len() {
            assert(v.cache[k].generation == h.generation);
        }
    }
}

/// A stop invalidates the handle, and a fresh handle works: once a box
/// that was configured or running is stopped, its handle is stale. Unless
/// the box asked to be removed when it stops, it is still in the table,
/// stopped, and the handle that the next `get` gives out for it is
/// current, while the old one stays stale. (A runtime that has given out
/// every generation gives out no handle.)
pub proof fn lemma_fresh_handle_after_stop(v: RuntimeView, h: LiteBoxView, k: int, i: int, now: Timestamp)
    requires
        runtime_wf(v),
        entry_of(v, h, k),
        row_of(v, h, i),
        v.cache[k].inner.state.status == BoxStatus::Configured || v.cache[k].inner.state.status
            == BoxStatus::Running,
        v.next_generation < u64::MAX,
    ensures
        handle_stale(after_stop(v, k, i, now), h),
        !v.cache[k].inner.config.options.auto_remove ==> ({
            let after = after_stop(v, k, i, now);
            let again = after_get(after, i);
            &&& after.rows[i].config == v.rows[i].config
            &&& after.rows[i].state.status == BoxStatus::Stopped
            &&& after.rows[i].state.pid is None
            &&& handle_current(
                again,
                LiteBoxView { id: h.id, name: v.rows[i].config.name, generation: v.next_generation },
            )
            &&& handle_stale(again, h)
        }),
{
    let after = after_stop(v, k, i, now);
    assert forall|j: int| 0 <= j < after.cache.len() implies (#[trigger] after.cache[j]).inner.config.id
        != h.id by {
        let j0 = if j < k { j } else { j + 1 };
        assert(after.cache[j] == v.cache[j0]);
        if j0 < k {
            assert(v.cache[j0].inner.config.id != v.cache[k].inner.config.id);
        } else {
            assert(v.cache[k].inner.config.id != v.cache[j0].inner.config.id);
        }
    }
    assert(v.cache[k].generation < v.next_generation);
    if !v.cache[k].inner.config.options.auto_remove {
        let again = after_get(after, i);
        assert(!is_cached(after.cache, after.rows[i].config.id));
        assert(again.cache[after.cache.len() as int].generation == v.next_generation);
        assert(again.cache[after.cache.len() as int].inner.config.id == h.id);
        if handle_current(again, h) {
            let j = choose|j: int|
                0 <= j < again.cache.len() && (#[trigger] again.cache[j]).generation
                    == h.generation && again.cache[j].inner.config.id == h.id;
            if j < after.cache.len() {
                assert(again.cache[j] == after.cache[j]);
            }
        }
    }
}

/// A removed box is not found again: once the row of a box is removed, its
/// identifier stands for no box, so that removing it a second time fails
/// with `NotFound`. This holds where the identifiers of the table are all
/// of one length, as box identifiers are, and no other box has the
/// identifier as its name.
pub proof fn lemma_remove_twice_is_not_found(rows: Seq<BoxRowView>, i: int)
    requires
        table_wf(rows),
        0 <= i < rows.len(),
        forall|j: int|
            0 <= j < rows.len() ==> (#[trigger] rows[j]).config.id.len()
                == rows[i].config.id.len(),
        !has_name(rows, rows[i].config.id),
    ensures
        lookup_is(rows.remove(i), rows[i].config.id, Lookup::Missing),
{
    let id = rows[i].config.id;
    let after = rows.remove(i);
    crate::manager::lemma_removed_is_gone(rows, i);
    assert forall|k: int| 0 <= k < after.len() implies (#[trigger] after[k]).config.name != Some(
        id,
    ) by {
        let k0 = if k < i { k } else { k + 1 };
        assert(after[k] == rows[k0]);
        assert(rows[k0].config.name != Some(id));
    }
    assert forall|k: int| 0 <= k < after.len() implies !id.is_prefix_of(
        (#[trigger] after[k]).config.id,
    ) by {
        let k0 = if k < i { k } else { k + 1 };
        assert(after[k] == rows[k0]);
        assert(rows[k0].config.id.len() == id.len());
        if id.is_prefix_of(rows[k0].config.id) {
            assert(rows[k0].config.id =~= id);
            if k0 < i {
                assert(rows[k0].config.id != rows[i].config.id);
            } else {
                assert(rows[i].config.id != rows[k0].config.id);
            }
        }
    }
    lemma_no_prefix_matches(after, id);
}

proof fn lemma_no_prefix_matches(rows: Seq<BoxRowView>, prefix: Seq<char>)
    requires
        forall|k: int| 0 <= k < rows.len() ==> !prefix.is_prefix_of((#[trigger] rows[k]).config.id),
    ensures
        crate::manager::prefix_matches(rows, prefix) == 0,
    decreases rows.len(),
{
    if rows.len() > 0 {
        assert forall|k: int| 0 <= k < rows.drop_last().len() implies !prefix.is_prefix_of(
            (#[trigger] rows.drop_last()[k]).config.id,
        ) by {
            assert(rows.drop_last()[k] == rows[k]);
        }
        lemma_no_prefix_matches(rows.drop_last(), prefix);
        assert(rows.last() == rows[rows.len() - 1]);
    }
}

/// After a shutdown no box can be created, whatever is asked for.
pub proof fn lemma_no_create_after_shutdown(
    v: RuntimeView,
    options: BoxOptionsView,
    name: Option<Seq<char>>,
    box_id: Seq<char>,
)
    ensures
        create_refusal(RuntimeView { shut_down: true, ..v }, options, name, box_id) == Some(
            shut_down_failure(),
        ),
{
}

} // verus!
