//! The boundary between host and guest: how a guest is initialised, how
//! the host learns that the guest is ready, and which guest versions the
//! host talks to.

use vstd::prelude::*;

use crate::config::BoxConfig;
use crate::config::BoxConfigView;
use crate::error::BoxliteError;
use crate::error::ErrorKind;
use crate::error::ErrorView;
use crate::init::GuestSession;
use crate::text::all_digits;
use crate::text::chars_of;
use crate::text::clone_option;
use crate::text::decimal_value;
use crate::text::first_index;
use crate::text::is_ascii_digit_char;
use crate::text::lemma_decimal_value_prefix;
use crate::text::lemma_first_index;
use crate::text::push_str;
use crate::text::string_of;
use crate::vmm::RootfsInit;
use crate::vmm::RootfsInitView;
use crate::vmm::Transport;
use crate::vmm::TransportView;

verus! {

// ============================================================================
// Initialising the guest
// ============================================================================

/// A volume for the guest to mount.
#[derive(Clone, Debug)]
pub struct VolumeMount {
    /// The tag of a shared directory, or the name of a block device.
    pub source: String,
    pub mount_point: String,
    pub read_only: bool,
}

/// The network of the guest.
#[derive(Clone, Debug)]
pub struct NetworkInit {
    pub interface: String,
    pub ip: Option<String>,
    pub gateway: Option<String>,
}

/// The root filesystem part of an init request. A well-formed request
/// names a strategy.
#[derive(Clone, Debug)]
pub struct RootfsRequest {
    pub strategy: Option<RootfsInit>,
}

/// What the host asks of a guest that has just come up.
#[derive(Clone, Debug)]
pub struct GuestInitRequest {
    pub volumes: Vec<VolumeMount>,
    pub rootfs: Option<RootfsRequest>,
    pub network: Option<NetworkInit>,
}

pub struct VolumeMountView {
    pub source: Seq<char>,
    pub mount_point: Seq<char>,
    pub read_only: bool,
}

impl DeepView for VolumeMount {
    type V = VolumeMountView;

    open spec fn deep_view(&self) -> VolumeMountView {
        VolumeMountView {
            source: self.source@,
            mount_point: self.mount_point@,
            read_only: self.read_only,
        }
    }
}

pub struct NetworkInitView {
    pub interface: Seq<char>,
    pub ip: Option<Seq<char>>,
    pub gateway: Option<Seq<char>>,
}

impl DeepView for NetworkInit {
    type V = NetworkInitView;

    open spec fn deep_view(&self) -> NetworkInitView {
        NetworkInitView {
            interface: self.interface@,
            ip: self.ip.deep_view(),
            gateway: self.gateway.deep_view(),
        }
    }
}

/// The mathematical content of a [`GuestInitRequest`].
pub struct InitRequestView {
    /// The volumes to mount, in order.
    pub volumes: Seq<VolumeMountView>,
    /// The root filesystem part, if there is one, with its strategy, if it
    /// names one.
    pub rootfs: Option<Option<RootfsInitView>>,
    pub network: Option<NetworkInitView>,
}

impl View for GuestInitRequest {
    type V = InitRequestView;

    open spec fn view(&self) -> InitRequestView {
        InitRequestView {
            volumes: self.volumes.deep_view(),
            rootfs: match self.rootfs {
                Some(r) => Some(r.strategy.deep_view()),
                None => None,
            },
            network: self.network.deep_view(),
        }
    }
}

/// The guest's answer to an init request.
#[derive(Clone, Debug)]
pub enum GuestInitResponse {
    Success,
    Error { reason: String },
}

pub enum InitResponseView {
    Success,
    Error { reason: Seq<char> },
}

impl DeepView for GuestInitResponse {
    type V = InitResponseView;

    open spec fn deep_view(&self) -> InitResponseView {
        match self {
            GuestInitResponse::Success => InitResponseView::Success,
            GuestInitResponse::Error { reason } => InitResponseView::Error { reason: reason@ },
        }
    }
}

/// What happened since the last step of an init.
#[derive(Debug)]
pub enum InitEvent {
    /// The request arrived.
    Received,
    /// The volumes were mounted, or mounting failed with the message.
    VolumesMounted { result: Result<(), String> },
    /// The network was configured, or that failed with the message.
    NetworkConfigured { result: Result<(), String> },
}

pub enum InitEventView {
    Received,
    VolumesMounted { failure: Option<Seq<char>> },
    NetworkConfigured { failure: Option<Seq<char>> },
}

impl DeepView for InitEvent {
    type V = InitEventView;

    open spec fn deep_view(&self) -> InitEventView {
        match self {
            InitEvent::Received => InitEventView::Received,
            InitEvent::VolumesMounted { result } => InitEventView::VolumesMounted {
                failure: match result {
                    Ok(_) => None,
                    Err(m) => Some(m@),
                },
            },
            InitEvent::NetworkConfigured { result } => InitEventView::NetworkConfigured {
                failure: match result {
                    Ok(_) => None,
                    Err(m) => Some(m@),
                },
            },
        }
    }
}

/// What the guest does next.
#[derive(Clone, Debug)]
pub enum InitAction {
    /// Mount these volumes, in order, then report.
    MountVolumes { volumes: Vec<VolumeMount> },
    /// Configure this network, then report.
    ConfigureNetwork { network: NetworkInit },
    /// Answer the host.
    Respond { response: GuestInitResponse },
}

pub enum InitActionView {
    MountVolumes { volumes: Seq<VolumeMountView> },
    ConfigureNetwork { network: NetworkInitView },
    Respond { response: InitResponseView },
}

impl DeepView for InitAction {
    type V = InitActionView;

    open spec fn deep_view(&self) -> InitActionView {
        match self {
            InitAction::MountVolumes { volumes } => InitActionView::MountVolumes {
                volumes: volumes.deep_view(),
            },
            InitAction::ConfigureNetwork { network } => InitActionView::ConfigureNetwork {
                network: network.deep_view(),
            },
            InitAction::Respond { response } => InitActionView::Respond {
                response: response.deep_view(),
            },
        }
    }
}

pub open spec fn refuse(reason: Seq<char>) -> InitActionView {
    InitActionView::Respond { response: InitResponseView::Error { reason } }
}

/// What the guest does on an event of an init.
///
/// A guest is initialised once: a second request is refused. The volumes
/// of the request are mounted first, all of them, in order. Then the
/// request must name a root filesystem and a strategy for it. Then the
/// network of the request is configured, if it has one. Any failure is
/// answered with its reason.
pub open spec fn init_decision(initialized: bool, request: InitRequestView, event: InitEventView) -> InitActionView {
    match event {
        InitEventView::Received => if initialized {
            refuse("Guest already initialized (Init can only be called once)"@)
        } else {
            InitActionView::MountVolumes { volumes: request.volumes }
        },
        InitEventView::VolumesMounted { failure } => match failure {
            Some(cause) => refuse("Failed to mount volumes: "@ + cause),
            None => match request.rootfs {
                None => refuse("Missing rootfs configuration in init request"@),
                Some(None) => refuse("Missing rootfs strategy in init request"@),
                Some(Some(_)) => match request.network {
                    Some(network) => InitActionView::ConfigureNetwork { network },
                    None => InitActionView::Respond { response: InitResponseView::Success },
                },
            },
        },
        InitEventView::NetworkConfigured { failure } => match failure {
            Some(cause) => refuse("Failed to configure network: "@ + cause),
            None => InitActionView::Respond { response: InitResponseView::Success },
        },
    }
}

/// The guest's side of the init.
#[derive(Clone, Copy, Debug, PartialEq, Eq, Structural)]
pub struct GuestServer {
    pub initialized: bool,
}

fn clone_volumes(volumes: &Vec<VolumeMount>) -> (r: Vec<VolumeMount>)
    ensures
        r.deep_view() == volumes.deep_view(),
{
    let mut r: Vec<VolumeMount> = Vec::new();
    let mut i: usize = 0;
    while i < volumes.len()
        invariant
            i <= volumes.len(),
            r.len() == i,
            forall|j: int| 0 <= j < i ==> (#[trigger] r@[j]).deep_view() == volumes@[j].deep_view(),
        decreases volumes.len() - i,
    {
        r.push(
            VolumeMount {
                source: volumes[i].source.clone(),
                mount_point: volumes[i].mount_point.clone(),
                read_only: volumes[i].read_only,
            },
        );
        i += 1;
    }
    assert(r.deep_view() =~= volumes.deep_view());
    r
}

fn refusal(reason: &Vec<char>) -> (r: InitAction)
    ensures
        r.deep_view() == refuse(reason@),
{
    InitAction::Respond { response: GuestInitResponse::Error { reason: string_of(reason) } }
}

/// The version that the guest reports.
pub const GUEST_VERSION: &'static str = "0.1.0";

impl GuestServer {
    /// The answer to a ping: the version of the guest.
    pub fn ping(&self) -> (r: &'static str)
        ensures
            r@ == GUEST_VERSION@,
    {
        GUEST_VERSION
    }

    pub fn new() -> (r: GuestServer)
        ensures
            !r.initialized,
    {
        GuestServer { initialized: false }
    }

    /// Takes note of an event of an init and says what to do. The guest
    /// counts as initialised once it answers with success.
    pub fn init(&mut self, request: &GuestInitRequest, event: InitEvent) -> (action: InitAction)
        ensures
            action.deep_view() == init_decision(old(self).initialized, request@, event.deep_view()),
            final(self).initialized == (old(self).initialized || action.deep_view() == (
            InitActionView::Respond { response: InitResponseView::Success })),
    {
        let action = match event {
            InitEvent::Received => {
                if self.initialized {
                    refusal(&chars_of("Guest already initialized (Init can only be called once)"))
                } else {
                    InitAction::MountVolumes { volumes: clone_volumes(&request.volumes) }
                }
            },
            InitEvent::VolumesMounted { result } => {
                match result {
                    Err(cause) => {
                        let mut m = chars_of("Failed to mount volumes: ");
                        push_str(&mut m, cause.as_str());
                        refusal(&m)
                    },
                    Ok(_) => {
                        match &request.rootfs {
                            None => refusal(
                                &chars_of("Missing rootfs configuration in init request"),
                            ),
                            Some(rootfs) => {
                                if rootfs.strategy.is_none() {
                                    refusal(&chars_of("Missing rootfs strategy in init request"))
                                } else {
                                    match &request.network {
                                        Some(network) => InitAction::ConfigureNetwork {
                                            network: NetworkInit {
                                                interface: network.interface.clone(),
                                                ip: clone_option(&network.ip),
                                                gateway: clone_option(&network.gateway),
                                            },
                                        },
                                        None => InitAction::Respond {
                                            response: GuestInitResponse::Success,
                                        },
                                    }
                                }
                            },
                        }
                    },
                }
            },
            InitEvent::NetworkConfigured { result } => {
                match result {
                    Err(cause) => {
                        let mut m = chars_of("Failed to configure network: ");
                        push_str(&mut m, cause.as_str());
                        refusal(&m)
                    },
                    Ok(_) => InitAction::Respond { response: GuestInitResponse::Success },
                }
            },
        };
        if let InitAction::Respond { response: GuestInitResponse::Success } = &action {
            self.initialized = true;
        }
        action
    }
}

/// A guest is initialised once: one that is initialised refuses every
/// further request, whatever it asks for; one that is not begins with
/// the volumes.
pub proof fn lemma_init_happens_once(request: InitRequestView)
    ensures
        init_decision(true, request, InitEventView::Received) == refuse(
            "Guest already initialized (Init can only be called once)"@,
        ),
        init_decision(false, request, InitEventView::Received) == (InitActionView::MountVolumes {
            volumes: request.volumes,
        }),
{
}

// ============================================================================
// Versions
// ============================================================================

/// The major version of a version text: the number before the first dot,
/// or the whole text where there is no dot. Nothing where that is not a
/// run of digits.
pub open spec fn major_version(version: Seq<char>) -> Option<nat> {
    let dot = first_index(version, '.');
    let head = if dot < 0 {
        version
    } else {
        version.take(dot)
    };
    if head.len() > 0 && all_digits(head) {
        Some(decimal_value(head))
    } else {
        None
    }
}

/// The host talks to a guest of the same major version.
pub open spec fn versions_compatible(host: Seq<char>, guest: Seq<char>) -> bool {
    major_version(host) is Some && major_version(host) == major_version(guest)
}

pub open spec fn incompatible_failure(host: Seq<char>, guest: Seq<char>) -> ErrorView {
    ErrorView {
        kind: ErrorKind::Guest,
        message: "guest version "@ + guest + " is not compatible with host version "@ + host,
    }
}

/// The digits of the major version, without leading zeros.
fn major_digits(version: &str) -> (r: Option<Vec<char>>)
    ensures
        match r {
            Some(d) => major_version(version@) is Some && all_digits(d@) && decimal_value(d@)
                == major_version(version@)->0 && (d@.len() > 0 ==> d@[0] != '0'),
            None => major_version(version@) is None,
        },
{
    let v = chars_of(version);
    assert(v@.skip(0) == v@);
    let end = match crate::text::find_char(&v, 0, '.') {
        Some(k) => k,
        None => v.len(),
    };
    let ghost head = v@.take(end as int);
    proof {
        lemma_first_index(v@, '.');
        if first_index(v@, '.') < 0 {
            assert(head == v@);
        }
    }
    assert(major_version(version@) == if head.len() > 0 && all_digits(head) {
        Some(decimal_value(head))
    } else {
        None
    });
    if end == 0 {
        return None;
    }
    let mut i: usize = 0;
    while i < end
        invariant
            i <= end <= v.len(),
            head == v@.take(end as int),
            major_version(version@) == if head.len() > 0 && all_digits(head) {
                Some(decimal_value(head))
            } else {
                None
            },
            forall|j: int| 0 <= j < i ==> crate::text::is_ascii_digit(#[trigger] head[j]),
        decreases end - i,
    {
        if !is_ascii_digit_char(v[i]) {
            assert(!crate::text::is_ascii_digit(head[i as int]));
            return None;
        }
        i += 1;
    }
    let mut start: usize = 0;
    assert(head.skip(0) == head);
    while start < end && v[start] == '0'
        invariant
            start <= end <= v.len(),
            head == v@.take(end as int),
            all_digits(head),
            decimal_value(head) == decimal_value(head.skip(start as int)),
        decreases end - start,
    {
        proof {
            lemma_leading_zero(head.skip(start as int));
            assert(head.skip(start as int).drop_first() == head.skip(start + 1));
        }
        start += 1;
    }
    let d = crate::text::sub_vec(&v, start, end);
    assert(d@ == head.skip(start as int));
    Some(d)
}

/// A leading zero does not change the value of a run of digits.
pub proof fn lemma_leading_zero(s: Seq<char>)
    requires
        s.len() > 0,
        s[0] == '0',
    ensures
        decimal_value(s) == decimal_value(s.drop_first()),
    decreases s.len(),
{
    if s.len() == 1 {
        assert(s.drop_last() =~= Seq::<char>::empty());
        assert(s.drop_first() =~= Seq::<char>::empty());
        assert(decimal_value(s.drop_last()) == 0);
    } else {
        lemma_leading_zero(s.drop_last());
        assert(s.drop_last().drop_first() == s.drop_first().drop_last());
        assert(s.drop_first().last() == s.last());
    }
}

/// Runs of digits without leading zeros stand for the same number only if
/// they are the same run.
pub proof fn lemma_decimal_value_injective(a: Seq<char>, b: Seq<char>)
    requires
        all_digits(a),
        all_digits(b),
        a.len() > 0 ==> a[0] != '0',
        b.len() > 0 ==> b[0] != '0',
        decimal_value(a) == decimal_value(b),
    ensures
        a == b,
    decreases a.len() + b.len(),
{
    if a.len() == 0 && b.len() == 0 {
        assert(a =~= b);
    } else if a.len() == 0 {
        lemma_nonzero_value(b);
    } else if b.len() == 0 {
        lemma_nonzero_value(a);
    } else {
        let da = crate::text::digit_value(a.last());
        let db = crate::text::digit_value(b.last());
        assert(crate::text::is_ascii_digit(a[a.len() - 1]));
        assert(crate::text::is_ascii_digit(b[b.len() - 1]));
        assert(da < 10 && db < 10);
        let va = decimal_value(a.drop_last());
        let vb = decimal_value(b.drop_last());
        assert(va * 10 + da == vb * 10 + db);
        assert(va == vb && da == db);
        assert(a.last() == b.last());
        assert(all_digits(a.drop_last())) by {
            assert forall|i: int| 0 <= i < a.drop_last().len() implies crate::text::is_ascii_digit(
                #[trigger] a.drop_last()[i],
            ) by {
                assert(a.drop_last()[i] == a[i]);
            }
        }
        assert(all_digits(b.drop_last())) by {
            assert forall|i: int| 0 <= i < b.drop_last().len() implies crate::text::is_ascii_digit(
                #[trigger] b.drop_last()[i],
            ) by {
                assert(b.drop_last()[i] == b[i]);
            }
        }
        if a.len() > 1 {
            assert(a.drop_last()[0] == a[0]);
        }
        if b.len() > 1 {
            assert(b.drop_last()[0] == b[0]);
        }
        lemma_decimal_value_injective(a.drop_last(), b.drop_last());
        assert(a =~= a.drop_last().push(a.last()));
        assert(b =~= b.drop_last().push(b.last()));
    }
}

proof fn lemma_nonzero_value(s: Seq<char>)
    requires
        all_digits(s),
        s.len() > 0,
        s[0] != '0',
    ensures
        decimal_value(s) > 0,
    decreases s.len(),
{
    assert(crate::text::is_ascii_digit(s[0]));
    if s.len() == 1 {
        assert(s.drop_last() =~= Seq::<char>::empty());
        assert(s.last() == s[0]);
    } else {
        assert(all_digits(s.drop_last())) by {
            assert forall|i: int| 0 <= i < s.drop_last().len() implies crate::text::is_ascii_digit(
                #[trigger] s.drop_last()[i],
            ) by {
                assert(s.drop_last()[i] == s[i]);
            }
        }
        assert(s.drop_last()[0] == s[0]);
        lemma_nonzero_value(s.drop_last());
    }
}

/// Accepts a guest that reports the given version.
pub fn check_guest_version(host_version: &str, guest_version: &str) -> (r: Result<(), BoxliteError>)
    ensures
        r is Ok <==> versions_compatible(host_version@, guest_version@),
        r matches Err(e) ==> e.deep_view() == incompatible_failure(
            host_version@,
            guest_version@,
        ),
{
    let compatible = match (major_digits(host_version), major_digits(guest_version)) {
        (Some(h), Some(g)) => {
            let same = crate::text::chars_eq(&h, &g);
            proof {
                if !same && decimal_value(h@) == decimal_value(g@) {
                    lemma_decimal_value_injective(h@, g@);
                }
            }
            same
        },
        _ => false,
    };
    if compatible {
        Ok(())
    } else {
        let mut m = chars_of("guest version ");
        push_str(&mut m, guest_version);
        push_str(&mut m, " is not compatible with host version ");
        push_str(&mut m, host_version);
        Err(BoxliteError::Guest(string_of(&m)))
    }
}

// ============================================================================
// Waiting for the guest
// ============================================================================

/// How long the host waits for the guest's ready signal, in milliseconds.
pub const READY_TIMEOUT_MS: u64 = 30_000;

/// How often the host looks whether the hosting process is still alive, in
/// milliseconds.
pub const SHIM_POLL_INTERVAL_MS: u64 = 500;

/// An engine failure with the given message.
pub open spec fn engine_failure(message: Seq<char>) -> ErrorView {
    ErrorView { kind: ErrorKind::Engine, message }
}

pub const SHIM_DIED_MESSAGE: &'static str =
    "The process hosting the machine exited before the guest was ready. Probable causes: an AppArmor profile denied the launch; no permission to open /dev/kvm; a shared library that the machine monitor needs is missing. The console log of the box may say more.";

pub const READY_TIMEOUT_MESSAGE: &'static str = "Timeout waiting for guest ready (30s)";

/// What happened while the host waits for the guest.
#[derive(Clone, Debug)]
pub enum ReadyEvent {
    /// The guest connected to the ready socket.
    Connected,
    /// Accepting on the ready socket failed with the message.
    AcceptFailed { cause: String },
    /// The poll interval is over. `shim_alive` says whether the hosting
    /// process still exists.
    Tick { shim_alive: bool },
}

pub enum ReadyEventView {
    Connected,
    AcceptFailed { cause: Seq<char> },
    Tick { shim_alive: bool },
}

impl DeepView for ReadyEvent {
    type V = ReadyEventView;

    open spec fn deep_view(&self) -> ReadyEventView {
        match self {
            ReadyEvent::Connected => ReadyEventView::Connected,
            ReadyEvent::AcceptFailed { cause } => ReadyEventView::AcceptFailed { cause: cause@ },
            ReadyEvent::Tick { shim_alive } => ReadyEventView::Tick { shim_alive: *shim_alive },
        }
    }
}

/// What the host does next while it waits.
#[derive(Debug)]
pub enum ReadyAction {
    /// The guest is ready.
    Ready,
    /// Keep waiting for the given time at most, then look again.
    Wait { millis: u64 },
    /// Give up with the failure.
    Fail { error: BoxliteError },
}

pub enum ReadyActionView {
    Ready,
    Wait { millis: u64 },
    Fail { error: ErrorView },
}

impl DeepView for ReadyAction {
    type V = ReadyActionView;

    open spec fn deep_view(&self) -> ReadyActionView {
        match self {
            ReadyAction::Ready => ReadyActionView::Ready,
            ReadyAction::Wait { millis } => ReadyActionView::Wait { millis: *millis },
            ReadyAction::Fail { error } => ReadyActionView::Fail { error: error.deep_view() },
        }
    }
}

/// What the host does on an event while it waits for the guest, given the
/// time since the wait began.
///
/// The wait ends when the guest connects. It fails at once when the
/// hosting process is gone, with a message that names probable causes;
/// when accepting fails; and when 30 seconds are over.
pub open spec fn ready_decision(event: ReadyEventView, elapsed_ms: u64) -> ReadyActionView {
    match event {
        ReadyEventView::Connected => ReadyActionView::Ready,
        ReadyEventView::AcceptFailed { cause } => ReadyActionView::Fail {
            error: engine_failure("Ready socket accept failed: "@ + cause),
        },
        ReadyEventView::Tick { shim_alive } => if !shim_alive {
            ReadyActionView::Fail { error: engine_failure(SHIM_DIED_MESSAGE@) }
        } else if elapsed_ms >= READY_TIMEOUT_MS {
            ReadyActionView::Fail { error: engine_failure(READY_TIMEOUT_MESSAGE@) }
        } else {
            ReadyActionView::Wait { millis: SHIM_POLL_INTERVAL_MS }
        },
    }
}

/// What the host does on an event while it waits for the guest.
pub fn wait_for_guest_ready(event: ReadyEvent, elapsed_ms: u64) -> (action: ReadyAction)
    ensures
        action.deep_view() == ready_decision(event.deep_view(), elapsed_ms),
{
    match event {
        ReadyEvent::Connected => ReadyAction::Ready,
        ReadyEvent::AcceptFailed { cause } => {
            let mut m = chars_of("Ready socket accept failed: ");
            push_str(&mut m, cause.as_str());
            ReadyAction::Fail { error: BoxliteError::Engine(string_of(&m)) }
        },
        ReadyEvent::Tick { shim_alive } => {
            if !shim_alive {
                ReadyAction::Fail { error: BoxliteError::Engine(SHIM_DIED_MESSAGE.to_string()) }
            } else if elapsed_ms >= READY_TIMEOUT_MS {
                ReadyAction::Fail {
                    error: BoxliteError::Engine(READY_TIMEOUT_MESSAGE.to_string()),
                }
            } else {
                ReadyAction::Wait { millis: SHIM_POLL_INTERVAL_MS }
            }
        },
    }
}

/// The socket on which the host listens for the ready signal. Only a Unix
/// socket will do.
pub fn ready_socket_of(ready_transport: &Transport) -> (r: Result<&str, BoxliteError>)
    ensures
        match ready_transport.deep_view() {
            TransportView::Unix { socket_path } => r matches Ok(p) && p@ == socket_path,
            TransportView::Vsock { .. } => r matches Err(e) && e.deep_view() == engine_failure(
                "ready transport must be Unix socket"@,
            ),
        },
{
    match ready_transport {
        Transport::Unix { socket_path } => Ok(socket_path.as_str()),
        Transport::Vsock { .. } => Err(
            BoxliteError::Engine("ready transport must be Unix socket".to_string()),
        ),
    }
}

/// The failure reported when the ready socket cannot be bound.
pub fn ready_bind_failed(socket_path: &str, cause: &str) -> (e: BoxliteError)
    ensures
        e.deep_view() == engine_failure(
            "Failed to bind ready socket "@ + socket_path@ + ": "@ + cause@,
        ),
{
    let mut m = chars_of("Failed to bind ready socket ");
    push_str(&mut m, socket_path);
    push_str(&mut m, ": ");
    push_str(&mut m, cause);
    BoxliteError::Engine(string_of(&m))
}

// ============================================================================
// The guest connect task
// ============================================================================

/// The task that waits for the guest and opens a session with it.
#[derive(Clone, Copy, Debug, PartialEq, Eq, Structural)]
pub struct GuestConnectTask;

/// What the guest connect task is to do.
#[derive(Clone, Debug)]
pub struct ConnectPlan {
    /// The socket to wait on for the ready signal; `None` where the guest
    /// is up already.
    pub wait_on: Option<String>,
    /// The transport of the session to open.
    pub transport: Transport,
}

impl GuestConnectTask {
    pub fn name(&self) -> (r: &'static str)
        ensures
            r@ == "guest_connect"@,
    {
        "guest_connect"
    }

    /// What to do for a box: wait on its ready socket, unless the guest is
    /// up already, then open a session over its transport.
    pub fn plan(&self, config: &BoxConfig, skip_guest_wait: bool) -> (r: ConnectPlan)
        ensures
            r.wait_on.deep_view() == if skip_guest_wait {
                None
            } else {
                Some(config.deep_view().ready_socket_path)
            },
            r.transport.deep_view() == config.deep_view().transport,
    {
        ConnectPlan {
            wait_on: if skip_guest_wait {
                None
            } else {
                Some(config.ready_socket_path.clone())
            },
            transport: config.transport.duplicate(),
        }
    }

    /// Ends the task: the session over the transport of the plan where
    /// the wait succeeded, the failure of the wait otherwise.
    pub fn run(&self, plan: ConnectPlan, waited: Result<(), BoxliteError>) -> (r: Result<
        GuestSession,
        BoxliteError,
    >)
        ensures
            match (r, waited) {
                (Ok(session), Ok(_)) => session.transport.deep_view()
                    == plan.transport.deep_view(),
                (Err(e), Err(w)) => e.deep_view() == w.deep_view(),
                _ => false,
            },
    {
        match waited {
            Ok(_) => Ok(GuestSession::new(plan.transport)),
            Err(e) => Err(e),
        }
    }
}

} // verus!
