//! What a box shows of itself to a reader.

use vstd::prelude::*;

use crate::clock::Timestamp;
use crate::config::BoxConfig;
use crate::config::BoxConfigView;
use crate::options::DEFAULT_CPUS;
use crate::options::DEFAULT_MEMORY_MIB;
use crate::options::RootfsSpec;
use crate::options::RootfsSpecView;
use crate::state::BoxState;
use crate::state::BoxStatus;
use crate::state::status_name;
use crate::text::chars_of;
use crate::text::clone_option;
use crate::text::push_str;
use crate::text::string_of;
use crate::vmm::Transport;
use crate::vmm::TransportView;

verus! {

/// The public record of a box.
#[derive(Clone, Debug)]
pub struct BoxInfo {
    pub id: String,
    pub name: Option<String>,
    pub status: BoxStatus,
    pub created_at: Timestamp,
    pub last_updated: Timestamp,
    /// The process that hosts the machine, while it runs.
    pub pid: Option<u32>,
    pub transport: Transport,
    /// The image reference, or `rootfs:` and the path of the root
    /// filesystem.
    pub image: String,
    pub cpus: u8,
    pub memory_mib: u32,
    /// Labels for filtering, as pairs of key and value.
    pub labels: Vec<(String, String)>,
}

pub struct BoxInfoView {
    pub id: Seq<char>,
    pub name: Option<Seq<char>>,
    pub status: BoxStatus,
    pub created_at: Timestamp,
    pub last_updated: Timestamp,
    pub pid: Option<u32>,
    pub transport: TransportView,
    pub image: Seq<char>,
    pub cpus: u8,
    pub memory_mib: u32,
    pub labels: Seq<(Seq<char>, Seq<char>)>,
}

impl DeepView for BoxInfo {
    type V = BoxInfoView;

    open spec fn deep_view(&self) -> BoxInfoView {
        BoxInfoView {
            id: self.id@,
            name: self.name.deep_view(),
            status: self.status,
            created_at: self.created_at,
            last_updated: self.last_updated,
            pid: self.pid,
            transport: self.transport.deep_view(),
            image: self.image@,
            cpus: self.cpus,
            memory_mib: self.memory_mib,
            labels: self.labels.deep_view(),
        }
    }
}

/// How the source of the root filesystem is shown: an image by its
/// reference, a directory by `rootfs:` and its path.
pub open spec fn image_label(rootfs: RootfsSpecView) -> Seq<char> {
    match rootfs {
        RootfsSpecView::Image(r) => r,
        RootfsSpecView::RootfsPath(p) => "rootfs:"@ + p,
    }
}

/// The record of a box with the given configuration and state. A box that
/// asked for no CPU count has 2; one that asked for no memory has 512 MiB.
pub open spec fn info_of(config: BoxConfigView, state: BoxState) -> BoxInfoView {
    BoxInfoView {
        id: config.id,
        name: config.name,
        status: state.status,
        created_at: config.created_at,
        last_updated: state.last_updated,
        pid: state.pid,
        transport: config.transport,
        image: image_label(config.container.image),
        cpus: match config.options.cpus {
            Some(c) => c,
            None => DEFAULT_CPUS,
        },
        memory_mib: match config.options.memory_mib {
            Some(m) => m,
            None => DEFAULT_MEMORY_MIB,
        },
        labels: Seq::empty(),
    }
}

/// Two records are the same box in the same condition when they agree on
/// identifier, status, creation time, PID, image, CPUs, memory and labels.
/// The name, the time of the last update and the transport do not count.
pub open spec fn same_info(a: BoxInfoView, b: BoxInfoView) -> bool {
    &&& a.id == b.id
    &&& a.status == b.status
    &&& a.created_at == b.created_at
    &&& a.pid == b.pid
    &&& a.image == b.image
    &&& a.cpus == b.cpus
    &&& a.memory_mib == b.memory_mib
    &&& a.labels == b.labels
}

fn pairs_equal(a: &Vec<(String, String)>, b: &Vec<(String, String)>) -> (r: bool)
    ensures
        r == (a.deep_view() == b.deep_view()),
{
    if a.len() != b.len() {
        assert(a.deep_view().len() != b.deep_view().len());
        return false;
    }
    let mut i: usize = 0;
    while i < a.len()
        invariant
            i <= a.len(),
            a.len() == b.len(),
            forall|j: int| 0 <= j < i ==> (#[trigger] a@[j]).deep_view() == b@[j].deep_view(),
        decreases a.len() - i,
    {
        if !(a[i].0 == b[i].0 && a[i].1 == b[i].1) {
            assert(a.deep_view()[i as int] != b.deep_view()[i as int]);
            return false;
        }
        i += 1;
    }
    assert(a.deep_view() =~= b.deep_view());
    true
}

impl BoxInfo {
    /// The record of a box with the given configuration and state.
    pub fn new(config: &BoxConfig, state: &BoxState) -> (r: BoxInfo)
        ensures
            r.deep_view() == info_of(config.deep_view(), *state),
    {
        let image = match &config.container.image {
            RootfsSpec::Image(r) => r.clone(),
            RootfsSpec::RootfsPath(p) => {
                let mut m = chars_of("rootfs:");
                push_str(&mut m, p.as_str());
                string_of(&m)
            },
        };
        let labels: Vec<(String, String)> = Vec::new();
        assert(labels.deep_view() =~= Seq::empty());
        BoxInfo {
            id: config.id.clone(),
            name: clone_option(&config.name),
            status: state.status,
            created_at: config.created_at,
            last_updated: state.last_updated,
            pid: state.pid,
            transport: config.transport.duplicate(),
            image,
            cpus: config.options.effective_cpus(),
            memory_mib: config.options.effective_memory_mib(),
            labels,
        }
    }

    /// Whether two records are the same box in the same condition.
    pub fn same_as(&self, other: &BoxInfo) -> (r: bool)
        ensures
            r == same_info(self.deep_view(), other.deep_view()),
    {
        let pid_equal = match (self.pid, other.pid) {
            (Some(a), Some(b)) => a == b,
            (None, None) => true,
            _ => false,
        };
        self.id == other.id && self.status == other.status && self.created_at == other.created_at
            && pid_equal && self.image == other.image && self.cpus == other.cpus
            && self.memory_mib == other.memory_mib && pairs_equal(&self.labels, &other.labels)
    }
}

impl PartialEq for BoxInfo {
    fn eq(&self, other: &BoxInfo) -> (r: bool) {
        self.same_as(other)
    }
}

impl vstd::std_specs::cmp::PartialEqSpecImpl for BoxInfo {
    open spec fn obeys_eq_spec() -> bool {
        true
    }

    open spec fn eq_spec(&self, other: &BoxInfo) -> bool {
        same_info(self.deep_view(), other.deep_view())
    }
}

// ============================================================================
// The record as the language bindings show it
// ============================================================================

/// The changing part of a box's record, as the language bindings show it.
#[derive(Clone, Debug)]
pub struct JsBoxStateInfo {
    /// The status in lowercase.
    pub status: String,
    /// Whether the machine runs.
    pub running: bool,
    pub pid: Option<u32>,
}

/// The record of a box as the language bindings show it.
#[derive(Clone, Debug)]
pub struct JsBoxInfo {
    pub id: String,
    pub name: Option<String>,
    pub state: JsBoxStateInfo,
    /// The creation time in RFC 3339 form.
    pub created_at: String,
    pub image: String,
    pub cpus: u8,
    pub memory_mib: u32,
}

pub struct JsBoxInfoView {
    pub id: Seq<char>,
    pub name: Option<Seq<char>>,
    pub status: Seq<char>,
    pub running: bool,
    pub pid: Option<u32>,
    pub created_at: Seq<char>,
    pub image: Seq<char>,
    pub cpus: u8,
    pub memory_mib: u32,
}

impl DeepView for JsBoxInfo {
    type V = JsBoxInfoView;

    open spec fn deep_view(&self) -> JsBoxInfoView {
        JsBoxInfoView {
            id: self.id@,
            name: self.name.deep_view(),
            status: self.state.status@,
            running: self.state.running,
            pid: self.state.pid,
            created_at: self.created_at@,
            image: self.image@,
            cpus: self.cpus,
            memory_mib: self.memory_mib,
        }
    }
}

/// The record that the language bindings show for a box, with the given
/// text for its creation time.
pub open spec fn js_info_of(info: BoxInfoView, created_at: Seq<char>) -> JsBoxInfoView {
    JsBoxInfoView {
        id: info.id,
        name: info.name,
        status: status_name(info.status),
        running: info.status == BoxStatus::Running,
        pid: info.pid,
        created_at,
        image: info.image,
        cpus: info.cpus,
        memory_mib: info.memory_mib,
    }
}

/// The point in time of a timestamp in RFC 3339 form, as the `chrono` crate
/// writes it; nothing for a timestamp beyond the dates that the crate can
/// hold.
pub uninterp spec fn rfc3339_text(millis: i64) -> Option<Seq<char>>;

/// `DateTime::from_timestamp_millis` of the `chrono` crate, which gives
/// the date in UTC or nothing for a timestamp out of its range, and
/// `DateTime::to_rfc3339` on that date. Both are functions of the timestamp
/// alone; the contract gives the outcome the name [`rfc3339_text`] and
/// claims nothing else of it.
#[verifier::external_body]
fn rfc3339(millis: i64) -> (r: Option<String>)
    ensures
        r.deep_view() == rfc3339_text(millis),
{
    match chrono::DateTime::from_timestamp_millis(millis) {
        Some(time) => Some(time.to_rfc3339()),
        None => None,
    }
}

impl JsBoxInfo {
    /// The record as the language bindings show it, given the creation
    /// time already formatted.
    pub fn from_info(info: BoxInfo, created_at: String) -> (r: JsBoxInfo)
        ensures
            r.deep_view() == js_info_of(info.deep_view(), created_at@),
    {
        let state = JsBoxStateInfo {
            status: info.status.as_str().to_string(),
            running: info.status.is_running(),
            pid: info.pid,
        };
        JsBoxInfo {
            id: info.id,
            name: info.name,
            state,
            created_at,
            image: info.image,
            cpus: info.cpus,
            memory_mib: info.memory_mib,
        }
    }

    /// The record as the language bindings show it, with the creation time
    /// in RFC 3339 form; nothing for a box whose creation time is beyond
    /// the dates that can be written.
    pub fn from_box_info(info: BoxInfo) -> (r: Option<JsBoxInfo>)
        ensures
            match rfc3339_text(info.created_at) {
                Some(text) => r matches Some(js) && js.deep_view() == js_info_of(
                    info.deep_view(),
                    text,
                ),
                None => r is None,
            },
    {
        match rfc3339(info.created_at) {
            Some(text) => Some(JsBoxInfo::from_info(info, text)),
            None => None,
        }
    }
}

} // verus!
