//! The layout of the home directory.
//!
//! ```text
//! {home}/db/boxlite.sqlite
//! {home}/images/blobs/sha256/<digest>
//! {home}/images/layers/<digest>/
//! {home}/volumes/anonymous/<id>/
//! {home}/boxes/<box_id>/
//!    config.json
//!    shim.pid
//!    root.qcow2
//!    rootfs/
//!    mounts/containers/<cid>/
//!    sockets/{grpc.sock, ready.sock}
//! ```
//!
//! Every path is a function of the home directory and identifiers. An
//! identifier that is not safe as a path component is refused. The sockets
//! of a box move under a short directory where their natural path would be
//! longer than a Unix socket path may be.

use vstd::prelude::*;

use crate::error::BoxliteError;
use crate::ids::is_box_id;
use crate::ids::is_box_id_char;
use crate::layout::check_path_id;
use crate::layout::dirs;
use crate::layout::id_checked;
use crate::layout::join;
use crate::layout::join_path;
use crate::layout::SharedGuestLayout;

verus! {

/// The longest path, in bytes, that a Unix socket can have on every
/// supported host.
pub const SOCKET_PATH_MAX: usize = 103;

/// The directory under which the sockets of a box are placed when their
/// natural path is too long.
pub const SHORT_SOCKET_ROOT: &'static str = "/tmp/bl";

pub const GRPC_SOCKET: &'static str = "grpc.sock";

pub const READY_SOCKET: &'static str = "ready.sock";

pub const PID_FILE: &'static str = "shim.pid";

pub const CONFIG_FILE: &'static str = "config.json";

/// The directory of a box: `{home}/boxes/{id}`.
pub open spec fn box_dir_path(home: Seq<char>, box_id: Seq<char>) -> Seq<char> {
    join_path(join_path(home, "boxes"@), box_id)
}

/// The number of bytes that a character takes in UTF-8.
pub open spec fn utf8_width(c: char) -> nat {
    let n = c as u32;
    if n < 0x80 {
        1
    } else if n < 0x800 {
        2
    } else if n < 0x10000 {
        3
    } else {
        4
    }
}

/// The length of a path in bytes, in UTF-8.
pub open spec fn byte_length(path: Seq<char>) -> nat
    decreases path.len(),
{
    if path.len() == 0 {
        0
    } else {
        byte_length(path.drop_last()) + utf8_width(path.last())
    }
}

/// A path is never shorter in bytes than any of its beginnings.
pub proof fn lemma_byte_length_grows(path: Seq<char>, n: int)
    requires
        0 <= n <= path.len(),
    ensures
        byte_length(path.take(n)) <= byte_length(path),
    decreases path.len() - n,
{
    if n == path.len() {
        assert(path.take(n) == path);
    } else {
        lemma_byte_length_grows(path, n + 1);
        assert(path.take(n + 1).drop_last() == path.take(n));
    }
}

/// Whether a path is at most `limit` bytes long.
pub fn fits_in(path: &str, limit: usize) -> (r: bool)
    requires
        limit < usize::MAX - 4,
    ensures
        r == (byte_length(path@) <= limit),
{
    let v = crate::text::chars_of(path);
    let mut total: usize = 0;
    let mut i: usize = 0;
    assert(v@.take(0) =~= Seq::empty());
    while i < v.len()
        invariant
            i <= v.len(),
            v@ == path@,
            limit < usize::MAX - 4,
            total == byte_length(v@.take(i as int)),
            total <= limit,
        decreases v.len() - i,
    {
        let n: u32 = v[i] as u32;
        let w: usize = if n < 0x80 {
            1
        } else if n < 0x800 {
            2
        } else if n < 0x10000 {
            3
        } else {
            4
        };
        proof {
            assert(v@.take(i + 1).drop_last() == v@.take(i as int));
            assert(v@.take(i + 1).last() == v@[i as int]);
        }
        total = total + w;
        if total > limit {
            proof {
                lemma_byte_length_grows(v@, i + 1);
            }
            return false;
        }
        i += 1;
    }
    assert(v@.take(v.len() as int) == v@);
    true
}

/// The directory that holds the sockets of a box: `sockets` in the box's
/// directory, unless the ready socket there would have a path longer than a
/// socket path may be; then `/tmp/bl/{id}`.
pub open spec fn sockets_dir_path(home: Seq<char>, box_id: Seq<char>) -> Seq<char> {
    let natural = join_path(box_dir_path(home, box_id), "sockets"@);
    if byte_length(join_path(natural, READY_SOCKET@)) <= SOCKET_PATH_MAX {
        natural
    } else {
        join_path(SHORT_SOCKET_ROOT@, box_id)
    }
}

/// The length in bytes of two texts in a row is the sum of their lengths
/// in bytes.
pub proof fn lemma_byte_length_concat(a: Seq<char>, b: Seq<char>)
    ensures
        byte_length(a + b) == byte_length(a) + byte_length(b),
    decreases b.len(),
{
    if b.len() == 0 {
        assert(a + b =~= a);
    } else {
        lemma_byte_length_concat(a, b.drop_last());
        assert((a + b).drop_last() =~= a + b.drop_last());
        assert((a + b).last() == b.last());
    }
}

/// A text of ASCII characters takes one byte for each.
pub proof fn lemma_ascii_byte_length(s: Seq<char>)
    requires
        forall|i: int| 0 <= i < s.len() ==> (#[trigger] s[i] as u32) < 0x80,
    ensures
        byte_length(s) == s.len(),
    decreases s.len(),
{
    if s.len() > 0 {
        lemma_ascii_byte_length(s.drop_last());
    }
}

/// The sockets of a box fit: wherever the home directory is, the socket of
/// the guest agent and the ready socket of a box with a well-formed
/// identifier have paths that a Unix socket can have.
pub proof fn lemma_socket_paths_fit(home: Seq<char>, box_id: Seq<char>)
    requires
        is_box_id(box_id),
    ensures
        byte_length(join_path(sockets_dir_path(home, box_id), READY_SOCKET@)) <= SOCKET_PATH_MAX,
        byte_length(join_path(sockets_dir_path(home, box_id), GRPC_SOCKET@)) <= SOCKET_PATH_MAX,
{
    reveal_strlit("ready.sock");
    reveal_strlit("grpc.sock");
    reveal_strlit("/tmp/bl");
    reveal_strlit("sockets");
    let slash = seq!['/'];
    let natural = join_path(box_dir_path(home, box_id), "sockets"@);
    assert(natural.len() > 0 && natural.last() == 's');
    assert(box_id[0] != '/' && box_id.last() != '/') by {
        assert(is_box_id_char(box_id[0]));
        assert(is_box_id_char(box_id[25]));
    }
    let short = join_path(SHORT_SOCKET_ROOT@, box_id);
    assert(short == SHORT_SOCKET_ROOT@ + slash + box_id);
    assert(short.len() == 34 && short.last() == box_id[25]);
    let dir = sockets_dir_path(home, box_id);
    assert(dir.len() > 0 && dir.last() != '/');
    let ready = join_path(dir, READY_SOCKET@);
    let grpc = join_path(dir, GRPC_SOCKET@);
    assert(ready == dir + slash + READY_SOCKET@);
    assert(grpc == dir + slash + GRPC_SOCKET@);
    lemma_ascii_byte_length(slash);
    lemma_ascii_byte_length(READY_SOCKET@);
    lemma_ascii_byte_length(GRPC_SOCKET@);
    lemma_byte_length_concat(dir, slash);
    lemma_byte_length_concat(dir + slash, READY_SOCKET@);
    lemma_byte_length_concat(dir + slash, GRPC_SOCKET@);
    if dir == natural {
        assert(byte_length(ready) <= SOCKET_PATH_MAX);
    } else {
        assert(dir == short);
        assert forall|i: int| 0 <= i < short.len() implies (#[trigger] short[i] as u32) < 0x80 by {
            if i >= 8 {
                assert(short[i] == box_id[i - 8]);
                assert(is_box_id_char(box_id[i - 8]));
            }
        }
        lemma_ascii_byte_length(short);
    }
}

/// The layout of a home directory.
#[derive(Debug)]
pub struct HomeLayout {
    home: String,
}

impl View for HomeLayout {
    type V = Seq<char>;

    /// The home directory.
    closed spec fn view(&self) -> Seq<char> {
        self.home@
    }
}

impl Clone for HomeLayout {
    fn clone(&self) -> (r: HomeLayout)
        ensures
            r@ == self@,
    {
        HomeLayout { home: self.home.clone() }
    }
}

impl HomeLayout {
    pub fn new(home: &str) -> (r: HomeLayout)
        ensures
            r@ == home@,
    {
        HomeLayout { home: home.to_string() }
    }

    pub fn home(&self) -> (r: &str)
        ensures
            r@ == self@,
    {
        self.home.as_str()
    }

    /// `{home}/db/boxlite.sqlite`
    pub fn database_path(&self) -> (r: String)
        ensures
            r@ == join_path(join_path(self@, "db"@), "boxlite.sqlite"@),
    {
        join(join(self.home.as_str(), "db").as_str(), "boxlite.sqlite")
    }

    /// `{home}/images`
    pub fn images_dir(&self) -> (r: String)
        ensures
            r@ == join_path(self@, "images"@),
    {
        join(self.home.as_str(), "images")
    }

    /// `{home}/images/blobs/sha256/{digest}`, the archive of a layer.
    pub fn blob_path(&self, digest: &str) -> (r: Result<String, BoxliteError>)
        ensures
            id_checked(r, digest@),
            r matches Ok(p) ==> p@ == join_path(
                join_path(join_path(join_path(self@, "images"@), "blobs"@), "sha256"@),
                digest@,
            ),
    {
        check_path_id(digest)?;
        let blobs = join(self.images_dir().as_str(), "blobs");
        let sha = join(blobs.as_str(), "sha256");
        Ok(join(sha.as_str(), digest))
    }

    /// `{home}/images/layers/{digest}`, the extracted tree of a layer.
    pub fn layer_dir(&self, digest: &str) -> (r: Result<String, BoxliteError>)
        ensures
            id_checked(r, digest@),
            r matches Ok(p) ==> p@ == join_path(
                join_path(join_path(self@, "images"@), "layers"@),
                digest@,
            ),
    {
        check_path_id(digest)?;
        let layers = join(self.images_dir().as_str(), "layers");
        Ok(join(layers.as_str(), digest))
    }

    /// `{home}/locks/{lock_id}.lock`, the file locked while a box is built.
    pub fn lock_path(&self, lock_id: u64) -> (r: String)
        ensures
            r@ == join_path(
                join_path(self@, "locks"@),
                crate::text::decimal_text(lock_id as nat) + ".lock"@,
            ),
    {
        let mut name = crate::text::write_decimal(lock_id);
        crate::text::push_str(&mut name, ".lock");
        let dir = join(self.home.as_str(), "locks");
        join(dir.as_str(), crate::text::string_of(&name).as_str())
    }

    /// `{home}/volumes/anonymous`, which holds the anonymous volumes.
    pub fn anonymous_volumes_dir(&self) -> (r: String)
        ensures
            r@ == join_path(join_path(self@, "volumes"@), "anonymous"@),
    {
        join(join(self.home.as_str(), "volumes").as_str(), "anonymous")
    }

    /// `{home}/boxes`
    pub fn boxes_dir(&self) -> (r: String)
        ensures
            r@ == join_path(self@, "boxes"@),
    {
        join(self.home.as_str(), "boxes")
    }

    /// The layout of one box.
    pub fn box_layout(&self, box_id: &str) -> (r: Result<BoxLayout, BoxliteError>)
        ensures
            id_checked(r, box_id@),
            r matches Ok(l) ==> l.deep_view() == (BoxLayoutView {
                root: box_dir_path(self@, box_id@),
                sockets: sockets_dir_path(self@, box_id@),
            }),
    {
        check_path_id(box_id)?;
        let root = join(self.boxes_dir().as_str(), box_id);
        let natural = join(root.as_str(), "sockets");
        let ready = join(natural.as_str(), READY_SOCKET);
        let sockets = if fits_in(ready.as_str(), SOCKET_PATH_MAX) {
            natural
        } else {
            join(SHORT_SOCKET_ROOT, box_id)
        };
        Ok(BoxLayout { root, sockets })
    }
}

/// The layout of the directory of one box.
#[derive(Debug)]
pub struct BoxLayout {
    root: String,
    sockets: String,
}

pub struct BoxLayoutView {
    /// The directory of the box.
    pub root: Seq<char>,
    /// The directory that holds its sockets.
    pub sockets: Seq<char>,
}

impl DeepView for BoxLayout {
    type V = BoxLayoutView;

    closed spec fn deep_view(&self) -> BoxLayoutView {
        BoxLayoutView { root: self.root@, sockets: self.sockets@ }
    }
}

impl BoxLayout {
    pub fn root(&self) -> (r: &str)
        ensures
            r@ == self.deep_view().root,
    {
        self.root.as_str()
    }

    /// The PID file, the source of truth on the process that hosts the
    /// machine.
    pub fn pid_file(&self) -> (r: String)
        ensures
            r@ == join_path(self.deep_view().root, PID_FILE@),
    {
        join(self.root.as_str(), PID_FILE)
    }

    pub fn config_file(&self) -> (r: String)
        ensures
            r@ == join_path(self.deep_view().root, CONFIG_FILE@),
    {
        join(self.root.as_str(), CONFIG_FILE)
    }

    /// The copy-on-write disk of the box.
    pub fn root_disk(&self) -> (r: String)
        ensures
            r@ == join_path(self.deep_view().root, crate::init::ROOT_DISK@),
    {
        join(self.root.as_str(), crate::init::ROOT_DISK)
    }

    /// The merged root filesystem, where the box has no disk.
    pub fn rootfs_dir(&self) -> (r: String)
        ensures
            r@ == join_path(self.deep_view().root, dirs::ROOTFS@),
    {
        join(self.root.as_str(), dirs::ROOTFS)
    }

    /// What the host shares with the guest, at `{root}/mounts`.
    pub fn mounts(&self) -> (r: SharedGuestLayout)
        ensures
            r@ == join_path(self.deep_view().root, dirs::MOUNTS@),
    {
        SharedGuestLayout::new(join(self.root.as_str(), dirs::MOUNTS).as_str())
    }

    pub fn sockets_dir(&self) -> (r: &str)
        ensures
            r@ == self.deep_view().sockets,
    {
        self.sockets.as_str()
    }

    /// The socket of the guest agent.
    pub fn grpc_socket(&self) -> (r: String)
        ensures
            r@ == join_path(self.deep_view().sockets, GRPC_SOCKET@),
    {
        join(self.sockets.as_str(), GRPC_SOCKET)
    }

    /// The socket on which the host waits for the guest's ready signal.
    pub fn ready_socket(&self) -> (r: String)
        ensures
            r@ == join_path(self.deep_view().sockets, READY_SOCKET@),
    {
        join(self.sockets.as_str(), READY_SOCKET)
    }
}

} // verus!
