//! Writing port and volume specs back as text.
//!
//! A spec that was read can be written and read again, and reads as the
//! same spec. The text written is canonical: it need not be the text that
//! was first read.

use vstd::prelude::*;

use crate::cli::config_failure;
use crate::cli::is_drive_letter;
use crate::cli::options_read_only;
use crate::cli::port_of;
use crate::cli::port_pair_of;
use crate::cli::protocol_of;
use crate::cli::publish_spec_of;
use crate::cli::volume_parts_of;
use crate::cli::volume_spec_of;
use crate::cli::ParsedVolumeSpec;
use crate::cli::ParsedVolumeView;
use crate::error::ErrorView;
use crate::options::PortProtocol;
use crate::options::PortSpec;
use crate::options::PortSpecView;
use crate::text::all_digits;
use crate::text::ascii_lower;
use crate::text::chars_of;
use crate::text::decimal_text;
use crate::text::decimal_value;
use crate::text::eq_ignore_ascii_case;
use crate::text::eq_ignore_case_str;
use crate::text::first_index;
use crate::text::is_ascii_digit;
use crate::text::is_ascii_letter;
use crate::text::is_space;
use crate::text::is_trimmed;
use crate::text::lemma_decimal_round_trip;
use crate::text::lemma_first_index;
use crate::text::lemma_first_index_is;
use crate::text::lemma_first_index_none;
use crate::text::lemma_trim_end_shape;
use crate::text::lemma_trim_start_shape;
use crate::text::lemma_trimmed_fixed;
use crate::text::lemma_trimmed_is_trimmed;
use crate::text::parse_u16;
use crate::text::push_chars;
use crate::text::push_str;
use crate::text::split_in_two;
use crate::text::split_on;
use crate::text::split_once;
use crate::text::string_of;
use crate::text::trim;
use crate::text::trim_each;
use crate::text::trimmed;
use crate::text::write_decimal;

verus! {

// ============================================================================
// Texts without a separator
// ============================================================================

/// Whether a text holds no `c`.
pub open spec fn free_of(s: Seq<char>, c: char) -> bool {
    forall|i: int| 0 <= i < s.len() ==> #[trigger] s[i] != c
}

/// In `a`, `c`, `b` the first `c` is the one in the middle when `a` holds
/// none.
pub proof fn lemma_first_index_after(a: Seq<char>, c: char, b: Seq<char>)
    requires
        free_of(a, c),
    ensures
        first_index(a + seq![c] + b, c) == a.len(),
        (a + seq![c] + b).take(a.len() as int) == a,
        (a + seq![c] + b).skip(a.len() as int + 1) == b,
{
    let s = a + seq![c] + b;
    assert(s[a.len() as int] == c);
    assert forall|j: int| 0 <= j < a.len() implies s[j] != c by {
        assert(s[j] == a[j]);
    }
    lemma_first_index_is(s, c, a.len() as int);
    assert(s.take(a.len() as int) =~= a);
    assert(s.skip(a.len() as int + 1) =~= b);
}

/// A text that holds no `c` is one piece.
pub proof fn lemma_split_none(a: Seq<char>, c: char)
    requires
        free_of(a, c),
    ensures
        split_on(a, c) == seq![a],
        split_once(a, c) is None,
{
    lemma_first_index_none(a, c);
}

/// Splitting `a`, `c`, `b` gives `a` and the pieces of `b` when `a` holds
/// no `c`.
pub proof fn lemma_split_after(a: Seq<char>, c: char, b: Seq<char>)
    requires
        free_of(a, c),
    ensures
        split_on(a + seq![c] + b, c) == seq![a] + split_on(b, c),
        split_once(a + seq![c] + b, c) == Some((a, b)),
{
    lemma_first_index_after(a, c, b);
}

/// No piece of a split holds the separator.
pub proof fn lemma_pieces_free(s: Seq<char>, c: char)
    ensures
        split_on(s, c).len() >= 1,
        forall|k: int| 0 <= k < split_on(s, c).len() ==> free_of(#[trigger] split_on(s, c)[k], c),
    decreases s.len(),
{
    lemma_first_index(s, c);
    let i = first_index(s, c);
    if i < 0 {
        assert(free_of(s, c));
    } else {
        lemma_pieces_free(s.skip(i + 1), c);
        let rest = split_on(s.skip(i + 1), c);
        let all = split_on(s, c);
        assert(all == seq![s.take(i)] + rest);
        assert forall|k: int| 0 <= k < all.len() implies free_of(#[trigger] all[k], c) by {
            if k == 0 {
                assert(all[0] == s.take(i));
                assert forall|j: int| 0 <= j < s.take(i).len() implies #[trigger] s.take(i)[j]
                    != c by {
                    assert(s.take(i)[j] == s[j]);
                }
            } else {
                assert(all[k] == rest[k - 1]);
            }
        }
    }
}

/// Trimming keeps a text free of a character.
pub proof fn lemma_trimmed_free(s: Seq<char>, c: char)
    requires
        free_of(s, c),
    ensures
        free_of(trimmed(s), c),
{
    lemma_trim_start_shape(s);
    let t = crate::text::trim_start(s);
    lemma_trim_end_shape(t);
    let u = crate::text::trim_end(t);
    let k = s.len() - t.len();
    assert forall|i: int| 0 <= i < u.len() implies #[trigger] u[i] != c by {
        assert(u[i] == t[i]);
        assert(t[i] == s.skip(k)[i]);
        assert(s.skip(k)[i] == s[k + i]);
    }
}

/// A text that starts and ends with something other than white space is
/// trimmed.
pub proof fn lemma_trimmed_when_edges_print(s: Seq<char>)
    requires
        s.len() > 0,
        !is_space(s[0]),
        !is_space(s.last()),
    ensures
        trimmed(s) == s,
{
    lemma_trimmed_fixed(s);
}

// ============================================================================
// Ports
// ============================================================================

/// The name of a protocol.
pub open spec fn protocol_name(protocol: PortProtocol) -> Seq<char> {
    match protocol {
        PortProtocol::Tcp => "tcp"@,
        PortProtocol::Udp => "udp"@,
    }
}

/// The text of a published port: `[hostPort:]boxPort/protocol`.
pub open spec fn publish_text(p: PortSpecView) -> Seq<char> {
    (match p.host_port {
        Some(h) => decimal_text(h as nat) + seq![':'],
        None => Seq::empty(),
    }) + decimal_text(p.guest_port as nat) + seq!['/'] + protocol_name(p.protocol)
}

/// What a publish spec can stand for: ports from 1 to 65535 and no host
/// address.
pub open spec fn publishable(p: PortSpecView) -> bool {
    &&& p.guest_port != 0
    &&& p.host_port != Some(0u16)
    &&& p.host_ip is None
}

impl PortSpec {
    /// The text of the published port, `[hostPort:]boxPort/protocol`.
    pub fn to_spec_string(&self) -> (r: String)
        ensures
            r@ == publish_text(self.deep_view()),
    {
        let mut out: Vec<char> = Vec::new();
        match self.host_port {
            Some(h) => {
                push_chars(&mut out, &write_decimal(h as u64));
                out.push(':');
            },
            None => {},
        }
        push_chars(&mut out, &write_decimal(self.guest_port as u64));
        out.push('/');
        match self.protocol {
            PortProtocol::Tcp => {
                push_str(&mut out, "tcp");
            },
            PortProtocol::Udp => {
                push_str(&mut out, "udp");
            },
        }
        assert(out@ =~= publish_text(self.deep_view()));
        string_of(&out)
    }
}

/// The digits of a number hold no separator and no white space, and do
/// not start with a sign.
proof fn lemma_digits_plain(n: nat)
    ensures
        decimal_text(n).len() >= 1,
        all_digits(decimal_text(n)),
        free_of(decimal_text(n), ':'),
        free_of(decimal_text(n), '/'),
        trimmed(decimal_text(n)) == decimal_text(n),
        decimal_text(n)[0] != '+',
        decimal_value(decimal_text(n)) == n,
{
    lemma_decimal_round_trip(n);
    let d = decimal_text(n);
    assert forall|i: int| 0 <= i < d.len() implies #[trigger] d[i] != ':' && d[i] != '/' by {
        assert(is_ascii_digit(d[i]));
    }
    assert(is_ascii_digit(d[0]));
    assert(is_ascii_digit(d[d.len() - 1]));
    lemma_trimmed_when_edges_print(d);
}

/// A port from 1 to 65535 written in decimal reads as itself.
proof fn lemma_port_reads_back(n: u16)
    requires
        n != 0,
    ensures
        port_of(decimal_text(n as nat)) == Ok::<u16, ErrorView>(n),
{
    lemma_digits_plain(n as nat);
}

proof fn lemma_protocol_reads_back(protocol: PortProtocol)
    ensures
        protocol_of(protocol_name(protocol)) == Ok::<PortProtocol, ErrorView>(protocol),
        protocol_name(protocol).len() == 3,
        !is_space(protocol_name(protocol).last()),
{
    reveal_strlit("tcp");
    reveal_strlit("udp");
    let t = "tcp"@;
    let u = "udp"@;
    assert(eq_ignore_ascii_case(t, t));
    assert(eq_ignore_ascii_case(u, u));
    assert(ascii_lower(u[0]) != ascii_lower(t[0]));
    assert(!eq_ignore_ascii_case(u, t));
}

/// A published port that is written and read again reads as itself.
pub proof fn lemma_publish_round_trip(p: PortSpecView)
    requires
        publishable(p),
    ensures
        publish_spec_of(publish_text(p)) == Ok::<PortSpecView, ErrorView>(p),
{
    let guest = decimal_text(p.guest_port as nat);
    let proto = protocol_name(p.protocol);
    lemma_digits_plain(p.guest_port as nat);
    lemma_port_reads_back(p.guest_port);
    lemma_protocol_reads_back(p.protocol);
    let ports = match p.host_port {
        Some(h) => decimal_text(h as nat) + seq![':'] + guest,
        None => guest,
    };
    let text = publish_text(p);
    assert(text =~= ports + seq!['/'] + proto);
    match p.host_port {
        Some(h) => {
            let host = decimal_text(h as nat);
            lemma_digits_plain(h as nat);
            lemma_port_reads_back(h);
            assert forall|i: int| 0 <= i < ports.len() implies #[trigger] ports[i] != '/' by {
                if i < host.len() {
                    assert(ports[i] == host[i]);
                } else if i > host.len() {
                    assert(ports[i] == guest[i - host.len() - 1]);
                }
            }
            assert(ports[0] == host[0]);
            assert(is_ascii_digit(host[0]));
            assert(ports.last() == guest.last());
            assert(is_ascii_digit(guest[guest.len() - 1]));
            lemma_split_after(host, ':', guest);
            assert(split_in_two(ports, ':') == seq![host, guest]);
            assert(trim_each(seq![host, guest]) =~= seq![host, guest]);
        },
        None => {
            lemma_split_none(guest, ':');
            assert(split_in_two(ports, ':') == seq![guest]);
            assert(trim_each(seq![guest]) =~= seq![guest]);
            assert(is_ascii_digit(guest[0]));
            assert(is_ascii_digit(guest[guest.len() - 1]));
        },
    }
    assert(port_pair_of(ports, p.protocol) == Ok::<PortSpecView, ErrorView>(p));
    lemma_trimmed_when_edges_print(ports);
    assert(text[0] == ports[0]);
    assert(text.last() == proto.last());
    lemma_trimmed_when_edges_print(text);
    lemma_split_after(ports, '/', proto);
}

/// Whatever a publish spec stands for can be written and read again.
pub proof fn lemma_parsed_port_is_publishable(s: Seq<char>)
    requires
        publish_spec_of(s) is Ok,
    ensures
        publishable(publish_spec_of(s)->Ok_0),
{
}

/// Round trip of publish specs: a spec that is accepted, written back and
/// read again stands for what it stood for.
pub proof fn lemma_publish_spec_round_trip(s: Seq<char>)
    requires
        publish_spec_of(s) is Ok,
    ensures
        publish_spec_of(publish_text(publish_spec_of(s)->Ok_0)) == publish_spec_of(s),
{
    lemma_parsed_port_is_publishable(s);
    lemma_publish_round_trip(publish_spec_of(s)->Ok_0);
}

// ============================================================================
// Volumes
// ============================================================================

/// The word for a mount mode.
pub open spec fn mode_name(read_only: bool) -> Seq<char> {
    if read_only {
        "ro"@
    } else {
        "rw"@
    }
}

/// `ro` or `rw`, in any case.
pub open spec fn is_mode_word(s: Seq<char>) -> bool {
    eq_ignore_ascii_case(s, "ro"@) || eq_ignore_ascii_case(s, "rw"@)
}

/// A piece of a spec: free of colons and trimmed.
pub open spec fn plain_part(s: Seq<char>) -> bool {
    free_of(s, ':') && is_trimmed(s)
}

/// The text of a volume.
///
/// - An anonymous volume: `boxPath:ro` or `boxPath:rw`.
/// - A writable bind mount whose host path is a single letter:
///   `hostPath:boxPath`.
/// - Any other bind mount: `hostPath:boxPath:ro` or `hostPath:boxPath:rw`.
pub open spec fn volume_text(v: ParsedVolumeView) -> Seq<char> {
    match v.host_path {
        None => v.guest_path + seq![':'] + mode_name(v.read_only),
        Some(h) => if is_drive_letter(h) && !v.read_only {
            h + seq![':'] + v.guest_path
        } else {
            h + seq![':'] + v.guest_path + seq![':'] + mode_name(v.read_only)
        },
    }
}

/// What a volume spec can stand for.
///
/// The box path is a non-empty piece. A host path is not empty and is
/// either a piece, or a drive letter, a colon and a piece. A host path
/// that is a single letter belongs to a writable mount whose box path is
/// not a mode word.
pub open spec fn volume_writable(v: ParsedVolumeView) -> bool {
    &&& v.guest_path.len() > 0
    &&& plain_part(v.guest_path)
    &&& v.host_path matches Some(h) ==> {
        &&& h.len() > 0
        &&& {
            ||| plain_part(h) && (is_drive_letter(h) ==> !v.read_only && !is_mode_word(
                v.guest_path,
            ))
            ||| exists|d: Seq<char>, rest: Seq<char>|
                {
                    &&& h == #[trigger] crate::cli::drive_path(d, rest)
                    &&& d.len() == 1
                    &&& is_ascii_letter(d[0])
                    &&& plain_part(rest)
                }
        }
    }
}

impl ParsedVolumeSpec {
    /// The text of the volume.
    pub fn to_spec_string(&self) -> (r: String)
        ensures
            r@ == volume_text(self.deep_view()),
    {
        let mut out: Vec<char> = Vec::new();
        let mode = if self.read_only {
            "ro"
        } else {
            "rw"
        };
        match &self.host_path {
            None => {
                push_str(&mut out, self.guest_path.as_str());
                out.push(':');
                push_str(&mut out, mode);
            },
            Some(h) => {
                let hv = chars_of(h.as_str());
                let t = trim(&hv);
                let drive = t.len() == 1 && crate::text::is_ascii_letter_char(t[0]);
                push_chars(&mut out, &hv);
                out.push(':');
                push_str(&mut out, self.guest_path.as_str());
                if !(drive && !self.read_only) {
                    out.push(':');
                    push_str(&mut out, mode);
                }
            },
        }
        assert(out@ =~= volume_text(self.deep_view()));
        string_of(&out)
    }
}

proof fn lemma_mode_reads_back(read_only: bool)
    ensures
        options_read_only(mode_name(read_only)) == read_only,
        is_mode_word(mode_name(read_only)),
        eq_ignore_ascii_case(mode_name(read_only), "ro"@) == read_only,
        plain_part(mode_name(read_only)),
        mode_name(read_only).len() == 2,
        !is_drive_letter(mode_name(read_only)),
{
    reveal_strlit("ro");
    reveal_strlit("rw");
    let ro = "ro"@;
    let rw = "rw"@;
    assert(eq_ignore_ascii_case(ro, ro));
    assert(eq_ignore_ascii_case(rw, rw));
    assert(ascii_lower(rw[1]) != ascii_lower(ro[1]));
    assert(!eq_ignore_ascii_case(rw, ro));
    let m = mode_name(read_only);
    assert(m.len() == 2);
    assert(free_of(m, ','));
    assert(free_of(m, ':'));
    lemma_split_none(m, ',');
    lemma_trimmed_when_edges_print(m);
    let parts = split_on(m, ',');
    assert(parts == seq![m]);
    if read_only {
        assert(eq_ignore_ascii_case(trimmed(parts[0]), "ro"@));
    } else {
        assert forall|i: int| 0 <= i < parts.len() implies !eq_ignore_ascii_case(
            trimmed(#[trigger] parts[i]),
            "ro"@,
        ) by {
            assert(parts[i] == m);
        }
    }
}

/// A piece that is not empty starts and ends with something other than
/// white space, and is its own trimmed form.
proof fn lemma_plain_part(s: Seq<char>)
    requires
        plain_part(s),
    ensures
        trimmed(s) == s,
        s.len() > 0 ==> !is_space(s[0]) && !is_space(s.last()),
{
    lemma_trimmed_fixed(s);
}

/// A single letter is a drive letter; a trimmed text of another length is
/// not.
proof fn lemma_drive_letter_shape(s: Seq<char>)
    requires
        is_trimmed(s),
    ensures
        is_drive_letter(s) <==> s.len() == 1 && is_ascii_letter(s[0]),
{
    lemma_trimmed_fixed(s);
}

/// A volume that can be written reads back as itself.
pub proof fn lemma_volume_round_trip(v: ParsedVolumeView)
    requires
        volume_writable(v),
    ensures
        volume_spec_of(volume_text(v)) == Ok::<ParsedVolumeView, ErrorView>(v),
{
    let guest = v.guest_path;
    let mode = mode_name(v.read_only);
    lemma_mode_reads_back(v.read_only);
    lemma_plain_part(guest);
    lemma_plain_part(mode);
    let text = volume_text(v);
    lemma_split_none(mode, ':');
    lemma_split_after(guest, ':', mode);
    match v.host_path {
        None => {
            assert(text =~= guest + seq![':'] + mode);
            assert(text[0] == guest[0]);
            assert(text.last() == mode.last());
            lemma_trimmed_when_edges_print(text);
            let parts = split_on(text, ':');
            assert(parts =~= seq![guest, mode]);
            assert(trim_each(parts) =~= seq![guest, mode]);
        },
        Some(h) => {
            if plain_part(h) && (is_drive_letter(h) ==> !v.read_only && !is_mode_word(guest)) {
                lemma_plain_part(h);
                lemma_drive_letter_shape(h);
                if is_drive_letter(h) && !v.read_only {
                    assert(text =~= h + seq![':'] + guest);
                    lemma_split_none(guest, ':');
                    lemma_split_after(h, ':', guest);
                    assert(text[0] == h[0]);
                    assert(text.last() == guest.last());
                    lemma_trimmed_when_edges_print(text);
                    let parts = split_on(text, ':');
                    assert(parts =~= seq![h, guest]);
                    assert(trim_each(parts) =~= seq![h, guest]);
                } else {
                    let tail = guest + seq![':'] + mode;
                    assert(text =~= h + seq![':'] + tail);
                    lemma_split_after(h, ':', tail);
                    assert(text[0] == h[0]);
                    assert(text.last() == mode.last());
                    lemma_trimmed_when_edges_print(text);
                    let parts = split_on(text, ':');
                    assert(parts =~= seq![h, guest, mode]);
                    assert(trim_each(parts) =~= seq![h, guest, mode]);
                    assert(!is_drive_letter(h));
                }
            } else {
                let (d, rest) = choose|d: Seq<char>, rest: Seq<char>|
                    {
                        &&& h == #[trigger] crate::cli::drive_path(d, rest)
                        &&& d.len() == 1
                        &&& is_ascii_letter(d[0])
                        &&& plain_part(rest)
                    };
                lemma_plain_part(rest);
                assert(free_of(d, ':'));
                assert(is_trimmed(d));
                lemma_plain_part(d);
                lemma_drive_letter_shape(d);
                assert(h.len() >= 2);
                assert(h[0] == d[0]);
                assert(h[1] == ':');
                assert(h.last() == if rest.len() > 0 { rest.last() } else { ':' });
                assert(is_trimmed(h));
                lemma_drive_letter_shape(h);
                assert(!is_drive_letter(h));
                let tail2 = guest + seq![':'] + mode;
                let tail1 = rest + seq![':'] + tail2;
                assert(text =~= d + seq![':'] + tail1);
                lemma_split_after(rest, ':', tail2);
                lemma_split_after(d, ':', tail1);
                assert(text[0] == d[0]);
                assert(text.last() == mode.last());
                lemma_trimmed_when_edges_print(text);
                let parts = split_on(text, ':');
                assert(parts =~= seq![d, rest, guest, mode]);
                assert(trim_each(parts) =~= seq![d, rest, guest, mode]);
            }
        },
    }
}

/// Whatever a volume spec stands for can be written.
pub proof fn lemma_parsed_volume_is_writable(s: Seq<char>)
    requires
        volume_spec_of(s) is Ok,
    ensures
        volume_writable(volume_spec_of(s)->Ok_0),
{
    let t = trimmed(s);
    let pieces = split_on(t, ':');
    let parts = trim_each(pieces);
    lemma_pieces_free(t, ':');
    assert forall|k: int| 0 <= k < parts.len() implies plain_part(#[trigger] parts[k]) by {
        assert(parts[k] == trimmed(pieces[k]));
        lemma_trimmed_free(pieces[k], ':');
        lemma_trimmed_is_trimmed(pieces[k]);
    }
    let v = volume_spec_of(s)->Ok_0;
    assert(volume_parts_of(parts, t) == Ok::<ParsedVolumeView, ErrorView>(v));
    assert(plain_part(parts[0]));
    if parts.len() >= 2 {
        assert(plain_part(parts[1]));
    }
    if parts.len() >= 3 {
        assert(plain_part(parts[2]));
    }
    if parts.len() == 2 {
        if !is_mode_word(parts[1]) {
            assert(v.host_path == Some(parts[0]));
        }
    } else if parts.len() >= 3 {
        if is_drive_letter(parts[0]) {
            lemma_drive_letter_shape(parts[0]);
            assert(v.host_path == Some(crate::cli::drive_path(parts[0], parts[1])));
        } else {
            assert(v.host_path == Some(parts[0]));
        }
    }
}

/// Round trip of volume specs: a spec that is accepted, written back and
/// read again stands for what it stood for.
pub proof fn lemma_volume_spec_round_trip(s: Seq<char>)
    requires
        volume_spec_of(s) is Ok,
    ensures
        volume_spec_of(volume_text(volume_spec_of(s)->Ok_0)) == volume_spec_of(s),
{
    lemma_parsed_volume_is_writable(s);
    lemma_volume_round_trip(volume_spec_of(s)->Ok_0);
}

} // verus!
