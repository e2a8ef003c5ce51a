//! Command-line flags and the grammar of their values.
//!
//! The flag structures hold what the user typed. The functions here turn
//! that text into [`BoxOptions`], and say for every input whether it is
//! accepted and what it means.

use vstd::prelude::*;

use crate::error::BoxliteError;
use crate::error::ErrorKind;
use crate::error::ErrorView;
use crate::error::config_error;
use crate::options::BoxOptions;
use crate::options::BoxliteOptions;
use crate::options::BoxliteOptionsView;
use crate::options::BoxOptionsView;
use crate::ids::generate_box_id;
use crate::ids::is_box_id;
use crate::layout::is_relative_path;
use crate::layout::join;
use crate::layout::join_path;
use crate::options::PortProtocol;
use crate::options::VolumeSpec;
use crate::options::VolumeSpecView;
use crate::options::PortSpec;
use crate::options::PortSpecView;
use crate::text::chars_of;
use crate::text::clone_option;
use crate::text::is_ascii_letter;
use crate::text::is_ascii_letter_char;
use crate::text::parts_view;
use crate::text::push_chars;
use crate::text::split;
use crate::text::split_on;
use crate::text::string_of;
use crate::text::trim_all;
use crate::text::debug_text;
use crate::text::eq_ignore_ascii_case;
use crate::text::eq_ignore_case_str;
use crate::text::parse_u16;
use crate::text::push_quoted;
use crate::text::push_str;
use crate::text::read_u16;
use crate::text::split_in_two;
use crate::text::split_once;
use crate::text::split_once_at;
use crate::text::trim;
use crate::text::trim_each;
use crate::text::trimmed;

verus! {

/// A configuration failure with the given message.
pub open spec fn config_failure(message: Seq<char>) -> ErrorView {
    ErrorView { kind: ErrorKind::Config, message }
}

// ============================================================================
// Published ports
// ============================================================================

/// The meaning of one port number: a decimal number from 1 to 65535.
pub open spec fn port_of(s: Seq<char>) -> Result<u16, ErrorView> {
    match parse_u16(s) {
        None => Err(config_failure("invalid port number "@ + debug_text(s))),
        Some(n) => if n == 0 {
            Err(config_failure("port must be 1-65535"@))
        } else {
            Ok(n)
        },
    }
}

/// The meaning of the protocol suffix: `tcp` or `udp`, in any case.
pub open spec fn protocol_of(s: Seq<char>) -> Result<PortProtocol, ErrorView> {
    if eq_ignore_ascii_case(s, "tcp"@) {
        Ok(PortProtocol::Tcp)
    } else if eq_ignore_ascii_case(s, "udp"@) {
        Ok(PortProtocol::Udp)
    } else {
        Err(config_failure("invalid protocol "@ + debug_text(s) + "; use tcp or udp"@))
    }
}

/// The meaning of `[hostPort:]boxPort` once the protocol is known.
pub open spec fn port_pair_of(rest: Seq<char>, protocol: PortProtocol) -> Result<
    PortSpecView,
    ErrorView,
> {
    let parts = trim_each(split_in_two(rest, ':'));
    if parts.len() == 1 {
        match port_of(parts[0]) {
            Err(e) => Err(e),
            Ok(g) => Ok(PortSpecView { host_port: None, guest_port: g, protocol, host_ip: None }),
        }
    } else {
        match port_of(parts[0]) {
            Err(e) => Err(e),
            Ok(h) => match port_of(parts[1]) {
                Err(e) => Err(e),
                Ok(g) => Ok(
                    PortSpecView { host_port: Some(h), guest_port: g, protocol, host_ip: None },
                ),
            },
        }
    }
}

/// The meaning of a publish spec, `[hostPort:]boxPort[/tcp|udp]`.
///
/// White space around the whole spec, around the part before the slash and
/// around each port is ignored. Without a suffix the protocol is TCP.
pub open spec fn publish_spec_of(input: Seq<char>) -> Result<PortSpecView, ErrorView> {
    let s = trimmed(input);
    if s.len() == 0 {
        Err(config_failure("empty port spec"@))
    } else {
        match split_once(s, '/') {
            Some((rest, proto)) => match protocol_of(proto) {
                Err(e) => Err(e),
                Ok(protocol) => port_pair_of(trimmed(rest), protocol),
            },
            None => port_pair_of(s, PortProtocol::Tcp),
        }
    }
}

/// Whether a parse result is the given meaning.
pub open spec fn port_result_is(
    r: Result<PortSpec, BoxliteError>,
    meaning: Result<PortSpecView, ErrorView>,
) -> bool {
    match r {
        Ok(p) => meaning == Ok::<PortSpecView, ErrorView>(p.deep_view()),
        Err(e) => meaning == Err::<PortSpecView, ErrorView>(e.deep_view()),
    }
}

/// Reads one port number.
pub fn parse_port(s: &str) -> (r: Result<u16, BoxliteError>)
    ensures
        match r {
            Ok(n) => port_of(s@) == Ok::<u16, ErrorView>(n),
            Err(e) => port_of(s@) == Err::<u16, ErrorView>(e.deep_view()),
        },
{
    let v = chars_of(s);
    parse_port_chars(&v)
}

fn parse_port_chars(v: &Vec<char>) -> (r: Result<u16, BoxliteError>)
    ensures
        match r {
            Ok(n) => port_of(v@) == Ok::<u16, ErrorView>(n),
            Err(e) => port_of(v@) == Err::<u16, ErrorView>(e.deep_view()),
        },
{
    match read_u16(v) {
        None => {
            let mut m = chars_of("invalid port number ");
            push_quoted(&mut m, v);
            Err(config_error(&m))
        },
        Some(n) => {
            if n == 0 {
                Err(config_error(&chars_of("port must be 1-65535")))
            } else {
                Ok(n)
            }
        },
    }
}

fn parse_protocol(proto: &Vec<char>) -> (r: Result<PortProtocol, BoxliteError>)
    ensures
        match r {
            Ok(p) => protocol_of(proto@) == Ok::<PortProtocol, ErrorView>(p),
            Err(e) => protocol_of(proto@) == Err::<PortProtocol, ErrorView>(e.deep_view()),
        },
{
    if eq_ignore_case_str(proto, "tcp") {
        Ok(PortProtocol::Tcp)
    } else if eq_ignore_case_str(proto, "udp") {
        Ok(PortProtocol::Udp)
    } else {
        let mut m = chars_of("invalid protocol ");
        push_quoted(&mut m, proto);
        push_str(&mut m, "; use tcp or udp");
        Err(config_error(&m))
    }
}

fn parse_port_pair(rest: &Vec<char>, protocol: PortProtocol) -> (r: Result<PortSpec, BoxliteError>)
    ensures
        port_result_is(r, port_pair_of(rest@, protocol)),
{
    match split_once_at(rest, ':') {
        None => {
            let only = trim(rest);
            assert(trim_each(split_in_two(rest@, ':')) =~= seq![only@]);
            let g = parse_port_chars(&only)?;
            Ok(PortSpec { host_port: None, guest_port: g, protocol, host_ip: None })
        },
        Some((a, b)) => {
            let host = trim(&a);
            let guest = trim(&b);
            assert(trim_each(split_in_two(rest@, ':')) =~= seq![host@, guest@]);
            let h = parse_port_chars(&host)?;
            let g = parse_port_chars(&guest)?;
            Ok(PortSpec { host_port: Some(h), guest_port: g, protocol, host_ip: None })
        },
    }
}

/// Reads one publish spec, `[hostPort:]boxPort[/tcp|udp]`.
pub fn parse_publish_spec(s: &str) -> (r: Result<PortSpec, BoxliteError>)
    ensures
        port_result_is(r, publish_spec_of(s@)),
{
    let raw = chars_of(s);
    let v = trim(&raw);
    if v.len() == 0 {
        return Err(config_error(&chars_of("empty port spec")));
    }
    match split_once_at(&v, '/') {
        Some((rest, proto)) => {
            let protocol = parse_protocol(&proto)?;
            let rest = trim(&rest);
            parse_port_pair(&rest, protocol)
        },
        None => parse_port_pair(&v, PortProtocol::Tcp),
    }
}

// ============================================================================
// Volumes
// ============================================================================

/// One volume as the user wrote it. An anonymous volume names no host path.
#[derive(Clone, Debug)]
pub struct ParsedVolumeSpec {
    pub host_path: Option<String>,
    pub guest_path: String,
    pub read_only: bool,
}

pub struct ParsedVolumeView {
    pub host_path: Option<Seq<char>>,
    pub guest_path: Seq<char>,
    pub read_only: bool,
}

impl DeepView for ParsedVolumeSpec {
    type V = ParsedVolumeView;

    open spec fn deep_view(&self) -> ParsedVolumeView {
        ParsedVolumeView {
            host_path: self.host_path.deep_view(),
            guest_path: self.guest_path@,
            read_only: self.read_only,
        }
    }
}

/// A Windows drive: after trimming, a single ASCII letter, as the `C` of
/// `C:\path`.
pub open spec fn is_drive_letter(segment: Seq<char>) -> bool {
    let s = trimmed(segment);
    s.len() == 1 && is_ascii_letter(s[0])
}

/// A Windows absolute path: a letter, a colon, then `\` or `/`.
pub open spec fn is_windows_absolute(path: Seq<char>) -> bool {
    &&& path.len() >= 3
    &&& is_ascii_letter(path[0])
    &&& path[1] == ':'
    &&& (path[2] == '\\' || path[2] == '/')
}

/// Whether a comma-separated list of mount options holds `ro`, in any case
/// and with white space around it ignored. Other options mean nothing.
pub open spec fn options_read_only(opts: Seq<char>) -> bool {
    let parts = split_on(opts, ',');
    exists|i: int| 0 <= i < parts.len() && eq_ignore_ascii_case(trimmed(#[trigger] parts[i]), "ro"@)
}

/// The host path `drive:rest` of a Windows drive path that the colon split.
pub open spec fn drive_path(drive: Seq<char>, rest: Seq<char>) -> Seq<char> {
    drive + seq![':'] + rest
}

pub open spec fn volume_failure_empty_guest() -> ErrorView {
    config_failure("volume box path must be non-empty"@)
}

/// The meaning of the trimmed colon-separated parts of a volume spec, before
/// the final check that no path is empty.
pub open spec fn volume_parts_of(parts: Seq<Seq<char>>, s: Seq<char>) -> Result<
    ParsedVolumeView,
    ErrorView,
> {
    if parts.len() == 1 {
        let guest = parts[0];
        if guest.len() == 0 {
            Err(volume_failure_empty_guest())
        } else if guest[0] != '/' && !is_drive_letter(guest) {
            Err(
                config_failure(
                    "anonymous volume box path must be absolute (e.g. /data), got "@ + debug_text(
                        guest,
                    ),
                ),
            )
        } else {
            Ok(ParsedVolumeView { host_path: None, guest_path: guest, read_only: false })
        }
    } else if parts.len() == 2 {
        let second = parts[1];
        if eq_ignore_ascii_case(second, "ro"@) || eq_ignore_ascii_case(second, "rw"@) {
            if parts[0].len() == 0 {
                Err(volume_failure_empty_guest())
            } else {
                Ok(
                    ParsedVolumeView {
                        host_path: None,
                        guest_path: parts[0],
                        read_only: eq_ignore_ascii_case(second, "ro"@),
                    },
                )
            }
        } else {
            Ok(
                ParsedVolumeView {
                    host_path: Some(parts[0]),
                    guest_path: parts[1],
                    read_only: false,
                },
            )
        }
    } else if parts.len() == 3 {
        if is_drive_letter(parts[0]) {
            Ok(
                ParsedVolumeView {
                    host_path: Some(drive_path(parts[0], parts[1])),
                    guest_path: parts[2],
                    read_only: false,
                },
            )
        } else {
            Ok(
                ParsedVolumeView {
                    host_path: Some(parts[0]),
                    guest_path: parts[1],
                    read_only: options_read_only(parts[2]),
                },
            )
        }
    } else {
        if is_drive_letter(parts[0]) {
            Ok(
                ParsedVolumeView {
                    host_path: Some(drive_path(parts[0], parts[1])),
                    guest_path: parts[2],
                    read_only: options_read_only(parts[3]),
                },
            )
        } else {
            Err(
                config_failure(
                    "invalid volume spec "@ + debug_text(s)
                        + "; use hostPath:boxPath[:options] (e.g. /data:/app/data or C:\\data:/app/data:ro)"@,
                ),
            )
        }
    }
}

/// The meaning of a volume spec.
///
/// - `boxPath` or `boxPath:ro|rw`: an anonymous volume.
/// - `hostPath:boxPath[:options]`: a bind mount. Of the options only `ro`
///   means anything.
/// - The colon after a Windows drive letter does not separate:
///   `C:\data:/app/data` mounts the host path `C:\data`.
///
/// White space around the spec and around each part is ignored. No path may
/// be empty, and an anonymous volume given without options must be absolute.
pub open spec fn volume_spec_of(input: Seq<char>) -> Result<ParsedVolumeView, ErrorView> {
    let s = trimmed(input);
    if s.len() == 0 {
        Err(config_failure("empty volume spec"@))
    } else {
        match volume_parts_of(trim_each(split_on(s, ':')), s) {
            Err(e) => Err(e),
            Ok(v) => if v.host_path matches Some(h) && h.len() == 0 {
                Err(config_failure("volume host path must be non-empty"@))
            } else if v.guest_path.len() == 0 {
                Err(volume_failure_empty_guest())
            } else {
                Ok(v)
            },
        }
    }
}

/// Whether a parse result is the given meaning.
pub open spec fn volume_result_is(
    r: Result<ParsedVolumeSpec, BoxliteError>,
    meaning: Result<ParsedVolumeView, ErrorView>,
) -> bool {
    match r {
        Ok(v) => meaning == Ok::<ParsedVolumeView, ErrorView>(v.deep_view()),
        Err(e) => meaning == Err::<ParsedVolumeView, ErrorView>(e.deep_view()),
    }
}

fn is_drive_letter_chars(segment: &Vec<char>) -> (r: bool)
    ensures
        r == is_drive_letter(segment@),
{
    let s = trim(segment);
    s.len() == 1 && is_ascii_letter_char(s[0])
}

/// Whether the segment is a Windows drive: a single ASCII letter.
pub fn is_windows_drive(segment: &str) -> (r: bool)
    ensures
        r == is_drive_letter(segment@),
{
    is_drive_letter_chars(&chars_of(segment))
}

fn is_windows_absolute_chars(p: &Vec<char>) -> (r: bool)
    ensures
        r == is_windows_absolute(p@),
{
    p.len() >= 3 && is_ascii_letter_char(p[0]) && p[1] == ':' && (p[2] == '\\' || p[2] == '/')
}

/// Whether the path looks like a Windows absolute path, as `C:\foo` or
/// `D:/bar`.
pub fn is_windows_absolute_path(path: &str) -> (r: bool)
    ensures
        r == is_windows_absolute(path@),
{
    is_windows_absolute_chars(&chars_of(path))
}

fn read_only_in(opts: &Vec<char>) -> (r: bool)
    ensures
        r == options_read_only(opts@),
{
    let parts = split(opts, ',');
    let mut i: usize = 0;
    while i < parts.len()
        invariant
            i <= parts.len(),
            parts_view(parts@) == split_on(opts@, ','),
            forall|j: int|
                0 <= j < i ==> !eq_ignore_ascii_case(
                    trimmed(#[trigger] split_on(opts@, ',')[j]),
                    "ro"@,
                ),
        decreases parts.len() - i,
    {
        let t = trim(&parts[i]);
        assert(parts_view(parts@)[i as int] == parts@[i as int]@);
        if eq_ignore_case_str(&t, "ro") {
            return true;
        }
        i += 1;
    }
    assert(parts_view(parts@).len() == parts.len());
    false
}

/// Whether the mount options ask for a read-only mount.
pub fn parse_volume_read_only(opts: &str) -> (r: bool)
    ensures
        r == options_read_only(opts@),
{
    read_only_in(&chars_of(opts))
}

fn drive_path_chars(drive: &Vec<char>, rest: &Vec<char>) -> (r: Vec<char>)
    ensures
        r@ == drive_path(drive@, rest@),
{
    let mut r: Vec<char> = Vec::new();
    push_chars(&mut r, drive);
    r.push(':');
    push_chars(&mut r, rest);
    r
}

fn empty_guest_error() -> (e: BoxliteError)
    ensures
        e.deep_view() == volume_failure_empty_guest(),
{
    config_error(&chars_of("volume box path must be non-empty"))
}

fn parse_volume_parts(parts: &Vec<Vec<char>>, s: &Vec<char>) -> (r: Result<
    ParsedVolumeSpec,
    BoxliteError,
>)
    requires
        parts.len() >= 1,
    ensures
        volume_result_is(r, volume_parts_of(parts_view(parts@), s@)),
{
    let ghost pv = parts_view(parts@);
    assert(forall|i: int| 0 <= i < parts.len() ==> pv[i] == (#[trigger] parts@[i])@);
    if parts.len() == 1 {
        let guest = &parts[0];
        if guest.len() == 0 {
            return Err(empty_guest_error());
        }
        if guest[0] != '/' && !is_drive_letter_chars(guest) {
            let mut m = chars_of("anonymous volume box path must be absolute (e.g. /data), got ");
            push_quoted(&mut m, guest);
            return Err(config_error(&m));
        }
        Ok(ParsedVolumeSpec { host_path: None, guest_path: string_of(guest), read_only: false })
    } else if parts.len() == 2 {
        let second = &parts[1];
        let ro = eq_ignore_case_str(second, "ro");
        if ro || eq_ignore_case_str(second, "rw") {
            if parts[0].len() == 0 {
                return Err(empty_guest_error());
            }
            Ok(ParsedVolumeSpec { host_path: None, guest_path: string_of(&parts[0]), read_only: ro })
        } else {
            Ok(
                ParsedVolumeSpec {
                    host_path: Some(string_of(&parts[0])),
                    guest_path: string_of(&parts[1]),
                    read_only: false,
                },
            )
        }
    } else if parts.len() == 3 {
        if is_drive_letter_chars(&parts[0]) {
            let host = drive_path_chars(&parts[0], &parts[1]);
            Ok(
                ParsedVolumeSpec {
                    host_path: Some(string_of(&host)),
                    guest_path: string_of(&parts[2]),
                    read_only: false,
                },
            )
        } else {
            let ro = read_only_in(&parts[2]);
            Ok(
                ParsedVolumeSpec {
                    host_path: Some(string_of(&parts[0])),
                    guest_path: string_of(&parts[1]),
                    read_only: ro,
                },
            )
        }
    } else {
        if is_drive_letter_chars(&parts[0]) {
            let host = drive_path_chars(&parts[0], &parts[1]);
            let ro = read_only_in(&parts[3]);
            Ok(
                ParsedVolumeSpec {
                    host_path: Some(string_of(&host)),
                    guest_path: string_of(&parts[2]),
                    read_only: ro,
                },
            )
        } else {
            let mut m = chars_of("invalid volume spec ");
            push_quoted(&mut m, s);
            push_str(
                &mut m,
                "; use hostPath:boxPath[:options] (e.g. /data:/app/data or C:\\data:/app/data:ro)",
            );
            Err(config_error(&m))
        }
    }
}

/// Reads one volume spec.
pub fn parse_volume_spec(s: &str) -> (r: Result<ParsedVolumeSpec, BoxliteError>)
    ensures
        volume_result_is(r, volume_spec_of(s@)),
{
    let raw = chars_of(s);
    let v = trim(&raw);
    if v.len() == 0 {
        return Err(config_error(&chars_of("empty volume spec")));
    }
    let parts = trim_all(&split(&v, ':'));
    let parsed = parse_volume_parts(&parts, &v)?;
    match &parsed.host_path {
        Some(h) => {
            if h.as_str().unicode_len() == 0 {
                return Err(config_error(&chars_of("volume host path must be non-empty")));
            }
        },
        None => {},
    }
    if parsed.guest_path.as_str().unicode_len() == 0 {
        return Err(empty_guest_error());
    }
    Ok(parsed)
}

// ============================================================================
// Environment
// ============================================================================

/// What one `-e` item adds to the environment: `KEY=VAL` adds the pair cut
/// at the first `=`; a bare `KEY` adds the host's value where the host has
/// one, and nothing otherwise.
pub open spec fn env_entry(item: Seq<char>, host_value: Option<Seq<char>>) -> Option<
    (Seq<char>, Seq<char>),
> {
    match split_once(item, '=') {
        Some((k, v)) => Some((k, v)),
        None => match host_value {
            Some(val) => Some((item, val)),
            None => None,
        },
    }
}

/// The pairs that the items add, in order. `host_values[i]` is the host's
/// value for item `i`.
pub open spec fn env_entries(items: Seq<Seq<char>>, host_values: Seq<Option<Seq<char>>>) -> Seq<
    (Seq<char>, Seq<char>),
>
    decreases items.len(),
{
    if items.len() == 0 {
        Seq::empty()
    } else {
        let before = env_entries(items.drop_last(), host_values.drop_last());
        match env_entry(items.last(), host_values.last()) {
            Some(e) => before.push(e),
            None => before,
        }
    }
}

/// The bare names for which the host has no value, in order.
pub open spec fn env_skipped(items: Seq<Seq<char>>, host_values: Seq<Option<Seq<char>>>) -> Seq<
    Seq<char>,
>
    decreases items.len(),
{
    if items.len() == 0 {
        Seq::empty()
    } else {
        let before = env_skipped(items.drop_last(), host_values.drop_last());
        if env_entry(items.last(), host_values.last()) is None {
            before.push(items.last())
        } else {
            before
        }
    }
}

/// Whether the lookup may have answered `value` for the name `name`.
pub open spec fn lookup_answered<F: Fn(&str) -> Option<String>>(
    lookup: F,
    name: Seq<char>,
    value: Option<Seq<char>>,
) -> bool {
    exists|k: &str, r: Option<String>|
        k@ == name && r.deep_view() == value && #[trigger] lookup.ensures((k,), r)
}

/// The name whose value an `-e` item asks the host for: the item itself
/// where it is a bare `KEY`, and none where it is `KEY=VAL`.
pub open spec fn asks_host_for(item: Seq<char>) -> Option<Seq<char>> {
    if split_once(item, '=') is None {
        Some(item)
    } else {
        None
    }
}

/// For each `-e` item, the name whose value the host is to be asked for,
/// if the item asks for one.
pub fn env_host_names(env: &Vec<String>) -> (names: Vec<Option<String>>)
    ensures
        names.len() == env.len(),
        forall|i: int|
            0 <= i < env.len() ==> (#[trigger] names@[i]).deep_view() == asks_host_for(env@[i]@),
{
    let mut names: Vec<Option<String>> = Vec::new();
    let mut i: usize = 0;
    while i < env.len()
        invariant
            i <= env.len(),
            names.len() == i,
            forall|j: int|
                0 <= j < i ==> (#[trigger] names@[j]).deep_view() == asks_host_for(env@[j]@),
        decreases env.len() - i,
    {
        let item = chars_of(env[i].as_str());
        match split_once_at(&item, '=') {
            Some(_) => {
                names.push(None);
            },
            None => {
                names.push(Some(env[i].clone()));
            },
        }
        i += 1;
    }
    names
}

/// Adds the `-e` items to the environment, given the host's value for each
/// item. Returns the bare names that were skipped for want of a host value.
pub fn apply_env_vars_resolved(
    env: &Vec<String>,
    opts: &mut BoxOptions,
    host_values: &Vec<Option<String>>,
) -> (skipped: Vec<String>)
    requires
        env.len() == host_values.len(),
    ensures
        final(opts).deep_view() == (BoxOptionsView {
            env: old(opts).deep_view().env + env_entries(
                env.deep_view(),
                host_values.deep_view(),
            ),
            ..old(opts).deep_view()
        }),
        skipped.deep_view() == env_skipped(env.deep_view(), host_values.deep_view()),
{
    let mut skipped: Vec<String> = Vec::new();
    let mut i: usize = 0;
    let ghost items = env.deep_view();
    let ghost values = host_values.deep_view();
    assert(opts.env.deep_view() =~= old(opts).deep_view().env + Seq::empty());
    assert(skipped.deep_view() =~= Seq::empty());
    while i < env.len()
        invariant
            i <= env.len(),
            env.len() == host_values.len(),
            items == env.deep_view(),
            values == host_values.deep_view(),
            opts.deep_view() == (BoxOptionsView {
                env: old(opts).deep_view().env + env_entries(
                    items.take(i as int),
                    values.take(i as int),
                ),
                ..old(opts).deep_view()
            }),
            skipped.deep_view() == env_skipped(items.take(i as int), values.take(i as int)),
        decreases env.len() - i,
    {
        let ghost env_before = opts.env.deep_view();
        let ghost skipped_before = skipped.deep_view();
        proof {
            assert(items.take(i + 1).drop_last() == items.take(i as int));
            assert(values.take(i + 1).drop_last() == values.take(i as int));
            assert(items.take(i + 1).last() == env@[i as int]@);
            assert(values.take(i + 1).last() == host_values@[i as int].deep_view());
        }
        let item = chars_of(env[i].as_str());
        match split_once_at(&item, '=') {
            Some((k, v)) => {
                opts.env.push((string_of(&k), string_of(&v)));
                assert(opts.env.deep_view() =~= env_before.push((k@, v@)));
            },
            None => {
                match &host_values[i] {
                    Some(val) => {
                        opts.env.push((env[i].clone(), val.clone()));
                        assert(opts.env.deep_view() =~= env_before.push((env@[i as int]@, val@)));
                    },
                    None => {
                        skipped.push(env[i].clone());
                        assert(skipped.deep_view() =~= skipped_before.push(env@[i as int]@));
                    },
                }
            },
        }
        i += 1;
    }
    assert(items.take(env.len() as int) == items);
    assert(values.take(env.len() as int) == values);
    skipped
}

/// Adds the `-e` items to the environment, asking `lookup` for the host's
/// value of each bare name. Returns the bare names that were skipped
/// because the host has no value for them.
pub fn apply_env_vars_with_lookup<F: Fn(&str) -> Option<String>>(
    env: &Vec<String>,
    opts: &mut BoxOptions,
    lookup: F,
) -> (skipped: Vec<String>)
    requires
        forall|k: &str| lookup.requires((k,)),
    ensures
        exists|host_values: Seq<Option<Seq<char>>>|
            {
                &&& host_values.len() == env.len()
                &&& forall|i: int|
                    0 <= i < env.len() && split_once(env[i]@, '=') is None ==> lookup_answered(
                        lookup,
                        env[i]@,
                        #[trigger] host_values[i],
                    )
                &&& final(opts).deep_view() == (BoxOptionsView {
                    env: old(opts).deep_view().env + env_entries(env.deep_view(), host_values),
                    ..old(opts).deep_view()
                })
                &&& skipped.deep_view() == env_skipped(env.deep_view(), host_values)
            },
{
    let mut host_values: Vec<Option<String>> = Vec::new();
    let mut i: usize = 0;
    while i < env.len()
        invariant
            i <= env.len(),
            host_values.len() == i,
            forall|k: &str| lookup.requires((k,)),
            forall|j: int|
                0 <= j < i && split_once(env[j]@, '=') is None ==> lookup_answered(
                    lookup,
                    env[j]@,
                    #[trigger] host_values.deep_view()[j],
                ),
        decreases env.len() - i,
    {
        let item = chars_of(env[i].as_str());
        let ghost before = host_values.deep_view();
        let answer = match split_once_at(&item, '=') {
            Some(_) => None,
            None => {
                let name = env[i].as_str();
                let r = lookup(name);
                assert(lookup.ensures((name,), r));
                r
            },
        };
        host_values.push(answer);
        assert(host_values.deep_view() =~= before.push(answer.deep_view()));
        i += 1;
    }
    let skipped = apply_env_vars_resolved(env, opts, &host_values);
    assert(host_values.deep_view().len() == env.len());
    skipped
}

// ============================================================================
// Flags
// ============================================================================

/// Flags of a command run in a box.
#[derive(Clone, Debug)]
pub struct ProcessFlags {
    /// Keep standard input open.
    pub interactive: bool,
    /// Allocate a terminal.
    pub tty: bool,
    /// `-e KEY=VAL` or `-e KEY`.
    pub env: Vec<String>,
    /// Working directory inside the box.
    pub workdir: Option<String>,
}

impl ProcessFlags {
    /// Sets the working directory and adds the environment, given the
    /// host's value for each `-e` item.
    pub fn apply_to_resolved(&self, opts: &mut BoxOptions, host_values: &Vec<Option<String>>) -> (skipped:
        Vec<String>)
        requires
            self.env.len() == host_values.len(),
        ensures
            final(opts).deep_view() == (BoxOptionsView {
                working_dir: self.workdir.deep_view(),
                env: old(opts).deep_view().env + env_entries(
                    self.env.deep_view(),
                    host_values.deep_view(),
                ),
                ..old(opts).deep_view()
            }),
            skipped.deep_view() == env_skipped(self.env.deep_view(), host_values.deep_view()),
    {
        opts.working_dir = clone_option(&self.workdir);
        apply_env_vars_resolved(&self.env, opts, host_values)
    }

    /// Sets the working directory and adds the environment, asking `lookup`
    /// for the host's value of each bare name.
    pub fn apply_to_with_lookup<F: Fn(&str) -> Option<String>>(
        &self,
        opts: &mut BoxOptions,
        lookup: F,
    ) -> (skipped: Vec<String>)
        requires
            forall|k: &str| lookup.requires((k,)),
        ensures
            exists|host_values: Seq<Option<Seq<char>>>|
                {
                    &&& host_values.len() == self.env.len()
                    &&& forall|i: int|
                        0 <= i < self.env.len() && split_once(self.env[i]@, '=') is None
                            ==> lookup_answered(lookup, self.env[i]@, #[trigger] host_values[i])
                    &&& final(opts).deep_view() == (BoxOptionsView {
                        working_dir: self.workdir.deep_view(),
                        env: old(opts).deep_view().env + env_entries(
                            self.env.deep_view(),
                            host_values,
                        ),
                        ..old(opts).deep_view()
                    })
                    &&& skipped.deep_view() == env_skipped(self.env.deep_view(), host_values)
                },
    {
        opts.working_dir = clone_option(&self.workdir);
        apply_env_vars_with_lookup(&self.env, opts, lookup)
    }

    /// A terminal can be allocated only when standard input is one, unless
    /// the box is detached.
    pub fn validate(&self, detach: bool, stdin_is_terminal: bool) -> (r: Result<(), BoxliteError>)
        ensures
            r is Err <==> !detach && self.tty && !stdin_is_terminal,
            r matches Err(e) ==> e.deep_view() == config_failure(
                "the input device is not a TTY."@,
            ),
    {
        if !detach && self.tty && !stdin_is_terminal {
            Err(config_error(&chars_of("the input device is not a TTY.")))
        } else {
            Ok(())
        }
    }
}

/// Flags that size the machine.
#[derive(Clone, Copy, Debug)]
pub struct ResourceFlags {
    /// Number of CPUs.
    pub cpus: Option<u32>,
    /// Memory in MiB.
    pub memory: Option<u32>,
}

impl ResourceFlags {
    /// Sets the CPU count, capped at 255, and the memory, each where given.
    pub fn apply_to(&self, opts: &mut BoxOptions)
        ensures
            final(opts).deep_view() == (BoxOptionsView {
                cpus: match self.cpus {
                    Some(c) => Some(
                        if c > 255 {
                            255u8
                        } else {
                            c as u8
                        },
                    ),
                    None => old(opts).cpus,
                },
                memory_mib: match self.memory {
                    Some(m) => Some(m),
                    None => old(opts).memory_mib,
                },
                ..old(opts).deep_view()
            }),
    {
        match self.cpus {
            Some(c) => {
                let capped: u8 = if c > 255 {
                    255
                } else {
                    c as u8
                };
                opts.cpus = Some(capped);
            },
            None => {},
        }
        match self.memory {
            Some(m) => {
                opts.memory_mib = Some(m);
            },
            None => {},
        }
    }
}

/// Flags on the life of the box.
#[derive(Clone, Debug)]
pub struct ManagementFlags {
    /// A name for the box.
    pub name: Option<String>,
    /// Run the box in the background.
    pub detach: bool,
    /// Remove the box when it stops.
    pub rm: bool,
}

impl ManagementFlags {
    pub fn apply_to(&self, opts: &mut BoxOptions)
        ensures
            final(opts).deep_view() == (BoxOptionsView {
                detach: self.detach,
                auto_remove: self.rm,
                ..old(opts).deep_view()
            }),
    {
        opts.detach = self.detach;
        opts.auto_remove = self.rm;
    }
}

// ============================================================================
// Publish flags
// ============================================================================

/// `-p` flags.
#[derive(Clone, Debug)]
pub struct PublishFlags {
    /// `[hostPort:]boxPort[/tcp|udp]`
    pub publish: Vec<String>,
}

/// The port as it is stored in the options. Only TCP is forwarded: a port
/// published as UDP is stored as TCP.
pub open spec fn stored_port(p: PortSpecView) -> PortSpecView {
    PortSpecView { protocol: PortProtocol::Tcp, ..p }
}

/// Whether the first `n` publish specs are all accepted.
pub open spec fn publish_accepted(specs: Seq<Seq<char>>, n: int) -> bool {
    forall|i: int| 0 <= i < n ==> publish_spec_of(#[trigger] specs[i]) is Ok
}

/// The ports stored for the first `n` publish specs.
pub open spec fn ports_stored(specs: Seq<Seq<char>>, n: int) -> Seq<PortSpecView> {
    Seq::new(n as nat, |i: int| stored_port(publish_spec_of(specs[i])->Ok_0))
}

/// Whether a publish spec asks for UDP.
pub open spec fn asks_udp(spec: Seq<char>) -> bool {
    publish_spec_of(spec) matches Ok(p) && p.protocol == PortProtocol::Udp
}

/// The publish specs that ask for UDP, in order.
pub open spec fn udp_specs(specs: Seq<Seq<char>>) -> Seq<Seq<char>>
    decreases specs.len(),
{
    if specs.len() == 0 {
        Seq::empty()
    } else if asks_udp(specs.last()) {
        udp_specs(specs.drop_last()).push(specs.last())
    } else {
        udp_specs(specs.drop_last())
    }
}

/// The warning shown for a port published as UDP.
pub open spec fn udp_warning_text(spec: Seq<char>) -> Seq<char> {
    "Warning: UDP port forwarding is not yet implemented; "@ + spec + " will be forwarded as TCP"@
}

/// The warning shown for a port published as UDP.
pub fn udp_warning(spec: &str) -> (r: String)
    ensures
        r@ == udp_warning_text(spec@),
{
    let mut m = chars_of("Warning: UDP port forwarding is not yet implemented; ");
    push_str(&mut m, spec);
    push_str(&mut m, " will be forwarded as TCP");
    string_of(&m)
}

impl PublishFlags {
    /// Adds the published ports to the options, in order, each stored as
    /// TCP. Returns the specs that asked for UDP, so that the caller can
    /// warn. At the first spec that is refused the function stops with its
    /// failure; the ports before it stay added.
    pub fn apply_to(&self, opts: &mut BoxOptions) -> (r: Result<Vec<String>, BoxliteError>)
        ensures
            match r {
                Ok(downgraded) => {
                    &&& publish_accepted(self.publish.deep_view(), self.publish.len() as int)
                    &&& final(opts).deep_view() == (BoxOptionsView {
                        ports: old(opts).deep_view().ports + ports_stored(
                            self.publish.deep_view(),
                            self.publish.len() as int,
                        ),
                        ..old(opts).deep_view()
                    })
                    &&& downgraded.deep_view() == udp_specs(self.publish.deep_view())
                },
                Err(e) => exists|k: int|
                    {
                        &&& 0 <= k < self.publish.len()
                        &&& publish_accepted(self.publish.deep_view(), k)
                        &&& #[trigger] publish_spec_of(self.publish.deep_view()[k]) == Err::<
                            PortSpecView,
                            ErrorView,
                        >(e.deep_view())
                        &&& final(opts).deep_view() == (BoxOptionsView {
                            ports: old(opts).deep_view().ports + ports_stored(
                                self.publish.deep_view(),
                                k,
                            ),
                            ..old(opts).deep_view()
                        })
                    },
            },
    {
        let ghost specs = self.publish.deep_view();
        let mut downgraded: Vec<String> = Vec::new();
        let mut i: usize = 0;
        assert(opts.ports.deep_view() =~= old(opts).deep_view().ports + ports_stored(specs, 0));
        assert(downgraded.deep_view() =~= udp_specs(specs.take(0)));
        while i < self.publish.len()
            invariant
                i <= self.publish.len(),
                specs == self.publish.deep_view(),
                publish_accepted(specs, i as int),
                opts.deep_view() == (BoxOptionsView {
                    ports: old(opts).deep_view().ports + ports_stored(specs, i as int),
                    ..old(opts).deep_view()
                }),
                downgraded.deep_view() == udp_specs(specs.take(i as int)),
            decreases self.publish.len() - i,
        {
            let ghost ports_before = opts.ports.deep_view();
            let ghost downgraded_before = downgraded.deep_view();
            proof {
                assert(specs.take(i + 1).drop_last() == specs.take(i as int));
                assert(specs.take(i + 1).last() == specs[i as int]);
                assert(specs[i as int] == self.publish@[i as int]@);
            }
            match parse_publish_spec(self.publish[i].as_str()) {
                Err(e) => {
                    assert(publish_spec_of(specs[i as int]) == Err::<PortSpecView, ErrorView>(
                        e.deep_view(),
                    ));
                    return Err(e);
                },
                Ok(spec) => {
                    if let PortProtocol::Udp = spec.protocol {
                        downgraded.push(self.publish[i].clone());
                        assert(downgraded.deep_view() =~= downgraded_before.push(specs[i as int]));
                    }
                    let stored = PortSpec {
                        host_port: spec.host_port,
                        guest_port: spec.guest_port,
                        protocol: PortProtocol::Tcp,
                        host_ip: spec.host_ip,
                    };
                    opts.ports.push(stored);
                    assert(opts.ports.deep_view() =~= ports_before.push(stored.deep_view()));
                    assert(old(opts).deep_view().ports + ports_stored(specs, i + 1) =~= (old(
                        opts,
                    ).deep_view().ports + ports_stored(specs, i as int)).push(
                        stored.deep_view(),
                    ));
                },
            }
            i += 1;
        }
        assert(specs.take(self.publish.len() as int) == specs);
        Ok(downgraded)
    }
}

// ============================================================================
// Volume flags
// ============================================================================

/// `-v` flags.
#[derive(Clone, Debug)]
pub struct VolumeFlags {
    /// `hostPath:boxPath[:options]`, or `boxPath[:ro]` for an anonymous
    /// volume.
    pub volume: Vec<String>,
}

/// What is left to do on the host for a volume before the box can start.
#[derive(Clone, Copy, Debug, PartialEq, Eq, Structural)]
pub enum HostPathStep {
    /// The host path is absolute: nothing to do.
    Ready,
    /// The host path is relative and must be made absolute.
    Canonicalize,
    /// The volume is anonymous: its directory must be created.
    Create,
}

/// A relative host path must be made absolute, unless it is a Windows
/// absolute path.
pub open spec fn needs_canonicalize(host: Seq<char>) -> bool {
    is_relative_path(host) && !is_windows_absolute(host)
}

/// The host directory of an anonymous volume:
/// `{base}/volumes/anonymous/{unique}`.
pub open spec fn anonymous_volume_path(base: Seq<char>, unique: Seq<char>) -> Seq<char> {
    join_path(join_path(join_path(base, "volumes"@), "anonymous"@), unique)
}

/// How a parsed volume is stored in the options, and what is left to do
/// for it. An anonymous volume gets a host directory named by a fresh
/// identifier of 26 characters.
pub open spec fn volume_planned(
    parsed: ParsedVolumeView,
    base: Seq<char>,
    stored: VolumeSpecView,
    step: HostPathStep,
) -> bool {
    &&& stored.guest_path == parsed.guest_path
    &&& stored.read_only == parsed.read_only
    &&& match parsed.host_path {
        Some(h) => stored.host_path == h && step == if needs_canonicalize(h) {
            HostPathStep::Canonicalize
        } else {
            HostPathStep::Ready
        },
        None => step == HostPathStep::Create && exists|unique: Seq<char>|
            is_box_id(unique) && stored.host_path == #[trigger] anonymous_volume_path(
                base,
                unique,
            ),
    }
}

/// Whether the first `n` volume specs are all accepted.
pub open spec fn volumes_accepted(specs: Seq<Seq<char>>, n: int) -> bool {
    forall|i: int| 0 <= i < n ==> volume_spec_of(#[trigger] specs[i]) is Ok
}

/// Whether `after` is `before` with one volume added for each of the first
/// `n` specs, as planned, and `steps` holds what is left to do for each.
pub open spec fn volumes_planned(
    specs: Seq<Seq<char>>,
    n: int,
    base: Seq<char>,
    before: BoxOptionsView,
    after: BoxOptionsView,
    steps: Seq<HostPathStep>,
) -> bool {
    &&& after == (BoxOptionsView { volumes: after.volumes, ..before })
    &&& after.volumes.len() == before.volumes.len() + n
    &&& after.volumes.take(before.volumes.len() as int) == before.volumes
    &&& steps.len() == n
    &&& forall|i: int|
        0 <= i < n ==> volume_planned(
            volume_spec_of(specs[i])->Ok_0,
            base,
            #[trigger] after.volumes[before.volumes.len() + i],
            steps[i],
        )
}

/// The directory under which anonymous volumes are placed: the home
/// directory of the command line; else that of the environment; else
/// `.boxlite` in the user's home directory; else the directory for
/// temporary files.
pub open spec fn volume_base_of(
    home: Option<Seq<char>>,
    env_home: Option<Seq<char>>,
    user_home: Option<Seq<char>>,
    temp_dir: Seq<char>,
) -> Seq<char> {
    match home {
        Some(h) => h,
        None => match env_home {
            Some(e) => e,
            None => match user_home {
                Some(u) => join_path(u, ".boxlite"@),
                None => temp_dir,
            },
        },
    }
}

/// The directory under which anonymous volumes are placed.
pub fn anonymous_volume_base(
    home: Option<&str>,
    env_home: Option<&str>,
    user_home: Option<&str>,
    temp_dir: &str,
) -> (r: String)
    ensures
        r@ == volume_base_of(
            home.deep_view(),
            env_home.deep_view(),
            user_home.deep_view(),
            temp_dir@,
        ),
{
    match home {
        Some(h) => h.to_string(),
        None => match env_home {
            Some(e) => e.to_string(),
            None => match user_home {
                Some(u) => join(u, ".boxlite"),
                None => temp_dir.to_string(),
            },
        },
    }
}

/// The host directory of an anonymous volume named `unique`.
pub fn anonymous_volume_dir(base: &str, unique: &str) -> (r: String)
    ensures
        r@ == anonymous_volume_path(base@, unique@),
{
    let volumes = join(base, "volumes");
    let anonymous = join(volumes.as_str(), "anonymous");
    join(anonymous.as_str(), unique)
}

/// Plans one parsed volume: how it is stored, and what is left to do.
pub fn plan_volume(parsed: ParsedVolumeSpec, base: &str) -> (r: (VolumeSpec, HostPathStep))
    ensures
        volume_planned(parsed.deep_view(), base@, r.0.deep_view(), r.1),
{
    match parsed.host_path {
        Some(host) => {
            let h = chars_of(host.as_str());
            let relative = !(h.len() > 0 && h[0] == '/');
            let step = if relative && !is_windows_absolute_chars(&h) {
                HostPathStep::Canonicalize
            } else {
                HostPathStep::Ready
            };
            (
                VolumeSpec {
                    host_path: host,
                    guest_path: parsed.guest_path,
                    read_only: parsed.read_only,
                },
                step,
            )
        },
        None => {
            let unique = generate_box_id();
            let dir = anonymous_volume_dir(base, unique.as_str());
            assert(dir@ == anonymous_volume_path(base@, unique@));
            (
                VolumeSpec {
                    host_path: dir,
                    guest_path: parsed.guest_path,
                    read_only: parsed.read_only,
                },
                HostPathStep::Create,
            )
        },
    }
}

impl VolumeFlags {
    /// Adds the volumes to the options, in order, and returns for each what
    /// is left to do on the host. Anonymous volumes are placed under
    /// `{base}/volumes/anonymous/`. At the first spec that is refused the
    /// function stops with its failure; the volumes before it stay added.
    pub fn apply_to(&self, opts: &mut BoxOptions, base: &str) -> (r: Result<
        Vec<HostPathStep>,
        BoxliteError,
    >)
        ensures
            match r {
                Ok(steps) => {
                    &&& volumes_accepted(self.volume.deep_view(), self.volume.len() as int)
                    &&& volumes_planned(
                        self.volume.deep_view(),
                        self.volume.len() as int,
                        base@,
                        old(opts).deep_view(),
                        final(opts).deep_view(),
                        steps@,
                    )
                },
                Err(e) => exists|k: int, steps: Seq<HostPathStep>|
                    {
                        &&& 0 <= k < self.volume.len()
                        &&& volumes_accepted(self.volume.deep_view(), k)
                        &&& #[trigger] volume_spec_of(self.volume.deep_view()[k]) == Err::<
                            ParsedVolumeView,
                            ErrorView,
                        >(e.deep_view())
                        &&& #[trigger] volumes_planned(
                            self.volume.deep_view(),
                            k,
                            base@,
                            old(opts).deep_view(),
                            final(opts).deep_view(),
                            steps,
                        )
                    },
            },
    {
        let ghost specs = self.volume.deep_view();
        let ghost before = old(opts).deep_view();
        let mut steps: Vec<HostPathStep> = Vec::new();
        let mut i: usize = 0;
        assert(opts.deep_view().volumes.take(before.volumes.len() as int) == before.volumes);
        while i < self.volume.len()
            invariant
                i <= self.volume.len(),
                specs == self.volume.deep_view(),
                before == old(opts).deep_view(),
                volumes_accepted(specs, i as int),
                volumes_planned(specs, i as int, base@, before, opts.deep_view(), steps@),
            decreases self.volume.len() - i,
        {
            let ghost volumes_before = opts.volumes.deep_view();
            let ghost steps_before = steps@;
            assert(specs[i as int] == self.volume@[i as int]@);
            match parse_volume_spec(self.volume[i].as_str()) {
                Err(e) => {
                    assert(volume_spec_of(specs[i as int]) == Err::<ParsedVolumeView, ErrorView>(
                        e.deep_view(),
                    ));
                    return Err(e);
                },
                Ok(parsed) => {
                    let ghost meaning = parsed.deep_view();
                    let (stored, step) = plan_volume(parsed, base);
                    opts.volumes.push(stored);
                    steps.push(step);
                    proof {
                        let after = opts.deep_view();
                        assert(after.volumes =~= volumes_before.push(stored.deep_view()));
                        assert(after.volumes.take(before.volumes.len() as int)
                            =~= volumes_before.take(before.volumes.len() as int));
                        assert forall|j: int| 0 <= j < i + 1 implies volume_planned(
                            volume_spec_of(specs[j])->Ok_0,
                            base@,
                            #[trigger] after.volumes[before.volumes.len() + j],
                            steps@[j],
                        ) by {
                            if j < i {
                                assert(after.volumes[before.volumes.len() + j]
                                    == volumes_before[before.volumes.len() + j]);
                                assert(steps@[j] == steps_before[j]);
                            }
                        }
                    }
                },
            }
            i += 1;
        }
        Ok(steps)
    }
}

// ============================================================================
// Global flags
// ============================================================================

/// Flags that every command takes.
#[derive(Clone, Debug)]
pub struct GlobalFlags {
    /// Print debug output.
    pub debug: bool,
    /// The home directory.
    pub home: Option<String>,
    /// Registries to try first, in order.
    pub registry: Vec<String>,
    /// The path of a configuration file.
    pub config: Option<String>,
}

/// The options of the runtime: those of the configuration, with the home
/// directory of the command line where it names one, and with the
/// registries of the command line before those of the configuration.
pub open spec fn runtime_options_of(
    home: Option<Seq<char>>,
    registry: Seq<Seq<char>>,
    base: BoxliteOptionsView,
) -> BoxliteOptionsView {
    BoxliteOptionsView {
        home_dir: match home {
            Some(h) => h,
            None => base.home_dir,
        },
        image_registries: registry + base.image_registries,
    }
}

impl GlobalFlags {
    /// The options of the runtime, given those of the configuration file,
    /// or the defaults where there is none.
    pub fn runtime_options(&self, base: BoxliteOptions) -> (r: BoxliteOptions)
        ensures
            r.deep_view() == runtime_options_of(
                self.home.deep_view(),
                self.registry.deep_view(),
                base.deep_view(),
            ),
    {
        let home_dir = match &self.home {
            Some(h) => h.clone(),
            None => base.home_dir,
        };
        let mut image_registries = crate::text::clone_strings(&self.registry);
        let ghost first = image_registries.deep_view();
        let mut i: usize = 0;
        assert(image_registries.deep_view() =~= first + base.image_registries.deep_view().take(0));
        while i < base.image_registries.len()
            invariant
                i <= base.image_registries.len(),
                first == self.registry.deep_view(),
                image_registries.deep_view() == first + base.image_registries.deep_view().take(
                    i as int,
                ),
            decreases base.image_registries.len() - i,
        {
            let ghost sofar = image_registries.deep_view();
            image_registries.push(base.image_registries[i].clone());
            assert(image_registries.deep_view() =~= sofar.push(base.image_registries@[i as int]@));
            assert(base.image_registries.deep_view().take(i + 1)
                =~= base.image_registries.deep_view().take(i as int).push(
                base.image_registries@[i as int]@,
            ));
            i += 1;
        }
        assert(base.image_registries.deep_view().take(base.image_registries.len() as int)
            == base.image_registries.deep_view());
        BoxliteOptions { home_dir, image_registries }
    }

    /// A runtime without boxes, under the home directory that the flags
    /// and the configuration give.
    pub fn create_runtime(&self, base: BoxliteOptions) -> (r: crate::runtime::BoxliteRuntime)
        ensures
            crate::runtime::runtime_wf(r.deep_view()),
            r.deep_view().home == runtime_options_of(
                self.home.deep_view(),
                self.registry.deep_view(),
                base.deep_view(),
            ).home_dir,
            r.deep_view().registries == runtime_options_of(
                self.home.deep_view(),
                self.registry.deep_view(),
                base.deep_view(),
            ).image_registries,
            r.deep_view().rows.len() == 0,
            !r.deep_view().shut_down,
    {
        crate::runtime::BoxliteRuntime::new(self.runtime_options(base))
    }
}

// ============================================================================
// Create
// ============================================================================

/// `create IMAGE`
#[derive(Clone, Debug)]
pub struct CreateArgs {
    pub image: String,
    pub management: ManagementFlags,
    /// `-e KEY=VAL` or `-e KEY`.
    pub env: Vec<String>,
    pub workdir: Option<String>,
    pub resource: ResourceFlags,
    pub publish: PublishFlags,
    pub volume: VolumeFlags,
}

/// What is left to do on the host once the options of a new box are
/// known.
#[derive(Clone, Debug)]
pub struct CreateFollowUp {
    /// For each volume, what is left to do for its host path.
    pub volume_steps: Vec<HostPathStep>,
    /// The publish specs that asked for UDP and are forwarded as TCP.
    pub downgraded_ports: Vec<String>,
    /// The bare `-e` names for which the host has no value.
    pub skipped_env: Vec<String>,
}

/// The options of a box to create, before ports and volumes are added.
pub open spec fn create_base_options(args: CreateArgs) -> BoxOptionsView {
    let d = crate::options::default_box_options();
    BoxOptionsView {
        cpus: match args.resource.cpus {
            Some(c) => Some(
                if c > 255 {
                    255u8
                } else {
                    c as u8
                },
            ),
            None => d.cpus,
        },
        memory_mib: match args.resource.memory {
            Some(m) => Some(m),
            None => d.memory_mib,
        },
        detach: args.management.detach,
        auto_remove: args.management.rm,
        ..d
    }
}

/// Whether `options` and `follow_up` are what the arguments of `create`
/// stand for: the defaults with the resources and management flags, the
/// published ports stored as TCP, the volumes as planned under `base`,
/// the working directory, the environment and the image.
pub open spec fn create_options_are(
    args: CreateArgs,
    base: Seq<char>,
    host_values: Seq<Option<Seq<char>>>,
    options: BoxOptionsView,
    volume_steps: Seq<HostPathStep>,
) -> bool {
    let with_ports = BoxOptionsView {
        ports: ports_stored(args.publish.publish.deep_view(), args.publish.publish.len() as int),
        ..create_base_options(args)
    };
    let with_volumes = BoxOptionsView { volumes: options.volumes, ..with_ports };
    &&& volumes_planned(
        args.volume.volume.deep_view(),
        args.volume.volume.len() as int,
        base,
        with_ports,
        with_volumes,
        volume_steps,
    )
    &&& options == (BoxOptionsView {
        working_dir: args.workdir.deep_view(),
        env: env_entries(args.env.deep_view(), host_values),
        rootfs: crate::options::RootfsSpecView::Image(args.image@),
        ..with_volumes
    })
}

/// The failure of the first spec that is refused: a publish spec if one is
/// refused, otherwise a volume spec.
pub open spec fn create_failure_is(args: CreateArgs, e: ErrorView) -> bool {
    let publish = args.publish.publish.deep_view();
    let volume = args.volume.volume.deep_view();
    ||| exists|k: int|
        {
            &&& 0 <= k < publish.len()
            &&& publish_accepted(publish, k)
            &&& #[trigger] publish_spec_of(publish[k]) == Err::<PortSpecView, ErrorView>(e)
        }
    ||| publish_accepted(publish, publish.len() as int) && exists|k: int|
        {
            &&& 0 <= k < volume.len()
            &&& volumes_accepted(volume, k)
            &&& #[trigger] volume_spec_of(volume[k]) == Err::<ParsedVolumeView, ErrorView>(e)
        }
}

impl CreateArgs {
    /// The options of the box to create and what is left to do on the
    /// host, given the directory under which anonymous volumes are placed
    /// and the host's value for each `-e` item.
    pub fn to_box_options(&self, base: &str, host_values: &Vec<Option<String>>) -> (r: Result<
        (BoxOptions, CreateFollowUp),
        BoxliteError,
    >)
        requires
            self.env.len() == host_values.len(),
        ensures
            match r {
                Ok((options, follow_up)) => {
                    &&& publish_accepted(
                        self.publish.publish.deep_view(),
                        self.publish.publish.len() as int,
                    )
                    &&& volumes_accepted(
                        self.volume.volume.deep_view(),
                        self.volume.volume.len() as int,
                    )
                    &&& create_options_are(
                        *self,
                        base@,
                        host_values.deep_view(),
                        options.deep_view(),
                        follow_up.volume_steps@,
                    )
                    &&& follow_up.downgraded_ports.deep_view() == udp_specs(
                        self.publish.publish.deep_view(),
                    )
                    &&& follow_up.skipped_env.deep_view() == env_skipped(
                        self.env.deep_view(),
                        host_values.deep_view(),
                    )
                },
                Err(e) => create_failure_is(*self, e.deep_view()),
            },
    {
        let mut options = BoxOptions::default();
        self.resource.apply_to(&mut options);
        self.management.apply_to(&mut options);
        assert(options.deep_view() == create_base_options(*self));
        let downgraded_ports = match self.publish.apply_to(&mut options) {
            Ok(d) => d,
            Err(e) => {
                return Err(e);
            },
        };
        let ghost with_ports = options.deep_view();
        assert(with_ports.ports =~= ports_stored(
            self.publish.publish.deep_view(),
            self.publish.publish.len() as int,
        ));
        let volume_steps = match self.volume.apply_to(&mut options, base) {
            Ok(s) => s,
            Err(e) => {
                return Err(e);
            },
        };
        let ghost with_volumes = options.deep_view();
        options.working_dir = clone_option(&self.workdir);
        let skipped_env = apply_env_vars_resolved(&self.env, &mut options, host_values);
        options.rootfs = crate::options::RootfsSpec::Image(self.image.clone());
        proof {
            assert(with_volumes == (BoxOptionsView { volumes: with_volumes.volumes, ..with_ports }));
            assert(options.deep_view().env =~= env_entries(
                self.env.deep_view(),
                host_values.deep_view(),
            ));
            assert(options.deep_view().volumes == with_volumes.volumes);
        }
        Ok((options, CreateFollowUp { volume_steps, downgraded_ports, skipped_env }))
    }
}

// ============================================================================
// Lists
// ============================================================================

/// `list`
#[derive(Clone, Debug)]
pub struct ListArgs {
    /// Show every box, not only those that run.
    pub all: bool,
    /// Print identifiers only.
    pub quiet: bool,
    /// `table`, `json` or `yaml`.
    pub format: String,
}

/// `images`
#[derive(Clone, Debug)]
pub struct ImagesArgs {
    /// Show every image.
    pub all: bool,
    /// Print identifiers only.
    pub quiet: bool,
    /// `table`, `json` or `yaml`.
    pub format: String,
}

/// The boxes that `list` shows: all of them where asked, otherwise those
/// that are active.
pub open spec fn listed(all: bool, boxes: Seq<crate::info::BoxInfoView>) -> Seq<
    crate::info::BoxInfoView,
>
    decreases boxes.len(),
{
    if boxes.len() == 0 {
        Seq::empty()
    } else if all || boxes.last().status == crate::state::BoxStatus::Running {
        listed(all, boxes.drop_last()).push(boxes.last())
    } else {
        listed(all, boxes.drop_last())
    }
}

impl ListArgs {
    /// The boxes to show, in the order given.
    pub fn select(&self, boxes: Vec<crate::info::BoxInfo>) -> (r: Vec<crate::info::BoxInfo>)
        ensures
            r.deep_view() == listed(self.all, boxes.deep_view()),
    {
        let mut kept: Vec<crate::info::BoxInfo> = Vec::new();
        let ghost all_boxes = boxes.deep_view();
        let mut rest = boxes;
        let mut taken: Vec<crate::info::BoxInfo> = Vec::new();
        // Boxes are moved out from the end, so they are collected in
        // reverse and put back in order afterwards.
        while rest.len() > 0
            invariant
                rest.deep_view() == all_boxes.take(rest.len() as int),
                rest.len() <= all_boxes.len(),
                taken.len() + rest.len() == all_boxes.len(),
                forall|j: int|
                    0 <= j < taken.len() ==> (#[trigger] taken@[j]).deep_view()
                        == all_boxes[all_boxes.len() - 1 - j],
            decreases rest.len(),
        {
            let ghost before = rest.deep_view();
            let n = rest.len();
            let b = rest.pop().unwrap();
            assert(b.deep_view() == before[n - 1]);
            assert(rest.deep_view() =~= all_boxes.take(n - 1));
            taken.push(b);
        }
        let total = taken.len();
        assert(all_boxes.take(0) =~= Seq::empty());
        assert(kept.deep_view() =~= listed(self.all, all_boxes.take(0)));
        while taken.len() > 0
            invariant
                total == all_boxes.len(),
                taken.len() <= total,
                forall|j: int|
                    0 <= j < taken.len() ==> (#[trigger] taken@[j]).deep_view()
                        == all_boxes[all_boxes.len() - 1 - j],
                kept.deep_view() == listed(self.all, all_boxes.take(total - taken.len())),
            decreases taken.len(),
        {
            let ghost sofar = kept.deep_view();
            let m = taken.len();
            let ghost i = total - m;
            let b = taken.pop().unwrap();
            proof {
                assert(b.deep_view() == all_boxes[i as int]);
                assert(all_boxes.take(i + 1).drop_last() == all_boxes.take(i as int));
                assert(all_boxes.take(i + 1).last() == all_boxes[i as int]);
            }
            if self.all || b.status.is_active() {
                kept.push(b);
                assert(kept.deep_view() =~= sofar.push(all_boxes[i as int]));
            }
        }
        assert(all_boxes.take(total as int) == all_boxes);
        kept
    }
}

// ============================================================================
// The command line as a whole
// ============================================================================

/// A shell for which a completion script can be written.
#[derive(Clone, Copy, Debug, PartialEq, Eq, Structural)]
pub enum Shell {
    Bash,
    Zsh,
    Fish,
}

impl Shell {
    /// The name of the shell, in lowercase.
    pub fn name(&self) -> (r: &'static str)
        ensures
            r@ == match *self {
                Shell::Bash => "bash"@,
                Shell::Zsh => "zsh"@,
                Shell::Fish => "fish"@,
            },
    {
        match self {
            Shell::Bash => "bash",
            Shell::Zsh => "zsh",
            Shell::Fish => "fish",
        }
    }
}

/// `completion SHELL`
#[derive(Clone, Copy, Debug)]
pub struct CompletionArgs {
    pub shell: Shell,
}

/// The commands of the command line that are decided here.
#[derive(Clone, Debug)]
pub enum Commands {
    /// Create a box and run a command in it.
    Run(crate::run::RunArgs),
    /// Create a box.
    Create(CreateArgs),
    /// List boxes.
    List(ListArgs),
    /// List images.
    Images(ImagesArgs),
    /// Write a completion script.
    Completion(CompletionArgs),
}

/// The command line: global flags and a command.
#[derive(Clone, Debug)]
pub struct Cli {
    pub global: GlobalFlags,
    pub command: Commands,
}

} // verus!
