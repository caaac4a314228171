//! Host-specific values made uniform: file times in local seconds since the
//! Unix epoch, the read-only flag, canonical path text and the config folder.

use vstd::prelude::*;
use vstd::string::StringExecFns;
use crate::item::{Item, ItemType, MetaInfo};
use crate::text::chars_of;
use crate::clock::local_time;

verus! {

/// Windows file times count 100-nanosecond ticks.
pub const TICKS_PER_SEC: u64 = 10_000_000;
/// Seconds from 1601-01-01 to 1970-01-01.
pub const EPOCH_DELTA_1601: u64 = 11_644_473_600;
/// The owner-write bit of a Unix mode.
pub const OWNER_WRITE: u32 = 0o200;

/// File metadata as the host reports it.
pub enum RawMeta {
    /// Times in seconds since the Unix epoch, and the permission bits.
    Unix { created: i64, accessed: i64, written: i64, size: u64, mode: u32 },
    /// Times in 100-nanosecond ticks since 1601-01-01, and the read-only attribute.
    Windows { created: u64, accessed: u64, written: u64, size: u64, readonly: bool },
}

/// `v` held within the range of `u64`.
pub open spec fn clamp_u64(v: int) -> u64 {
    if v < 0 {
        0
    } else if v > u64::MAX {
        u64::MAX
    } else {
        v as u64
    }
}

/// Local seconds since the Unix epoch from Windows ticks: whole seconds
/// first, then the epoch shift, then the local offset.
pub open spec fn secs_from_ticks(ticks: u64, tz: int) -> u64 {
    clamp_u64(ticks as int / TICKS_PER_SEC as int - EPOCH_DELTA_1601 as int + tz)
}

/// Local seconds since the Unix epoch from Unix seconds.
pub open spec fn secs_from_unix(secs: i64, tz: int) -> u64 {
    clamp_u64(secs + tz)
}

/// The normalised form of host metadata, with `tz` the local offset from UTC.
pub open spec fn meta_of(raw: RawMeta, tz: int) -> MetaInfo {
    match raw {
        RawMeta::Unix { created, accessed, written, size, mode } => MetaInfo {
            created: secs_from_unix(created, tz),
            last_accessed: secs_from_unix(accessed, tz),
            last_written: secs_from_unix(written, tz),
            size,
            readonly: mode & OWNER_WRITE == 0,
        },
        RawMeta::Windows { created, accessed, written, size, readonly } => MetaInfo {
            created: secs_from_ticks(created, tz),
            last_accessed: secs_from_ticks(accessed, tz),
            last_written: secs_from_ticks(written, tz),
            size,
            readonly,
        },
    }
}

fn clamp_i128(v: i128) -> (r: u64)
    ensures
        r == clamp_u64(v as int),
{
    if v < 0 {
        0
    } else if v > u64::MAX as i128 {
        u64::MAX
    } else {
        v as u64
    }
}

/// Converts Windows ticks to local seconds since the Unix epoch.
pub fn ticks_to_secs(ticks: u64, tz: i32) -> (r: u64)
    ensures
        r == secs_from_ticks(ticks, tz as int),
{
    clamp_i128((ticks / TICKS_PER_SEC) as i128 - EPOCH_DELTA_1601 as i128 + tz as i128)
}

/// Converts Unix seconds to local seconds since the Unix epoch.
pub fn unix_to_secs(secs: i64, tz: i32) -> (r: u64)
    ensures
        r == secs_from_unix(secs, tz as int),
{
    clamp_i128(secs as i128 + tz as i128)
}

/// Normalises host metadata; `tz` is the local offset from UTC in seconds.
pub fn get_meta_info(raw: &RawMeta, tz: i32) -> (r: MetaInfo)
    ensures
        r == meta_of(*raw, tz as int),
{
    match raw {
        RawMeta::Unix { created, accessed, written, size, mode } => MetaInfo {
            created: unix_to_secs(*created, tz),
            last_accessed: unix_to_secs(*accessed, tz),
            last_written: unix_to_secs(*written, tz),
            size: *size,
            readonly: *mode & OWNER_WRITE == 0,
        },
        RawMeta::Windows { created, accessed, written, size, readonly } => MetaInfo {
            created: ticks_to_secs(*created, tz),
            last_accessed: ticks_to_secs(*accessed, tz),
            last_written: ticks_to_secs(*written, tz),
            size: *size,
            readonly: *readonly,
        },
    }
}

/// Normalisation keeps the order of times: a file created before it was
/// written is shown so, in either host encoding.
pub proof fn lemma_normalize_monotone(a: u64, b: u64, x: i64, y: i64, tz: int)
    ensures
        a <= b ==> secs_from_ticks(a, tz) <= secs_from_ticks(b, tz),
        x <= y ==> secs_from_unix(x, tz) <= secs_from_unix(y, tz),
{
    if a <= b {
        assert(a as int / TICKS_PER_SEC as int <= b as int / TICKS_PER_SEC as int) by (nonlinear_arith)
            requires a <= b;
    }
}

/// A Unix file time no later than the clock is shown no later than the
/// clock's local time, and one in range is shown exactly shifted by the
/// offset, so a fresh file's times sit at the wall-clock time it was made.
pub proof fn lemma_file_time_before_now(x: i64, utc: u64, tz: int)
    ensures
        x <= utc && local_time(utc as int, tz) is Some ==> secs_from_unix(x, tz)
            <= local_time(utc as int, tz)->0,
        0 <= x + tz <= u64::MAX ==> secs_from_unix(x, tz) == x + tz,
{
}

/// The kind of a directory child as the filesystem reports it.
pub enum FileKind {
    File,
    Dir,
    /// A symbolic link and the text of its target.
    Symlink(String),
    /// Anything else: a socket, a pipe, a device.
    Other,
}

/// The entry for a child called `name`; none for kinds that are not listed.
pub fn make_item(name: String, kind: FileKind, meta: MetaInfo) -> (r: Option<Item>)
    ensures
        r is None <==> kind is Other,
        r matches Some(it) ==> {
            &&& it.name == name
            &&& it.readonly == meta.readonly
            &&& it.created == meta.created
            &&& it.last_accessed == meta.last_accessed
            &&& it.last_written == meta.last_written
            &&& match kind {
                FileKind::File => it.ty == ItemType::File(meta.size),
                FileKind::Dir => it.ty is Dir,
                FileKind::Symlink(t) => it.ty == ItemType::Link(t),
                FileKind::Other => false,
            }
        },
{
    let ty = match kind {
        FileKind::File => ItemType::File(meta.size),
        FileKind::Dir => ItemType::Dir,
        FileKind::Symlink(t) => ItemType::Link(t),
        FileKind::Other => {
            return None;
        },
    };
    Some(
        Item {
            ty,
            name,
            readonly: meta.readonly,
            created: meta.created,
            last_accessed: meta.last_accessed,
            last_written: meta.last_written,
        },
    )
}

/// The prefix that marks a verbatim Windows path.
pub open spec fn verbatim_prefix() -> Seq<char> {
    seq!['\\', '\\', '?', '\\']
}

pub open spec fn has_verbatim_prefix(p: Seq<char>) -> bool {
    p.len() >= 4 && p.take(4) == verbatim_prefix()
}

/// `p` without a verbatim prefix.
pub open spec fn without_verbatim(p: Seq<char>) -> Seq<char> {
    if has_verbatim_prefix(p) { p.skip(4) } else { p }
}

/// Backslashes turned into forward slashes.
pub open spec fn forward_slashes(p: Seq<char>) -> Seq<char> {
    p.map_values(|c: char| if c == '\\' { '/' } else { c })
}

/// The path as shown to the user: a verbatim Windows path loses its prefix
/// and uses forward slashes; any other path is kept.
pub open spec fn canonical_text(p: Seq<char>) -> Seq<char> {
    if has_verbatim_prefix(p) {
        forward_slashes(p.skip(4))
    } else {
        p
    }
}

fn starts_verbatim(v: &Vec<char>) -> (r: bool)
    ensures
        r == has_verbatim_prefix(v@),
{
    let r = v.len() >= 4 && v[0] == '\\' && v[1] == '\\' && v[2] == '?' && v[3] == '\\';
    if v.len() >= 4 {
        assert(r ==> v@.take(4) =~= verbatim_prefix());
        assert(v@.take(4) == verbatim_prefix() ==> v@.take(4)[2] == '?');
    }
    r
}

/// The characters of `v` from `from` on, with backslashes turned into
/// forward slashes when `slash` is set.
fn text_from(v: &Vec<char>, from: usize, slash: bool) -> (r: String)
    requires
        from <= v.len(),
    ensures
        slash ==> r@ == forward_slashes(v@.skip(from as int)),
        !slash ==> r@ == v@.skip(from as int),
{
    let mut r = String::new();
    let mut i: usize = from;
    while i < v.len()
        invariant
            from <= i <= v.len(),
            slash ==> r@ == forward_slashes(v@.subrange(from as int, i as int)),
            !slash ==> r@ == v@.subrange(from as int, i as int),
        decreases v.len() - i,
    {
        let c = v[i];
        if slash && c == '\\' {
            r.push('/');
        } else {
            r.push(c);
        }
        i = i + 1;
        assert(slash ==> r@ =~= forward_slashes(v@.subrange(from as int, i as int)));
        assert(!slash ==> r@ =~= v@.subrange(from as int, i as int));
    }
    assert(v@.subrange(from as int, v.len() as int) =~= v@.skip(from as int));
    r
}

/// The path as shown in the header: a verbatim Windows path loses its
/// prefix and uses forward slashes; any other path is kept.
pub fn fmt_canonical_path(path: &str) -> (r: String)
    ensures
        r@ == canonical_text(path@),
{
    let v = chars_of(path);
    if starts_verbatim(&v) {
        text_from(&v, 4, true)
    } else {
        String::from_str(path)
    }
}

/// The path as saved for the launcher: without a verbatim prefix.
pub fn fmt_path_save(path: &str) -> (r: String)
    ensures
        r@ == without_verbatim(path@),
{
    let v = chars_of(path);
    if starts_verbatim(&v) {
        text_from(&v, 4, false)
    } else {
        String::from_str(path)
    }
}

/// The configuration folder: `cc` under the application-data folder where
/// the host has one, else `/etc/cc`.
pub fn config_dir(appdata: Option<String>) -> (r: String)
    ensures
        match appdata {
            Some(d) => r@ == d@ + "/cc"@,
            None => r@ == "/etc/cc"@,
        },
{
    match appdata {
        Some(d) => d.concat("/cc"),
        None => String::from_str("/etc/cc"),
    }
}

} // verus!
