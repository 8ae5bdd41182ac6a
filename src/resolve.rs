//! Mapping a drive letter to the physical drive that holds it.
//!
//! The mapping comes as text, one line per physical disk: the drive letters
//! mounted from that disk's partitions, then `", "`, then the disk's number.
use vstd::prelude::*;
use crate::device::UsbBlockDevice;
use crate::error::RunError;
use crate::text::push_char;

verus! {

/// Where the line that holds position `p` of `t` ends: the next `'\n'`, or the
/// end of `t`.
pub open spec fn line_end(t: Seq<char>, p: int) -> int
    decreases t.len() - p,
{
    if p < 0 || p >= t.len() || t[p] == '\n' {
        p
    } else {
        line_end(t, p + 1)
    }
}

/// Does a line of `t` start at `p`?
pub open spec fn is_line_start(t: Seq<char>, p: int) -> bool {
    0 <= p < t.len() && (p == 0 || t[p - 1] == '\n')
}

/// The line that starts at `p`, without its line ending (`"\n"` or `"\r\n"`),
/// as `str::lines` gives it.
pub open spec fn line_at(t: Seq<char>, p: int) -> Seq<char> {
    let e = line_end(t, p);
    if e < t.len() && e > p && t[e - 1] == '\r' {
        t.subrange(p, e - 1)
    } else {
        t.subrange(p, e)
    }
}

/// The first line of `t` at or after `p` whose first character is `c`.
pub open spec fn find_line(t: Seq<char>, p: int, c: char) -> Option<Seq<char>>
    decreases t.len() - p,
{
    if p < 0 || p >= t.len() {
        None
    } else if is_line_start(t, p) && line_at(t, p).len() > 0 && line_at(t, p)[0] == c {
        Some(line_at(t, p))
    } else {
        find_line(t, p + 1, c)
    }
}

/// What follows the last `", "` of `l`; all of `l` when it holds none.
pub open spec fn last_field(l: Seq<char>) -> Seq<char>
    decreases l.len(),
{
    if l.len() < 2 {
        l
    } else if l[l.len() - 2] == ',' && l[l.len() - 1] == ' ' {
        Seq::empty()
    } else {
        last_field(l.drop_last()).push(l.last())
    }
}

/// The prefix of a physical drive's path: `\\.\PhysicalDrive`.
pub open spec fn drive_prefix() -> Seq<char> {
    seq!['\\', '\\', '.', '\\', 'P', 'h', 'y', 's', 'i', 'c', 'a', 'l', 'D', 'r', 'i', 'v', 'e']
}

/// The raw address of the physical drive that holds the volume mounted at
/// `mount`, by the mapping text `t`: `None` when `mount` is empty or no line of
/// `t` starts with its first character.
pub open spec fn physical_drive_for(t: Seq<char>, mount: Seq<char>) -> Option<Seq<char>> {
    if mount.len() == 0 {
        None
    } else {
        match find_line(t, 0, mount[0]) {
            Some(l) => Some(drive_prefix() + last_field(l)),
            None => None,
        }
    }
}

/// The end of the line that holds position `p`.
fn line_end_at(t: &str, p: usize) -> (e: usize)
    requires
        p <= t@.len(),
    ensures
        e as int == line_end(t@, p as int),
        p <= e <= t@.len(),
{
    let n = t.unicode_len();
    let mut q: usize = p;
    while q < n && t.get_char(q) != '\n'
        invariant
            n == t@.len(),
            p <= q <= n,
            line_end(t@, p as int) == line_end(t@, q as int),
        decreases n - q,
    {
        q = q + 1;
    }
    q
}

/// Bounds in `t` of the first line whose first character is `c`.
fn find_line_bounds(t: &str, c: char) -> (r: Option<(usize, usize)>)
    ensures
        match r {
            Some((a, b)) => a <= b <= t@.len() && find_line(t@, 0, c) == Some(
                t@.subrange(a as int, b as int),
            ),
            None => find_line(t@, 0, c) is None,
        },
{
    let n = t.unicode_len();
    let mut p: usize = 0;
    while p < n
        invariant
            n == t@.len(),
            p <= n,
            find_line(t@, 0, c) == find_line(t@, p as int, c),
        decreases n - p,
    {
        if p == 0 || t.get_char(p - 1) == '\n' {
            let e = line_end_at(t, p);
            let stop = if e < n && e > p && t.get_char(e - 1) == '\r' {
                e - 1
            } else {
                e
            };
            assert(line_at(t@, p as int) == t@.subrange(p as int, stop as int));
            if stop > p && t.get_char(p) == c {
                return Some((p, stop));
            }
        }
        p = p + 1;
    }
    None
}

/// The position in `l` where its last field starts.
fn last_field_start(l: &str) -> (k: usize)
    ensures
        k <= l@.len(),
        last_field(l@) == l@.subrange(k as int, l@.len() as int),
{
    let n = l.unicode_len();
    let mut k: usize = n;
    assert(l@.subrange(0, n as int) =~= l@);
    assert(l@.subrange(n as int, n as int) =~= Seq::<char>::empty());
    while k >= 2 && !(l.get_char(k - 2) == ',' && l.get_char(k - 1) == ' ')
        invariant
            n == l@.len(),
            k <= n,
            last_field(l@) == last_field(l@.subrange(0, k as int)) + l@.subrange(k as int, n as int),
        decreases k,
    {
        let ghost pre = l@.subrange(0, k as int);
        assert(pre.drop_last() =~= l@.subrange(0, k - 1));
        assert(l@.subrange(k - 1, n as int) =~= seq![pre.last()] + l@.subrange(k as int, n as int));
        assert(last_field(pre) == last_field(pre.drop_last()).push(pre.last()));
        assert(last_field(pre.drop_last()).push(pre.last()) + l@.subrange(k as int, n as int)
            =~= last_field(pre.drop_last()) + l@.subrange(k - 1, n as int));
        k = k - 1;
    }
    let ghost pre = l@.subrange(0, k as int);
    if k < 2 {
        assert(last_field(pre) == pre);
        assert(pre + l@.subrange(k as int, n as int) =~= l@);
        0
    } else {
        assert(last_field(pre) =~= Seq::<char>::empty());
        assert(Seq::<char>::empty() + l@.subrange(k as int, n as int) =~= l@.subrange(k as int, n as int));
        k
    }
}

/// The raw address of the physical drive that holds the volume mounted at
/// `mount_point`, found in `mapping`; `AddressResolutionFailure` when none is.
pub fn determine_windows_phydrive(mapping: &str, mount_point: &str) -> (r: Result<String, RunError>)
    ensures
        match physical_drive_for(mapping@, mount_point@) {
            Some(p) => r matches Ok(s) && s@ == p,
            None => r == Err::<String, RunError>(RunError::AddressResolutionFailure),
        },
{
    if mount_point.unicode_len() == 0 {
        return Err(RunError::AddressResolutionFailure);
    }
    let letter = mount_point.get_char(0);
    match find_line_bounds(mapping, letter) {
        None => Err(RunError::AddressResolutionFailure),
        Some((a, b)) => {
            let line = mapping.substring_char(a, b);
            let k = last_field_start(line);
            let n = line.unicode_len();
            let mut s = String::new();
            let prefix = ['\\', '\\', '.', '\\', 'P', 'h', 'y', 's', 'i', 'c', 'a', 'l', 'D', 'r', 'i', 'v', 'e'];
            let mut i: usize = 0;
            while i < prefix.len()
                invariant
                    i <= prefix@.len(),
                    prefix@ == drive_prefix(),
                    s@ == prefix@.subrange(0, i as int),
                decreases prefix.len() - i,
            {
                assert(prefix@.subrange(0, i + 1) =~= prefix@.subrange(0, i as int).push(prefix@[i as int]));
                push_char(&mut s, prefix[i]);
                i = i + 1;
            }
            assert(prefix@.subrange(0, i as int) =~= drive_prefix());
            let mut j: usize = k;
            while j < n
                invariant
                    k <= j <= n,
                    n == line@.len(),
                    s@ == drive_prefix() + line@.subrange(k as int, j as int),
                decreases n - j,
            {
                assert(line@.subrange(k as int, j + 1) =~= line@.subrange(k as int, j as int).push(line@[j as int]));
                push_char(&mut s, line.get_char(j));
                j = j + 1;
            }
            Ok(s)
        },
    }
}

impl UsbBlockDevice {
    /// This record with its raw address replaced by the physical drive that
    /// `mapping` gives for its label's drive letter; the label is kept.
    pub fn resolved(&self, mapping: &str) -> (r: Result<UsbBlockDevice, RunError>)
        ensures
            match physical_drive_for(mapping@, self.display_label@) {
                Some(p) => r matches Ok(d) && d.raw_address@ == p && d.display_label
                    == self.display_label && d.description == self.description && d.size_bytes
                    == self.size_bytes,
                None => r == Err::<UsbBlockDevice, RunError>(RunError::AddressResolutionFailure),
            },
    {
        match determine_windows_phydrive(mapping, self.display_label.as_str()) {
            Ok(p) => Ok(
                UsbBlockDevice {
                    display_label: self.display_label.clone(),
                    raw_address: p,
                    description: self.description.clone(),
                    size_bytes: self.size_bytes,
                },
            ),
            Err(e) => Err(e),
        }
    }
}

} // verus!
