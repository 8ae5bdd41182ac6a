//! Device records: what the disk enumeration reports, which of it is kept, and
//! how a record is shown to the operator.
use vstd::prelude::*;
use crate::text::{decimal, push_char, push_decimal};

verus! {

/// One disk as the operating system's enumeration reports it.
#[derive(Clone, Debug)]
pub struct RawEntry {
    pub removable: bool,
    pub name: String,
    pub mount_point: String,
    pub total_space: u64,
}

/// A removable disk that can be offered for writing.
///
/// `raw_address` is what the writer opens; `display_label` is what the operator
/// is shown. Both start out as the mount point; on drive-letter platforms the
/// raw address is replaced by the physical drive's path before dispatch.
#[derive(Clone, Debug)]
pub struct UsbBlockDevice {
    pub display_label: String,
    pub raw_address: String,
    pub description: String,
    pub size_bytes: u64,
}

/// The record made from a kept entry.
pub open spec fn record_of(e: RawEntry) -> UsbBlockDevice {
    UsbBlockDevice {
        display_label: e.mount_point,
        raw_address: e.mount_point,
        description: e.name,
        size_bytes: e.total_space,
    }
}

/// The records of the removable entries of `es`, in their order.
pub open spec fn removable_records(es: Seq<RawEntry>) -> Seq<UsbBlockDevice>
    decreases es.len(),
{
    if es.len() == 0 {
        Seq::empty()
    } else if es.last().removable {
        removable_records(es.drop_last()).push(record_of(es.last()))
    } else {
        removable_records(es.drop_last())
    }
}

/// A record is made of an entry if and only if the entry is removable: the
/// records are exactly the removable entries, in their order, each made into a
/// record.
pub proof fn lemma_records_are_removable_entries(es: Seq<RawEntry>)
    ensures
        removable_records(es) == es.filter(|e: RawEntry| e.removable).map_values(
            |e: RawEntry| record_of(e),
        ),
    decreases es.len(),
{
    let keep = |e: RawEntry| e.removable;
    let make = |e: RawEntry| record_of(e);
    reveal(Seq::filter);
    if es.len() > 0 {
        lemma_records_are_removable_entries(es.drop_last());
        let sub = es.drop_last().filter(keep);
        assert(es.filter(keep) == if keep(es.last()) {
            sub.push(es.last())
        } else {
            sub
        });
        if keep(es.last()) {
            assert(sub.push(es.last()).map_values(make) =~= sub.map_values(make).push(
                record_of(es.last()),
            ));
        }
    } else {
        assert(es.filter(keep).map_values(make) =~= Seq::<UsbBlockDevice>::empty());
    }
}

pub const MEGA: u64 = 1_000_000;

pub const GIGA: u64 = 1_000_000_000;

/// A size in bytes as shown: whole decimal megabytes below one gigabyte, whole
/// decimal gigabytes from there on, truncated.
pub open spec fn size_text(n: nat) -> Seq<char> {
    if n < GIGA {
        decimal(n / (MEGA as nat)) + seq![' ', 'M', 'B']
    } else {
        decimal(n / (GIGA as nat)) + seq![' ', 'G', 'B']
    }
}

/// The line that presents a record: `[label] description size`.
pub open spec fn summary_text(d: UsbBlockDevice) -> Seq<char> {
    seq!['['] + d.display_label@ + seq![']', ' '] + d.description@ + seq![' '] + size_text(
        d.size_bytes as nat,
    )
}

impl UsbBlockDevice {
    /// The record made from one entry of the enumeration.
    pub fn from_entry(e: &RawEntry) -> (r: UsbBlockDevice)
        ensures
            r == record_of(*e),
    {
        UsbBlockDevice {
            display_label: e.mount_point.clone(),
            raw_address: e.mount_point.clone(),
            description: e.name.clone(),
            size_bytes: e.total_space,
        }
    }

    /// Keeps the removable entries, in order, as records; drops all others.
    pub fn get_all(entries: &Vec<RawEntry>) -> (r: Vec<UsbBlockDevice>)
        ensures
            r@ == removable_records(entries@),
    {
        let mut r: Vec<UsbBlockDevice> = Vec::new();
        let mut i: usize = 0;
        while i < entries.len()
            invariant
                i <= entries@.len(),
                r@ == removable_records(entries@.subrange(0, i as int)),
            decreases entries.len() - i,
        {
            assert(entries@.subrange(0, i + 1).drop_last() =~= entries@.subrange(0, i as int));
            if entries[i].removable {
                r.push(UsbBlockDevice::from_entry(&entries[i]));
            }
            i = i + 1;
        }
        assert(entries@.subrange(0, i as int) =~= entries@);
        r
    }

    /// The size as shown to the operator, e.g. `999 MB` or `2 GB`.
    pub fn size_display(&self) -> (r: String)
        ensures
            r@ == size_text(self.size_bytes as nat),
    {
        let mut s = String::new();
        let size = self.size_bytes;
        if size < GIGA {
            push_decimal(&mut s, size / MEGA);
            push_char(&mut s, ' ');
            push_char(&mut s, 'M');
        } else {
            push_decimal(&mut s, size / GIGA);
            push_char(&mut s, ' ');
            push_char(&mut s, 'G');
        }
        push_char(&mut s, 'B');
        assert(s@ =~= size_text(size as nat));
        s
    }

    /// The line that presents this record to the operator.
    pub fn summary(&self) -> (r: String)
        ensures
            r@ == summary_text(*self),
    {
        let mut s = String::new();
        push_char(&mut s, '[');
        s.append(self.display_label.as_str());
        push_char(&mut s, ']');
        push_char(&mut s, ' ');
        s.append(self.description.as_str());
        push_char(&mut s, ' ');
        let size = self.size_display();
        s.append(size.as_str());
        assert(s@ =~= summary_text(*self));
        s
    }
}

} // verus!
