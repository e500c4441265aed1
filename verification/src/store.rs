//! Persistent stats store.
//!
//! The store keeps two collections — the stats log and the activities
//! collection — both always present once initialized. It is persisted as
//! one blob (see `codec`): initialization decodes a whole blob or seeds
//! an empty store when none can be read, and every flush re-encodes the
//! whole store. Reading and writing the backing file is the caller's
//! business; the store only exchanges byte buffers.

use vstd::prelude::*;

use crate::codec::dec_store;
use crate::codec::decode_store;
use crate::codec::enc_store;
use crate::codec::encode_store;
use crate::stats::Activity;
use crate::stats::Stat;

verus! {

/// The two fixed keys of the store's schema.
#[derive(Clone, Copy, PartialEq, Eq, Structural, Debug, Hash)]
pub enum StorageDataType {
    Stats,
    Activities,
}

/// A value held under one of the two keys.
#[derive(Debug)]
pub enum StorageDataValue {
    Stats(Vec<Stat>),
    Activites(Vec<Activity>),
}

/// The in-memory shape of the persisted file: both keys are always
/// present, each with its collection.
#[derive(Debug)]
pub struct StorageData {
    pub stats: Vec<Stat>,
    pub activities: Vec<Activity>,
}

fn copy_stats(v: &Vec<Stat>) -> (r: Vec<Stat>)
    ensures
        r@ == v@,
{
    let mut out: Vec<Stat> = Vec::new();
    let mut i: usize = 0;
    while i < v.len()
        invariant
            i <= v@.len(),
            out@ == v@.take(i as int),
        decreases v@.len() - i,
    {
        out.push(v[i]);
        proof {
            assert(v@.take(i + 1) =~= v@.take(i as int).push(v@[i as int]));
        }
        i = i + 1;
    }
    proof {
        assert(v@.take(v@.len() as int) =~= v@);
    }
    out
}

fn copy_activities(v: &Vec<Activity>) -> (r: Vec<Activity>)
    ensures
        r@ == v@,
{
    let mut out: Vec<Activity> = Vec::new();
    let mut i: usize = 0;
    while i < v.len()
        invariant
            i <= v@.len(),
            out@ == v@.take(i as int),
        decreases v@.len() - i,
    {
        out.push(v[i]);
        proof {
            assert(v@.take(i + 1) =~= v@.take(i as int).push(v@[i as int]));
        }
        i = i + 1;
    }
    proof {
        assert(v@.take(v@.len() as int) =~= v@);
    }
    out
}

impl StorageData {
    /// Fresh store contents: both keys present, zero records in each.
    pub fn empty() -> (r: StorageData)
        ensures
            r.stats@.len() == 0,
            r.activities@.len() == 0,
    {
        StorageData { stats: Vec::new(), activities: Vec::new() }
    }

    /// Looks a key up. Both keys are always present, so this always
    /// hands back a value; it is an owned copy of the collection.
    pub fn get(&self, key: &StorageDataType) -> (r: Option<StorageDataValue>)
        ensures
            match key {
                StorageDataType::Stats => r matches Some(v) && (v matches StorageDataValue::Stats(
                    s,
                ) && s@ == self.stats@),
                StorageDataType::Activities => r matches Some(v) && (
                v matches StorageDataValue::Activites(a) && a@ == self.activities@),
            },
    {
        match key {
            StorageDataType::Stats => Some(StorageDataValue::Stats(copy_stats(&self.stats))),
            StorageDataType::Activities => Some(
                StorageDataValue::Activites(copy_activities(&self.activities)),
            ),
        }
    }
}

/// Owner of the in-memory store. It is the sole writer of the persisted
/// blob; callers write the bytes that `flush` hands out.
#[derive(Debug)]
pub struct StorageHandler {
    data: StorageData,
}

impl StorageHandler {
    /// The stats log the store holds, oldest first.
    pub closed spec fn stats_seq(self) -> Seq<Stat> {
        self.data.stats@
    }

    /// The activities collection the store holds, oldest first.
    pub closed spec fn activities_seq(self) -> Seq<Activity> {
        self.data.activities@
    }

    /// A store with both keys present and no records yet.
    pub fn new() -> (r: StorageHandler)
        ensures
            r.stats_seq().len() == 0,
            r.activities_seq().len() == 0,
    {
        StorageHandler { data: StorageData::empty() }
    }

    /// Hands out the blob that persists a fresh two-key empty store, so
    /// the caller can write the seeded file at once. The handler's own
    /// in-memory contents pass through unchanged: seeding goes only to
    /// the blob.
    pub fn default(self) -> (r: (StorageHandler, Vec<u8>))
        ensures
            r.0.stats_seq() == self.stats_seq(),
            r.0.activities_seq() == self.activities_seq(),
            r.1@ == enc_store(Seq::<Stat>::empty(), Seq::<Activity>::empty()),
    {
        let empty_stats: Vec<Stat> = Vec::new();
        let empty_activities: Vec<Activity> = Vec::new();
        let bytes = encode_store(&empty_stats, &empty_activities);
        proof {
            assert(empty_stats@ =~= Seq::<Stat>::empty());
            assert(empty_activities@ =~= Seq::<Activity>::empty());
        }
        (self, bytes)
    }

    /// Initializes the store from the backing file's contents, when the
    /// caller could read them. Any unreadable or undecodable blob —
    /// including an absent file, passed as `None` — seeds a fresh empty
    /// store instead; the second result says whether that happened, so
    /// the caller knows to write the seeded store out immediately.
    pub fn init(self, file_bytes: Option<&Vec<u8>>) -> (r: (StorageHandler, bool))
        ensures
            match file_bytes {
                Some(b) => match dec_store(b@) {
                    Some(d) => r.0.stats_seq() == d.0 && r.0.activities_seq() == d.1 && r.1
                        == false,
                    None => r.0.stats_seq().len() == 0 && r.0.activities_seq().len() == 0 && r.1
                        == true,
                },
                None => r.0.stats_seq().len() == 0 && r.0.activities_seq().len() == 0 && r.1
                    == true,
            },
    {
        match file_bytes {
            Some(bytes) => match decode_store(bytes) {
                Some(d) => (StorageHandler { data: StorageData { stats: d.0, activities: d.1 } },
                false),
                None => (StorageHandler { data: StorageData::empty() }, true),
            },
            None => (StorageHandler { data: StorageData::empty() }, true),
        }
    }

    pub fn get_data(&self) -> (r: &StorageData)
        ensures
            r.stats@ == self.stats_seq(),
            r.activities@ == self.activities_seq(),
    {
        &self.data
    }

    /// The stats log in insertion order. Both keys are always present,
    /// so the lookup always succeeds.
    pub fn get_data_stats(&self) -> (r: Option<&Vec<Stat>>)
        ensures
            r matches Some(v) && v@ == self.stats_seq(),
    {
        Some(&self.data.stats)
    }

    /// The stats log most-recent-first: a read-time projection that
    /// leaves the stored insertion order untouched.
    pub fn get_data_stats_reversed(&self) -> (r: Option<Vec<Stat>>)
        ensures
            r matches Some(v) && v@ == self.stats_seq().reverse(),
    {
        let stats = &self.data.stats;
        let len = stats.len();
        let mut out: Vec<Stat> = Vec::new();
        let mut i: usize = 0;
        while i < len
            invariant
                i <= len,
                len == stats@.len(),
                out@.len() == i,
                forall|k: int| 0 <= k < i ==> out@[k] == stats@[len - 1 - k],
            decreases len - i,
        {
            out.push(stats[len - 1 - i]);
            i = i + 1;
        }
        proof {
            assert(out@ =~= stats@.reverse());
        }
        Some(out)
    }

    /// The activities collection; always present, like the stats log.
    pub fn get_data_activities(&self) -> (r: Option<&Vec<Activity>>)
        ensures
            r matches Some(v) && v@ == self.activities_seq(),
    {
        Some(&self.data.activities)
    }

    /// Re-decodes a previously flushed blob, without touching the
    /// in-memory store: an independent full re-read for verification.
    pub fn load(&self, bytes: &Vec<u8>) -> (r: Option<StorageData>)
        ensures
            match r {
                Some(d) => dec_store(bytes@) == Some::<(Seq<Stat>, Seq<Activity>)>(
                    (d.stats@, d.activities@),
                ),
                None => dec_store(bytes@) is None,
            },
    {
        match decode_store(bytes) {
            Some(d) => Some(StorageData { stats: d.0, activities: d.1 }),
            None => None,
        }
    }

    /// Serializes the whole store into the blob that replaces the
    /// backing file: whole-file rewrite, never a partial append.
    pub fn flush(&self) -> (r: Vec<u8>)
        ensures
            r@ == enc_store(self.stats_seq(), self.activities_seq()),
    {
        encode_store(&self.data.stats, &self.data.activities)
    }

    /// Appends one finalized record to the stats log. The log is
    /// append-only: everything already recorded stays, in order.
    pub fn insert_into_stats(&mut self, stat: &Stat) -> (r: bool)
        ensures
            r == true,
            final(self).stats_seq() == old(self).stats_seq().push(*stat),
            final(self).activities_seq() == old(self).activities_seq(),
    {
        self.data.stats.push(*stat);
        true
    }

    /// Appends one activity marker to the activities collection.
    pub fn insert_into_activities(&mut self, activity: &Activity) -> (r: bool)
        ensures
            r == true,
            final(self).activities_seq() == old(self).activities_seq().push(*activity),
            final(self).stats_seq() == old(self).stats_seq(),
    {
        self.data.activities.push(*activity);
        true
    }
}

/// A record inserted last is handed out first by the most-recent-first
/// projection.
pub proof fn lemma_insert_then_reversed_first(stats: Seq<Stat>, x: Stat)
    ensures
        stats.push(x).reverse().len() == stats.len() + 1,
        stats.push(x).reverse()[0] == x,
{
    assert(stats.push(x)[stats.len() as int] == x);
}

} // verus!
