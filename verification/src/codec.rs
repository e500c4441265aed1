//! Binary file format of the stats store.
//!
//! The store is persisted as one blob: a format-version byte, then the
//! stats log (count followed by fixed-size records), then the activities
//! collection in the same shape. All integers are little-endian. Decoding
//! is exact: a blob decodes to at most one store, and every encoded store
//! decodes back to itself (`lemma_store_round_trip`).

use vstd::prelude::*;

use crate::stats::Activity;
use crate::stats::Stat;
use crate::stats::TypingDuration;

verus! {

/// Version tag written as the first byte of every blob; a blob with any
/// other first byte is rejected as undecodable.
pub const FORMAT_VERSION: u8 = 1;

// ---------------------------------------------------------------------
// Little-endian integers
// ---------------------------------------------------------------------

/// The four little-endian bytes of a 32-bit integer.
pub open spec fn u32_le(x: u32) -> Seq<u8> {
    seq![
        (x % 256) as u8,
        ((x / 256) % 256) as u8,
        ((x / 65536) % 256) as u8,
        ((x / 16777216) % 256) as u8,
    ]
}

/// The 32-bit integer with the given little-endian bytes.
pub open spec fn u32_from_le(b0: u8, b1: u8, b2: u8, b3: u8) -> u32 {
    (b0 as int + 256 * b1 as int + 65536 * b2 as int + 16777216 * b3 as int) as u32
}

/// The eight little-endian bytes of a 64-bit integer.
pub open spec fn u64_le(x: u64) -> Seq<u8> {
    seq![
        (x % 256) as u8,
        ((x / 256) % 256) as u8,
        ((x / 65536) % 256) as u8,
        ((x / 16777216) % 256) as u8,
        ((x / 4294967296) % 256) as u8,
        ((x / 1099511627776) % 256) as u8,
        ((x / 281474976710656) % 256) as u8,
        ((x / 72057594037927936) % 256) as u8,
    ]
}

/// The 64-bit integer with the given little-endian bytes.
pub open spec fn u64_from_le(
    b0: u8, b1: u8, b2: u8, b3: u8, b4: u8, b5: u8, b6: u8, b7: u8,
) -> u64 {
    (b0 as int
        + 256 * b1 as int
        + 65536 * b2 as int
        + 16777216 * b3 as int
        + 4294967296 * b4 as int
        + 1099511627776 * b5 as int
        + 281474976710656 * b6 as int
        + 72057594037927936 * b7 as int) as u64
}

pub proof fn lemma_u32_round_trip(x: u32)
    ensures
        u32_from_le(u32_le(x)[0], u32_le(x)[1], u32_le(x)[2], u32_le(x)[3]) == x,
{
    assert(x % 256 + 256 * ((x / 256) % 256) + 65536 * ((x / 65536) % 256) + 16777216 * ((x
        / 16777216) % 256) == x) by (bit_vector);
}

pub proof fn lemma_u64_round_trip(x: u64)
    ensures
        u64_from_le(
            u64_le(x)[0], u64_le(x)[1], u64_le(x)[2], u64_le(x)[3],
            u64_le(x)[4], u64_le(x)[5], u64_le(x)[6], u64_le(x)[7],
        ) == x,
{
    assert(x % 256 + 256 * ((x / 256) % 256) + 65536 * ((x / 65536) % 256) + 16777216 * ((x
        / 16777216) % 256) + 4294967296 * ((x / 4294967296) % 256) + 1099511627776 * ((x
        / 1099511627776) % 256) + 281474976710656 * ((x / 281474976710656) % 256)
        + 72057594037927936 * ((x / 72057594037927936) % 256) == x) by (bit_vector);
}

fn read_u32(bytes: &Vec<u8>, pos: usize) -> (r: u32)
    requires
        pos + 4 <= bytes@.len(),
    ensures
        r == u32_from_le(
            bytes@[pos as int],
            bytes@[pos as int + 1],
            bytes@[pos as int + 2],
            bytes@[pos as int + 3],
        ),
{
    // binding the length bounds the positions, so the index sums below
    // cannot overflow
    let _n: usize = bytes.len();
    let b0 = bytes[pos] as u32;
    let b1 = bytes[pos + 1] as u32;
    let b2 = bytes[pos + 2] as u32;
    let b3 = bytes[pos + 3] as u32;
    b0 + 256 * b1 + 65536 * b2 + 16777216 * b3
}

fn read_u64(bytes: &Vec<u8>, pos: usize) -> (r: u64)
    requires
        pos + 8 <= bytes@.len(),
    ensures
        r == u64_from_le(
            bytes@[pos as int],
            bytes@[pos as int + 1],
            bytes@[pos as int + 2],
            bytes@[pos as int + 3],
            bytes@[pos as int + 4],
            bytes@[pos as int + 5],
            bytes@[pos as int + 6],
            bytes@[pos as int + 7],
        ),
{
    let _n: usize = bytes.len();
    let b0 = bytes[pos] as u64;
    let b1 = bytes[pos + 1] as u64;
    let b2 = bytes[pos + 2] as u64;
    let b3 = bytes[pos + 3] as u64;
    let b4 = bytes[pos + 4] as u64;
    let b5 = bytes[pos + 5] as u64;
    let b6 = bytes[pos + 6] as u64;
    let b7 = bytes[pos + 7] as u64;
    b0 + 256 * b1 + 65536 * b2 + 16777216 * b3 + 4294967296 * b4 + 1099511627776 * b5
        + 281474976710656 * b6 + 72057594037927936 * b7
}

fn push_u32(out: &mut Vec<u8>, x: u32)
    ensures
        final(out)@ == old(out)@ + u32_le(x),
{
    out.push((x % 256) as u8);
    out.push(((x / 256) % 256) as u8);
    out.push(((x / 65536) % 256) as u8);
    out.push(((x / 16777216) % 256) as u8);
    assert(out@ =~= old(out)@ + u32_le(x));
}

fn push_u64(out: &mut Vec<u8>, x: u64)
    ensures
        final(out)@ == old(out)@ + u64_le(x),
{
    out.push((x % 256) as u8);
    out.push(((x / 256) % 256) as u8);
    out.push(((x / 65536) % 256) as u8);
    out.push(((x / 16777216) % 256) as u8);
    out.push(((x / 4294967296) % 256) as u8);
    out.push(((x / 1099511627776) % 256) as u8);
    out.push(((x / 281474976710656) % 256) as u8);
    out.push(((x / 72057594037927936) % 256) as u8);
    assert(out@ =~= old(out)@ + u64_le(x));
}

// ---------------------------------------------------------------------
// Records
// ---------------------------------------------------------------------

/// One-byte tag of a duration variant.
pub open spec fn dur_tag(d: TypingDuration) -> u8 {
    match d {
        TypingDuration::ThirtySec => 0,
        TypingDuration::Minute => 1,
        TypingDuration::ThreeMinutes => 2,
    }
}

/// The duration variant of a one-byte tag, if any.
pub open spec fn dur_of_tag(t: u8) -> Option<TypingDuration> {
    if t == 0 {
        Some(TypingDuration::ThirtySec)
    } else if t == 1 {
        Some(TypingDuration::Minute)
    } else if t == 2 {
        Some(TypingDuration::ThreeMinutes)
    } else {
        None
    }
}

/// A stat record is 21 bytes: tag, speed, errors, elapsed, accuracy.
pub open spec fn enc_stat(s: Stat) -> Seq<u8> {
    seq![dur_tag(s.duration)] + u64_le(s.average_wpm) + u32_le(s.error_count) + u32_le(
        s.elapsed_secs,
    ) + u32_le(s.accuracy)
}

/// The stats log, record by record.
pub open spec fn enc_stats(s: Seq<Stat>) -> Seq<u8>
    decreases s.len(),
{
    if s.len() == 0 {
        Seq::empty()
    } else {
        enc_stat(s[0]) + enc_stats(s.drop_first())
    }
}

/// An activity record is its 8-byte timestamp.
pub open spec fn enc_activity(a: Activity) -> Seq<u8> {
    u64_le(a.timestamp_secs)
}

pub open spec fn enc_activities(s: Seq<Activity>) -> Seq<u8>
    decreases s.len(),
{
    if s.len() == 0 {
        Seq::empty()
    } else {
        enc_activity(s[0]) + enc_activities(s.drop_first())
    }
}

/// The whole blob: version byte, stats count and log, activities count
/// and collection.
pub open spec fn enc_store(stats: Seq<Stat>, acts: Seq<Activity>) -> Seq<u8> {
    seq![FORMAT_VERSION] + u64_le(stats.len() as u64) + enc_stats(stats) + u64_le(
        acts.len() as u64,
    ) + enc_activities(acts)
}

/// Decodes one stat record off the front of `b`.
pub open spec fn dec_stat(b: Seq<u8>) -> Option<(Stat, Seq<u8>)> {
    if b.len() < 21 {
        None
    } else {
        match dur_of_tag(b[0]) {
            None => None,
            Some(duration) => Some(
                (
                    Stat {
                        duration,
                        average_wpm: u64_from_le(
                            b[1], b[2], b[3], b[4], b[5], b[6], b[7], b[8],
                        ),
                        error_count: u32_from_le(b[9], b[10], b[11], b[12]),
                        elapsed_secs: u32_from_le(b[13], b[14], b[15], b[16]),
                        accuracy: u32_from_le(b[17], b[18], b[19], b[20]),
                    },
                    b.skip(21),
                ),
            ),
        }
    }
}

/// Decodes `n` stat records off the front of `b`.
pub open spec fn dec_stats(b: Seq<u8>, n: nat) -> Option<(Seq<Stat>, Seq<u8>)>
    decreases n,
{
    if n == 0 {
        Some((Seq::empty(), b))
    } else {
        match dec_stat(b) {
            None => None,
            Some((st, rest)) => match dec_stats(rest, (n - 1) as nat) {
                None => None,
                Some((sts, rest2)) => Some((seq![st] + sts, rest2)),
            },
        }
    }
}

/// Decodes one activity record off the front of `b`.
pub open spec fn dec_activity(b: Seq<u8>) -> Option<(Activity, Seq<u8>)> {
    if b.len() < 8 {
        None
    } else {
        Some(
            (
                Activity {
                    timestamp_secs: u64_from_le(
                        b[0], b[1], b[2], b[3], b[4], b[5], b[6], b[7],
                    ),
                },
                b.skip(8),
            ),
        )
    }
}

/// Decodes `n` activity records off the front of `b`.
pub open spec fn dec_activities(b: Seq<u8>, n: nat) -> Option<(Seq<Activity>, Seq<u8>)>
    decreases n,
{
    if n == 0 {
        Some((Seq::empty(), b))
    } else {
        match dec_activity(b) {
            None => None,
            Some((a, rest)) => match dec_activities(rest, (n - 1) as nat) {
                None => None,
                Some((acts, rest2)) => Some((seq![a] + acts, rest2)),
            },
        }
    }
}

/// Decodes a whole blob. Rejects a wrong version byte, a malformed or
/// truncated record, and trailing bytes.
pub open spec fn dec_store(b: Seq<u8>) -> Option<(Seq<Stat>, Seq<Activity>)> {
    if b.len() < 9 || b[0] != FORMAT_VERSION {
        None
    } else {
        let n_stats = u64_from_le(b[1], b[2], b[3], b[4], b[5], b[6], b[7], b[8]);
        match dec_stats(b.skip(9), n_stats as nat) {
            None => None,
            Some((stats, rest)) => {
                if rest.len() < 8 {
                    None
                } else {
                    let n_acts = u64_from_le(
                        rest[0], rest[1], rest[2], rest[3], rest[4], rest[5], rest[6], rest[7],
                    );
                    match dec_activities(rest.skip(8), n_acts as nat) {
                        None => None,
                        Some((acts, rest2)) => if rest2.len() == 0 {
                            Some((stats, acts))
                        } else {
                            None
                        },
                    }
                }
            },
        }
    }
}

// ---------------------------------------------------------------------
// Encoder
// ---------------------------------------------------------------------

fn push_stat(out: &mut Vec<u8>, s: &Stat)
    ensures
        final(out)@ == old(out)@ + enc_stat(*s),
{
    let tag: u8 = match s.duration {
        TypingDuration::ThirtySec => 0,
        TypingDuration::Minute => 1,
        TypingDuration::ThreeMinutes => 2,
    };
    out.push(tag);
    push_u64(out, s.average_wpm);
    push_u32(out, s.error_count);
    push_u32(out, s.elapsed_secs);
    push_u32(out, s.accuracy);
    assert(out@ =~= old(out)@ + enc_stat(*s));
}

proof fn lemma_enc_stats_snoc(s: Seq<Stat>, x: Stat)
    ensures
        enc_stats(s.push(x)) == enc_stats(s) + enc_stat(x),
    decreases s.len(),
{
    broadcast use vstd::seq::Seq::add_empty_left, vstd::seq::Seq::add_empty_right;

    if s.len() == 0 {
        assert(s.push(x)[0] == x);
        assert(s.push(x).drop_first() =~= Seq::<Stat>::empty());
        assert(enc_stats(s.push(x).drop_first()) == Seq::<u8>::empty());
    } else {
        assert(s.push(x).drop_first() =~= s.drop_first().push(x));
        lemma_enc_stats_snoc(s.drop_first(), x);
        assert(s.push(x)[0] == s[0]);
        vstd::seq_lib::lemma_concat_associative(
            enc_stat(s[0]),
            enc_stats(s.drop_first()),
            enc_stat(x),
        );
    }
}

proof fn lemma_enc_activities_snoc(s: Seq<Activity>, x: Activity)
    ensures
        enc_activities(s.push(x)) == enc_activities(s) + enc_activity(x),
    decreases s.len(),
{
    broadcast use vstd::seq::Seq::add_empty_left, vstd::seq::Seq::add_empty_right;

    if s.len() == 0 {
        assert(s.push(x)[0] == x);
        assert(s.push(x).drop_first() =~= Seq::<Activity>::empty());
        assert(enc_activities(s.push(x).drop_first()) == Seq::<u8>::empty());
    } else {
        assert(s.push(x).drop_first() =~= s.drop_first().push(x));
        lemma_enc_activities_snoc(s.drop_first(), x);
        assert(s.push(x)[0] == s[0]);
        vstd::seq_lib::lemma_concat_associative(
            enc_activity(s[0]),
            enc_activities(s.drop_first()),
            enc_activity(x),
        );
    }
}

/// Serializes the whole store into one blob, exactly as `enc_store`
/// describes it.
pub fn encode_store(stats: &Vec<Stat>, activities: &Vec<Activity>) -> (r: Vec<u8>)
    ensures
        r@ == enc_store(stats@, activities@),
{
    let mut out: Vec<u8> = Vec::new();
    out.push(FORMAT_VERSION);
    push_u64(&mut out, stats.len() as u64);

    let ghost header = seq![FORMAT_VERSION] + u64_le(stats@.len() as u64);
    assert(out@ =~= header);

    let mut i: usize = 0;
    while i < stats.len()
        invariant
            i <= stats@.len(),
            out@ == header + enc_stats(stats@.take(i as int)),
        decreases stats@.len() - i,
    {
        push_stat(&mut out, &stats[i]);
        proof {
            assert(stats@.take(i + 1) =~= stats@.take(i as int).push(stats@[i as int]));
            lemma_enc_stats_snoc(stats@.take(i as int), stats@[i as int]);
            assert(header + enc_stats(stats@.take(i as int)) + enc_stat(stats@[i as int]) =~= header
                + enc_stats(stats@.take(i + 1)));
        }
        i = i + 1;
    }
    assert(stats@.take(stats@.len() as int) =~= stats@);

    push_u64(&mut out, activities.len() as u64);
    let ghost mid = header + enc_stats(stats@) + u64_le(activities@.len() as u64);
    assert(out@ =~= mid);

    let mut j: usize = 0;
    while j < activities.len()
        invariant
            j <= activities@.len(),
            out@ == mid + enc_activities(activities@.take(j as int)),
        decreases activities@.len() - j,
    {
        let a = activities[j];
        push_u64(&mut out, a.timestamp_secs);
        proof {
            assert(activities@.take(j + 1) =~= activities@.take(j as int).push(
                activities@[j as int],
            ));
            lemma_enc_activities_snoc(activities@.take(j as int), activities@[j as int]);
            assert(mid + enc_activities(activities@.take(j as int)) + enc_activity(
                activities@[j as int],
            ) =~= mid + enc_activities(activities@.take(j + 1)));
        }
        j = j + 1;
    }
    assert(activities@.take(activities@.len() as int) =~= activities@);
    assert(out@ =~= enc_store(stats@, activities@));

    out
}

// ---------------------------------------------------------------------
// Decoder
// ---------------------------------------------------------------------

/// Prefixes the stats of an intermediate decode result.
pub open spec fn prepend_stats(p: Seq<Stat>, r: Option<(Seq<Stat>, Seq<u8>)>) -> Option<
    (Seq<Stat>, Seq<u8>),
> {
    match r {
        None => None,
        Some((s, rest)) => Some((p + s, rest)),
    }
}

/// Prefixes the activities of an intermediate decode result.
pub open spec fn prepend_activities(
    p: Seq<Activity>,
    r: Option<(Seq<Activity>, Seq<u8>)>,
) -> Option<(Seq<Activity>, Seq<u8>)> {
    match r {
        None => None,
        Some((s, rest)) => Some((p + s, rest)),
    }
}

proof fn lemma_dec_stats_step(b: Seq<u8>, n: nat, st: Stat, rest: Seq<u8>, p: Seq<Stat>)
    requires
        n > 0,
        dec_stat(b) == Some::<(Stat, Seq<u8>)>((st, rest)),
    ensures
        prepend_stats(p, dec_stats(b, n)) == prepend_stats(
            p.push(st),
            dec_stats(rest, (n - 1) as nat),
        ),
{
    match dec_stats(rest, (n - 1) as nat) {
        None => {},
        Some((sts, rest2)) => {
            vstd::seq_lib::lemma_concat_associative(p, seq![st], sts);
            assert(p + seq![st] =~= p.push(st));
        },
    }
}

proof fn lemma_dec_activities_step(
    b: Seq<u8>,
    n: nat,
    a: Activity,
    rest: Seq<u8>,
    p: Seq<Activity>,
)
    requires
        n > 0,
        dec_activity(b) == Some::<(Activity, Seq<u8>)>((a, rest)),
    ensures
        prepend_activities(p, dec_activities(b, n)) == prepend_activities(
            p.push(a),
            dec_activities(rest, (n - 1) as nat),
        ),
{
    match dec_activities(rest, (n - 1) as nat) {
        None => {},
        Some((acts, rest2)) => {
            vstd::seq_lib::lemma_concat_associative(p, seq![a], acts);
            assert(p + seq![a] =~= p.push(a));
        },
    }
}

/// Deserializes a blob, returning exactly what `dec_store` describes:
/// the stats log and the activities collection, or nothing for a blob
/// that no store encodes to.
pub fn decode_store(bytes: &Vec<u8>) -> (r: Option<(Vec<Stat>, Vec<Activity>)>)
    ensures
        match r {
            Some(d) => dec_store(bytes@) == Some::<(Seq<Stat>, Seq<Activity>)>((d.0@, d.1@)),
            None => dec_store(bytes@) is None,
        },
{
    let n = bytes.len();
    if n < 9 {
        return None;
    }
    if bytes[0] != FORMAT_VERSION {
        return None;
    }
    let n_stats = read_u64(bytes, 1);

    let ghost b_stats = bytes@.skip(9);
    let mut stats: Vec<Stat> = Vec::new();
    let mut pos: usize = 9;
    let mut i: u64 = 0;
    while i < n_stats
        invariant
            9 <= pos <= n,
            n == bytes@.len(),
            i <= n_stats,
            stats@.len() == i,
            b_stats == bytes@.skip(9),
            n_stats == u64_from_le(
                bytes@[1], bytes@[2], bytes@[3], bytes@[4],
                bytes@[5], bytes@[6], bytes@[7], bytes@[8],
            ),
            bytes@[0] == FORMAT_VERSION,
            dec_stats(b_stats, n_stats as nat) == prepend_stats(
                stats@,
                dec_stats(bytes@.skip(pos as int), (n_stats - i) as nat),
            ),
        decreases n_stats - i,
    {
        let ghost cur = bytes@.skip(pos as int);
        if n - pos < 21 {
            proof {
                assert(cur.len() < 21);
                assert(dec_stat(cur) is None);
                assert(dec_stats(cur, (n_stats - i) as nat) is None);
            }
            return None;
        }
        let tag = bytes[pos];
        if tag > 2 {
            proof {
                assert(cur[0] == tag);
                assert(dur_of_tag(tag) is None);
                assert(dec_stat(cur) is None);
                assert(dec_stats(cur, (n_stats - i) as nat) is None);
            }
            return None;
        }
        let duration = if tag == 0 {
            TypingDuration::ThirtySec
        } else if tag == 1 {
            TypingDuration::Minute
        } else {
            TypingDuration::ThreeMinutes
        };
        let average_wpm = read_u64(bytes, pos + 1);
        let error_count = read_u32(bytes, pos + 9);
        let elapsed_secs = read_u32(bytes, pos + 13);
        let accuracy = read_u32(bytes, pos + 17);
        let st = Stat { duration, average_wpm, error_count, elapsed_secs, accuracy };
        proof {
            assert(cur.skip(21) =~= bytes@.skip(pos + 21));
            assert(dec_stat(cur) == Some::<(Stat, Seq<u8>)>((st, bytes@.skip(pos + 21))));
            lemma_dec_stats_step(
                cur,
                (n_stats - i) as nat,
                st,
                bytes@.skip(pos + 21),
                stats@,
            );
        }
        stats.push(st);
        pos = pos + 21;
        i = i + 1;
    }

    proof {
        assert(dec_stats(bytes@.skip(pos as int), 0) == Some::<(Seq<Stat>, Seq<u8>)>(
            (Seq::<Stat>::empty(), bytes@.skip(pos as int)),
        ));
        assert(stats@ + Seq::<Stat>::empty() =~= stats@);
        assert(dec_stats(b_stats, n_stats as nat) == Some::<(Seq<Stat>, Seq<u8>)>(
            (stats@, bytes@.skip(pos as int)),
        ));
    }
    if n - pos < 8 {
        proof {
            assert(bytes@.skip(pos as int).len() < 8);
        }
        return None;
    }
    let n_acts = read_u64(bytes, pos);
    let ghost rest = bytes@.skip(pos as int);
    proof {
        assert(dec_stats(b_stats, n_stats as nat) == Some::<(Seq<Stat>, Seq<u8>)>((stats@, rest)));
        assert(rest.len() >= 8);
        assert(n_acts == u64_from_le(
            rest[0], rest[1], rest[2], rest[3], rest[4], rest[5], rest[6], rest[7],
        ));
        assert(rest.skip(8) =~= bytes@.skip(pos + 8));
    }
    pos = pos + 8;

    let ghost b_acts = bytes@.skip(pos as int);
    let mut activities: Vec<Activity> = Vec::new();
    let mut j: u64 = 0;
    while j < n_acts
        invariant
            9 <= pos <= n,
            n == bytes@.len(),
            j <= n_acts,
            activities@.len() == j,
            bytes@[0] == FORMAT_VERSION,
            n_stats == u64_from_le(
                bytes@[1], bytes@[2], bytes@[3], bytes@[4],
                bytes@[5], bytes@[6], bytes@[7], bytes@[8],
            ),
            dec_stats(bytes@.skip(9), n_stats as nat) == Some::<(Seq<Stat>, Seq<u8>)>(
                (stats@, rest),
            ),
            rest.len() >= 8,
            n_acts == u64_from_le(
                rest[0], rest[1], rest[2], rest[3], rest[4], rest[5], rest[6], rest[7],
            ),
            b_acts == rest.skip(8),
            dec_activities(b_acts, n_acts as nat) == prepend_activities(
                activities@,
                dec_activities(bytes@.skip(pos as int), (n_acts - j) as nat),
            ),
        decreases n_acts - j,
    {
        let ghost cur = bytes@.skip(pos as int);
        if n - pos < 8 {
            proof {
                assert(cur.len() < 8);
                assert(dec_activity(cur) is None);
                assert(dec_activities(cur, (n_acts - j) as nat) is None);
            }
            return None;
        }
        let timestamp_secs = read_u64(bytes, pos);
        let a = Activity { timestamp_secs };
        proof {
            assert(cur.skip(8) =~= bytes@.skip(pos + 8));
            assert(dec_activity(cur) == Some::<(Activity, Seq<u8>)>((a, bytes@.skip(pos + 8))));
            lemma_dec_activities_step(
                cur,
                (n_acts - j) as nat,
                a,
                bytes@.skip(pos + 8),
                activities@,
            );
        }
        activities.push(a);
        pos = pos + 8;
        j = j + 1;
    }

    proof {
        assert(bytes@.skip(pos as int).len() == n - pos);
        assert(dec_activities(b_acts, n_acts as nat) == prepend_activities(
            activities@,
            dec_activities(bytes@.skip(pos as int), 0),
        ));
        assert(activities@ + Seq::<Activity>::empty() =~= activities@);
    }
    if pos != n {
        proof {
            assert(bytes@.skip(pos as int).len() > 0);
        }
        return None;
    }
    proof {
        assert(bytes@.skip(pos as int).len() == 0);
        assert(dec_store(bytes@) == Some::<(Seq<Stat>, Seq<Activity>)>((stats@, activities@)));
    }
    Some((stats, activities))
}

// ---------------------------------------------------------------------
// Round trip: decoding is a left inverse of encoding
// ---------------------------------------------------------------------

proof fn lemma_dec_enc_stat(st: Stat, tail: Seq<u8>)
    ensures
        dec_stat(enc_stat(st) + tail) == Some::<(Stat, Seq<u8>)>((st, tail)),
{
    let b = enc_stat(st) + tail;
    assert(b.len() == 21 + tail.len());
    assert(b[0] == dur_tag(st.duration));
    assert(dur_of_tag(dur_tag(st.duration)) == Some(st.duration));

    let w = st.average_wpm;
    lemma_u64_round_trip(w);
    assert(b[1] == u64_le(w)[0] && b[2] == u64_le(w)[1] && b[3] == u64_le(w)[2] && b[4] == u64_le(
        w,
    )[3] && b[5] == u64_le(w)[4] && b[6] == u64_le(w)[5] && b[7] == u64_le(w)[6] && b[8] == u64_le(
        w,
    )[7]);
    assert(u64_from_le(b[1], b[2], b[3], b[4], b[5], b[6], b[7], b[8]) == w);

    lemma_u32_round_trip(st.error_count);
    assert(b[9] == u32_le(st.error_count)[0] && b[10] == u32_le(st.error_count)[1] && b[11]
        == u32_le(st.error_count)[2] && b[12] == u32_le(st.error_count)[3]);
    assert(u32_from_le(b[9], b[10], b[11], b[12]) == st.error_count);

    lemma_u32_round_trip(st.elapsed_secs);
    assert(b[13] == u32_le(st.elapsed_secs)[0] && b[14] == u32_le(st.elapsed_secs)[1] && b[15]
        == u32_le(st.elapsed_secs)[2] && b[16] == u32_le(st.elapsed_secs)[3]);
    assert(u32_from_le(b[13], b[14], b[15], b[16]) == st.elapsed_secs);

    lemma_u32_round_trip(st.accuracy);
    assert(b[17] == u32_le(st.accuracy)[0] && b[18] == u32_le(st.accuracy)[1] && b[19] == u32_le(
        st.accuracy,
    )[2] && b[20] == u32_le(st.accuracy)[3]);
    assert(u32_from_le(b[17], b[18], b[19], b[20]) == st.accuracy);

    assert(b.skip(21) =~= tail);
}

proof fn lemma_dec_enc_stats(s: Seq<Stat>, tail: Seq<u8>)
    ensures
        dec_stats(enc_stats(s) + tail, s.len()) == Some::<(Seq<Stat>, Seq<u8>)>((s, tail)),
    decreases s.len(),
{
    if s.len() == 0 {
        assert(enc_stats(s) + tail =~= tail);
        assert(s =~= Seq::<Stat>::empty());
    } else {
        let b = enc_stats(s) + tail;
        let tail1 = enc_stats(s.drop_first()) + tail;
        vstd::seq_lib::lemma_concat_associative(enc_stat(s[0]), enc_stats(s.drop_first()), tail);
        assert(b == enc_stat(s[0]) + tail1);
        lemma_dec_enc_stat(s[0], tail1);
        lemma_dec_enc_stats(s.drop_first(), tail);
        assert(s.drop_first().len() == s.len() - 1);
        assert(seq![s[0]] + s.drop_first() =~= s);
    }
}

proof fn lemma_dec_enc_activity(a: Activity, tail: Seq<u8>)
    ensures
        dec_activity(enc_activity(a) + tail) == Some::<(Activity, Seq<u8>)>((a, tail)),
{
    let b = enc_activity(a) + tail;
    assert(b.len() == 8 + tail.len());
    let t = a.timestamp_secs;
    lemma_u64_round_trip(t);
    assert(b[0] == u64_le(t)[0] && b[1] == u64_le(t)[1] && b[2] == u64_le(t)[2] && b[3] == u64_le(
        t,
    )[3] && b[4] == u64_le(t)[4] && b[5] == u64_le(t)[5] && b[6] == u64_le(t)[6] && b[7] == u64_le(
        t,
    )[7]);
    assert(u64_from_le(b[0], b[1], b[2], b[3], b[4], b[5], b[6], b[7]) == t);
    assert(b.skip(8) =~= tail);
}

proof fn lemma_dec_enc_activities(s: Seq<Activity>, tail: Seq<u8>)
    ensures
        dec_activities(enc_activities(s) + tail, s.len()) == Some::<(Seq<Activity>, Seq<u8>)>(
            (s, tail),
        ),
    decreases s.len(),
{
    if s.len() == 0 {
        assert(enc_activities(s) + tail =~= tail);
        assert(s =~= Seq::<Activity>::empty());
    } else {
        let b = enc_activities(s) + tail;
        let tail1 = enc_activities(s.drop_first()) + tail;
        vstd::seq_lib::lemma_concat_associative(
            enc_activity(s[0]),
            enc_activities(s.drop_first()),
            tail,
        );
        assert(b == enc_activity(s[0]) + tail1);
        lemma_dec_enc_activity(s[0], tail1);
        lemma_dec_enc_activities(s.drop_first(), tail);
        assert(s.drop_first().len() == s.len() - 1);
        assert(seq![s[0]] + s.drop_first() =~= s);
    }
}

/// Round trip: every store that fits the format decodes back from its
/// own encoding. Writing the blob and reading it again reproduces the
/// identical stats log and activities collection.
#[verifier::rlimit(100)]
pub proof fn lemma_store_round_trip(stats: Seq<Stat>, acts: Seq<Activity>)
    requires
        stats.len() <= u64::MAX,
        acts.len() <= u64::MAX,
    ensures
        dec_store(enc_store(stats, acts)) == Some::<(Seq<Stat>, Seq<Activity>)>((stats, acts)),
{
    let ns = stats.len() as u64;
    let na = acts.len() as u64;
    let b = enc_store(stats, acts);
    let head = seq![FORMAT_VERSION] + u64_le(ns);
    let tail1 = u64_le(na) + enc_activities(acts);

    assert(head.len() == 9);
    assert(b =~= head + (enc_stats(stats) + tail1));
    let body = enc_stats(stats) + tail1;
    assert(b == head + body);

    assert(b[0] == FORMAT_VERSION);
    lemma_u64_round_trip(ns);
    assert(b[1] == u64_le(ns)[0] && b[2] == u64_le(ns)[1] && b[3] == u64_le(ns)[2] && b[4]
        == u64_le(ns)[3] && b[5] == u64_le(ns)[4] && b[6] == u64_le(ns)[5] && b[7] == u64_le(
        ns,
    )[6] && b[8] == u64_le(ns)[7]);
    assert(u64_from_le(b[1], b[2], b[3], b[4], b[5], b[6], b[7], b[8]) == ns);
    assert(ns as nat == stats.len());

    assert(b.skip(9) =~= body);
    lemma_dec_enc_stats(stats, tail1);
    assert(dec_stats(b.skip(9), ns as nat) == Some::<(Seq<Stat>, Seq<u8>)>((stats, tail1)));

    assert(tail1.len() >= 8);
    lemma_u64_round_trip(na);
    assert(tail1[0] == u64_le(na)[0] && tail1[1] == u64_le(na)[1] && tail1[2] == u64_le(na)[2]
        && tail1[3] == u64_le(na)[3] && tail1[4] == u64_le(na)[4] && tail1[5] == u64_le(na)[5]
        && tail1[6] == u64_le(na)[6] && tail1[7] == u64_le(na)[7]);
    assert(u64_from_le(
        tail1[0], tail1[1], tail1[2], tail1[3], tail1[4], tail1[5], tail1[6], tail1[7],
    ) == na);
    assert(na as nat == acts.len());

    assert(tail1.skip(8) =~= enc_activities(acts) + Seq::<u8>::empty());
    lemma_dec_enc_activities(acts, Seq::<u8>::empty());
    assert(dec_activities(tail1.skip(8), na as nat) == Some::<(Seq<Activity>, Seq<u8>)>(
        (acts, Seq::<u8>::empty()),
    ));
}

} // verus!
