//! Spill descriptors: where the aggregation state of one bucket lives, and
//! the decode step that turns fetched buffers into resident payloads.
use vstd::prelude::*;

use crate::layout::{columns_view, layout_fits, split_columns, split_spec};

verus! {

/// A spilled payload: the storage key of one buffer and the cumulative end
/// offset of each column inside it.
#[derive(Debug, PartialEq, Eq)]
pub struct SpilledPayload {
    pub bucket: isize,
    pub location: String,
    pub columns_layout: Vec<usize>,
}

/// A resident payload: the serialized segment of each column, tagged with its bucket.
#[derive(Debug, PartialEq, Eq)]
pub struct SerializedPayload {
    pub bucket: isize,
    pub columns: Vec<Vec<u8>>,
}

/// Where the aggregation state of one bucket lives.
#[derive(Debug, PartialEq, Eq)]
pub enum SpillDescriptor {
    /// A resident hash table; never handled by this stage.
    InMemory,
    /// Already resident column segments.
    InMemorySerialized(SerializedPayload),
    /// A write still in progress; never handled by this stage.
    CurrentlySpilling,
    /// One buffer in storage.
    OnDisk(SpilledPayload),
    /// A bucket split into parts, each resident or on disk.
    Partitioned { bucket: isize, parts: Vec<SpillDescriptor> },
}

/// The spilled payloads among `parts`, in list order.
pub open spec fn spilled_parts(parts: Seq<SpillDescriptor>) -> Seq<SpilledPayload>
    decreases parts.len(),
{
    if parts.len() == 0 {
        Seq::empty()
    } else {
        let rest = spilled_parts(parts.drop_last());
        match parts.last() {
            SpillDescriptor::OnDisk(p) => rest.push(p),
            _ => rest,
        }
    }
}

/// The position, among the fetched buffers, of the buffer for part `i`.
pub open spec fn buffer_index(parts: Seq<SpillDescriptor>, i: int) -> int {
    spilled_parts(parts.take(i)).len() as int
}

/// The payloads that must be read from storage before `d` can be decoded.
pub open spec fn spilled_of(d: SpillDescriptor) -> Seq<SpilledPayload> {
    match d {
        SpillDescriptor::OnDisk(p) => seq![p],
        SpillDescriptor::Partitioned { parts, .. } => spilled_parts(parts@),
        _ => Seq::empty(),
    }
}

/// A descriptor needs storage reads: it is on disk, or partitioned with at
/// least one part on disk.
pub open spec fn needs_fetch(d: SpillDescriptor) -> bool {
    match d {
        SpillDescriptor::OnDisk(_) => true,
        SpillDescriptor::Partitioned { parts, .. } => exists|i: int|
            0 <= i < parts@.len() && (#[trigger] parts@[i]) is OnDisk,
        _ => false,
    }
}

/// `out` is the resident form of `p` decoded from `buf`.
pub open spec fn decodes_to(p: SpilledPayload, buf: Seq<u8>, out: SpillDescriptor) -> bool {
    &&& out is InMemorySerialized
    &&& out->InMemorySerialized_0.bucket == p.bucket
    &&& columns_view(out->InMemorySerialized_0.columns@) == split_spec(buf, p.columns_layout@)
}

/// `out` is what decoding `d` with the fetched `bufs` gives: a spilled
/// descriptor becomes resident with the same bucket; a partitioned one keeps
/// its bucket and part order, each part on disk becoming resident and every
/// other part staying as it was.
pub open spec fn decoded(d: SpillDescriptor, bufs: Seq<Vec<u8>>, out: SpillDescriptor) -> bool {
    match d {
        SpillDescriptor::OnDisk(p) => decodes_to(p, bufs[0]@, out),
        SpillDescriptor::Partitioned { bucket, parts } => {
            &&& out is Partitioned
            &&& out->bucket == bucket
            &&& out->parts@.len() == parts@.len()
            &&& forall|i: int|
                0 <= i < parts@.len() ==> match #[trigger] parts@[i] {
                    SpillDescriptor::OnDisk(p) => decodes_to(
                        p,
                        bufs[buffer_index(parts@, i)]@,
                        out->parts@[i],
                    ),
                    _ => out->parts@[i] == parts@[i],
                }
        },
        _ => false,
    }
}

pub proof fn lemma_spilled_parts_step(parts: Seq<SpillDescriptor>, i: int)
    requires
        0 <= i < parts.len(),
    ensures
        spilled_parts(parts.take(i + 1)) == (match parts[i] {
            SpillDescriptor::OnDisk(p) => spilled_parts(parts.take(i)).push(p),
            _ => spilled_parts(parts.take(i)),
        }),
{
    assert(parts.take(i + 1).drop_last() =~= parts.take(i));
    assert(parts.take(i + 1).last() == parts[i]);
}

/// Every buffer has the layout of the part it was read for, so `d` decodes.
pub open spec fn decodable(d: SpillDescriptor, bufs: Seq<Vec<u8>>) -> bool {
    match d {
        SpillDescriptor::OnDisk(p) => layout_fits(p.columns_layout@, bufs[0]@.len() as int),
        SpillDescriptor::Partitioned { parts, .. } => forall|i: int|
            0 <= i < parts@.len() && (#[trigger] parts@[i]) is OnDisk ==> layout_fits(
                parts@[i]->OnDisk_0.columns_layout@,
                bufs[buffer_index(parts@, i)]@.len() as int,
            ),
        _ => false,
    }
}

proof fn lemma_spilled_parts_concat(a: Seq<SpillDescriptor>, b: Seq<SpillDescriptor>)
    ensures
        spilled_parts(a + b) == spilled_parts(a) + spilled_parts(b),
    decreases b.len(),
{
    if b.len() == 0 {
        assert(a + b =~= a);
        assert(spilled_parts(a) + spilled_parts(b) =~= spilled_parts(a));
    } else {
        assert((a + b).drop_last() =~= a + b.drop_last());
        assert((a + b).last() == b.last());
        lemma_spilled_parts_concat(a, b.drop_last());
        match b.last() {
            SpillDescriptor::OnDisk(p) => {
                assert((spilled_parts(a) + spilled_parts(b.drop_last())).push(p) =~= spilled_parts(a)
                    + spilled_parts(b.drop_last()).push(p));
            },
            _ => {},
        }
    }
}

/// The buffer of an on-disk part exists, and is the one read for that part.
proof fn lemma_buffer_index(parts: Seq<SpillDescriptor>, i: int)
    requires
        0 <= i < parts.len(),
        parts[i] is OnDisk,
    ensures
        0 <= buffer_index(parts, i) < spilled_parts(parts).len(),
        spilled_parts(parts)[buffer_index(parts, i)] == parts[i]->OnDisk_0,
{
    let rest = parts.skip(i);
    assert(parts =~= parts.take(i) + rest);
    lemma_spilled_parts_concat(parts.take(i), rest);
    let one = seq![parts[i]];
    assert(rest =~= one + rest.skip(1));
    lemma_spilled_parts_concat(one, rest.skip(1));
    assert(one.drop_last() =~= Seq::<SpillDescriptor>::empty());
    assert(spilled_parts(one.drop_last()) == Seq::<SpilledPayload>::empty());
    assert(spilled_parts(one) =~= seq![parts[i]->OnDisk_0]);
}

/// Decodes one fetched buffer with the layout of `payload`; `None` when the
/// layout does not fit the buffer.
pub fn deserialize(payload: SpilledPayload, data: &Vec<u8>) -> (r: Option<SpillDescriptor>)
    ensures
        r is Some <==> layout_fits(payload.columns_layout@, data@.len() as int),
        r is Some ==> decodes_to(payload, data@, r->Some_0),
{
    match split_columns(data, &payload.columns_layout) {
        Some(columns) => Some(
            SpillDescriptor::InMemorySerialized(SerializedPayload { bucket: payload.bucket, columns }),
        ),
        None => None,
    }
}

/// Whether `d` needs storage reads before it can be handed on.
pub fn requires_fetch(d: &SpillDescriptor) -> (r: bool)
    ensures
        r == needs_fetch(*d),
{
    match d {
        SpillDescriptor::OnDisk(_) => true,
        SpillDescriptor::Partitioned { parts, .. } => {
            let mut k: usize = 0;
            while k < parts.len()
                invariant
                    *d is Partitioned,
                    d->parts@ == parts@,
                    0 <= k <= parts@.len(),
                    forall|i: int| 0 <= i < k ==> !((#[trigger] parts@[i]) is OnDisk),
                decreases parts@.len() - k,
            {
                if let SpillDescriptor::OnDisk(_) = &parts[k] {
                    assert(parts@[k as int] is OnDisk);
                    return true;
                }
                k = k + 1;
            }
            false
        },
        _ => false,
    }
}

/// Decodes a descriptor with the buffers fetched for it, in fetch order.
/// Fails with `None` exactly when some buffer does not have the layout of
/// the part it was read for.
pub fn decode_descriptor(d: SpillDescriptor, bufs: &Vec<Vec<u8>>) -> (r: Option<SpillDescriptor>)
    requires
        needs_fetch(d),
        bufs@.len() == spilled_of(d).len(),
    ensures
        r is Some <==> decodable(d, bufs@),
        r is Some ==> decoded(d, bufs@, r->Some_0),
{
    match d {
        SpillDescriptor::OnDisk(payload) => deserialize(payload, &bufs[0]),
        SpillDescriptor::Partitioned { bucket, parts } => {
            let ghost orig = parts@;
            let n = parts.len();
            let mut rest = parts;
            let mut new_parts: Vec<SpillDescriptor> = Vec::with_capacity(n);
            let mut j: usize = 0;
            let mut k: usize = 0;
            while k < n
                invariant
                    d is Partitioned,
                    d->parts@ == orig,
                    n == orig.len(),
                    bufs@.len() == spilled_parts(orig).len(),
                    0 <= k <= n,
                    rest@ == orig.skip(k as int),
                    j == buffer_index(orig, k as int),
                    new_parts@.len() == k,
                    forall|i: int|
                        0 <= i < k ==> match #[trigger] orig[i] {
                            SpillDescriptor::OnDisk(p) => layout_fits(
                                p.columns_layout@,
                                bufs@[buffer_index(orig, i)]@.len() as int,
                            ) && decodes_to(p, bufs@[buffer_index(orig, i)]@, new_parts@[i]),
                            _ => new_parts@[i] == orig[i],
                        },
                decreases n - k,
            {
                let part = rest.remove(0);
                assert(part == orig[k as int]);
                proof {
                    lemma_spilled_parts_step(orig, k as int);
                }
                match part {
                    SpillDescriptor::OnDisk(payload) => {
                        proof {
                            lemma_buffer_index(orig, k as int);
                        }
                        assert(j < bufs.len());
                        match deserialize(payload, &bufs[j]) {
                            Some(out) => {
                                new_parts.push(out);
                            },
                            None => {
                                assert(!layout_fits(
                                    orig[k as int]->OnDisk_0.columns_layout@,
                                    bufs@[buffer_index(orig, k as int)]@.len() as int,
                                ));
                                assert(d->parts@[k as int] is OnDisk);
                                return None;
                            },
                        }
                        j = j + 1;
                    },
                    other => {
                        new_parts.push(other);
                    },
                }
                k = k + 1;
                assert(rest@ =~= orig.skip(k as int));
            }
            Some(SpillDescriptor::Partitioned { bucket, parts: new_parts })
        },
        _ => None,
    }
}

} // verus!
