//! The storage side of the read-back: which objects a descriptor needs, and
//! how the outcomes of a fan-out of reads are joined into one result.
use vstd::prelude::*;

use itertools::Itertools;

use crate::error::SpillError;
use crate::descriptor::{
    lemma_spilled_parts_step, spilled_of, spilled_parts, SpillDescriptor, SpilledPayload,
};

verus! {

/// `keys` are the storage keys of `payloads`, in order.
pub open spec fn keys_of(keys: Seq<String>, payloads: Seq<SpilledPayload>) -> bool {
    &&& keys.len() == payloads.len()
    &&& forall|j: int| 0 <= j < keys.len() ==> (#[trigger] keys[j])@ == payloads[j].location@
}

/// The storage keys to read for `d`: the key of a spilled descriptor, or the
/// key of each spilled part of a partitioned one, in part order, which is
/// the order in which the decode step consumes their buffers.
pub fn fetch_locations(d: &SpillDescriptor) -> (r: Vec<String>)
    ensures
        keys_of(r@, spilled_of(*d)),
{
    let mut r: Vec<String> = Vec::new();
    match d {
        SpillDescriptor::OnDisk(p) => {
            r.push(p.location.clone());
        },
        SpillDescriptor::Partitioned { parts, .. } => {
            let mut k: usize = 0;
            while k < parts.len()
                invariant
                    0 <= k <= parts@.len(),
                    keys_of(r@, spilled_parts(parts@.take(k as int))),
                decreases parts@.len() - k,
            {
                proof {
                    lemma_spilled_parts_step(parts@, k as int);
                }
                match &parts[k] {
                    SpillDescriptor::OnDisk(p) => {
                        r.push(p.location.clone());
                    },
                    _ => {},
                }
                k = k + 1;
            }
            assert(parts@.take(k as int) =~= parts@);
        },
        _ => {},
    }
    r
}

/// Relies on itertools::Itertools::try_collect, which collects through std's
/// `FromIterator` for `Result`: every value in order when all reads
/// succeeded, else the error of the first failed read.
#[verifier::external_body]
fn collect_reads(reads: Vec<Result<Vec<u8>, String>>) -> (r: Result<Vec<Vec<u8>>, String>)
    ensures
        r is Ok <==> all_read(reads@),
        r is Ok ==> r->Ok_0@ == read_buffers(reads@),
        r is Err ==> first_read_error(reads@, r->Err_0),
{
    reads.into_iter().try_collect()
}

/// Every read of the fan-out succeeded.
pub open spec fn all_read(reads: Seq<Result<Vec<u8>, String>>) -> bool {
    forall|i: int| 0 <= i < reads.len() ==> (#[trigger] reads[i]) is Ok
}

/// The buffers of a fan-out whose reads all succeeded, in read order.
pub open spec fn read_buffers(reads: Seq<Result<Vec<u8>, String>>) -> Seq<Vec<u8>> {
    reads.map_values(|x: Result<Vec<u8>, String>| x->Ok_0)
}

/// `msg` is the error of the first failed read.
pub open spec fn first_read_error(reads: Seq<Result<Vec<u8>, String>>, msg: String) -> bool {
    exists|i: int|
        0 <= i < reads.len() && (#[trigger] reads[i]) is Err && msg == reads[i]->Err_0 && forall|
            k: int,
        |
            0 <= k < i ==> (#[trigger] reads[k]) is Ok
}

/// `r` is what the fan-out `joined` comes to: a join failure first, else
/// the first failed read, else every buffer in read order.
pub open spec fn joined_to(
    joined: Result<Vec<Result<Vec<u8>, String>>, String>,
    r: Result<Vec<Vec<u8>>, SpillError>,
) -> bool {
    match joined {
        Err(m) => r == Err::<Vec<Vec<u8>>, SpillError>(SpillError::Join(m)),
        Ok(reads) => {
            &&& r is Ok <==> all_read(reads@)
            &&& r is Ok ==> r->Ok_0@ == read_buffers(reads@)
            &&& r is Err ==> r->Err_0 is StorageRead && first_read_error(
                reads@,
                r->Err_0->StorageRead_0,
            )
        },
    }
}

/// Joins the outcome of a fan-out of reads: the buffers in read order when
/// every task was awaited and every read succeeded; a join failure first,
/// else the error of the first failed read. Nothing of a failed fan-out is kept.
pub fn join_reads(joined: Result<Vec<Result<Vec<u8>, String>>, String>) -> (r: Result<
    Vec<Vec<u8>>,
    SpillError,
>)
    ensures
        joined_to(joined, r),
{
    match joined {
        Err(e) => Err(SpillError::Join(e)),
        Ok(reads) => match collect_reads(reads) {
            Ok(bufs) => Ok(bufs),
            Err(e) => Err(SpillError::StorageRead(e)),
        },
    }
}

} // verus!
