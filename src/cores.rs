//! Which processor cores the search runs on.
use crate::error::KeytoolError;
use vstd::prelude::*;

verus! {

/// The cores kept under an optional limit: the first `limit` of them in the
/// platform's order, or all of them when the limit is absent or not smaller
/// than their number.
pub open spec fn limited(ids: Seq<usize>, limit: Option<usize>) -> Seq<usize> {
    match limit {
        Some(k) if k < ids.len() => ids.subrange(0, k as int),
        _ => ids,
    }
}

/// Relies on `core_affinity::get_core_ids`: the identifiers of the cores that
/// the current thread may run on, in the platform's order, or `None` where the
/// platform cannot tell. What comes back depends on the machine.
#[verifier::external_body]
fn platform_core_ids() -> (r: Option<Vec<usize>>) {
    core_affinity::get_core_ids().map(|ids| ids.into_iter().map(|c| c.id).collect())
}

/// The cores to use out of those that the platform reported: a failed
/// report is an error, else the first `limit` cores are kept.
pub fn limit_core_ids(discovered: Option<Vec<usize>>, limit: Option<usize>) -> (r: Result<
    Vec<usize>,
    KeytoolError,
>)
    ensures
        match discovered {
            Some(ids) => r matches Ok(v) && v@ == limited(ids@, limit),
            None => r == Err::<Vec<usize>, KeytoolError>(KeytoolError::FailedToFetchCoreCount),
        },
{
    match discovered {
        None => Err(KeytoolError::FailedToFetchCoreCount),
        Some(ids) => {
            let n = ids.len();
            let keep = match limit {
                Some(k) if k < n => k,
                _ => n,
            };
            let mut kept: Vec<usize> = Vec::new();
            let mut i: usize = 0;
            while i < keep
                invariant
                    keep <= n,
                    n == ids@.len(),
                    i <= keep,
                    kept@ == ids@.subrange(0, i as int),
                decreases keep - i,
            {
                kept.push(ids[i]);
                i = i + 1;
                assert(kept@ =~= ids@.subrange(0, i as int));
            }
            assert(kept@ =~= limited(ids@, limit));
            Ok(kept)
        },
    }
}

/// Asks the platform for its cores and keeps the first `limit` of them.
/// Whatever the platform reports, no more than `limit` cores come back.
pub fn get_core_ids(limit: Option<usize>) -> (r: Result<Vec<usize>, KeytoolError>)
    ensures
        match r {
            Ok(v) => limit matches Some(k) ==> v@.len() <= k,
            Err(e) => e == KeytoolError::FailedToFetchCoreCount,
        },
{
    limit_core_ids(platform_core_ids(), limit)
}

/// With a limit at least the number of cores, every core is kept; with a
/// smaller limit `k`, exactly the `k` cores of index below `k` are kept.
pub proof fn lemma_limit_keeps_prefix(ids: Seq<usize>, k: usize)
    ensures
        k >= ids.len() ==> limited(ids, Some(k)) == ids,
        k < ids.len() ==> limited(ids, Some(k)).len() == k && forall|i: int|
            0 <= i < k ==> #[trigger] limited(ids, Some(k))[i] == ids[i],
        limited(ids, None) == ids,
{
}

} // verus!
