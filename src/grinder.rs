//! The coordinator of a search: which cores get a worker, and which result
//! a finished run yields.
use crate::args::GrindArgs;
use crate::cores::get_core_ids;
use crate::error::KeytoolError;
use vstd::prelude::*;

verus! {

/// A keypair whose address matched: the address and the secret phrase.
#[derive(Clone, Debug, PartialEq, Eq)]
pub struct Solution(pub String, pub String);

/// Runs searches, one worker per selected core.
pub struct Grinder {}

/// The first present result, in order.
pub open spec fn first_found(results: Seq<Option<Solution>>) -> Option<Solution>
    decreases results.len(),
{
    if results.len() == 0 {
        None
    } else if results[0] is Some {
        results[0]
    } else {
        first_found(results.drop_first())
    }
}

proof fn lemma_first_found_none(results: Seq<Option<Solution>>)
    ensures
        first_found(results) is None <==> forall|i: int|
            0 <= i < results.len() ==> #[trigger] results[i] is None,
    decreases results.len(),
{
    if results.len() > 0 {
        lemma_first_found_none(results.drop_first());
        if first_found(results) is None {
            assert forall|i: int| 0 <= i < results.len() implies #[trigger] results[i] is None by {
                if i > 0 {
                    assert(results[i] == results.drop_first()[i - 1]);
                }
            }
        }
    }
}

impl Grinder {
    pub fn new() -> (r: Self) {
        Grinder {}
    }

    /// The cores to run workers on, given what core selection returned: its
    /// error as it came, an error where no core is left, else the cores.
    pub fn assign_cores(&self, selected: Result<Vec<usize>, KeytoolError>) -> (r: Result<
        Vec<usize>,
        KeytoolError,
    >)
        ensures
            match selected {
                Ok(v) => if v@.len() == 0 {
                    r == Err::<Vec<usize>, KeytoolError>(KeytoolError::NoCoresAvailable)
                } else {
                    r == Ok::<Vec<usize>, KeytoolError>(v)
                },
                Err(e) => r == Err::<Vec<usize>, KeytoolError>(e),
            },
    {
        match selected {
            Ok(v) => {
                if v.len() == 0 {
                    Err(KeytoolError::NoCoresAvailable)
                } else {
                    Ok(v)
                }
            },
            Err(e) => Err(e),
        }
    }

    /// Asks the platform for its cores, keeps as many as the settings allow,
    /// and fails where that leaves none.
    pub fn cores(&self, args: &GrindArgs) -> (r: Result<Vec<usize>, KeytoolError>)
        ensures
            match r {
                Ok(v) => v@.len() >= 1 && (args.cores matches Some(k) ==> v@.len() <= k),
                Err(e) => e == KeytoolError::FailedToFetchCoreCount || e
                    == KeytoolError::NoCoresAvailable,
            },
    {
        self.assign_cores(get_core_ids(args.cores))
    }

    /// The result of a run, from what each worker returned: the first
    /// solution among them, or an error where none was published.
    pub fn collect(&self, results: Vec<Option<Solution>>) -> (r: Result<Solution, KeytoolError>)
        ensures
            match first_found(results@) {
                Some(s) => r == Ok::<Solution, KeytoolError>(s),
                None => r == Err::<Solution, KeytoolError>(KeytoolError::NoSolutionFound),
            },
            r is Ok <==> exists|i: int| 0 <= i < results@.len() && #[trigger] results@[i] is Some,
    {
        let ghost all = results@;
        let mut rest = results;
        let mut found: Option<Solution> = None;
        while rest.len() > 0
            invariant
                rest@.len() <= all.len(),
                rest@ == all.subrange(0, rest@.len() as int),
                found == first_found(all.subrange(rest@.len() as int, all.len() as int)),
            decreases rest@.len(),
        {
            let k = rest.len() - 1;
            let ghost before = all.subrange(k + 1, all.len() as int);
            let ghost after = all.subrange(k as int, all.len() as int);
            let item = rest.pop().unwrap();
            assert(after.drop_first() =~= before);
            assert(after[0] == all[k as int]);
            assert(rest@ =~= all.subrange(0, k as int));
            if item.is_some() {
                found = item;
            }
        }
        assert(all.subrange(0, all.len() as int) =~= all);
        proof {
            lemma_first_found_none(all);
        }
        match found {
            Some(s) => Ok(s),
            None => Err(KeytoolError::NoSolutionFound),
        }
    }
}

} // verus!
