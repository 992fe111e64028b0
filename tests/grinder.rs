use sui_address_grinder::args::GrindArgs;
use sui_address_grinder::error::KeytoolError;
use sui_address_grinder::grind::Keytool;
use sui_address_grinder::grinder::{Grinder, Solution};

fn solution(a: &str) -> Solution {
    Solution(a.to_string(), format!("secret of {}", a))
}

#[test]
fn collect_returns_the_first_solution() {
    let g = Grinder::new();
    let r = g.collect(vec![None, Some(solution("0xaa")), None, Some(solution("0xbb"))]);
    assert_eq!(r, Ok(solution("0xaa")));
}

#[test]
fn collect_without_solution_is_an_error() {
    let g = Grinder::new();
    assert_eq!(g.collect(vec![None, None, None]), Err(KeytoolError::NoSolutionFound));
    assert_eq!(g.collect(vec![]), Err(KeytoolError::NoSolutionFound));
}

#[test]
fn no_cores_is_an_error() {
    let g = Grinder::new();
    assert_eq!(g.assign_cores(Ok(vec![])), Err(KeytoolError::NoCoresAvailable));
    assert_eq!(g.assign_cores(Ok(vec![3, 1])), Ok(vec![3, 1]));
    assert_eq!(
        g.assign_cores(Err(KeytoolError::FailedToFetchCoreCount)),
        Err(KeytoolError::FailedToFetchCoreCount)
    );
}

#[test]
fn zero_core_limit_leaves_no_worker() {
    let g = Grinder::new();
    let args = GrindArgs { cores: Some(0), ..Default::default() };
    let r = g.cores(&args);
    assert!(
        r == Err(KeytoolError::NoCoresAvailable) || r == Err(KeytoolError::FailedToFetchCoreCount)
    );
    let _ = Keytool::new();
}
