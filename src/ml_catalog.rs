//! The names of the basic machine-learning algorithms that the engine offers
//! beside its statistics.

use vstd::prelude::*;

verus! {

pub open spec fn ml_names() -> Seq<Seq<char>> {
    seq!["k_means"@, "linear_regression"@, "moving_average"@, "outlier_detection"@, "correlation_analysis"@]
}

/// The basic machine-learning algorithms, in listing order.
pub fn get_supported_algorithms() -> (r: Vec<&'static str>)
    ensures
        r@.map_values(|s: &str| s@) == ml_names(),
{
    let mut v: Vec<&'static str> = Vec::new();
    v.push("k_means");
    v.push("linear_regression");
    v.push("moving_average");
    v.push("outlier_detection");
    v.push("correlation_analysis");
    assert(v@.map_values(|s: &str| s@) =~= ml_names());
    v
}

} // verus!
