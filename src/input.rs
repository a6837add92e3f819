//! The size rules of the native kernels and of the data generators, checked
//! before any kernel runs.

use vstd::prelude::*;
use vstd::string::StringExecFns;
use crate::dispatch::{EngineError, ErrorKind};
use crate::text::{decimal, owned, push_decimal, str_eq};

verus! {

/// The smallest data size that each native algorithm accepts; `None` for a
/// name that no native kernel implements.
pub open spec fn min_data_len_spec(a: Seq<char>) -> Option<nat> {
    if a == "count"@ || a == "generate_uniform"@ || a == "generate_normal"@ || a
        == "generate_exponential"@ {
        Some(0)
    } else if a == "variance"@ || a == "std"@ || a == "correlation"@ || a == "summary"@ {
        Some(2)
    } else if a == "skewness"@ {
        Some(3)
    } else if a == "kurtosis"@ {
        Some(4)
    } else if a == "mean"@ || a == "median"@ || a == "mode"@ || a == "min"@ || a == "max"@ || a
        == "range"@ || a == "percentile"@ || a == "q1"@ || a == "q3"@ || a == "iqr"@ {
        Some(1)
    } else {
        None
    }
}

/// The smallest data size that the native kernel of `algorithm` accepts.
pub fn min_data_len(algorithm: &str) -> (r: Option<usize>)
    ensures
        match r {
            Some(n) => min_data_len_spec(algorithm@) == Some(n as nat),
            None => min_data_len_spec(algorithm@) is None,
        },
{
    if str_eq(algorithm, "count") || str_eq(algorithm, "generate_uniform") || str_eq(
        algorithm,
        "generate_normal",
    ) || str_eq(algorithm, "generate_exponential") {
        Some(0)
    } else if str_eq(algorithm, "variance") || str_eq(algorithm, "std") || str_eq(
        algorithm,
        "correlation",
    ) || str_eq(algorithm, "summary") {
        Some(2)
    } else if str_eq(algorithm, "skewness") {
        Some(3)
    } else if str_eq(algorithm, "kurtosis") {
        Some(4)
    } else if str_eq(algorithm, "mean") || str_eq(algorithm, "median") || str_eq(algorithm, "mode")
        || str_eq(algorithm, "min") || str_eq(algorithm, "max") || str_eq(algorithm, "range")
        || str_eq(algorithm, "percentile") || str_eq(algorithm, "q1") || str_eq(algorithm, "q3")
        || str_eq(algorithm, "iqr") {
        Some(1)
    } else {
        None
    }
}

/// The detail of a too-small input: `Need at least <n> data points for <a>`.
pub open spec fn too_few_detail(n: nat, a: Seq<char>) -> Seq<char> {
    "Need at least "@ + decimal(n) + " data points for "@ + a
}

/// The outcome of checking an input of `len` points for algorithm `a`.
pub open spec fn input_check_spec(a: Seq<char>, len: nat) -> Option<ErrorKind> {
    match min_data_len_spec(a) {
        None => Some(ErrorKind::NotImplemented),
        Some(m) => if m >= 1 && len == 0 {
            Some(ErrorKind::EmptyData)
        } else if len < m {
            Some(ErrorKind::Validation)
        } else {
            None
        },
    }
}

/// Checks that the native kernel of `algorithm` exists and accepts `data_len`
/// points: empty data fails with `EmptyData` (but for `count` and the
/// generators), too few points with `Validation`.
pub fn check_input(algorithm: &str, data_len: usize) -> (r: Result<(), EngineError>)
    ensures
        match input_check_spec(algorithm@, data_len as nat) {
            None => r is Ok,
            Some(k) => r is Err && r->Err_0.kind == k,
        },
        r is Err && r->Err_0.kind == ErrorKind::Validation ==> r->Err_0.detail@ == too_few_detail(
            min_data_len_spec(algorithm@)->Some_0,
            algorithm@,
        ),
{
    match min_data_len(algorithm) {
        None => {
            let mut detail = owned("algorithm '");
            detail.append(algorithm);
            detail.append("' is not implemented natively");
            Err(EngineError { kind: ErrorKind::NotImplemented, detail })
        },
        Some(m) => {
            if m >= 1 && data_len == 0 {
                Err(EngineError::new(ErrorKind::EmptyData, "Empty data"))
            } else if data_len < m {
                let mut detail = owned("Need at least ");
                push_decimal(&mut detail, m as u64);
                detail.append(" data points for ");
                detail.append(algorithm);
                Err(EngineError { kind: ErrorKind::Validation, detail })
            } else {
                Ok(())
            }
        },
    }
}

/// The largest number of points that one generator call may produce.
pub const MAX_GENERATE_COUNT: u64 = 1000000;

/// A generator accepts between 1 and 1 000 000 points.
pub fn check_generate_count(count: u64) -> (r: Result<(), EngineError>)
    ensures
        r is Ok <==> 1 <= count <= MAX_GENERATE_COUNT,
        r is Err ==> r->Err_0.kind == ErrorKind::Validation,
{
    if count == 0 || count > MAX_GENERATE_COUNT {
        Err(EngineError::new(ErrorKind::Validation, "count must be between 1 and 1000000"))
    } else {
        Ok(())
    }
}

/// The generator algorithm of a distribution name.
pub open spec fn generator_of(distribution: Seq<char>) -> Option<Seq<char>> {
    if distribution == "uniform"@ {
        Some("generate_uniform"@)
    } else if distribution == "normal"@ {
        Some("generate_normal"@)
    } else if distribution == "exponential"@ {
        Some("generate_exponential"@)
    } else {
        None
    }
}

/// The catalog name of the generator for `distribution`, or `Validation` for
/// a distribution that no generator draws from.
pub fn generator_algorithm(distribution: &str) -> (r: Result<&'static str, EngineError>)
    ensures
        match generator_of(distribution@) {
            Some(g) => r is Ok && r->Ok_0@ == g,
            None => r is Err && r->Err_0.kind == ErrorKind::Validation,
        },
{
    if str_eq(distribution, "uniform") {
        Ok("generate_uniform")
    } else if str_eq(distribution, "normal") {
        Ok("generate_normal")
    } else if str_eq(distribution, "exponential") {
        Ok("generate_exponential")
    } else {
        let mut detail = owned("unknown distribution '");
        detail.append(distribution);
        detail.append("'");
        Err(EngineError { kind: ErrorKind::Validation, detail })
    }
}

/// The class of one data value, as the caller finds it.
#[derive(Debug, Clone, Copy, PartialEq, Eq, Structural)]
pub enum ValueClass {
    Finite,
    NaN,
    Infinite,
}

/// Checks data by the classes of its values: empty data fails with
/// `EmptyData`, data that holds NaN or an infinity with `Validation` naming
/// the position of the first such value.
pub fn check_data_quality(classes: &Vec<ValueClass>) -> (r: Result<(), EngineError>)
    ensures
        classes@.len() == 0 ==> r is Err && r->Err_0.kind == ErrorKind::EmptyData,
        classes@.len() > 0 ==> (r is Ok <==> forall|i: int| 0 <= i < classes@.len() ==> classes@[i] == ValueClass::Finite),
        classes@.len() > 0 && r is Err ==> r->Err_0.kind == ErrorKind::Validation && exists|i: int|
            0 <= i < classes@.len() && classes@[i] != ValueClass::Finite && (forall|k: int| 0 <= k < i ==> classes@[k] == ValueClass::Finite)
                && r->Err_0.detail@ == (if classes@[i] == ValueClass::NaN {
                "data holds NaN at position "@
            } else {
                "data holds an infinite value at position "@
            }) + decimal(i as nat),
{
    if classes.len() == 0 {
        return Err(EngineError::new(ErrorKind::EmptyData, "Empty data"));
    }
    let mut i: usize = 0;
    while i < classes.len()
        invariant
            i <= classes@.len(),
            forall|k: int| 0 <= k < i ==> classes@[k] == ValueClass::Finite,
        decreases classes.len() - i,
    {
        match classes[i] {
            ValueClass::Finite => {},
            ValueClass::NaN => {
                let mut detail = owned("data holds NaN at position ");
                push_decimal(&mut detail, i as u64);
                return Err(EngineError { kind: ErrorKind::Validation, detail });
            },
            ValueClass::Infinite => {
                let mut detail = owned("data holds an infinite value at position ");
                push_decimal(&mut detail, i as u64);
                return Err(EngineError { kind: ErrorKind::Validation, detail });
            },
        }
        i = i + 1;
    }
    Ok(())
}

/// The parameter names that a generation request's two bounds fill for a
/// generator: min and max for the uniform one, mean and standard deviation
/// for the normal one, and the rate alone (from the first bound) for the
/// exponential one.
pub open spec fn bound_params_spec(algorithm: Seq<char>) -> (Seq<char>, Option<Seq<char>>) {
    if algorithm == "generate_normal"@ {
        ("mean"@, Some("std_dev"@))
    } else if algorithm == "generate_exponential"@ {
        ("lambda"@, None)
    } else {
        ("min"@, Some("max"@))
    }
}

/// The parameter names that the two bounds of a generation request fill.
pub fn bound_params(algorithm: &str) -> (r: (&'static str, Option<&'static str>))
    ensures
        r.0@ == bound_params_spec(algorithm@).0,
        match r.1 {
            Some(n) => bound_params_spec(algorithm@).1 == Some(n@),
            None => bound_params_spec(algorithm@).1 is None,
        },
{
    if str_eq(algorithm, "generate_normal") {
        ("mean", Some("std_dev"))
    } else if str_eq(algorithm, "generate_exponential") {
        ("lambda", None)
    } else {
        ("min", Some("max"))
    }
}

} // verus!
