use vstd::prelude::*;
use vstd::string::StringExecFns;

use crate::errors::EngineError;

verus! {

/// Picks the first existing candidate out of an ordered list.
///
/// The caller probes each candidate path (a read-only existence check, done
/// outside the library) and hands the outcomes over in order; `Ok(i)` names
/// the first candidate that exists, `Err(ModelNotFound)` says none does.
pub fn locate_first(exists: &Vec<bool>) -> (r: Result<usize, EngineError>)
    ensures
        match r {
            Ok(i) => i < exists@.len() && exists@[i as int]
                && (forall|j: int| 0 <= j < i ==> !exists@[j]),
            Err(e) => e == EngineError::ModelNotFound
                && (forall|j: int| 0 <= j < exists@.len() ==> !exists@[j]),
        },
{
    let mut i: usize = 0;
    while i < exists.len()
        invariant
            i <= exists@.len(),
            forall|j: int| 0 <= j < i ==> !exists@[j],
        decreases exists@.len() - i,
    {
        if exists[i] {
            return Ok(i);
        }
        i = i + 1;
    }
    Err(EngineError::ModelNotFound)
}

/// The ordered candidate locations of the model artifact, most specific
/// (deployment path) first, most generic (relative path) last.
pub fn model_candidate_paths() -> (r: Vec<String>)
    ensures
        r@.len() == 4,
        r@[0]@ == "/app/model/linear_regression.onnx"@,
        r@[1]@ == "model/linear_regression.onnx"@,
        r@[2]@ == "../model/linear_regression.onnx"@,
        r@[3]@ == "linear_regression.onnx"@,
{
    let mut v: Vec<String> = Vec::new();
    v.push(String::from_str("/app/model/linear_regression.onnx"));
    v.push(String::from_str("model/linear_regression.onnx"));
    v.push(String::from_str("../model/linear_regression.onnx"));
    v.push(String::from_str("linear_regression.onnx"));
    v
}

/// The ordered candidate locations of the metadata sidecar, parallel to the
/// model artifact's locations.
pub fn metadata_candidate_paths() -> (r: Vec<String>)
    ensures
        r@.len() == 3,
        r@[0]@ == "/app/model/model_info.json"@,
        r@[1]@ == "model/model_info.json"@,
        r@[2]@ == "../model/model_info.json"@,
{
    let mut v: Vec<String> = Vec::new();
    v.push(String::from_str("/app/model/model_info.json"));
    v.push(String::from_str("model/model_info.json"));
    v.push(String::from_str("../model/model_info.json"));
    v
}

} // verus!
