use vstd::prelude::*;
use vstd::string::StringExecFns;

use crate::descriptor::ModelDescriptor;
use crate::descriptor::shape_wf;

verus! {

/// Wire shape of the health endpoint's reply.
pub struct HealthResponse {
    pub status: String,
    pub model_loaded: bool,
}

/// Wire shape of the model-introspection endpoint's reply.
pub struct ModelInfoResponse {
    pub input_shape: Vec<i32>,
    pub output_shape: Vec<i32>,
    pub model_type: String,
    pub framework: String,
}

/// The health reply: status is always the literal "ok"; `model_loaded`
/// reflects the engine's actual construction state as the caller saw it.
pub fn health_response(model_loaded: bool) -> (r: HealthResponse)
    ensures
        r.status@ == "ok"@,
        r.model_loaded == model_loaded,
{
    HealthResponse { status: String::from_str("ok"), model_loaded }
}

/// Narrows well-formed shape dimensions to the wire format's 32-bit
/// integers; well-formedness bounds every dimension, so nothing is lost.
fn narrow_shape(s: &Vec<i64>) -> (r: Vec<i32>)
    requires
        shape_wf(s@),
    ensures
        r@.len() == s@.len(),
        forall|i: int| 0 <= i < s@.len() ==> r@[i] == s@[i] as i32,
{
    let mut r: Vec<i32> = Vec::new();
    let mut i: usize = 0;
    while i < s.len()
        invariant
            shape_wf(s@),
            i <= s@.len(),
            r@.len() == i as int,
            forall|j: int| 0 <= j < i ==> r@[j] == s@[j] as i32,
        decreases s@.len() - i,
    {
        let d = s[i];
        r.push(d as i32);
        i = i + 1;
    }
    r
}

/// The introspection reply, mirroring the descriptor exactly: the shapes
/// dimension for dimension, the labels character for character.
pub fn model_info_response(d: &ModelDescriptor) -> (r: ModelInfoResponse)
    requires
        d.wf(),
    ensures
        r.input_shape@.len() == d.input_shape@.len(),
        forall|i: int| 0 <= i < d.input_shape@.len() ==> r.input_shape@[i] == d.input_shape@[i] as i32,
        r.output_shape@.len() == d.output_shape@.len(),
        forall|i: int| 0 <= i < d.output_shape@.len()
            ==> r.output_shape@[i] == d.output_shape@[i] as i32,
        r.model_type@ == d.model_type@,
        r.framework@ == d.framework@,
{
    ModelInfoResponse {
        input_shape: narrow_shape(&d.input_shape),
        output_shape: narrow_shape(&d.output_shape),
        model_type: d.model_type.clone(),
        framework: d.framework.clone(),
    }
}

} // verus!
