use vstd::prelude::*;
use vstd::string::StringExecFns;

verus! {

/// A tensor shape is well formed when it has at least one dimension and
/// every dimension is positive and fits the wire format's 32-bit integers.
pub open spec fn shape_wf(s: Seq<i64>) -> bool {
    s.len() > 0 && forall|i: int| 0 <= i < s.len() ==> 1 <= #[trigger] s[i] <= i32::MAX as i64
}

/// Structured metadata describing the loaded model: the expected input and
/// output tensor shapes and two textual labels. Immutable after load.
#[derive(Debug)]
pub struct ModelDescriptor {
    pub input_shape: Vec<i64>,
    pub output_shape: Vec<i64>,
    pub model_type: String,
    pub framework: String,
}

impl ModelDescriptor {
    pub open spec fn wf(&self) -> bool {
        shape_wf(self.input_shape@) && shape_wf(self.output_shape@)
    }

    /// The per-sample feature count: the trailing dimension of the input shape.
    pub open spec fn spec_feature_width(&self) -> int {
        self.input_shape@.last() as int
    }

    pub fn feature_width(&self) -> (w: usize)
        requires
            self.wf(),
        ensures
            w == self.spec_feature_width(),
    {
        let n = self.input_shape.len();
        let d = self.input_shape[n - 1];
        d as usize
    }
}

/// Whether `d` is the documented default descriptor, used when no metadata
/// sidecar could be read: shapes [5] and [1], a linear regression from sklearn.
pub open spec fn is_default_descriptor(d: ModelDescriptor) -> bool {
    d.input_shape@ =~= seq![5i64] && d.output_shape@ =~= seq![1i64]
        && d.model_type@ == "linear_regression"@ && d.framework@ == "sklearn"@
}

/// The fallback descriptor for when no metadata sidecar is found.
pub fn default_descriptor() -> (d: ModelDescriptor)
    ensures
        is_default_descriptor(d),
        d.wf(),
{
    let mut input_shape: Vec<i64> = Vec::new();
    input_shape.push(5);
    let mut output_shape: Vec<i64> = Vec::new();
    output_shape.push(1);
    let d = ModelDescriptor {
        input_shape,
        output_shape,
        model_type: String::from_str("linear_regression"),
        framework: String::from_str("sklearn"),
    };
    assert(d.input_shape@ =~= seq![5i64]);
    assert(d.output_shape@ =~= seq![1i64]);
    d
}

} // verus!
