use vstd::prelude::*;

use crate::descriptor::{is_default_descriptor, ModelDescriptor};
use crate::errors::EngineError;
use crate::locator::locate_first;
use crate::metadata::load_metadata;
use crate::tensor::{flatten_rows, extract_first_column, first_column, row_major, uniform_rows, valid_batch, views_of};

verus! {

/// A tensor ready for one execution of the model: the row-major buffer of
/// 32-bit float bit patterns, to be viewed under the shape [rows, cols].
#[derive(Debug)]
pub struct PreparedTensor {
    pub data: Vec<u32>,
    pub rows: usize,
    pub cols: usize,
}

impl PreparedTensor {
    pub open spec fn wf(&self) -> bool {
        self.rows >= 1 && self.cols >= 1 && self.data@.len() == self.rows * self.cols
    }
}

/// What one execution of the model handed back: the first output tensor's
/// elements as 32-bit float bit patterns, flat, under the shape the runtime
/// declared for that output.
#[derive(Debug)]
pub struct RunOutput {
    pub data: Vec<u32>,
    pub dims: Vec<usize>,
}

/// A usable reply to a `batch`-row request: a two-dimensional [batch, m]
/// output, m at least one column, with exactly the declared element count.
pub open spec fn output_wf(out: RunOutput, batch: int) -> bool {
    out.dims@.len() == 2 && out.dims@[0] == batch && out.dims@[1] >= 1
        && out.data@.len() == batch * out.dims@[1]
}

/// The engine's state as the request handlers share it: the model's
/// descriptor and whether the metadata fallback had to stand in. It is
/// immutable after construction. The runtime session lives with the process
/// that drives the model; the engine decides and checks everything around
/// each execution, so an execution is attempted exactly on the tensors the
/// engine prepared.
pub struct InferenceEngine {
    descriptor: ModelDescriptor,
    degraded: bool,
}

impl InferenceEngine {
    pub closed spec fn spec_descriptor(&self) -> ModelDescriptor {
        self.descriptor
    }

    pub closed spec fn spec_degraded(&self) -> bool {
        self.degraded
    }

    pub open spec fn wf(&self) -> bool {
        self.spec_descriptor().wf()
    }

    /// The model's per-sample input width.
    pub open spec fn spec_width(&self) -> int {
        self.spec_descriptor().spec_feature_width()
    }

    /// Construction decisions, in the locator's and loader's order: the
    /// first existing model artifact candidate is picked (`Ok` carries its
    /// index, for the caller to open), and metadata loading always
    /// succeeds, degrading to the default descriptor when no sidecar text
    /// parses. Fails exactly when no candidate model artifact exists; the
    /// engine is then not constructed at all.
    pub fn new(model_exists: &Vec<bool>, sidecar_texts: &Vec<Option<String>>) -> (r: Result<
        (InferenceEngine, usize),
        EngineError,
    >)
        ensures
            match r {
                Ok((eng, idx)) => eng.wf() && idx < model_exists@.len()
                    && model_exists@[idx as int]
                    && (forall|j: int| 0 <= j < idx ==> !model_exists@[j])
                    && (eng.spec_degraded() ==> is_default_descriptor(eng.spec_descriptor()))
                    && ((forall|i: int|
                        0 <= i < sidecar_texts@.len() ==> (#[trigger] sidecar_texts@[i]) is None)
                        ==> eng.spec_degraded())
                    && (!eng.spec_degraded() ==> exists|i: int|
                        0 <= i < sidecar_texts@.len() && (#[trigger] sidecar_texts@[i]) is Some),
                Err(e) => e == EngineError::ModelNotFound
                    && forall|j: int| 0 <= j < model_exists@.len() ==> !model_exists@[j],
            },
    {
        let idx = match locate_first(model_exists) {
            Ok(i) => i,
            Err(e) => {
                return Err(e);
            },
        };
        let (descriptor, degraded) = load_metadata(sidecar_texts);
        Ok((InferenceEngine { descriptor, degraded }, idx))
    }

    /// The loaded descriptor, for introspection; a pure read.
    pub fn get_model_info(&self) -> (r: &ModelDescriptor)
        ensures
            *r == self.spec_descriptor(),
    {
        &self.descriptor
    }

    /// Whether the default descriptor had to stand in for a sidecar.
    pub fn is_degraded(&self) -> (r: bool)
        ensures
            r == self.spec_degraded(),
    {
        self.degraded
    }

    /// The model's per-sample input width, as the descriptor declares it.
    pub fn feature_width(&self) -> (w: usize)
        requires
            self.wf(),
        ensures
            w == self.spec_width(),
    {
        self.descriptor.feature_width()
    }

    /// Shape-checks one feature vector and lays out its [1, width] tensor.
    /// Succeeds exactly when the vector is as wide as the model's input;
    /// a mismatch is reported before any execution could take place.
    pub fn prepare_single(&self, features: &Vec<u32>) -> (r: Result<PreparedTensor, EngineError>)
        requires
            self.wf(),
        ensures
            match r {
                Ok(t) => features@.len() == self.spec_width() && t.wf() && t.rows == 1
                    && t.cols == self.spec_width() && t.data@ == features@,
                Err(e) => features@.len() != self.spec_width() && e == (EngineError::ShapeMismatch {
                    expected: self.spec_width() as usize,
                    got: features@.len() as usize,
                }),
            },
    {
        let w = self.feature_width();
        if features.len() != w {
            return Err(EngineError::ShapeMismatch { expected: w, got: features.len() });
        }
        let mut data: Vec<u32> = Vec::new();
        let mut i: usize = 0;
        while i < features.len()
            invariant
                i <= features@.len(),
                data@ =~= features@.take(i as int),
            decreases features@.len() - i,
        {
            data.push(features[i]);
            i = i + 1;
        }
        proof {
            assert(data@ =~= features@);
        }
        Ok(PreparedTensor { data, rows: 1, cols: w })
    }

    /// Validates a batch and lays out its [batch, width] row-major tensor.
    /// An empty batch and ragged rows are rejected before any layout work;
    /// a uniform batch of the wrong width is a shape mismatch. Succeeds
    /// exactly on a non-empty batch whose rows all have the model's input
    /// width, and then carries the batch row for row, in order.
    pub fn prepare_batch(&self, rows: &Vec<Vec<u32>>) -> (r: Result<PreparedTensor, EngineError>)
        requires
            self.wf(),
            rows@.len() * self.spec_width() <= usize::MAX,
        ensures
            match r {
                Ok(t) => valid_batch(views_of(rows@), self.spec_width()) && t.wf() && t.rows
                    == rows@.len() && t.cols == self.spec_width() && t.data@ == row_major(
                    views_of(rows@),
                    self.spec_width(),
                ),
                Err(e) => match e {
                    EngineError::EmptyBatch => rows@.len() == 0,
                    EngineError::RaggedBatch => rows@.len() > 0 && !uniform_rows(views_of(rows@)),
                    EngineError::ShapeMismatch { expected, got } => rows@.len() > 0
                        && uniform_rows(views_of(rows@)) && got == rows@[0]@.len() && expected
                        == self.spec_width() as usize && got != expected,
                    _ => false,
                },
            },
    {
        let n = rows.len();
        if n == 0 {
            return Err(EngineError::EmptyBatch);
        }
        let w0 = rows[0].len();
        let mut i: usize = 1;
        while i < n
            invariant
                n == rows@.len(),
                1 <= i <= n,
                w0 == rows@[0]@.len(),
                forall|j: int| 0 <= j < i ==> (#[trigger] rows@[j])@.len() == w0,
            decreases n - i,
        {
            if rows[i].len() != w0 {
                proof {
                    assert(views_of(rows@)[i as int] == rows@[i as int]@);
                    assert(views_of(rows@)[0] == rows@[0]@);
                }
                return Err(EngineError::RaggedBatch);
            }
            i = i + 1;
        }
        let w = self.feature_width();
        if w0 != w {
            return Err(EngineError::ShapeMismatch { expected: w, got: w0 });
        }
        let data = flatten_rows(rows, w);
        proof {
            assert(valid_batch(views_of(rows@), self.spec_width()));
        }
        Ok(PreparedTensor { data, rows: n, cols: w })
    }

    /// Reads the model's reply to a single-row request: the output must be
    /// a usable [1, m] buffer, and the prediction is its first value, the
    /// scalar at position [0, 0]. Any other reply is an inference failure.
    pub fn collect_single(&self, out: &RunOutput) -> (r: Result<u32, EngineError>)
        ensures
            match r {
                Ok(p) => output_wf(*out, 1) && p == out.data@[0],
                Err(e) => e == EngineError::InferenceFailure && !output_wf(*out, 1),
            },
    {
        if out.dims.len() != 2 {
            return Err(EngineError::InferenceFailure);
        }
        let m = out.dims[1];
        if out.dims[0] != 1 || m < 1 || out.data.len() != m {
            return Err(EngineError::InferenceFailure);
        }
        Ok(out.data[0])
    }

    /// Reads the model's reply to a `batch`-row request: the output must be
    /// a usable [batch, m] buffer; the predictions are then the head of
    /// each output row, one per input row and in the original row order.
    /// Any other reply is an inference failure.
    pub fn collect_batch(&self, out: &RunOutput, batch: usize) -> (r: Result<
        Vec<u32>,
        EngineError,
    >)
        ensures
            match r {
                Ok(preds) => output_wf(*out, batch as int) && preds@.len() == batch && preds@
                    == first_column(out.data@, batch as int, out.dims@[1] as int) && forall|i: int|
                    0 <= i < batch ==> preds@[i] == out.data@[i * (out.dims@[1] as int)],
                Err(e) => e == EngineError::InferenceFailure && !output_wf(*out, batch as int),
            },
    {
        if out.dims.len() != 2 {
            return Err(EngineError::InferenceFailure);
        }
        let m = out.dims[1];
        if out.dims[0] != batch || m < 1 {
            return Err(EngineError::InferenceFailure);
        }
        let dl = out.data.len();
        let total = match batch.checked_mul(m) {
            Some(t) => t,
            None => {
                proof {
                    assert(out.data@.len() <= usize::MAX);
                }
                return Err(EngineError::InferenceFailure);
            },
        };
        if dl != total {
            return Err(EngineError::InferenceFailure);
        }
        let preds = extract_first_column(&out.data, batch, m);
        Ok(preds)
    }
}

} // verus!
