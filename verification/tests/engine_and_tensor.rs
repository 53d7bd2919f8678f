use rust_api::engine::{InferenceEngine, RunOutput};
use rust_api::errors::EngineError;
use rust_api::responses::{health_response, model_info_response};

const SIDECAR: &str = r#"{"input_shape": [5], "output_shape": [1], "model_type": "linear_regression", "framework": "sklearn"}"#;

fn default_engine() -> InferenceEngine {
    let (engine, idx) = InferenceEngine::new(&vec![false, true], &vec![None])
        .expect("a model candidate exists");
    assert_eq!(idx, 1);
    engine
}

fn bits(xs: &[f32]) -> Vec<u32> {
    xs.iter().map(|x| x.to_bits()).collect()
}

#[test]
fn construction_fails_exactly_when_no_model_exists() {
    let err = InferenceEngine::new(&vec![false, false], &vec![None]);
    assert!(matches!(err, Err(EngineError::ModelNotFound)));
    assert!(InferenceEngine::new(&vec![], &vec![]).is_err());
    assert!(InferenceEngine::new(&vec![true], &vec![]).is_ok());
}

#[test]
fn construction_degrades_to_default_metadata() {
    let engine = default_engine();
    assert!(engine.is_degraded());
    let d = engine.get_model_info();
    assert_eq!(d.input_shape, vec![5i64]);
    assert_eq!(d.output_shape, vec![1i64]);
    assert_eq!(d.model_type, "linear_regression");
    assert_eq!(d.framework, "sklearn");
    assert_eq!(engine.feature_width(), 5);
}

#[test]
fn construction_takes_a_found_sidecar() {
    let (engine, _) = InferenceEngine::new(&vec![true], &vec![Some(SIDECAR.to_string())])
        .expect("constructs");
    assert!(!engine.is_degraded());
    assert_eq!(engine.get_model_info().model_type, "linear_regression");
}

#[test]
fn prepare_single_accepts_the_expected_width() {
    let engine = default_engine();
    let features = bits(&[1.0, 2.0, 3.0, 4.0, 5.0]);
    let t = engine.prepare_single(&features).expect("width matches");
    assert_eq!(t.rows, 1);
    assert_eq!(t.cols, 5);
    assert_eq!(t.data, features);
}

#[test]
fn prepare_single_rejects_the_wrong_width() {
    let engine = default_engine();
    let r = engine.prepare_single(&bits(&[1.0, 2.0, 3.0]));
    assert_eq!(r.unwrap_err(), EngineError::ShapeMismatch { expected: 5, got: 3 });
}

#[test]
fn prepare_batch_lays_rows_out_in_order() {
    let engine = default_engine();
    let rows = vec![bits(&[1.0, 1.0, 1.0, 1.0, 1.0]), bits(&[2.0, 2.0, 2.0, 2.0, 2.0])];
    let t = engine.prepare_batch(&rows).expect("valid batch");
    assert_eq!(t.rows, 2);
    assert_eq!(t.cols, 5);
    let mut expected = bits(&[1.0; 5]);
    expected.extend_from_slice(&bits(&[2.0; 5]));
    assert_eq!(t.data, expected);
}

#[test]
fn prepare_batch_rejects_empty_ragged_and_wrong_width() {
    let engine = default_engine();
    assert_eq!(engine.prepare_batch(&vec![]).unwrap_err(), EngineError::EmptyBatch);
    let ragged = vec![bits(&[1.0, 2.0, 3.0, 4.0, 5.0]), bits(&[1.0, 2.0])];
    assert_eq!(engine.prepare_batch(&ragged).unwrap_err(), EngineError::RaggedBatch);
    let uniform_wrong = vec![bits(&[1.0, 2.0]), bits(&[3.0, 4.0])];
    assert_eq!(
        engine.prepare_batch(&uniform_wrong).unwrap_err(),
        EngineError::ShapeMismatch { expected: 5, got: 2 }
    );
}

#[test]
fn collect_single_reads_position_zero_zero() {
    let engine = default_engine();
    let out = RunOutput { data: bits(&[42.5]), dims: vec![1, 1] };
    let p = engine.collect_single(&out).expect("usable output");
    assert_eq!(f32::from_bits(p), 42.5);
    assert!(f32::from_bits(p).is_finite());
}

#[test]
fn collect_single_rejects_unusable_output_shapes() {
    let engine = default_engine();
    let flat = RunOutput { data: bits(&[1.0]), dims: vec![1] };
    assert_eq!(engine.collect_single(&flat).unwrap_err(), EngineError::InferenceFailure);
    let wrong_rows = RunOutput { data: bits(&[1.0, 2.0]), dims: vec![2, 1] };
    assert_eq!(engine.collect_single(&wrong_rows).unwrap_err(), EngineError::InferenceFailure);
    let short = RunOutput { data: vec![], dims: vec![1, 1] };
    assert_eq!(engine.collect_single(&short).unwrap_err(), EngineError::InferenceFailure);
}

#[test]
fn collect_batch_keeps_row_order_and_cardinality() {
    let engine = default_engine();
    let out = RunOutput { data: bits(&[10.0, 20.0]), dims: vec![2, 1] };
    let preds = engine.collect_batch(&out, 2).expect("usable output");
    assert_eq!(preds.len(), 2);
    assert_eq!(f32::from_bits(preds[0]), 10.0);
    assert_eq!(f32::from_bits(preds[1]), 20.0);
}

#[test]
fn collect_batch_takes_the_head_of_each_output_row() {
    let engine = default_engine();
    let out = RunOutput { data: bits(&[1.0, 9.0, 9.0, 2.0, 9.0, 9.0]), dims: vec![2, 3] };
    let preds = engine.collect_batch(&out, 2).expect("usable output");
    assert_eq!(preds, bits(&[1.0, 2.0]));
}

#[test]
fn collect_batch_rejects_mismatched_output() {
    let engine = default_engine();
    let wrong_count = RunOutput { data: bits(&[1.0, 2.0, 3.0]), dims: vec![2, 1] };
    assert_eq!(engine.collect_batch(&wrong_count, 2).unwrap_err(), EngineError::InferenceFailure);
    let wrong_batch = RunOutput { data: bits(&[1.0, 2.0]), dims: vec![2, 1] };
    assert_eq!(engine.collect_batch(&wrong_batch, 3).unwrap_err(), EngineError::InferenceFailure);
}

#[test]
fn health_reflects_the_engine_state() {
    let up = health_response(true);
    assert_eq!(up.status, "ok");
    assert!(up.model_loaded);
    let down = health_response(false);
    assert_eq!(down.status, "ok");
    assert!(!down.model_loaded);
}

#[test]
fn model_info_mirrors_the_descriptor() {
    let engine = default_engine();
    let info = model_info_response(engine.get_model_info());
    assert_eq!(info.input_shape, vec![5i32]);
    assert_eq!(info.output_shape, vec![1i32]);
    assert_eq!(info.model_type, "linear_regression");
    assert_eq!(info.framework, "sklearn");
}
