use rust_api::descriptor::default_descriptor;
use rust_api::locator::{locate_first, metadata_candidate_paths, model_candidate_paths};
use rust_api::metadata::{load_metadata, parse_descriptor};
use rust_api::errors::EngineError;

const SIDECAR: &str = r#"{"input_shape": [5], "output_shape": [1], "model_type": "linear_regression", "framework": "sklearn"}"#;

#[test]
fn default_descriptor_documented_values() {
    let d = default_descriptor();
    assert_eq!(d.input_shape, vec![5i64]);
    assert_eq!(d.output_shape, vec![1i64]);
    assert_eq!(d.model_type, "linear_regression");
    assert_eq!(d.framework, "sklearn");
}

#[test]
fn candidate_paths_documented_order() {
    let m = model_candidate_paths();
    assert_eq!(
        m,
        vec![
            "/app/model/linear_regression.onnx".to_string(),
            "model/linear_regression.onnx".to_string(),
            "../model/linear_regression.onnx".to_string(),
            "linear_regression.onnx".to_string(),
        ]
    );
    let i = metadata_candidate_paths();
    assert_eq!(
        i,
        vec![
            "/app/model/model_info.json".to_string(),
            "model/model_info.json".to_string(),
            "../model/model_info.json".to_string(),
        ]
    );
}

#[test]
fn locate_first_picks_first_existing() {
    assert_eq!(locate_first(&vec![false, true, true]), Ok(1));
    assert_eq!(locate_first(&vec![true, false]), Ok(0));
}

#[test]
fn locate_first_reports_not_found() {
    assert_eq!(locate_first(&vec![false, false, false]), Err(EngineError::ModelNotFound));
    assert_eq!(locate_first(&vec![]), Err(EngineError::ModelNotFound));
}

#[test]
fn parse_descriptor_reads_sidecar_exactly() {
    let d = parse_descriptor(SIDECAR).expect("sidecar parses");
    assert_eq!(d.input_shape, vec![5i64]);
    assert_eq!(d.output_shape, vec![1i64]);
    assert_eq!(d.model_type, "linear_regression");
    assert_eq!(d.framework, "sklearn");
}

#[test]
fn parse_descriptor_reads_wider_shapes() {
    let text = r#"{"input_shape": [3, 7], "output_shape": [3, 1], "model_type": "mlp", "framework": "torch"}"#;
    let d = parse_descriptor(text).expect("sidecar parses");
    assert_eq!(d.input_shape, vec![3i64, 7]);
    assert_eq!(d.output_shape, vec![3i64, 1]);
    assert_eq!(d.model_type, "mlp");
    assert_eq!(d.framework, "torch");
}

#[test]
fn parse_descriptor_rejects_malformed_json() {
    assert!(parse_descriptor("not json at all").is_none());
    assert!(parse_descriptor("{\"input_shape\": [5,").is_none());
}

#[test]
fn parse_descriptor_rejects_missing_or_ill_typed_members() {
    assert!(parse_descriptor(r#"{"output_shape": [1], "model_type": "a", "framework": "b"}"#).is_none());
    assert!(parse_descriptor(r#"{"input_shape": "5", "output_shape": [1], "model_type": "a", "framework": "b"}"#).is_none());
    assert!(parse_descriptor(r#"{"input_shape": [5], "output_shape": [1], "model_type": 3, "framework": "b"}"#).is_none());
}

#[test]
fn parse_descriptor_rejects_bad_dimensions() {
    assert!(parse_descriptor(r#"{"input_shape": [0], "output_shape": [1], "model_type": "a", "framework": "b"}"#).is_none());
    assert!(parse_descriptor(r#"{"input_shape": [-5], "output_shape": [1], "model_type": "a", "framework": "b"}"#).is_none());
    assert!(parse_descriptor(r#"{"input_shape": [], "output_shape": [1], "model_type": "a", "framework": "b"}"#).is_none());
    assert!(parse_descriptor(r#"{"input_shape": [2147483648], "output_shape": [1], "model_type": "a", "framework": "b"}"#).is_none());
    assert!(parse_descriptor(r#"{"input_shape": [1.5], "output_shape": [1], "model_type": "a", "framework": "b"}"#).is_none());
}

#[test]
fn load_metadata_first_parsed_candidate_wins() {
    let other = r#"{"input_shape": [9], "output_shape": [1], "model_type": "other", "framework": "x"}"#;
    let texts = vec![None, Some(SIDECAR.to_string()), Some(other.to_string())];
    let (d, degraded) = load_metadata(&texts);
    assert!(!degraded);
    assert_eq!(d.input_shape, vec![5i64]);
    assert_eq!(d.model_type, "linear_regression");
}

#[test]
fn load_metadata_skips_malformed_candidates() {
    let texts = vec![Some("{broken".to_string()), Some(SIDECAR.to_string())];
    let (d, degraded) = load_metadata(&texts);
    assert!(!degraded);
    assert_eq!(d.framework, "sklearn");
}

#[test]
fn load_metadata_defaults_when_nothing_is_found() {
    let (d, degraded) = load_metadata(&vec![None, None, None]);
    assert!(degraded);
    assert_eq!(d.input_shape, vec![5i64]);
    assert_eq!(d.output_shape, vec![1i64]);
    assert_eq!(d.model_type, "linear_regression");
    assert_eq!(d.framework, "sklearn");

    let (d2, degraded2) = load_metadata(&vec![Some("junk".to_string())]);
    assert!(degraded2);
    assert_eq!(d2.model_type, "linear_regression");
}
