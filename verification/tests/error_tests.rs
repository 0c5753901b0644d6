use mnn::error::append_decimal;
use mnn::status::{get_last_error_message, get_last_module_error_message, status_result};
use mnn::{get_version, ErrorCode, MnnError};

#[test]
fn messages_of_each_error() {
    assert_eq!(
        MnnError::InvalidParameter("x".to_string()).message(),
        "Invalid parameter: x"
    );
    assert_eq!(MnnError::OutOfMemory.message(), "Out of memory");
    assert_eq!(
        MnnError::RuntimeError("boom".to_string()).message(),
        "Runtime error: boom"
    );
    assert_eq!(MnnError::Unsupported.message(), "Unsupported operation");
    assert_eq!(
        MnnError::ModelLoadFailed("bad".to_string()).message(),
        "Model loading failed: bad"
    );
    assert_eq!(MnnError::NullPointer.message(), "Null pointer");
}

#[test]
fn shape_mismatch_message() {
    let e = MnnError::ShapeMismatch {
        expected: vec![1, 3, 224, 224],
        got: vec![1, 224, 224, 3],
    };
    assert_eq!(
        e.message(),
        "Shape mismatch: expected [1, 3, 224, 224], got [1, 224, 224, 3]"
    );
    let e = MnnError::ShapeMismatch {
        expected: vec![],
        got: vec![0, 10, 100000, usize::MAX],
    };
    assert_eq!(
        e.message(),
        format!("Shape mismatch: expected [], got [0, 10, 100000, {}]", usize::MAX)
    );
}

#[test]
fn decimal_text_matches_std() {
    for n in [0usize, 7, 9, 10, 42, 99, 100, 1234567, usize::MAX] {
        let mut s = String::from("n=");
        append_decimal(&mut s, n);
        assert_eq!(s, format!("n={}", n));
    }
}

#[test]
fn status_without_error() {
    assert_eq!(status_result(ErrorCode::Success, "ignored".to_string(), true), Ok(()));
    assert_eq!(status_result(ErrorCode::Success, "ignored".to_string(), false), Ok(()));
}

#[test]
fn status_errors() {
    assert_eq!(
        status_result(ErrorCode::InvalidParameter, "bad input".to_string(), true),
        Err(MnnError::InvalidParameter("bad input".to_string()))
    );
    assert_eq!(
        status_result(ErrorCode::OutOfMemory, "m".to_string(), false),
        Err(MnnError::OutOfMemory)
    );
    assert_eq!(
        status_result(ErrorCode::Unsupported, "u".to_string(), true),
        Err(MnnError::Unsupported)
    );
    assert_eq!(
        status_result(ErrorCode::Unsupported, "u".to_string(), false),
        Err(MnnError::RuntimeError("u".to_string()))
    );
    assert_eq!(
        status_result(ErrorCode::Other(7), "failed".to_string(), true),
        Err(MnnError::RuntimeError("failed".to_string()))
    );
}

#[test]
fn last_error_texts() {
    assert_eq!(get_last_error_message(None), "Engine creation failed");
    assert_eq!(get_last_error_message(Some(None)), "Unknown error");
    assert_eq!(get_last_error_message(Some(Some("oops".to_string()))), "oops");
    assert_eq!(get_last_module_error_message(None), "Module creation failed");
    assert_eq!(get_last_module_error_message(Some(None)), "Unknown module error");
    assert_eq!(
        get_last_module_error_message(Some(Some("mod".to_string()))),
        "mod"
    );
}

#[test]
fn version_text() {
    assert_eq!(get_version(None), "unknown");
    assert_eq!(get_version(Some("2.9.0".to_string())), "2.9.0");
}
