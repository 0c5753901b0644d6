use mnn::tensor::{checked_element_count, contains_nul, element_count};
use mnn::{
    ErrorCode, InferenceConfig, MnnError, ModuleEngine, NamedInput, NativeOutput, TensorData,
    TensorType,
};

type Module = ModuleEngine<u32>;

#[test]
fn tensor_data_len_and_type() {
    let f = [1.0f32, 2.0, 3.0];
    let i = [1i32, 2];
    let l = [5i64];
    let d = TensorData::F32(&f[..]);
    assert_eq!(d.len(), 3);
    assert_eq!(d.data_type(), TensorType::F32);
    assert_eq!(TensorData::<f32>::I32(&i[..]).len(), 2);
    assert_eq!(TensorData::<f32>::I32(&i[..]).data_type(), TensorType::I32);
    assert_eq!(TensorData::<f32>::I64(&l[..]).len(), 1);
    assert_eq!(TensorData::<f32>::I64(&l[..]).data_type(), TensorType::I64);
    assert_eq!(TensorType::F32.code(), 0);
    assert_eq!(TensorType::I32.code(), 1);
    assert_eq!(TensorType::I64.code(), 2);
}

#[test]
fn element_counts() {
    assert_eq!(element_count(&[]), 1);
    assert_eq!(element_count(&[2, 3, 4]), 24);
    assert_eq!(element_count(&[2, 0, 4]), 0);
    assert_eq!(checked_element_count(&[2, 3, 4]), Some(24));
    assert_eq!(checked_element_count(&[usize::MAX, 2]), None);
    assert_eq!(checked_element_count(&[usize::MAX, 2, 0]), None);
    assert_eq!(checked_element_count(&[0, usize::MAX, 2]), Some(0));
}

#[test]
fn nul_detection() {
    assert!(!contains_nul("input_0"));
    assert!(contains_nul("in\0put"));
    assert!(contains_nul("\0"));
    assert!(!contains_nul(""));
}

#[test]
fn module_from_file_checks() {
    assert_eq!(
        Module::from_file(Some("m.mnn"), &[], &["out"], None),
        Err(MnnError::InvalidParameter(
            "At least one input and output name is required".to_string()
        ))
    );
    assert_eq!(
        Module::from_file(None, &["in"], &[], None),
        Err(MnnError::InvalidParameter(
            "At least one input and output name is required".to_string()
        ))
    );
    assert_eq!(
        Module::from_file(None, &["in"], &["out"], None),
        Err(MnnError::ModelLoadFailed("Model path is not valid UTF-8".to_string()))
    );
    assert_eq!(
        Module::from_file(Some("m\0.mnn"), &["in"], &["out"], None),
        Err(MnnError::ModelLoadFailed(
            "Model path contains an interior NUL byte".to_string()
        ))
    );
    assert_eq!(
        Module::from_file(Some("m.mnn"), &["ok", "i\0n"], &["o\0ut"], None),
        Err(MnnError::InvalidParameter(
            "Input name contains an interior NUL byte: i\0n".to_string()
        ))
    );
    assert_eq!(
        Module::from_file(Some("m.mnn"), &["in"], &["o\0ut"], None),
        Err(MnnError::InvalidParameter(
            "Output name contains an interior NUL byte: o\0ut".to_string()
        ))
    );
    assert_eq!(
        Module::from_file(Some("m.mnn"), &["in"], &["out"], Some(InferenceConfig::new().with_threads(1))),
        Ok(InferenceConfig::new().with_threads(1).to_ffi())
    );
}

#[test]
fn module_open() {
    assert_eq!(
        Module::open(None).err(),
        Some(MnnError::ModelLoadFailed("Module creation failed".to_string()))
    );
    assert_eq!(*Module::open(Some(5)).unwrap().as_ptr(), 5);
}

#[test]
fn named_run_checks() {
    let a = [0.5f32; 6];
    let b = [1i64; 4];
    let good = [
        NamedInput { name: "a", data: TensorData::F32(&a[..]), shape: &[2, 3] },
        NamedInput { name: "b", data: TensorData::I64(&b[..]), shape: &[4] },
    ];
    assert!(Module::named_counts_fit(&good, &["y"]));
    assert_eq!(Module::prepare_named_run(&good, &["y"]), Ok(()));
    assert_eq!(
        Module::prepare_named_run::<f32>(&[], &["y"]),
        Err(MnnError::InvalidParameter("At least one named input is required".to_string()))
    );
    assert_eq!(
        Module::prepare_named_run(&good, &[]),
        Err(MnnError::InvalidParameter("At least one named output is required".to_string()))
    );
    let no_dims = [NamedInput { name: "z", data: TensorData::F32(&a[..]), shape: &[] }];
    assert_eq!(
        Module::prepare_named_run(&no_dims, &["y"]),
        Err(MnnError::InvalidParameter("Invalid shape for input z".to_string()))
    );
    let nine = [NamedInput {
        name: "n",
        data: TensorData::F32(&a[..]),
        shape: &[1, 1, 1, 1, 1, 1, 1, 1, 6],
    }];
    assert_eq!(
        Module::prepare_named_run(&nine, &["y"]),
        Err(MnnError::InvalidParameter("Invalid shape for input n".to_string()))
    );
    let eight = [NamedInput {
        name: "e",
        data: TensorData::F32(&a[..]),
        shape: &[1, 1, 1, 1, 1, 1, 1, 6],
    }];
    assert_eq!(Module::prepare_named_run(&eight, &["y"]), Ok(()));
    let wrong_size = [
        NamedInput { name: "a", data: TensorData::F32(&a[..]), shape: &[2, 3] },
        NamedInput { name: "b", data: TensorData::I64(&b[..]), shape: &[2, 3] },
    ];
    assert_eq!(
        Module::prepare_named_run(&wrong_size, &["y"]),
        Err(MnnError::ShapeMismatch { expected: vec![6], got: vec![4] })
    );
    let bad_name = [NamedInput { name: "a\0", data: TensorData::F32(&a[..]), shape: &[6] }];
    assert_eq!(
        Module::prepare_named_run(&bad_name, &["y\0"]),
        Err(MnnError::InvalidParameter(
            "Input name contains an interior NUL byte: a\0".to_string()
        ))
    );
    assert_eq!(
        Module::prepare_named_run(&good, &["y", "z\0"]),
        Err(MnnError::InvalidParameter(
            "Output name contains an interior NUL byte: z\0".to_string()
        ))
    );
}

#[test]
fn named_counts_overflow() {
    let a = [0.5f32; 1];
    let huge = [NamedInput {
        name: "h",
        data: TensorData::F32(&a[..]),
        shape: &[usize::MAX, 2],
    }];
    assert!(!Module::named_counts_fit(&huge, &["y"]));
    assert!(Module::named_counts_fit(&huge, &[]));
    let bad_first = [
        NamedInput { name: "a", data: TensorData::F32(&a[..]), shape: &[3] },
        NamedInput { name: "h", data: TensorData::F32(&a[..]), shape: &[usize::MAX, 2] },
    ];
    assert!(Module::named_counts_fit(&bad_first, &["y"]));
    assert_eq!(
        Module::prepare_named_run(&bad_first, &["y"]),
        Err(MnnError::ShapeMismatch { expected: vec![3], got: vec![1] })
    );
}

#[test]
fn named_run_outcomes() {
    assert_eq!(Module::finish_named_run(ErrorCode::Success, None), Ok(()));
    assert_eq!(
        Module::finish_named_run(ErrorCode::InvalidParameter, None),
        Err(MnnError::InvalidParameter("Unknown module error".to_string()))
    );
    assert_eq!(
        Module::finish_named_run(ErrorCode::Other(4), Some("fail".to_string())),
        Err(MnnError::RuntimeError("fail".to_string()))
    );
    assert_eq!(
        Module::finish_named_run(ErrorCode::Unsupported, Some("fail".to_string())),
        Err(MnnError::Unsupported)
    );
    assert_eq!(
        Module::finish_named_run(ErrorCode::OutOfMemory, None),
        Err(MnnError::OutOfMemory)
    );
}

fn native(data: Option<Vec<f32>>, count: usize, dims: &[usize]) -> NativeOutput<f32> {
    let mut buf = vec![0usize; 8];
    buf[..dims.len()].copy_from_slice(dims);
    NativeOutput { data, element_count: count, dims: buf, ndims: dims.len() }
}

#[test]
fn collect_outputs() {
    let outs = Module::collect_named_outputs(
        &["p", "q", "r"],
        vec![
            native(Some(vec![1.0, 2.0]), 2, &[1, 2]),
            native(None, 0, &[0]),
            native(Some(vec![]), 0, &[]),
        ],
    )
    .unwrap();
    assert_eq!(outs.len(), 3);
    assert_eq!(outs[0].name, "p");
    assert_eq!(outs[0].data, vec![1.0, 2.0]);
    assert_eq!(outs[0].shape, vec![1, 2]);
    assert_eq!(outs[1].name, "q");
    assert!(outs[1].data.is_empty());
    assert_eq!(outs[1].shape, vec![0]);
    assert_eq!(outs[2].shape, Vec::<usize>::new());
}

#[test]
fn collect_outputs_pairs_shortest() {
    let outs = Module::collect_named_outputs(&["p"], vec![
        native(Some(vec![3.0]), 1, &[1]),
        native(None, 5, &[5]),
    ])
    .unwrap();
    assert_eq!(outs.len(), 1);
    let outs = Module::collect_named_outputs(&["p", "q"], vec![native(Some(vec![3.0]), 1, &[1])]).unwrap();
    assert_eq!(outs.len(), 1);
}

#[test]
fn collect_outputs_missing_buffer() {
    let r = Module::collect_named_outputs(
        &["p", "q", "r"],
        vec![
            native(Some(vec![1.0]), 1, &[1]),
            native(None, 4, &[4]),
            native(None, 3, &[3]),
        ],
    );
    assert_eq!(
        r.err(),
        Some(MnnError::RuntimeError("Named output q returned a null buffer".to_string()))
    );
}
