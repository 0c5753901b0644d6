//! Engines, shared runtimes and session pools: the decisions taken around each native call.
//!
//! The handle of a native object is a type parameter: the library keeps it and hands
//! it back, and the caller, who makes the native calls, gives it its meaning.
use vstd::prelude::*;
use crate::config::{InferenceConfig, NativeConfig};
use crate::error::{error_of, ErrorView, MnnError, Result};
use crate::status::{
    get_last_error_message, spec_last_error_message, spec_status_error, status_result, ErrorCode,
};
use crate::tensor::{any_dim_above, element_count, has_dim_above, product_fits, shape_product, contains_nul, has_nul, leading_dims, same_shape};

verus! {

/// A dimension above this size marks a shape that is only known when the model runs.
pub const DYNAMIC_DIM_THRESHOLD: usize = 100000;

/// What the native side reports when asked for a shape: a status, a buffer of
/// dimensions and how many of them are in use.
#[derive(Debug, Clone)]
pub struct ShapeReport {
    pub code: ErrorCode,
    pub dims: Vec<usize>,
    pub ndims: usize,
}

impl ShapeReport {
    /// The shape the report gives: the first `ndims` dimensions of the buffer, or the
    /// whole buffer where `ndims` exceeds it.
    pub open spec fn shape(self) -> Seq<usize> {
        if self.ndims <= self.dims@.len() {
            self.dims@.take(self.ndims as int)
        } else {
            self.dims@
        }
    }
}

/// The shape a report gives, or a runtime error with text `failure` where the query failed.
fn shape_from_report(report: ShapeReport, failure: &str) -> (r: Result<Vec<usize>>)
    ensures
        r is Ok <==> report.code == ErrorCode::Success,
        error_of(r) matches Some(e) ==> e == ErrorView::RuntimeError(failure@),
        r matches Ok(shape) ==> shape@ == report.shape(),
        r matches Ok(shape) ==> (if report.ndims <= report.dims@.len() {
            shape@.len() == report.ndims && shape@ == report.dims@.subrange(0, report.ndims as int)
        } else {
            shape@ == report.dims@
        }),
{
    if report.code != ErrorCode::Success {
        return Err(MnnError::RuntimeError(String::from_str(failure)));
    }
    let mut shape = report.dims;
    shape.truncate(report.ndims);
    Ok(shape)
}

/// The error for an input whose shape is not the one the model takes.
pub open spec fn spec_shape_check(
    expected: Seq<usize>,
    given: Seq<usize>,
    contiguous: bool,
) -> Option<ErrorView> {
    if given != expected {
        Some(ErrorView::ShapeMismatch { expected: expected, got: given })
    } else if !contiguous {
        Some(ErrorView::InvalidParameter("Input data must be contiguous"@))
    } else {
        None
    }
}

/// The error for a model buffer that holds nothing.
pub open spec fn spec_empty_model_error() -> ErrorView {
    ErrorView::InvalidParameter("Model data is empty"@)
}

/// The error, if any, for the path of a model file; `None` for a path that is not UTF-8.
pub open spec fn spec_path_error(model_path: Option<Seq<char>>) -> Option<ErrorView> {
    match model_path {
        None => Some(ErrorView::ModelLoadFailed("Model path is not valid UTF-8"@)),
        Some(p) => if has_nul(p) {
            Some(ErrorView::ModelLoadFailed("Model path contains an interior NUL byte"@))
        } else {
            None
        },
    }
}

/// The view of an optional path.
pub open spec fn path_view(model_path: Option<&str>) -> Option<Seq<char>> {
    match model_path {
        Some(p) => Some(p@),
        None => None,
    }
}

/// Checks an input against the shape the model takes and its layout.
fn check_input(expected: &Vec<usize>, given: &[usize], contiguous: bool) -> (r: Result<()>)
    ensures
        error_of(r) == spec_shape_check(expected@, given@, contiguous),
{
    if !same_shape(given, expected.as_slice()) {
        let expected_copy = leading_dims(expected.as_slice(), expected.len());
        let given_copy = leading_dims(given, given.len());
        assert(expected@.take(expected@.len() as int) =~= expected@);
        assert(given@.take(given@.len() as int) =~= given@);
        return Err(MnnError::ShapeMismatch { expected: expected_copy, got: given_copy });
    }
    if !contiguous {
        return Err(MnnError::InvalidParameter(String::from_str("Input data must be contiguous")));
    }
    Ok(())
}

/// Checks the path of a model file; `None` stands for a path that is not UTF-8.
pub fn check_model_path(model_path: Option<&str>) -> (r: Result<()>)
    ensures
        error_of(r) == spec_path_error(path_view(model_path)),
{
    match model_path {
        None => Err(MnnError::ModelLoadFailed(String::from_str("Model path is not valid UTF-8"))),
        Some(p) => {
            if contains_nul(p) {
                Err(
                    MnnError::ModelLoadFailed(
                        String::from_str("Model path contains an interior NUL byte"),
                    ),
                )
            } else {
                Ok(())
            }
        },
    }
}

/// The error for an output that could not be put in the shape the engine gave;
/// `detail` describes the mismatch.
pub fn output_array_error(detail: String) -> (e: MnnError)
    ensures
        e@ == ErrorView::RuntimeError("Failed to create output array: "@ + detail@),
{
    let mut text = String::from_str("Failed to create output array: ");
    text.append(detail.as_str());
    MnnError::RuntimeError(text)
}

/// A runtime shared by several engines.
pub struct SharedRuntime<H> {
    ptr: H,
}

impl<H> SharedRuntime<H> {
    /// The handle of the native runtime.
    pub closed spec fn handle(&self) -> H {
        self.ptr
    }

    /// Takes the runtime the native side created, `None` where it created none.
    pub fn new(created: Option<H>) -> (r: Result<Self>)
        ensures
            created is None <==> r is Err,
            r matches Ok(rt) ==> rt.handle() == created->0,
            error_of(r) matches Some(e) ==> e == ErrorView::RuntimeError(
                "Create shared runtime failed"@,
            ),
    {
        match created {
            Some(ptr) => Ok(SharedRuntime { ptr }),
            None => Err(MnnError::RuntimeError(String::from_str("Create shared runtime failed"))),
        }
    }

    pub fn as_ptr(&self) -> (p: &H)
        ensures
            *p == self.handle(),
    {
        &self.ptr
    }
}

/// An engine that runs one model with fixed input and output shapes.
pub struct InferenceEngine<H> {
    ptr: H,
    input_shape: Vec<usize>,
    output_shape: Vec<usize>,
}

impl<H> InferenceEngine<H> {
    /// The handle of the native engine.
    pub closed spec fn handle(&self) -> H {
        self.ptr
    }

    /// The shape of the model's input.
    pub closed spec fn spec_input_shape(&self) -> Seq<usize> {
        self.input_shape@
    }

    /// The shape of the model's output.
    pub closed spec fn spec_output_shape(&self) -> Seq<usize> {
        self.output_shape@
    }

    /// Checks a model held in memory and gives the settings the native engine is
    /// created with.
    pub fn from_buffer(model_buffer: &[u8], config: Option<InferenceConfig>) -> (r: Result<
        NativeConfig,
    >)
        ensures
            model_buffer@.len() == 0 <==> r is Err,
            error_of(r) matches Some(e) ==> e == spec_empty_model_error(),
            r matches Ok(n) ==> n == InferenceConfig::spec_or_default(config).spec_to_ffi(),
    {
        if model_buffer.len() == 0 {
            return Err(MnnError::InvalidParameter(String::from_str("Model data is empty")));
        }
        Ok(InferenceConfig::native_or_default(config))
    }

    /// Checks the path of a model file and gives the settings the native engine is
    /// created with. `None` stands for a path that is not UTF-8.
    pub fn from_file(model_path: Option<&str>, config: Option<InferenceConfig>) -> (r: Result<
        NativeConfig,
    >)
        ensures
            error_of(r) == spec_path_error(path_view(model_path)),
            r matches Ok(n) ==> n == InferenceConfig::spec_or_default(config).spec_to_ffi(),
    {
        check_model_path(model_path)?;
        Ok(InferenceConfig::native_or_default(config))
    }

    /// Checks a model held in memory that is to run on a shared runtime, and gives
    /// the runtime's handle for the native call.
    pub fn from_buffer_with_runtime<'r, R>(model_buffer: &[u8], runtime: &'r SharedRuntime<R>) -> (r:
        Result<&'r R>)
        ensures
            model_buffer@.len() == 0 <==> r is Err,
            error_of(r) matches Some(e) ==> e == spec_empty_model_error(),
            r matches Ok(h) ==> *h == runtime.handle(),
    {
        if model_buffer.len() == 0 {
            return Err(MnnError::InvalidParameter(String::from_str("Model data is empty")));
        }
        Ok(runtime.as_ptr())
    }

    /// Takes the engine the native side created, `None` where it created none.
    pub fn accept_created(created: Option<H>) -> (r: Result<H>)
        ensures
            created is None <==> r is Err,
            r matches Ok(h) ==> h == created->0,
            error_of(r) matches Some(e) ==> e == ErrorView::ModelLoadFailed(
                spec_last_error_message(None),
            ),
    {
        match created {
            Some(h) => Ok(h),
            None => Err(MnnError::ModelLoadFailed(get_last_error_message(None))),
        }
    }

    /// The input shape from what the native engine reported of it. Only after it is
    /// accepted is the engine asked for its output shape.
    pub fn accept_input_shape(input: ShapeReport) -> (r: Result<Vec<usize>>)
        ensures
            r is Ok <==> input.code == ErrorCode::Success,
            error_of(r) matches Some(e) ==> e == ErrorView::RuntimeError(
                "Failed to get input shape"@,
            ),
            r matches Ok(shape) ==> shape@ == input.shape(),
            r matches Ok(shape) ==> (if input.ndims <= input.dims@.len() {
                shape@.len() == input.ndims && shape@ == input.dims@.subrange(0, input.ndims as int)
            } else {
                shape@ == input.dims@
            }),
    {
        shape_from_report(input, "Failed to get input shape")
    }

    /// The output shape from what the native engine reported of it.
    pub fn accept_output_shape(output: ShapeReport) -> (r: Result<Vec<usize>>)
        ensures
            r is Ok <==> output.code == ErrorCode::Success,
            error_of(r) matches Some(e) ==> e == ErrorView::RuntimeError(
                "Failed to get output shape"@,
            ),
            r matches Ok(shape) ==> shape@ == output.shape(),
            r matches Ok(shape) ==> (if output.ndims <= output.dims@.len() {
                shape@.len() == output.ndims && shape@ == output.dims@.subrange(0, output.ndims as int)
            } else {
                shape@ == output.dims@
            }),
    {
        shape_from_report(output, "Failed to get output shape")
    }

    /// Builds the engine from the handle of a created native engine, its accepted
    /// input shape and what it reported of its output shape.
    pub fn open(ptr: H, input_shape: Vec<usize>, output: ShapeReport) -> (r: Result<Self>)
        ensures
            r is Ok <==> output.code == ErrorCode::Success,
            error_of(r) matches Some(e) ==> e == ErrorView::RuntimeError(
                "Failed to get output shape"@,
            ),
            r matches Ok(e) ==> e.handle() == ptr && e.spec_input_shape() == input_shape@
                && e.spec_output_shape() == output.shape(),
            r matches Ok(e) ==> (if output.ndims <= output.dims@.len() {
                e.spec_output_shape().len() == output.ndims && e.spec_output_shape()
                    == output.dims@.subrange(0, output.ndims as int)
            } else {
                e.spec_output_shape() == output.dims@
            }),
    {
        let output_shape = Self::accept_output_shape(output)?;
        Ok(InferenceEngine { ptr, input_shape, output_shape })
    }

    pub fn input_shape(&self) -> (s: &[usize])
        ensures
            s@ == self.spec_input_shape(),
    {
        self.input_shape.as_slice()
    }

    pub fn output_shape(&self) -> (s: &[usize])
        ensures
            s@ == self.spec_output_shape(),
    {
        self.output_shape.as_slice()
    }

    /// The handle of the native engine.
    pub fn as_ptr(&self) -> (p: &H)
        ensures
            *p == self.handle(),
    {
        &self.ptr
    }

    /// Whether some input or output dimension is above `DYNAMIC_DIM_THRESHOLD`, the mark
    /// of a dimension that is only fixed when the model runs.
    pub fn has_dynamic_shape(&self) -> (b: bool)
        ensures
            b == (has_dim_above(self.spec_input_shape(), DYNAMIC_DIM_THRESHOLD) || has_dim_above(
                self.spec_output_shape(),
                DYNAMIC_DIM_THRESHOLD,
            )),
            b <==> ((exists|j: int|
                0 <= j < self.spec_input_shape().len() && #[trigger] self.spec_input_shape()[j]
                    > DYNAMIC_DIM_THRESHOLD) || (exists|j: int|
                0 <= j < self.spec_output_shape().len() && #[trigger] self.spec_output_shape()[j]
                    > DYNAMIC_DIM_THRESHOLD)),
    {
        let in_dynamic = any_dim_above(self.input_shape.as_slice(), DYNAMIC_DIM_THRESHOLD);
        let out_dynamic = any_dim_above(self.output_shape.as_slice(), DYNAMIC_DIM_THRESHOLD);
        proof {
            let si = self.spec_input_shape();
            let so = self.spec_output_shape();
            if in_dynamic {
                let j = choose|j: int| 0 <= j < si.len() && si[j] > DYNAMIC_DIM_THRESHOLD;
                assert(si[j] > DYNAMIC_DIM_THRESHOLD);
            }
            if out_dynamic {
                let j = choose|j: int| 0 <= j < so.len() && so[j] > DYNAMIC_DIM_THRESHOLD;
                assert(so[j] > DYNAMIC_DIM_THRESHOLD);
            }
        }
        in_dynamic || out_dynamic
    }

    /// Checks an input before a run: it must have the model's input shape and lie
    /// contiguously in memory.
    pub fn prepare_run(&self, input_shape: &[usize], contiguous: bool) -> (r: Result<()>)
        ensures
            error_of(r) == spec_shape_check(self.spec_input_shape(), input_shape@, contiguous),
    {
        check_input(&self.input_shape, input_shape, contiguous)
    }

    /// The outcome of a run from the native status; `reported` is the engine's last
    /// error text, `None` where it gave none.
    pub fn finish_run(code: ErrorCode, reported: Option<String>) -> (r: Result<()>)
        ensures
            error_of(r) == spec_status_error(code, spec_last_error_message(Some(reported)), true),
    {
        status_result(code, get_last_error_message(Some(reported)), true)
    }
    /// Checks the buffers of a run on flat memory: the input must hold as many
    /// elements as the input shape and the output room for as many as the output shape.
    pub fn prepare_raw_run(&self, input_len: usize, output_len: usize) -> (r: Result<()>)
        requires
            product_fits(self.spec_input_shape()),
            product_fits(self.spec_output_shape()),
        ensures
            error_of(r) == spec_raw_buffer_check(
                shape_product(self.spec_input_shape()),
                shape_product(self.spec_output_shape()),
                input_len,
                output_len,
            ),
    {
        let expected_input = element_count(self.input_shape.as_slice());
        let expected_output = element_count(self.output_shape.as_slice());
        if input_len != expected_input {
            return Err(
                MnnError::ShapeMismatch { expected: single(expected_input), got: single(input_len) },
            );
        }
        if output_len != expected_output {
            return Err(
                MnnError::ShapeMismatch { expected: single(expected_output), got: single(output_len) },
            );
        }
        Ok(())
    }

    /// The outcome of a run on flat memory from the native status; an `Unsupported`
    /// status counts as a runtime error here.
    pub fn finish_raw_run(code: ErrorCode, reported: Option<String>) -> (r: Result<()>)
        ensures
            error_of(r) == spec_status_error(code, spec_last_error_message(Some(reported)), false),
    {
        status_result(code, get_last_error_message(Some(reported)), false)
    }

    /// Checks an input before a run whose shapes are fixed by the input: it must lie
    /// contiguously in memory.
    pub fn prepare_dynamic_run(contiguous: bool) -> (r: Result<()>)
        ensures
            contiguous <==> r is Ok,
            error_of(r) matches Some(e) ==> e == ErrorView::InvalidParameter(
                "Input data must be contiguous"@,
            ),
    {
        if !contiguous {
            return Err(MnnError::InvalidParameter(String::from_str("Input data must be contiguous")));
        }
        Ok(())
    }

    /// The outcome of a run whose shapes are fixed by the input: on success, the output
    /// shape, the first `ndims` entries of `dims`.
    pub fn finish_dynamic_run(code: ErrorCode, reported: Option<String>, dims: &[usize], ndims: usize) -> (r:
        Result<Vec<usize>>)
        requires
            code == ErrorCode::Success ==> ndims <= dims@.len(),
        ensures
            error_of(r) == spec_status_error(code, spec_last_error_message(Some(reported)), true),
            r matches Ok(shape) ==> shape@ == dims@.take(ndims as int),
    {
        dynamic_outcome(code, reported, dims, ndims, true)
    }

    /// As `finish_dynamic_run`, for a run on flat memory: an `Unsupported` status
    /// counts as a runtime error here.
    pub fn finish_dynamic_raw_run(code: ErrorCode, reported: Option<String>, dims: &[usize], ndims: usize) -> (r:
        Result<Vec<usize>>)
        requires
            code == ErrorCode::Success ==> ndims <= dims@.len(),
        ensures
            error_of(r) == spec_status_error(code, spec_last_error_message(Some(reported)), false),
            r matches Ok(shape) ==> shape@ == dims@.take(ndims as int),
    {
        dynamic_outcome(code, reported, dims, ndims, false)
    }
}

/// The outcome of a run whose output shape the native side reports.
fn dynamic_outcome(
    code: ErrorCode,
    reported: Option<String>,
    dims: &[usize],
    ndims: usize,
    distinguishes_unsupported: bool,
) -> (r: Result<Vec<usize>>)
    requires
        code == ErrorCode::Success ==> ndims <= dims@.len(),
    ensures
        error_of(r) == spec_status_error(
            code,
            spec_last_error_message(Some(reported)),
            distinguishes_unsupported,
        ),
        r matches Ok(shape) ==> shape@ == dims@.take(ndims as int),
{
    status_result(code, get_last_error_message(Some(reported)), distinguishes_unsupported)?;
    Ok(leading_dims(dims, ndims))
}

/// A list of one number.
pub(crate) fn single(x: usize) -> (v: Vec<usize>)
    ensures
        v@ == seq![x],
{
    let mut v: Vec<usize> = Vec::new();
    v.push(x);
    v
}

/// The error for flat buffers whose sizes are not those the shapes call for.
pub open spec fn spec_raw_buffer_check(
    expected_input: int,
    expected_output: int,
    input_len: usize,
    output_len: usize,
) -> Option<ErrorView> {
    if input_len != expected_input {
        Some(
            ErrorView::ShapeMismatch {
                expected: seq![expected_input as usize],
                got: seq![input_len],
            },
        )
    } else if output_len != expected_output {
        Some(
            ErrorView::ShapeMismatch {
                expected: seq![expected_output as usize],
                got: seq![output_len],
            },
        )
    } else {
        None
    }
}

/// A pool of sessions of one engine, which runs inputs concurrently.
pub struct SessionPool<P> {
    ptr: P,
    input_shape: Vec<usize>,
    output_shape: Vec<usize>,
}

impl<P> SessionPool<P> {
    /// The handle of the native pool.
    pub closed spec fn handle(&self) -> P {
        self.ptr
    }

    /// The shape of the model's input.
    pub closed spec fn spec_input_shape(&self) -> Seq<usize> {
        self.input_shape@
    }

    /// The shape of the model's output.
    pub closed spec fn spec_output_shape(&self) -> Seq<usize> {
        self.output_shape@
    }

    /// Checks the size of a pool to be made for `engine` and gives the settings the
    /// native pool is created with.
    pub fn new<H>(engine: &InferenceEngine<H>, pool_size: usize, config: Option<
        InferenceConfig,
    >) -> (r: Result<NativeConfig>)
        ensures
            pool_size == 0 <==> r is Err,
            error_of(r) matches Some(e) ==> e == ErrorView::InvalidParameter(
                "Pool size cannot be 0"@,
            ),
            r matches Ok(n) ==> n == InferenceConfig::spec_or_default(config).spec_to_ffi(),
    {
        if pool_size == 0 {
            return Err(MnnError::InvalidParameter(String::from_str("Pool size cannot be 0")));
        }
        Ok(InferenceConfig::native_or_default(config))
    }

    /// Takes the pool the native side created for `engine`, `None` where it created
    /// none; the pool takes the engine's shapes.
    pub fn open<H>(created: Option<P>, engine: &InferenceEngine<H>) -> (r: Result<Self>)
        ensures
            created is None <==> r is Err,
            error_of(r) matches Some(e) ==> e == ErrorView::RuntimeError(
                "Create session pool failed"@,
            ),
            r matches Ok(pool) ==> pool.handle() == created->0 && pool.spec_input_shape()
                == engine.spec_input_shape() && pool.spec_output_shape()
                == engine.spec_output_shape(),
    {
        match created {
            None => Err(MnnError::RuntimeError(String::from_str("Create session pool failed"))),
            Some(ptr) => {
                let input = engine.input_shape();
                let output = engine.output_shape();
                let input_shape = leading_dims(input, input.len());
                let output_shape = leading_dims(output, output.len());
                assert(input@.take(input@.len() as int) =~= input@);
                assert(output@.take(output@.len() as int) =~= output@);
                Ok(SessionPool { ptr, input_shape, output_shape })
            },
        }
    }

    pub fn input_shape(&self) -> (s: &[usize])
        ensures
            s@ == self.spec_input_shape(),
    {
        self.input_shape.as_slice()
    }

    pub fn output_shape(&self) -> (s: &[usize])
        ensures
            s@ == self.spec_output_shape(),
    {
        self.output_shape.as_slice()
    }

    /// The handle of the native pool.
    pub fn as_ptr(&self) -> (p: &P)
        ensures
            *p == self.handle(),
    {
        &self.ptr
    }

    /// Checks an input before a run: it must have the model's input shape and lie
    /// contiguously in memory.
    pub fn prepare_run(&self, input_shape: &[usize], contiguous: bool) -> (r: Result<()>)
        ensures
            error_of(r) == spec_shape_check(self.spec_input_shape(), input_shape@, contiguous),
    {
        check_input(&self.input_shape, input_shape, contiguous)
    }

    /// The outcome of a run from the native status: every failure is reported alike.
    pub fn finish_run(code: ErrorCode) -> (r: Result<()>)
        ensures
            code == ErrorCode::Success <==> r is Ok,
            error_of(r) matches Some(e) ==> e == ErrorView::RuntimeError(
                "Session pool inference failed"@,
            ),
    {
        match code {
            ErrorCode::Success => Ok(()),
            _ => Err(MnnError::RuntimeError(String::from_str("Session pool inference failed"))),
        }
    }
}

} // verus!
