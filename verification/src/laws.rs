//! Properties of the library as a whole, stated over the specifications its
//! functions are proved against.
use vstd::prelude::*;
use crate::config::{Backend, DataFormat, InferenceConfig, MemoryMode, PrecisionMode};
use crate::engine::{spec_raw_buffer_check, spec_shape_check, ShapeReport};
use crate::config::NativeConfig;
use crate::module::{
    collected, first_input_problem, input_names, lemma_no_nul_name, spec_module_load_check,
    spec_named_run_check, spec_names_error, NamedInput, NamedOutput, NativeOutput,
};
use crate::tensor::has_dim_above;
use crate::status::{spec_status_error, ErrorCode};
use crate::tensor::{has_nul, shape_product, TensorType};

verus! {

/// Distinct settings are handed to the native side as distinct native settings:
/// nothing is lost in the encoding.
pub proof fn law_native_config_injective(a: InferenceConfig, b: InferenceConfig)
    requires
        a.spec_to_ffi() == b.spec_to_ffi(),
    ensures
        a == b,
{
    assert(a.precision_mode == b.precision_mode) by {
        match (a.precision_mode, b.precision_mode) {
            (PrecisionMode::Normal, PrecisionMode::Normal) => {},
            (PrecisionMode::Low, PrecisionMode::Low) => {},
            (PrecisionMode::High, PrecisionMode::High) => {},
            _ => {},
        }
    }
    assert(a.backend == b.backend) by {
        match (a.backend, b.backend) {
            (Backend::CPU, Backend::CPU) => {},
            (Backend::Metal, Backend::Metal) => {},
            (Backend::OpenCL, Backend::OpenCL) => {},
            (Backend::OpenGL, Backend::OpenGL) => {},
            (Backend::Vulkan, Backend::Vulkan) => {},
            (Backend::CUDA, Backend::CUDA) => {},
            (Backend::CoreML, Backend::CoreML) => {},
            _ => {},
        }
    }
    assert(a.data_format == b.data_format) by {
        match (a.data_format, b.data_format) {
            (DataFormat::NCHW, DataFormat::NCHW) => {},
            (DataFormat::NHWC, DataFormat::NHWC) => {},
            (DataFormat::Auto, DataFormat::Auto) => {},
            _ => {},
        }
    }
    assert(a.memory_mode == b.memory_mode) by {
        match (a.memory_mode, b.memory_mode) {
            (MemoryMode::Normal, MemoryMode::Normal) => {},
            (MemoryMode::Low, MemoryMode::Low) => {},
            (MemoryMode::High, MemoryMode::High) => {},
            _ => {},
        }
    }
}

/// Distinct element types have distinct native numbers.
pub proof fn law_tensor_type_codes_distinct(a: TensorType, b: TensorType)
    requires
        a.spec_code() == b.spec_code(),
    ensures
        a == b,
{
    match (a, b) {
        (TensorType::F32, TensorType::F32) => {},
        (TensorType::I32, TensorType::I32) => {},
        (TensorType::I64, TensorType::I64) => {},
        _ => {},
    }
}

/// The default settings are encoded as four threads, no cache, and the first choice
/// (number 0) of every option.
pub proof fn law_default_encoding()
    ensures
        InferenceConfig::spec_default().spec_to_ffi().thread_count == 4,
        InferenceConfig::spec_default().spec_to_ffi().precision_mode == 0,
        InferenceConfig::spec_default().spec_to_ffi().backend == 0,
        !InferenceConfig::spec_default().spec_to_ffi().use_cache,
        InferenceConfig::spec_default().spec_to_ffi().data_format == 0,
        InferenceConfig::spec_default().spec_to_ffi().memory_mode == 0,
{
}

/// A native call counts as successful exactly when it reports success, whatever
/// error text the engine gives.
pub proof fn law_success_exactly_on_success_code(
    code: ErrorCode,
    detail: Seq<char>,
    distinguishes_unsupported: bool,
)
    ensures
        spec_status_error(code, detail, distinguishes_unsupported) is None <==> code
            == ErrorCode::Success,
{
}

/// An input passes the shape check exactly when it has the model's input shape and
/// lies contiguously in memory.
pub proof fn law_shape_check_accepts_exactly(
    expected: Seq<usize>,
    given: Seq<usize>,
    contiguous: bool,
)
    ensures
        spec_shape_check(expected, given, contiguous) is None <==> (given == expected
            && contiguous),
{
}

/// Flat buffers pass the check exactly when they hold as many elements as the shapes
/// call for.
pub proof fn law_raw_buffers_accepted_exactly(
    input_shape: Seq<usize>,
    output_shape: Seq<usize>,
    input_len: usize,
    output_len: usize,
)
    ensures
        spec_raw_buffer_check(shape_product(input_shape), shape_product(output_shape), input_len, output_len)
            is None <==> (input_len == shape_product(input_shape) && output_len == shape_product(
            output_shape,
        )),
{
}

/// A shape the native side reports has exactly as many dimensions as it said it uses,
/// the first ones of its buffer in order; where it claims more than the buffer holds,
/// the shape is the whole buffer.
pub proof fn law_reported_shape_is_prefix(report: ShapeReport)
    ensures
        report.ndims <= report.dims@.len() ==> report.shape().len() == report.ndims,
        report.ndims > report.dims@.len() ==> report.shape() == report.dims@,
        report.shape().len() <= report.ndims,
        forall|i: int| 0 <= i < report.shape().len() ==> report.shape()[i] == report.dims@[i],
{
}

/// A collected output keeps the name it was paired with, has exactly as many
/// dimensions as the native side said it uses, the first ones of its buffer in order,
/// and holds the native elements, or none where the native side reported none.
pub proof fn law_collected_output_is_native_output<R>(
    out: NamedOutput<R>,
    name: Seq<char>,
    o: NativeOutput<R>,
)
    requires
        collected(out, name, o),
        o.ndims <= o.dims@.len(),
    ensures
        out.name@ == name,
        out.shape@.len() == o.ndims,
        forall|i: int| 0 <= i < o.ndims ==> out.shape@[i] == o.dims@[i],
        o.element_count == 0 ==> out.data@.len() == 0,
        o.element_count > 0 && o.data is Some ==> out.data@ == o.data->0@,
{
}

/// A shape has a dimension above a limit exactly when one of its entries, wherever it
/// stands, is above it; appending a dimension adds exactly that dimension's test.
pub proof fn law_dim_above_anywhere(s: Seq<usize>, limit: usize, x: usize)
    ensures
        forall|j: int| 0 <= j < s.len() && s[j] > limit ==> has_dim_above(s, limit),
        !has_dim_above(s, limit) ==> forall|j: int| 0 <= j < s.len() ==> s[j] <= limit,
        has_dim_above(s.push(x), limit) == (has_dim_above(s, limit) || x > limit),
{
    if has_dim_above(s.push(x), limit) {
        let j = choose|j: int| 0 <= j < s.push(x).len() && s.push(x)[j] > limit;
        if j < s.len() {
            assert(s[j] > limit);
        }
    }
    if has_dim_above(s, limit) {
        let j = choose|j: int| 0 <= j < s.len() && s[j] > limit;
        assert(s.push(x)[j] > limit);
    }
    if x > limit {
        assert(s.push(x)[s.len() as int] > limit);
    }
}

/// Settings that are given are the settings used: none of them is replaced by a
/// default; only where none are given are the defaults used.
pub proof fn law_given_settings_are_used(c: InferenceConfig)
    ensures
        InferenceConfig::spec_or_default(Some(c)) == c,
        InferenceConfig::spec_or_default(None) == InferenceConfig::spec_default(),
{
}

/// Changing one setting changes exactly its field of the native settings, to the
/// number of the new choice, and leaves the others as they were.
pub proof fn law_setting_change_is_local(
    c: InferenceConfig,
    threads: i32,
    precision: PrecisionMode,
    backend: Backend,
    format: DataFormat,
    memory: MemoryMode,
)
    ensures
        (InferenceConfig { thread_count: threads, ..c }).spec_to_ffi() == (NativeConfig {
            thread_count: threads,
            ..c.spec_to_ffi()
        }),
        (InferenceConfig { precision_mode: precision, ..c }).spec_to_ffi() == (NativeConfig {
            precision_mode: precision.spec_code(),
            ..c.spec_to_ffi()
        }),
        (InferenceConfig { backend: backend, ..c }).spec_to_ffi() == (NativeConfig {
            backend: backend.spec_code(),
            ..c.spec_to_ffi()
        }),
        (InferenceConfig { data_format: format, ..c }).spec_to_ffi() == (NativeConfig {
            data_format: format.spec_code(),
            ..c.spec_to_ffi()
        }),
        (InferenceConfig { memory_mode: memory, ..c }).spec_to_ffi() == (NativeConfig {
            memory_mode: memory.spec_code(),
            ..c.spec_to_ffi()
        }),
{
}

/// Loading a module is accepted exactly when there is at least one input name and at
/// least one output name, the path is UTF-8 without NUL, and no name holds NUL; how
/// many names of each kind there are beyond that does not matter.
pub proof fn law_module_load_accepted_exactly(
    model_path: Option<Seq<char>>,
    input_names: Seq<Seq<char>>,
    output_names: Seq<Seq<char>>,
)
    ensures
        spec_module_load_check(model_path, input_names, output_names) is None <==> {
            &&& input_names.len() > 0
            &&& output_names.len() > 0
            &&& model_path matches Some(p) && !p.contains('\0')
            &&& forall|i: int| 0 <= i < input_names.len() ==> !(#[trigger] input_names[i]).contains('\0')
            &&& forall|i: int| 0 <= i < output_names.len() ==> !(#[trigger] output_names[i]).contains('\0')
        },
{
    lemma_no_nul_name(input_names, 0);
    lemma_no_nul_name(output_names, 0);
}

/// `first_input_problem` finds none exactly when no input from `i` on has a problem.
proof fn lemma_no_input_problem<'a, R>(inputs: Seq<NamedInput<'a, R>>, i: int)
    requires
        0 <= i <= inputs.len(),
    ensures
        first_input_problem(inputs, i) is None <==> forall|j: int|
            i <= j < inputs.len() ==> (#[trigger] inputs[j].problem()) is None,
    decreases inputs.len() - i,
{
    if i < inputs.len() {
        lemma_no_input_problem(inputs, i + 1);
    }
}

/// A run by name is accepted exactly when there are inputs and output names, every
/// input has one to eight dimensions and as many elements as its shape calls for, and
/// no input or output name holds the NUL character.
pub proof fn law_named_run_accepted_exactly<'a, R>(
    inputs: Seq<NamedInput<'a, R>>,
    output_names: Seq<Seq<char>>,
)
    ensures
        spec_named_run_check(inputs, output_names) is None <==> {
            &&& inputs.len() > 0
            &&& output_names.len() > 0
            &&& forall|i: int|
                0 <= i < inputs.len() ==> {
                    &&& 1 <= (#[trigger] inputs[i]).shape@.len() <= 8
                    &&& shape_product(inputs[i].shape@) == inputs[i].data.spec_len()
                    &&& !has_nul(inputs[i].name@)
                }
            &&& forall|i: int| 0 <= i < output_names.len() ==> !has_nul(#[trigger] output_names[i])
        },
{
    lemma_no_input_problem(inputs, 0);
    lemma_no_nul_name(input_names(inputs), 0);
    lemma_no_nul_name(output_names, 0);
    let names = input_names(inputs);
    assert(names.len() == inputs.len());
    if spec_named_run_check(inputs, output_names) is None {
        assert(spec_names_error(names, "Input name contains an interior NUL byte: "@) is None);
        assert forall|i: int| 0 <= i < inputs.len() implies {
            &&& 1 <= (#[trigger] inputs[i]).shape@.len() <= 8
            &&& shape_product(inputs[i].shape@) == inputs[i].data.spec_len()
            &&& !has_nul(inputs[i].name@)
        } by {
            assert(inputs[i].problem() is None);
            assert(names[i] == inputs[i].name@);
        }
    }
    if inputs.len() > 0 && output_names.len() > 0 && (forall|i: int|
        0 <= i < inputs.len() ==> {
            &&& 1 <= (#[trigger] inputs[i]).shape@.len() <= 8
            &&& shape_product(inputs[i].shape@) == inputs[i].data.spec_len()
            &&& !has_nul(inputs[i].name@)
        }) && (forall|i: int| 0 <= i < output_names.len() ==> !has_nul(#[trigger] output_names[i])) {
        assert forall|j: int| 0 <= j < inputs.len() implies (#[trigger] inputs[j].problem()) is None by {
            assert(1 <= inputs[j].shape@.len() <= 8);
        }
        assert forall|j: int| 0 <= j < names.len() implies !has_nul(#[trigger] names[j]) by {
            assert(names[j] == inputs[j].name@);
            assert(!has_nul(inputs[j].name@));
        }
    }
}

/// The native numbers of every option follow its declaration order, starting at 0,
/// as the C interface numbers them.
pub proof fn law_codes_follow_declaration_order()
    ensures
        PrecisionMode::Normal.spec_code() == 0 && PrecisionMode::Low.spec_code() == 1
            && PrecisionMode::High.spec_code() == 2,
        DataFormat::NCHW.spec_code() == 0 && DataFormat::NHWC.spec_code() == 1
            && DataFormat::Auto.spec_code() == 2,
        MemoryMode::Normal.spec_code() == 0 && MemoryMode::Low.spec_code() == 1
            && MemoryMode::High.spec_code() == 2,
        Backend::CPU.spec_code() == 0 && Backend::Metal.spec_code() == 1
            && Backend::OpenCL.spec_code() == 2 && Backend::OpenGL.spec_code() == 3
            && Backend::Vulkan.spec_code() == 4 && Backend::CUDA.spec_code() == 5
            && Backend::CoreML.spec_code() == 6,
        TensorType::F32.spec_code() == 0 && TensorType::I32.spec_code() == 1
            && TensorType::I64.spec_code() == 2,
{
}

/// A failed native call keeps the engine's error text exactly where the error carries
/// text (invalid parameters and other failures); running out of memory, and an
/// unsupported operation where it is told apart, carry none.
pub proof fn law_status_error_carries_detail(
    code: ErrorCode,
    detail: Seq<char>,
    distinguishes_unsupported: bool,
)
    ensures
        code == ErrorCode::InvalidParameter ==> spec_status_error(code, detail, distinguishes_unsupported)
            == Some(crate::error::ErrorView::InvalidParameter(detail)),
        code == ErrorCode::OutOfMemory ==> spec_status_error(code, detail, distinguishes_unsupported)
            == Some(crate::error::ErrorView::OutOfMemory),
        code == ErrorCode::Unsupported ==> spec_status_error(code, detail, distinguishes_unsupported)
            == Some(if distinguishes_unsupported {
                crate::error::ErrorView::Unsupported
            } else {
                crate::error::ErrorView::RuntimeError(detail)
            }),
        code is Other ==> spec_status_error(code, detail, distinguishes_unsupported) == Some(
            crate::error::ErrorView::RuntimeError(detail),
        ),
{
}

} // verus!
