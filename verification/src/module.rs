//! Modules: models whose inputs and outputs are addressed by name and whose shapes
//! are fixed by each run.
use vstd::prelude::*;
use crate::config::{InferenceConfig, NativeConfig};
use crate::engine::{check_model_path, path_view, single, spec_path_error};
use crate::error::{error_of, ErrorView, MnnError, Result};
use crate::laws::law_module_load_accepted_exactly;
use crate::status::{
    get_last_module_error_message, spec_last_module_error_message, spec_status_error,
    status_result, ErrorCode,
};
use crate::tensor::{
    contains_nul, element_count, has_nul, leading_dims, product_fits, shape_product, TensorData,
    MAX_DIMS,
};

verus! {

/// An input tensor addressed by name.
#[derive(Debug, Clone, Copy)]
pub struct NamedInput<'a, R> {
    pub name: &'a str,
    pub data: TensorData<'a, R>,
    pub shape: &'a [usize],
}

/// An output tensor addressed by name.
#[derive(Debug, Clone)]
pub struct NamedOutput<R> {
    pub name: String,
    pub data: Vec<R>,
    pub shape: Vec<usize>,
}

/// What the native side gives back for one named output: its elements (`None` where
/// it gave no buffer), how many elements it reported, and a buffer of dimensions of
/// which the first `ndims` are in use.
#[derive(Debug, Clone)]
pub struct NativeOutput<R> {
    pub data: Option<Vec<R>>,
    pub element_count: usize,
    pub dims: Vec<usize>,
    pub ndims: usize,
}

impl<'a, R> NamedInput<'a, R> {
    /// Whether the input has between one and `MAX_DIMS` dimensions.
    pub open spec fn rank_ok(self) -> bool {
        1 <= self.shape@.len() <= MAX_DIMS
    }

    /// The problem with this input, if any: a bad number of dimensions, or a number of
    /// elements other than its shape calls for.
    pub open spec fn problem(self) -> Option<ErrorView> {
        if !self.rank_ok() {
            Some(ErrorView::InvalidParameter("Invalid shape for input "@ + self.name@))
        } else if shape_product(self.shape@) != self.data.spec_len() {
            Some(
                ErrorView::ShapeMismatch {
                    expected: seq![shape_product(self.shape@) as usize],
                    got: seq![self.data.spec_len() as usize],
                },
            )
        } else {
            None
        }
    }
}

/// The problem with the first input, from index `i` on, that has one.
pub open spec fn first_input_problem<'a, R>(inputs: Seq<NamedInput<'a, R>>, i: int) -> Option<
    ErrorView,
>
    decreases inputs.len() - i,
{
    if i < 0 || i >= inputs.len() {
        None
    } else if inputs[i].problem() is Some {
        inputs[i].problem()
    } else {
        first_input_problem(inputs, i + 1)
    }
}

/// Whether counting the elements of each input that is checked, from index `i` on,
/// stays within `usize`: inputs are checked in order until the first with a problem,
/// and the elements of an input are counted once its number of dimensions is right.
pub open spec fn counts_fit<'a, R>(inputs: Seq<NamedInput<'a, R>>, i: int) -> bool
    decreases inputs.len() - i,
{
    if i < 0 || i >= inputs.len() {
        true
    } else if !inputs[i].rank_ok() {
        true
    } else {
        product_fits(inputs[i].shape@) && (inputs[i].problem() is Some || counts_fit(
            inputs,
            i + 1,
        ))
    }
}

/// The first name, from index `i` on, that holds the NUL character.
pub open spec fn first_nul_name(names: Seq<Seq<char>>, i: int) -> Option<Seq<char>>
    decreases names.len() - i,
{
    if i < 0 || i >= names.len() {
        None
    } else if has_nul(names[i]) {
        Some(names[i])
    } else {
        first_nul_name(names, i + 1)
    }
}

/// The names of the inputs.
pub open spec fn input_names<'a, R>(inputs: Seq<NamedInput<'a, R>>) -> Seq<Seq<char>> {
    inputs.map_values(|x: NamedInput<'a, R>| x.name@)
}

/// The views of a list of names.
pub open spec fn names_view(names: Seq<&str>) -> Seq<Seq<char>> {
    names.map_values(|s: &str| s@)
}

/// The error for names of which one holds the NUL character.
pub open spec fn spec_names_error(
    names: Seq<Seq<char>>,
    prefix: Seq<char>,
) -> Option<ErrorView> {
    match first_nul_name(names, 0) {
        Some(n) => Some(ErrorView::InvalidParameter(prefix + n)),
        None => None,
    }
}

/// The problem, if any, with the arguments of a run by name: no inputs, no outputs,
/// an input of a bad shape or size, or a name that holds the NUL character.
pub open spec fn spec_named_run_check<'a, R>(
    inputs: Seq<NamedInput<'a, R>>,
    output_names: Seq<Seq<char>>,
) -> Option<ErrorView> {
    if inputs.len() == 0 {
        Some(ErrorView::InvalidParameter("At least one named input is required"@))
    } else if output_names.len() == 0 {
        Some(ErrorView::InvalidParameter("At least one named output is required"@))
    } else if first_input_problem(inputs, 0) is Some {
        first_input_problem(inputs, 0)
    } else if spec_names_error(input_names(inputs), "Input name contains an interior NUL byte: "@)
        is Some {
        spec_names_error(input_names(inputs), "Input name contains an interior NUL byte: "@)
    } else {
        spec_names_error(output_names, "Output name contains an interior NUL byte: "@)
    }
}

/// Whether the element counts that checking a run by name computes stay within `usize`.
pub open spec fn spec_named_counts_fit<'a, R>(
    inputs: Seq<NamedInput<'a, R>>,
    output_names: Seq<Seq<char>>,
) -> bool {
    inputs.len() > 0 && output_names.len() > 0 ==> counts_fit(inputs, 0)
}

/// Whether the native side failed to give a buffer for an output that has elements.
pub open spec fn missing_buffer<R>(o: NativeOutput<R>) -> bool {
    o.data is None && o.element_count > 0
}

/// The elements of an output: none where it reported none, else its buffer.
pub open spec fn output_elements<R>(o: NativeOutput<R>) -> Seq<R> {
    if o.element_count == 0 {
        Seq::empty()
    } else {
        o.data->0@
    }
}

/// How many outputs are collected: one per name that has a native output.
pub open spec fn paired_len(names: int, outputs: int) -> int {
    if names <= outputs {
        names
    } else {
        outputs
    }
}

/// Checks the names of a list; `prefix` starts the error text.
fn check_names(names: &[&str], prefix: &str) -> (r: Result<()>)
    ensures
        error_of(r) == spec_names_error(names_view(names@), prefix@),
{
    let ghost view = names_view(names@);
    let mut i: usize = 0;
    while i < names.len()
        invariant
            i <= names.len(),
            view == names_view(names@),
            view.len() == names@.len(),
            first_nul_name(view, 0) == first_nul_name(view, i as int),
        decreases names.len() - i,
    {
        assert(view[i as int] == names@[i as int]@);
        if contains_nul(names[i]) {
            let mut text = String::from_str(prefix);
            text.append(names[i]);
            return Err(MnnError::InvalidParameter(text));
        }
        i = i + 1;
    }
    Ok(())
}

/// A module, with the handle of its native counterpart.
pub struct ModuleEngine<H> {
    ptr: H,
}

impl<H> ModuleEngine<H> {
    /// The handle of the native module.
    pub closed spec fn handle(&self) -> H {
        self.ptr
    }

    /// Checks the arguments of loading a module from a file and gives the settings
    /// the native module is created with. `None` stands for a path that is not UTF-8.
    pub fn from_file(
        model_path: Option<&str>,
        input_names: &[&str],
        output_names: &[&str],
        config: Option<InferenceConfig>,
    ) -> (r: Result<NativeConfig>)
        ensures
            error_of(r) == spec_module_load_check(
                path_view(model_path),
                names_view(input_names@),
                names_view(output_names@),
            ),
            r matches Ok(n) ==> n == InferenceConfig::spec_or_default(config).spec_to_ffi(),
            r is Ok <==> {
                &&& input_names@.len() > 0
                &&& output_names@.len() > 0
                &&& model_path matches Some(p) && !p@.contains('\0')
                &&& forall|i: int|
                    0 <= i < input_names@.len() ==> !(#[trigger] input_names@[i])@.contains('\0')
                &&& forall|i: int|
                    0 <= i < output_names@.len() ==> !(#[trigger] output_names@[i])@.contains('\0')
            },
    {
        proof {
            law_module_load_accepted_exactly(
                path_view(model_path),
                names_view(input_names@),
                names_view(output_names@),
            );
            assert(names_view(input_names@).len() == input_names@.len());
            assert(names_view(output_names@).len() == output_names@.len());
            assert forall|i: int| 0 <= i < input_names@.len() implies names_view(input_names@)[i]
                == (#[trigger] input_names@[i])@ by {}
            assert forall|i: int| 0 <= i < output_names@.len() implies names_view(output_names@)[i]
                == (#[trigger] output_names@[i])@ by {}
        }
        if input_names.len() == 0 || output_names.len() == 0 {
            return Err(
                MnnError::InvalidParameter(
                    String::from_str("At least one input and output name is required"),
                ),
            );
        }
        check_model_path(model_path)?;
        check_names(input_names, "Input name contains an interior NUL byte: ")?;
        check_names(output_names, "Output name contains an interior NUL byte: ")?;
        Ok(InferenceConfig::native_or_default(config))
    }

    /// Takes the module the native side created, `None` where it created none.
    pub fn open(created: Option<H>) -> (r: Result<Self>)
        ensures
            created is None <==> r is Err,
            r matches Ok(m) ==> m.handle() == created->0,
            error_of(r) matches Some(e) ==> e == ErrorView::ModelLoadFailed(
                spec_last_module_error_message(None),
            ),
    {
        match created {
            Some(ptr) => Ok(ModuleEngine { ptr }),
            None => Err(MnnError::ModelLoadFailed(get_last_module_error_message(None))),
        }
    }

    /// The handle of the native module.
    pub fn as_ptr(&self) -> (p: &H)
        ensures
            *p == self.handle(),
    {
        &self.ptr
    }

    /// Tells whether checking a run by name stays within `usize` when it counts the
    /// elements of the inputs (see `prepare_named_run`).
    pub fn named_counts_fit<'a, R>(inputs: &[NamedInput<'a, R>], output_names: &[&str]) -> (b:
        bool)
        ensures
            b == spec_named_counts_fit(inputs@, names_view(output_names@)),
    {
        assert(names_view(output_names@).len() == output_names@.len());
        if inputs.len() == 0 || output_names.len() == 0 {
            return true;
        }
        let mut i: usize = 0;
        while i < inputs.len()
            invariant
                i <= inputs.len(),
                counts_fit(inputs@, 0) == counts_fit(inputs@, i as int),
                inputs.len() > 0,
                names_view(output_names@).len() > 0,
            decreases inputs.len() - i,
        {
            let input = &inputs[i];
            let rank = input.shape.len();
            if rank == 0 || rank > MAX_DIMS {
                return true;
            }
            assert(*input == inputs@[i as int]);
            match crate::tensor::checked_element_count(input.shape) {
                None => {
                    assert(!counts_fit(inputs@, i as int));
                    return false;
                },
                Some(n) => {
                    if n != input.data.len() {
                        assert(inputs@[i as int].problem() is Some);
                        assert(counts_fit(inputs@, i as int));
                        return true;
                    }
                },
            }
            i = i + 1;
        }
        true
    }

    /// Checks the arguments of a run by name before the native call: there must be
    /// inputs and output names, each input must have one to `MAX_DIMS` dimensions and
    /// as many elements as its shape calls for, and no name may hold NUL.
    pub fn prepare_named_run<'a, R>(inputs: &[NamedInput<'a, R>], output_names: &[&str]) -> (r:
        Result<()>)
        requires
            spec_named_counts_fit(inputs@, names_view(output_names@)),
        ensures
            error_of(r) == spec_named_run_check(inputs@, names_view(output_names@)),
    {
        assert(names_view(output_names@).len() == output_names@.len());
        if inputs.len() == 0 {
            return Err(
                MnnError::InvalidParameter(String::from_str("At least one named input is required")),
            );
        }
        if output_names.len() == 0 {
            return Err(
                MnnError::InvalidParameter(
                    String::from_str("At least one named output is required"),
                ),
            );
        }
        let mut i: usize = 0;
        while i < inputs.len()
            invariant
                i <= inputs.len(),
                counts_fit(inputs@, i as int),
                inputs.len() > 0,
                names_view(output_names@).len() > 0,
                first_input_problem(inputs@, 0) == first_input_problem(inputs@, i as int),
            decreases inputs.len() - i,
        {
            let input = &inputs[i];
            assert(*input == inputs@[i as int]);
            assert(first_input_problem(inputs@, i as int) == if inputs@[i as int].problem() is Some {
                inputs@[i as int].problem()
            } else {
                first_input_problem(inputs@, i + 1)
            });
            let rank = input.shape.len();
            if rank == 0 || rank > MAX_DIMS {
                let mut text = String::from_str("Invalid shape for input ");
                text.append(input.name);
                return Err(MnnError::InvalidParameter(text));
            }
            let expected = element_count(input.shape);
            let got = input.data.len();
            if expected != got {
                return Err(MnnError::ShapeMismatch { expected: single(expected), got: single(got) });
            }
            i = i + 1;
        }
        let mut names: Vec<&str> = Vec::new();
        let mut j: usize = 0;
        while j < inputs.len()
            invariant
                j <= inputs.len(),
                names@.len() == j,
                forall|k: int| 0 <= k < j ==> names@[k] == inputs@[k].name,
            decreases inputs.len() - j,
        {
            names.push(inputs[j].name);
            j = j + 1;
        }
        assert(names_view(names@) =~= input_names(inputs@));
        check_names(names.as_slice(), "Input name contains an interior NUL byte: ")?;
        check_names(output_names, "Output name contains an interior NUL byte: ")
    }

    /// The outcome of a run by name from the native status; `reported` is the module's
    /// last error text, `None` where it gave none.
    pub fn finish_named_run(code: ErrorCode, reported: Option<String>) -> (r: Result<()>)
        ensures
            error_of(r) == spec_status_error(
                code,
                spec_last_module_error_message(Some(reported)),
                true,
            ),
    {
        status_result(code, get_last_module_error_message(Some(reported)), true)
    }
}

/// `first_nul_name` finds none exactly when no name from `i` on holds NUL.
pub proof fn lemma_no_nul_name(names: Seq<Seq<char>>, i: int)
    requires
        0 <= i <= names.len(),
    ensures
        first_nul_name(names, i) is None <==> forall|j: int|
            i <= j < names.len() ==> !(#[trigger] names[j]).contains('\0'),
    decreases names.len() - i,
{
    if i < names.len() {
        lemma_no_nul_name(names, i + 1);
    }
}

/// The problem, if any, with the arguments of loading a module from a file.
pub open spec fn spec_module_load_check(
    model_path: Option<Seq<char>>,
    input_names: Seq<Seq<char>>,
    output_names: Seq<Seq<char>>,
) -> Option<ErrorView> {
    if input_names.len() == 0 || output_names.len() == 0 {
        Some(ErrorView::InvalidParameter("At least one input and output name is required"@))
    } else if spec_path_error(model_path) is Some {
        spec_path_error(model_path)
    } else if spec_names_error(input_names, "Input name contains an interior NUL byte: "@) is Some {
        spec_names_error(input_names, "Input name contains an interior NUL byte: "@)
    } else {
        spec_names_error(output_names, "Output name contains an interior NUL byte: "@)
    }
}

/// The index of the first output, below `n` and from index `i` on, for which the native
/// side gave no buffer though it reported elements.
pub open spec fn first_missing<R>(outputs: Seq<NativeOutput<R>>, n: int, i: int) -> Option<int>
    decreases n - i,
{
    if i < 0 || i >= n || i >= outputs.len() {
        None
    } else if missing_buffer(outputs[i]) {
        Some(i)
    } else {
        first_missing(outputs, n, i + 1)
    }
}

/// How many outputs are read before collecting stops: up to the first without a buffer,
/// or all `n` paired ones.
pub open spec fn outputs_read<R>(outputs: Seq<NativeOutput<R>>, n: int) -> int {
    match first_missing(outputs, n, 0) {
        Some(k) => k,
        None => n,
    }
}

/// The named output collected from a native one.
pub open spec fn collected<R>(out: NamedOutput<R>, name: Seq<char>, o: NativeOutput<R>) -> bool {
    &&& out.name@ == name
    &&& out.data@ == output_elements(o)
    &&& out.shape@ == o.dims@.take(o.ndims as int)
}

/// The error for an output the native side gave no buffer for.
pub open spec fn spec_missing_buffer_error(name: Seq<char>) -> ErrorView {
    ErrorView::RuntimeError("Named output "@ + name + " returned a null buffer"@)
}

/// If some output below `n` misses its buffer, `first_missing` finds the first one.
proof fn lemma_first_missing<R>(outputs: Seq<NativeOutput<R>>, n: int, i: int)
    requires
        0 <= i <= n <= outputs.len(),
        forall|j: int| 0 <= j < i ==> !missing_buffer(#[trigger] outputs[j]),
    ensures
        first_missing(outputs, n, i) == first_missing(outputs, n, 0),
    decreases i,
{
    if i > 0 {
        lemma_first_missing(outputs, n, i - 1);
    }
}

/// What `first_missing` finds is an output, at or after `i` and below `n`, without a buffer.
proof fn lemma_first_missing_found<R>(outputs: Seq<NativeOutput<R>>, n: int, i: int)
    requires
        0 <= i,
    ensures
        first_missing(outputs, n, i) matches Some(k) ==> i <= k < n && k < outputs.len()
            && missing_buffer(outputs[k]),
    decreases n - i,
{
    if i < n && i < outputs.len() && !missing_buffer(outputs[i]) {
        lemma_first_missing_found(outputs, n, i + 1);
    }
}

impl<H> ModuleEngine<H> {
    /// Gathers the outputs of a run by name, pairing each name with the native output
    /// at its place. Fails at the first output that has elements but no buffer.
    pub fn collect_named_outputs<R>(output_names: &[&str], outputs: Vec<NativeOutput<R>>) -> (r:
        Result<Vec<NamedOutput<R>>>)
        requires
            forall|i: int|
                0 <= i < outputs_read(outputs@, paired_len(output_names@.len() as int, outputs@.len() as int))
                    ==> #[trigger] outputs@[i].ndims <= outputs@[i].dims@.len(),
        ensures
            ({
                let n = paired_len(output_names@.len() as int, outputs@.len() as int);
                match first_missing(outputs@, n, 0) {
                    Some(k) => error_of(r) == Some(spec_missing_buffer_error(output_names@[k]@)),
                    None => r matches Ok(v) && v@.len() == n && forall|i: int|
                        0 <= i < n ==> collected(#[trigger] v@[i], output_names@[i]@, outputs@[i]),
                }
            }),
            r matches Ok(v) ==> forall|i: int|
                0 <= i < v@.len() ==> {
                    &&& (#[trigger] v@[i]).shape@.len() == outputs@[i].ndims
                    &&& v@[i].shape@ == outputs@[i].dims@.subrange(0, outputs@[i].ndims as int)
                    &&& v@[i].name@ == output_names@[i]@
                    &&& v@[i].data@ == (if outputs@[i].element_count == 0 {
                        Seq::<R>::empty()
                    } else {
                        outputs@[i].data->0@
                    })
                },
    {
        let n = if output_names.len() <= outputs.len() {
            output_names.len()
        } else {
            outputs.len()
        };
        let ghost all = outputs@;
        let mut rest = outputs;
        let mut result: Vec<NamedOutput<R>> = Vec::new();
        let mut i: usize = 0;
        while i < n
            invariant
                all == outputs@,
                n == paired_len(output_names@.len() as int, all.len() as int),
                n <= output_names@.len(),
                n <= all.len(),
                i <= n,
                rest@ == all.skip(i as int),
                result@.len() == i,
                forall|j: int| 0 <= j < i ==> !missing_buffer(#[trigger] all[j]),
                forall|j: int| 0 <= j < i ==> collected(#[trigger] result@[j], output_names@[j]@, all[j]),
                forall|j: int|
                    0 <= j < outputs_read(all, n as int) ==> #[trigger] all[j].ndims
                        <= all[j].dims@.len(),
            decreases n - i,
        {
            proof {
                lemma_first_missing(all, n as int, i as int);
            }
            let o = rest.remove(0);
            assert(o == all[i as int]);
            assert(rest@ =~= all.skip(i + 1));
            if o.data.is_none() && o.element_count > 0 {
                assert(missing_buffer(all[i as int]));
                assert(first_missing(all, n as int, i as int) == Some(i as int));
                let mut text = String::from_str("Named output ");
                text.append(output_names[i]);
                text.append(" returned a null buffer");
                return Err(MnnError::RuntimeError(text));
            }
            proof {
                lemma_first_missing(all, n as int, i + 1);
                lemma_first_missing_found(all, n as int, i + 1);
                if first_missing(all, n as int, 0) is Some {
                    assert(first_missing(all, n as int, 0)->0 > i);
                }
            }
            let shape = leading_dims(o.dims.as_slice(), o.ndims);
            let data = if o.element_count == 0 {
                Vec::new()
            } else {
                match o.data {
                    Some(d) => d,
                    None => Vec::new(),
                }
            };
            let name = String::from_str(output_names[i]);
            result.push(NamedOutput { name, data, shape });
            i = i + 1;
        }
        proof {
            lemma_first_missing(all, n as int, n as int);
            assert(first_missing(all, n as int, n as int) is None);
            assert(outputs_read(all, n as int) == n);
            assert forall|j: int| 0 <= j < result@.len() implies {
                &&& (#[trigger] result@[j]).shape@.len() == all[j].ndims
                &&& result@[j].shape@ == all[j].dims@.subrange(0, all[j].ndims as int)
                &&& result@[j].name@ == output_names@[j]@
                &&& result@[j].data@ == (if all[j].element_count == 0 {
                    Seq::<R>::empty()
                } else {
                    all[j].data->0@
                })
            } by {
                assert(collected(result@[j], output_names@[j]@, all[j]));
                assert(all[j].ndims <= all[j].dims@.len());
            }
        }
        Ok(result)
    }
}

} // verus!
