//! Tensors handed to the engine and taken back from it, and the checks on their shapes.
use vstd::prelude::*;

verus! {

/// The element type of a tensor as the native interface knows it.
#[derive(Debug, Clone, Copy, PartialEq, Eq, Structural)]
pub enum TensorType {
    F32,
    I32,
    I64,
}

impl TensorType {
    /// The number the native interface uses for this element type.
    pub open spec fn spec_code(self) -> i32 {
        match self {
            TensorType::F32 => 0,
            TensorType::I32 => 1,
            TensorType::I64 => 2,
        }
    }

    pub fn code(self) -> (c: i32)
        ensures
            c == self.spec_code(),
    {
        match self {
            TensorType::F32 => 0,
            TensorType::I32 => 1,
            TensorType::I64 => 2,
        }
    }
}

/// The elements of an input tensor, borrowed from the caller.
///
/// `R` is the type of 32-bit floating-point elements; the library never reads the
/// values, it only counts them, so it leaves their type to the caller.
#[derive(Debug, Clone, Copy)]
pub enum TensorData<'a, R> {
    F32(&'a [R]),
    I32(&'a [i32]),
    I64(&'a [i64]),
}

impl<'a, R> TensorData<'a, R> {
    /// How many elements the tensor holds.
    pub open spec fn spec_len(self) -> nat {
        match self {
            TensorData::F32(d) => d@.len(),
            TensorData::I32(d) => d@.len(),
            TensorData::I64(d) => d@.len(),
        }
    }

    /// The element type of the tensor.
    pub open spec fn spec_data_type(self) -> TensorType {
        match self {
            TensorData::F32(_) => TensorType::F32,
            TensorData::I32(_) => TensorType::I32,
            TensorData::I64(_) => TensorType::I64,
        }
    }

    pub fn data_type(&self) -> (t: TensorType)
        ensures
            t == self.spec_data_type(),
    {
        match self {
            TensorData::F32(_) => TensorType::F32,
            TensorData::I32(_) => TensorType::I32,
            TensorData::I64(_) => TensorType::I64,
        }
    }

    pub fn len(&self) -> (n: usize)
        ensures
            n == self.spec_len(),
    {
        match self {
            TensorData::F32(d) => d.len(),
            TensorData::I32(d) => d.len(),
            TensorData::I64(d) => d.len(),
        }
    }
}

/// Whether `s` holds the NUL character, which no name handed to the native side may hold.
pub open spec fn has_nul(s: Seq<char>) -> bool {
    s.contains('\0')
}

/// Tells whether `s` holds the NUL character.
pub fn contains_nul(s: &str) -> (b: bool)
    ensures
        b == has_nul(s@),
{
    let n = s.unicode_len();
    let mut i: usize = 0;
    while i < n
        invariant
            n == s@.len(),
            i <= n,
            forall|j: int| 0 <= j < i ==> s@[j] != '\0',
        decreases n - i,
    {
        if s.get_char(i) == '\0' {
            assert(s@[i as int] == '\0');
            return true;
        }
        i = i + 1;
    }
    false
}

/// The most dimensions a shape handed to the native side may have.
pub const MAX_DIMS: usize = 8;

/// The number of elements a tensor of shape `s` holds: the product of its dimensions
/// (1 for the empty shape).
pub open spec fn shape_product(s: Seq<usize>) -> int
    decreases s.len(),
{
    if s.len() == 0 {
        1
    } else {
        shape_product(s.drop_last()) * s.last()
    }
}

/// Whether multiplying the dimensions of `s` one after the other, from the first,
/// stays within `usize` at every step.
pub open spec fn product_fits(s: Seq<usize>) -> bool {
    forall|i: int| 0 <= i <= s.len() ==> #[trigger] shape_product(s.take(i)) <= usize::MAX
}

/// The number of elements of a tensor of the given shape.
pub fn element_count(shape: &[usize]) -> (n: usize)
    requires
        product_fits(shape@),
    ensures
        n == shape_product(shape@),
{
    let mut acc: usize = 1;
    let mut i: usize = 0;
    assert(shape@.take(0) =~= Seq::<usize>::empty());
    while i < shape.len()
        invariant
            i <= shape.len(),
            product_fits(shape@),
            acc == shape_product(shape@.take(i as int)),
        decreases shape.len() - i,
    {
        let ghost next = shape@.take(i + 1);
        assert(next.drop_last() =~= shape@.take(i as int));
        assert(shape_product(next) <= usize::MAX);
        acc = acc * shape[i];
        i = i + 1;
    }
    assert(shape@.take(shape.len() as int) =~= shape@);
    acc
}

/// The number of elements of a tensor of the given shape, or `None` where multiplying
/// the dimensions would leave `usize`.
pub fn checked_element_count(shape: &[usize]) -> (n: Option<usize>)
    ensures
        n is Some <==> product_fits(shape@),
        n matches Some(v) ==> v == shape_product(shape@),
{
    let mut acc: usize = 1;
    let mut i: usize = 0;
    assert(shape@.take(0) =~= Seq::<usize>::empty());
    while i < shape.len()
        invariant
            i <= shape.len(),
            acc == shape_product(shape@.take(i as int)),
            forall|j: int| 0 <= j <= i ==> #[trigger] shape_product(shape@.take(j)) <= usize::MAX,
        decreases shape.len() - i,
    {
        let ghost next = shape@.take(i + 1);
        assert(next.drop_last() =~= shape@.take(i as int));
        match acc.checked_mul(shape[i]) {
            Some(v) => {
                acc = v;
            },
            None => {
                assert(shape_product(next) > usize::MAX);
                assert(!product_fits(shape@));
                return None;
            },
        }
        i = i + 1;
    }
    assert(shape@.take(shape.len() as int) =~= shape@);
    Some(acc)
}

/// Tells whether two shapes are the same.
pub fn same_shape(a: &[usize], b: &[usize]) -> (same: bool)
    ensures
        same == (a@ == b@),
{
    if a.len() != b.len() {
        return false;
    }
    let mut i: usize = 0;
    while i < a.len()
        invariant
            a.len() == b.len(),
            i <= a.len(),
            forall|j: int| 0 <= j < i ==> a@[j] == b@[j],
        decreases a.len() - i,
    {
        if a[i] != b[i] {
            return false;
        }
        i = i + 1;
    }
    assert(a@ =~= b@);
    true
}

/// Whether some dimension of `s` exceeds `limit`.
pub open spec fn has_dim_above(s: Seq<usize>, limit: usize) -> bool {
    exists|j: int| 0 <= j < s.len() && s[j] > limit
}

/// Tells whether some dimension exceeds `limit`.
pub fn any_dim_above(shape: &[usize], limit: usize) -> (found: bool)
    ensures
        found == has_dim_above(shape@, limit),
        found <==> exists|j: int| 0 <= j < shape@.len() && #[trigger] shape@[j] > limit,
{
    let mut i: usize = 0;
    while i < shape.len()
        invariant
            i <= shape.len(),
            forall|j: int| 0 <= j < i ==> shape@[j] <= limit,
        decreases shape.len() - i,
    {
        if shape[i] > limit {
            return true;
        }
        i = i + 1;
    }
    false
}

/// The first `n` entries of `dims` as a vector of their own.
pub fn leading_dims(dims: &[usize], n: usize) -> (shape: Vec<usize>)
    requires
        n <= dims@.len(),
    ensures
        shape@ == dims@.take(n as int),
{
    let mut shape: Vec<usize> = Vec::new();
    let mut i: usize = 0;
    while i < n
        invariant
            n <= dims@.len(),
            i <= n,
            shape@ == dims@.take(i as int),
        decreases n - i,
    {
        shape.push(dims[i]);
        assert(dims@.take(i + 1) =~= dims@.take(i as int).push(dims@[i as int]));
        i = i + 1;
    }
    shape
}

} // verus!
