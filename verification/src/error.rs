//! The library's error type and its text.
use vstd::prelude::*;

verus! {

/// Everything that can go wrong when loading a model or running it.
#[derive(Debug, Clone, PartialEq, Eq)]
pub enum MnnError {
    InvalidParameter(String),
    OutOfMemory,
    RuntimeError(String),
    Unsupported,
    ModelLoadFailed(String),
    NullPointer,
    ShapeMismatch { expected: Vec<usize>, got: Vec<usize> },
}

pub type Result<T> = std::result::Result<T, MnnError>;

/// The text of one decimal digit `d` (0 to 9).
pub open spec fn digit_text(d: int) -> Seq<char> {
    if d == 0 {
        "0"@
    } else if d == 1 {
        "1"@
    } else if d == 2 {
        "2"@
    } else if d == 3 {
        "3"@
    } else if d == 4 {
        "4"@
    } else if d == 5 {
        "5"@
    } else if d == 6 {
        "6"@
    } else if d == 7 {
        "7"@
    } else if d == 8 {
        "8"@
    } else {
        "9"@
    }
}

/// The decimal text of `n`, most significant digit first, without leading zeros.
pub open spec fn decimal_text(n: nat) -> Seq<char>
    decreases n,
{
    if n < 10 {
        digit_text(n as int)
    } else {
        decimal_text(n / 10) + digit_text((n % 10) as int)
    }
}

/// The items of `s` in decimal, separated by a comma and a space.
pub open spec fn items_text(s: Seq<usize>) -> Seq<char>
    decreases s.len(),
{
    if s.len() == 0 {
        Seq::empty()
    } else if s.len() == 1 {
        decimal_text(s[0] as nat)
    } else {
        items_text(s.drop_last()) + ", "@ + decimal_text(s.last() as nat)
    }
}

/// A list of numbers as its debug text shows it, such as `[1, 3, 224, 224]`.
pub open spec fn list_text(s: Seq<usize>) -> Seq<char> {
    "["@ + items_text(s) + "]"@
}

/// The value an error stands for: its kind and the data it carries, as plain values.
pub enum ErrorView {
    InvalidParameter(Seq<char>),
    OutOfMemory,
    RuntimeError(Seq<char>),
    Unsupported,
    ModelLoadFailed(Seq<char>),
    NullPointer,
    ShapeMismatch { expected: Seq<usize>, got: Seq<usize> },
}

impl View for MnnError {
    type V = ErrorView;

    open spec fn view(&self) -> ErrorView {
        match self {
            MnnError::InvalidParameter(msg) => ErrorView::InvalidParameter(msg@),
            MnnError::OutOfMemory => ErrorView::OutOfMemory,
            MnnError::RuntimeError(msg) => ErrorView::RuntimeError(msg@),
            MnnError::Unsupported => ErrorView::Unsupported,
            MnnError::ModelLoadFailed(msg) => ErrorView::ModelLoadFailed(msg@),
            MnnError::NullPointer => ErrorView::NullPointer,
            MnnError::ShapeMismatch { expected, got } => ErrorView::ShapeMismatch {
                expected: expected@,
                got: got@,
            },
        }
    }
}

impl ErrorView {
    /// The human-readable description of the error.
    pub open spec fn message(self) -> Seq<char> {
        match self {
            ErrorView::InvalidParameter(msg) => "Invalid parameter: "@ + msg,
            ErrorView::OutOfMemory => "Out of memory"@,
            ErrorView::RuntimeError(msg) => "Runtime error: "@ + msg,
            ErrorView::Unsupported => "Unsupported operation"@,
            ErrorView::ModelLoadFailed(msg) => "Model loading failed: "@ + msg,
            ErrorView::NullPointer => "Null pointer"@,
            ErrorView::ShapeMismatch { expected, got } => "Shape mismatch: expected "@ + list_text(
                expected,
            ) + ", got "@ + list_text(got),
        }
    }
}

/// What a result stands for: `None` for success, else the view of its error.
pub open spec fn error_of<T>(r: Result<T>) -> Option<ErrorView> {
    match r {
        Ok(_) => None,
        Err(e) => Some(e@),
    }
}

impl MnnError {
    /// Describes the error in words, as its display text.
    pub fn message(&self) -> (text: String)
        ensures
            text@ == self@.message(),
    {
        match self {
            MnnError::InvalidParameter(msg) => {
                let mut text = String::from_str("Invalid parameter: ");
                text.append(msg.as_str());
                text
            },
            MnnError::OutOfMemory => String::from_str("Out of memory"),
            MnnError::RuntimeError(msg) => {
                let mut text = String::from_str("Runtime error: ");
                text.append(msg.as_str());
                text
            },
            MnnError::Unsupported => String::from_str("Unsupported operation"),
            MnnError::ModelLoadFailed(msg) => {
                let mut text = String::from_str("Model loading failed: ");
                text.append(msg.as_str());
                text
            },
            MnnError::NullPointer => String::from_str("Null pointer"),
            MnnError::ShapeMismatch { expected, got } => {
                let mut text = String::from_str("Shape mismatch: expected ");
                append_list(&mut text, expected);
                text.append(", got ");
                append_list(&mut text, got);
                text
            },
        }
    }
}

/// The text of the digit `d`.
fn digit_str(d: usize) -> (s: &'static str)
    requires
        d < 10,
    ensures
        s@ == digit_text(d as int),
{
    if d == 0 {
        "0"
    } else if d == 1 {
        "1"
    } else if d == 2 {
        "2"
    } else if d == 3 {
        "3"
    } else if d == 4 {
        "4"
    } else if d == 5 {
        "5"
    } else if d == 6 {
        "6"
    } else if d == 7 {
        "7"
    } else if d == 8 {
        "8"
    } else {
        "9"
    }
}

/// Appends the decimal text of `n` to `out`.
pub fn append_decimal(out: &mut String, n: usize)
    ensures
        final(out)@ == old(out)@ + decimal_text(n as nat),
    decreases n,
{
    if n >= 10 {
        append_decimal(out, n / 10);
    }
    out.append(digit_str(n % 10));
}

/// Appends the debug text of the list `items` to `out`.
pub fn append_list(out: &mut String, items: &Vec<usize>)
    ensures
        final(out)@ == old(out)@ + list_text(items@),
{
    let ghost start = out@;
    out.append("[");
    let mut i: usize = 0;
    while i < items.len()
        invariant
            i <= items.len(),
            out@ == start + "["@ + items_text(items@.take(i as int)),
        decreases items.len() - i,
    {
        if i > 0 {
            out.append(", ");
        }
        append_decimal(out, items[i]);
        proof {
            let t = items@.take(i + 1);
            assert(t.drop_last() =~= items@.take(i as int));
            assert(t.last() == items@[i as int]);
        }
        i = i + 1;
    }
    assert(items@.take(items.len() as int) =~= items@);
    out.append("]");
}

} // verus!
