//! The error type of the pipeline and the texts of its diagnostics.
use vstd::prelude::*;

verus! {

/// Diagnostic of a dimension error: a width or height that the resampler
/// cannot represent.
pub const ERROR_DATA: &'static str = "Data error";

/// Leading part of the diagnostic of a failure reported by the resampler.
pub const ERROR_RESIZE: &'static str = "Error: Resize";

/// An error raised while rendering one image. Every failure of the pipeline
/// is of the one kind and carries its diagnostic as text.
#[derive(Debug)]
pub enum MyError {
    Pipeline(String),
}

/// The diagnostic that wraps `detail`, the resampler's own account of what
/// went wrong.
pub open spec fn resize_failure(detail: Seq<char>) -> Seq<char> {
    ERROR_RESIZE@ + seq![':'] + detail
}

impl MyError {
    /// The diagnostic carried by the error.
    pub open spec fn message(&self) -> Seq<char> {
        match self {
            MyError::Pipeline(text) => text@,
        }
    }

    /// Whether this is the dimension error.
    pub open spec fn is_data_error(&self) -> bool {
        self.message() == ERROR_DATA@
    }

    /// Whether this reports a failure of the resampler.
    pub open spec fn is_resize_failure(&self) -> bool {
        exists|detail: Seq<char>| self.message() == resize_failure(detail)
    }

    /// The dimension error.
    pub fn data() -> (e: MyError)
        ensures
            e.is_data_error(),
    {
        MyError::Pipeline(ERROR_DATA.to_owned())
    }

    /// The diagnostic as an owned string.
    pub fn to_text(&self) -> (text: String)
        ensures
            text@ == self.message(),
    {
        match self {
            MyError::Pipeline(text) => text.clone(),
        }
    }
}

/// The dimension error and a failure of the resampler never read the same:
/// their diagnostics differ in the first character.
pub proof fn lemma_data_error_is_no_resize_failure(e: MyError)
    ensures
        !(e.is_data_error() && e.is_resize_failure()),
{
    reveal_strlit("Data error");
    reveal_strlit("Error: Resize");
    assert(ERROR_DATA@[0] == 'D');
    assert(forall|detail: Seq<char>| #[trigger] resize_failure(detail)[0] == 'E');
}

} // verus!
