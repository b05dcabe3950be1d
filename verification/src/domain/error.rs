use vstd::prelude::*;

verus! {

/// Why a use case or a repository refused a request.
#[derive(Debug)]
pub enum DomainError {
    /// The entity that the request names does not exist.
    NotFound,
    /// The request is not allowed; the text says why.
    Validation(String),
}

/// A [`DomainError`] as a value: the variant, and the text of a validation
/// error.
pub enum DomainErrorView {
    NotFound,
    Validation(Seq<char>),
}

impl View for DomainError {
    type V = DomainErrorView;

    open spec fn view(&self) -> DomainErrorView {
        match self {
            DomainError::NotFound => DomainErrorView::NotFound,
            DomainError::Validation(m) => DomainErrorView::Validation(m@),
        }
    }
}

/// `r` is the reply to an operation that fails with `error` when that is
/// `Some`, and succeeds otherwise: `Ok` of any value, or `Err` carrying
/// exactly that error.
pub open spec fn replies<T>(r: Result<T, DomainError>, error: Option<DomainErrorView>) -> bool {
    match error {
        None => r is Ok,
        Some(e) => r matches Err(x) && x@ == e,
    }
}

} // verus!
