use vstd::prelude::*;

verus! {

/// Where in the query text an error entry points.
#[derive(Debug, Clone, Copy, PartialEq, Eq, Structural)]
pub struct ErrorLocation {
    pub line: u64,
    pub column: u64,
}

/// One application-level error entry of a response envelope.
#[derive(Debug, Clone, PartialEq)]
pub struct ErrorDetail {
    pub message: String,
    pub location: Option<ErrorLocation>,
}

/// The mathematical value of an [`ErrorDetail`].
pub struct ErrorDetailView {
    pub message: Seq<char>,
    pub location: Option<ErrorLocation>,
}

impl View for ErrorDetail {
    type V = ErrorDetailView;

    open spec fn view(&self) -> ErrorDetailView {
        ErrorDetailView { message: self.message@, location: self.location }
    }
}

/// The three runtime failure classes of a round trip.
#[derive(Debug, Clone, Copy, PartialEq, Eq, Structural)]
pub enum ErrorKind {
    /// The transport could not complete the exchange.
    Network,
    /// The response body did not have the envelope's shape.
    Decode,
    /// The envelope carried one or more error entries.
    Protocol,
}

/// A failed round trip: its class and the entries that describe it.
#[derive(Debug, Clone, PartialEq)]
pub struct FetchError {
    pub kind: ErrorKind,
    pub details: Vec<ErrorDetail>,
}

/// The mathematical value of a [`FetchError`].
pub struct FetchErrorView {
    pub kind: ErrorKind,
    pub details: Seq<ErrorDetailView>,
}

impl View for FetchError {
    type V = FetchErrorView;

    open spec fn view(&self) -> FetchErrorView {
        FetchErrorView { kind: self.kind, details: self.details@.map_values(|d: ErrorDetail| d@) }
    }
}

/// The view of an error made of a single entry without a location.
pub open spec fn single_error(kind: ErrorKind, message: Seq<char>) -> FetchErrorView {
    FetchErrorView {
        kind,
        details: seq![ErrorDetailView { message, location: None }],
    }
}

/// The view of a round trip's result: the data itself, or the error's view.
pub open spec fn result_view<D>(r: Result<D, FetchError>) -> Result<D, FetchErrorView> {
    match r {
        Ok(d) => Ok(d),
        Err(e) => Err(e@),
    }
}

/// Builds an error made of one entry, without a location.
pub fn error_with_message(kind: ErrorKind, message: String) -> (r: FetchError)
    ensures
        r@ == single_error(kind, message@),
{
    let mut details: Vec<ErrorDetail> = Vec::new();
    details.push(ErrorDetail { message, location: None });
    let r = FetchError { kind, details };
    assert(r@.details =~= single_error(kind, message@).details);
    r
}

} // verus!
