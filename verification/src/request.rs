//! Transfer requests and their validation against a snapshot.

use vstd::prelude::*;
use crate::search::{first_true, first_true_from, lemma_first_true_from};
use crate::snapshot::{exists_in, is_dir_in, PathKind, Snapshot};

verus! {

/// The views of a sequence of path strings.
pub open spec fn paths_of(paths: Seq<&str>) -> Seq<Seq<char>> {
    Seq::new(paths.len(), |i: int| paths[i]@)
}

/// A transfer as it was asked for: the sources in the order given, and the
/// destination.
#[derive(Debug)]
pub struct TransferRequest<'a> {
    pub sources: Vec<&'a str>,
    pub destination: &'a str,
}

/// The mathematical content of a `TransferRequest`.
pub ghost struct RequestView {
    pub sources: Seq<Seq<char>>,
    pub destination: Seq<char>,
}

impl<'a> View for TransferRequest<'a> {
    type V = RequestView;

    open spec fn view(&self) -> RequestView {
        RequestView { sources: paths_of(self.sources@), destination: self.destination@ }
    }
}

/// A request that passed validation, together with what validation learned
/// of the destination. Only `validate` makes one.
pub struct ValidRequest<'a> {
    sources: Vec<&'a str>,
    destination: &'a str,
    destination_is_dir: bool,
    observed: Ghost<Map<Seq<char>, PathKind>>,
}

/// The mathematical content of a `ValidRequest`.
pub ghost struct ValidView {
    pub sources: Seq<Seq<char>>,
    pub destination: Seq<char>,
    pub destination_is_dir: bool,
    /// The state against which the request was validated.
    pub observed: Map<Seq<char>, PathKind>,
}

impl ValidView {
    /// What validation vouches for: in the state observed, every source
    /// existed, the destination was a directory or not as recorded, and
    /// with several sources it was one.
    pub open spec fn well_formed(self) -> bool {
        &&& forall|i: int|
            0 <= i < self.sources.len() ==> exists_in(self.observed, #[trigger] self.sources[i])
        &&& self.destination_is_dir == is_dir_in(self.observed, self.destination)
        &&& self.sources.len() > 1 ==> self.destination_is_dir
    }
}

impl<'a> View for ValidRequest<'a> {
    type V = ValidView;

    closed spec fn view(&self) -> ValidView {
        ValidView {
            sources: paths_of(self.sources@),
            destination: self.destination@,
            destination_is_dir: self.destination_is_dir,
            observed: self.observed@,
        }
    }
}

/// Why a request was turned down.
#[derive(Debug, PartialEq, Eq)]
pub enum ValidationError {
    /// Nothing exists at this source.
    SourceNotFound(String),
    /// Several sources were given and this destination is no directory.
    DestinationMustBeDirectory(String),
}

/// The mathematical content of a `ValidationError`.
pub ghost enum ValidationErrorView {
    SourceNotFound(Seq<char>),
    DestinationMustBeDirectory(Seq<char>),
}

impl ValidationErrorView {
    /// The line that reports this error.
    pub open spec fn message(self) -> Seq<char> {
        match self {
            ValidationErrorView::SourceNotFound(path) => path + " does not exist"@,
            ValidationErrorView::DestinationMustBeDirectory(path) => path
                + " should be a directory"@,
        }
    }
}

impl View for ValidationError {
    type V = ValidationErrorView;

    open spec fn view(&self) -> ValidationErrorView {
        match self {
            ValidationError::SourceNotFound(path) => ValidationErrorView::SourceNotFound(path@),
            ValidationError::DestinationMustBeDirectory(path) =>
                ValidationErrorView::DestinationMustBeDirectory(path@),
        }
    }
}

impl ValidationError {
    /// The line that reports this error.
    pub fn message(&self) -> (line: String)
        ensures
            line@ == self@.message(),
    {
        match self {
            ValidationError::SourceNotFound(path) => {
                let mut line = path.clone();
                line.append(" does not exist");
                line
            },
            ValidationError::DestinationMustBeDirectory(path) => {
                let mut line = path.clone();
                line.append(" should be a directory");
                line
            },
        }
    }
}

/// For each source, whether `state` holds nothing at it.
pub open spec fn missing_flags(sources: Seq<Seq<char>>, state: Map<Seq<char>, PathKind>) -> Seq<
    bool,
> {
    Seq::new(sources.len(), |i: int| !exists_in(state, sources[i]))
}

/// What validation makes of `request` in `state`: the first missing source
/// is reported; failing that, several sources with a destination that is no
/// directory are reported; failing that, the request is accepted as it
/// stands.
pub open spec fn validation(request: RequestView, state: Map<Seq<char>, PathKind>) -> Result<
    ValidView,
    ValidationErrorView,
> {
    match first_true(missing_flags(request.sources, state)) {
        Some(i) => Err(ValidationErrorView::SourceNotFound(request.sources[i])),
        None => if request.sources.len() > 1 && !is_dir_in(state, request.destination) {
            Err(ValidationErrorView::DestinationMustBeDirectory(request.destination))
        } else {
            Ok(
                ValidView {
                    sources: request.sources,
                    destination: request.destination,
                    destination_is_dir: is_dir_in(state, request.destination),
                    observed: state,
                },
            )
        },
    }
}

impl<'a> ValidRequest<'a> {
    #[verifier::type_invariant]
    spec fn inv(self) -> bool {
        self@.well_formed()
    }

    /// The sources, in the order in which they were given.
    pub fn sources(&self) -> (sources: &Vec<&'a str>)
        ensures
            paths_of(sources@) == self@.sources,
    {
        &self.sources
    }

    /// The destination.
    pub fn destination(&self) -> (destination: &'a str)
        ensures
            destination@ == self@.destination,
    {
        self.destination
    }

    /// Whether validation found a directory at the destination. With more
    /// than one source it did, and it found every source.
    pub fn destination_is_dir(&self) -> (is_dir: bool)
        ensures
            is_dir == self@.destination_is_dir,
            self@.well_formed(),
    {
        proof {
            use_type_invariant(self);
        }
        self.destination_is_dir
    }
}

/// Checks `request` against `snapshot`.
///
/// Every source must exist, and where there is more than one source the
/// destination must be a directory. The first source that is missing, in the
/// order given, is the one reported. An accepted request carries the sources
/// and the destination unchanged.
pub fn validate<'a>(request: TransferRequest<'a>, snapshot: &Snapshot) -> (result: Result<
    ValidRequest<'a>,
    ValidationError,
>)
    ensures
        match validation(request@, snapshot@) {
            Ok(valid) => result matches Ok(r) && r@ == valid,
            Err(error) => result matches Err(e) && e@ == error,
        },
{
    let ghost flags = missing_flags(request@.sources, snapshot@);
    let mut i: usize = 0;
    while i < request.sources.len()
        invariant
            i <= request.sources.len(),
            flags == missing_flags(request@.sources, snapshot@),
            first_true(flags) == first_true_from(flags, i as int),
        decreases request.sources.len() - i,
    {
        if !snapshot.is_present(request.sources[i]) {
            return Err(ValidationError::SourceNotFound(request.sources[i].to_owned()));
        }
        i += 1;
    }
    let destination_is_dir = snapshot.is_dir(request.destination);
    if request.sources.len() > 1 && !destination_is_dir {
        return Err(ValidationError::DestinationMustBeDirectory(request.destination.to_owned()));
    }
    proof {
        lemma_validation(request@, snapshot@);
    }
    Ok(
        ValidRequest {
            sources: request.sources,
            destination: request.destination,
            destination_is_dir,
            observed: Ghost(snapshot@),
        },
    )
}

/// Validation accepts a request exactly where every source exists and, with
/// more than one source, the destination is a directory. Otherwise it
/// reports the first source that is missing, or, where none is missing, the
/// destination.
pub proof fn lemma_validation(request: RequestView, state: Map<Seq<char>, PathKind>)
    ensures
        validation(request, state) is Ok <==> (forall|i: int|
            0 <= i < request.sources.len() ==> exists_in(state, #[trigger] request.sources[i]))
            && (request.sources.len() > 1 ==> is_dir_in(state, request.destination)),
        validation(request, state) matches Ok(valid) ==> valid.sources == request.sources
            && valid.destination == request.destination && valid.well_formed(),
        validation(request, state) matches Err(ValidationErrorView::SourceNotFound(path))
            ==> exists|i: int|
            0 <= i < request.sources.len() && path == request.sources[i] && !exists_in(
                state,
                request.sources[i],
            ) && forall|j: int| 0 <= j < i ==> exists_in(state, #[trigger] request.sources[j]),
        validation(request, state) matches Err(
            ValidationErrorView::DestinationMustBeDirectory(path),
        ) ==> path == request.destination && request.sources.len() > 1 && !is_dir_in(
            state,
            request.destination,
        ) && forall|i: int|
            0 <= i < request.sources.len() ==> exists_in(state, #[trigger] request.sources[i]),
{
    let flags = missing_flags(request.sources, state);
    lemma_first_true_from(flags, 0);
    match first_true(flags) {
        Some(i) => {
            assert(!exists_in(state, request.sources[i]));
            assert forall|j: int| 0 <= j < i implies exists_in(
                state,
                #[trigger] request.sources[j],
            ) by {
                assert(!flags[j]);
            }
        },
        None => {
            assert forall|i: int| 0 <= i < request.sources.len() implies exists_in(
                state,
                #[trigger] request.sources[i],
            ) by {
                assert(!flags[i]);
            }
        },
    }
}

} // verus!
