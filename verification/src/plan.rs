//! Transfer plans: the ordered steps that carry a valid request out.

use vstd::prelude::*;
use crate::paths::{file_name, join, path_file_name, path_join};
use crate::request::{paths_of, ValidRequest, ValidView};
use crate::search::{first_true, first_true_from, lemma_first_true_from};

verus! {

/// One operation on the filesystem.
#[derive(Debug, PartialEq, Eq)]
pub enum TransferStep {
    /// Create a directory at this path.
    MkDir(String),
    /// Copy the contents of the file at the first path to the second path,
    /// which names the new file itself, not a directory to put it in.
    Cp(String, String),
}

/// The mathematical content of a `TransferStep`.
pub ghost enum StepView {
    MkDir(Seq<char>),
    Cp(Seq<char>, Seq<char>),
}

impl View for TransferStep {
    type V = StepView;

    open spec fn view(&self) -> StepView {
        match self {
            TransferStep::MkDir(path) => StepView::MkDir(path@),
            TransferStep::Cp(source, destination) => StepView::Cp(source@, destination@),
        }
    }
}

/// The views of a sequence of steps.
pub open spec fn steps_of(steps: Seq<TransferStep>) -> Seq<StepView> {
    Seq::new(steps.len(), |i: int| steps[i]@)
}

/// An ordered plan of steps, to be carried out first to last.
#[derive(Debug)]
pub struct Transfer {
    steps: Vec<TransferStep>,
}

impl View for Transfer {
    type V = Seq<StepView>;

    closed spec fn view(&self) -> Seq<StepView> {
        steps_of(self.steps@)
    }
}

impl Transfer {
    /// The plan that holds `steps`, in their order.
    pub fn new(steps: Vec<TransferStep>) -> (transfer: Transfer)
        ensures
            transfer@ == steps_of(steps@),
    {
        Transfer { steps }
    }

    /// The steps, in the order in which they are to be carried out.
    pub fn steps(&self) -> (steps: &Vec<TransferStep>)
        ensures
            steps_of(steps@) == self@,
    {
        &self.steps
    }

    /// Gives the steps up, in the order in which they are to be carried out.
    pub fn into_steps(self) -> (steps: Vec<TransferStep>)
        ensures
            steps_of(steps@) == self@,
    {
        self.steps
    }

    /// The number of steps.
    pub fn len(&self) -> (len: usize)
        ensures
            len == self@.len(),
    {
        self.steps.len()
    }
}

/// Why no plan could be made.
#[derive(Debug, PartialEq, Eq)]
pub enum PlanError {
    /// This source has no final component to name its copy by.
    NoFileName(String),
}

/// The mathematical content of a `PlanError`.
pub ghost enum PlanErrorView {
    NoFileName(Seq<char>),
}

impl PlanErrorView {
    /// The line that reports this error.
    pub open spec fn message(self) -> Seq<char> {
        match self {
            PlanErrorView::NoFileName(path) => path + " has no name"@,
        }
    }
}

impl View for PlanError {
    type V = PlanErrorView;

    open spec fn view(&self) -> PlanErrorView {
        match self {
            PlanError::NoFileName(path) => PlanErrorView::NoFileName(path@),
        }
    }
}

impl PlanError {
    /// The line that reports this error.
    pub fn message(&self) -> (line: String)
        ensures
            line@ == self@.message(),
    {
        match self {
            PlanError::NoFileName(path) => {
                let mut line = path.clone();
                line.append(" has no name");
                line
            },
        }
    }
}

/// The name to copy `path` under, given the final component that was
/// `found` in it: the component itself, or the error that names `path`
/// where there is none.
pub fn name_or_error(path: &str, found: Option<String>) -> (result: Result<String, PlanError>)
    ensures
        match found {
            Some(name) => result == Ok::<String, PlanError>(name),
            None => result matches Err(e) && e@ == PlanErrorView::NoFileName(path@),
        },
{
    match found {
        Some(name) => Ok(name),
        None => Err(PlanError::NoFileName(path.to_owned())),
    }
}

/// The final component of `path`, or the error that names `path` where it
/// has none.
pub fn get_file_name(path: &str) -> (result: Result<String, PlanError>)
    ensures
        match path_file_name(path@) {
            Some(name) => result matches Ok(n) && n@ == name,
            None => result matches Err(e) && e@ == PlanErrorView::NoFileName(path@),
        },
{
    name_or_error(path, file_name(path))
}

/// Where `source` lands inside the directory `destination`: the directory
/// joined with the source's final component.
pub open spec fn target_in(destination: Seq<char>, source: Seq<char>) -> Seq<char>
    recommends
        path_file_name(source) is Some,
{
    path_join(destination, path_file_name(source).unwrap())
}

/// For each source, whether it lacks a final component.
pub open spec fn unnamed_flags(sources: Seq<Seq<char>>) -> Seq<bool> {
    Seq::new(sources.len(), |i: int| path_file_name(sources[i]) is None)
}

/// The plan for a single source. Into a directory it is copied under its
/// own name; otherwise the destination is the copy's path as it stands.
pub open spec fn plan_one_source(request: ValidView) -> Result<Seq<StepView>, PlanErrorView>
    recommends
        request.sources.len() == 1,
{
    let source = request.sources[0];
    if !request.destination_is_dir {
        Ok(seq![StepView::Cp(source, request.destination)])
    } else if path_file_name(source) is None {
        Err(PlanErrorView::NoFileName(source))
    } else {
        Ok(seq![StepView::Cp(source, target_in(request.destination, source))])
    }
}

/// The plan for any number of sources that go into a directory: one copy
/// per source, in the order given, each under its own name. The first source
/// without a name is reported.
pub open spec fn plan_several_sources(request: ValidView) -> Result<Seq<StepView>, PlanErrorView> {
    match first_true(unnamed_flags(request.sources)) {
        Some(i) => Err(PlanErrorView::NoFileName(request.sources[i])),
        None => Ok(
            Seq::new(
                request.sources.len(),
                |i: int|
                    StepView::Cp(
                        request.sources[i],
                        target_in(request.destination, request.sources[i]),
                    ),
            ),
        ),
    }
}

/// The plan for a valid request.
pub open spec fn plan(request: ValidView) -> Result<Seq<StepView>, PlanErrorView> {
    if request.sources.len() == 1 {
        plan_one_source(request)
    } else {
        plan_several_sources(request)
    }
}

/// A plan holds one copy per source and nothing else, in the order of the
/// sources. A single source that does not go into a directory always has a
/// plan, which copies it to the destination as it stands; in every other
/// case there is a plan exactly where every source has a final component,
/// and the source reported otherwise is the first that has none.
pub proof fn lemma_plan(request: ValidView)
    ensures
        plan(request) matches Ok(steps) ==> steps.len() == request.sources.len() && forall|
            i: int,
        |
            0 <= i < steps.len() ==> ((#[trigger] steps[i]) matches StepView::Cp(source, _)
                && source == request.sources[i]),
        request.sources.len() == 1 && !request.destination_is_dir ==> plan(request) == Ok::<
            Seq<StepView>,
            PlanErrorView,
        >(seq![StepView::Cp(request.sources[0], request.destination)]),
        !(request.sources.len() == 1 && !request.destination_is_dir) ==> (plan(request) is Ok
            <==> forall|i: int|
            0 <= i < request.sources.len() ==> path_file_name(#[trigger] request.sources[i])
                is Some),
        plan(request) matches Err(PlanErrorView::NoFileName(path)) ==> exists|i: int|
            0 <= i < request.sources.len() && path == request.sources[i] && path_file_name(
                request.sources[i],
            ) is None && forall|j: int|
                0 <= j < i ==> path_file_name(#[trigger] request.sources[j]) is Some,
{
    let flags = unnamed_flags(request.sources);
    lemma_first_true_from(flags, 0);
    if request.sources.len() == 1 {
        if request.destination_is_dir && path_file_name(request.sources[0]) is None {
            assert(flags[0]);
            assert(path_file_name(request.sources[0]) is None && forall|j: int|
                0 <= j < 0 ==> path_file_name(#[trigger] request.sources[j]) is Some);
        } else if request.destination_is_dir {
            assert forall|i: int| 0 <= i < request.sources.len() implies path_file_name(
                #[trigger] request.sources[i],
            ) is Some by {
                assert(i == 0);
            }
        }
    } else {
        match first_true(flags) {
            Some(i) => {
                assert(flags[i]);
                assert(path_file_name(request.sources[i]) is None);
                assert forall|j: int| 0 <= j < i implies path_file_name(
                    #[trigger] request.sources[j],
                ) is Some by {
                    assert(!flags[j]);
                }
            },
            None => {
                assert forall|i: int| 0 <= i < request.sources.len() implies path_file_name(
                    #[trigger] request.sources[i],
                ) is Some by {
                    assert(!flags[i]);
                }
            },
        }
    }
}

impl<'a> ValidRequest<'a> {
    /// Computes the steps that carry this request out.
    ///
    /// A single source is copied to the destination itself, or, where the
    /// destination is a directory, into it under the source's own name.
    /// Several sources are each copied into the destination under their own
    /// names, in the order given. A source without a final component is
    /// reported, the first such in the order given.
    pub fn compute_transfer(&self) -> (result: Result<Transfer, PlanError>)
        ensures
            match plan(self@) {
                Ok(steps) => result matches Ok(t) && t@ == steps,
                Err(error) => result matches Err(e) && e@ == error,
            },
    {
        if self.sources().len() == 1 {
            self.compute_transfer_one_source()
        } else {
            self.compute_transfer_several_sources()
        }
    }

    /// The plan for the single source of this request.
    pub fn compute_transfer_one_source(&self) -> (result: Result<Transfer, PlanError>)
        requires
            self@.sources.len() == 1,
        ensures
            match plan_one_source(self@) {
                Ok(steps) => result matches Ok(t) && t@ == steps,
                Err(error) => result matches Err(e) && e@ == error,
            },
    {
        let sources = self.sources();
        let destination = self.destination();
        assert(sources@[0]@ == self@.sources[0]);
        let source = sources[0];
        let full_destination = if self.destination_is_dir() {
            match get_file_name(source) {
                Ok(name) => join(destination, name.as_str()),
                Err(error) => {
                    return Err(error);
                },
            }
        } else {
            destination.to_owned()
        };
        let mut steps: Vec<TransferStep> = Vec::new();
        steps.push(TransferStep::Cp(source.to_owned(), full_destination));
        let transfer = Transfer { steps };
        assert(transfer@ =~= plan_one_source(self@)->Ok_0);
        Ok(transfer)
    }

    /// The plan that copies every source of this request into the
    /// destination.
    pub fn compute_transfer_several_sources(&self) -> (result: Result<Transfer, PlanError>)
        ensures
            match plan_several_sources(self@) {
                Ok(steps) => result matches Ok(t) && t@ == steps,
                Err(error) => result matches Err(e) && e@ == error,
            },
    {
        let sources = self.sources();
        let destination = self.destination();
        let ghost flags = unnamed_flags(self@.sources);
        let mut steps: Vec<TransferStep> = Vec::new();
        let mut i: usize = 0;
        while i < sources.len()
            invariant
                i <= sources.len(),
                paths_of(sources@) == self@.sources,
                destination@ == self@.destination,
                flags == unnamed_flags(self@.sources),
                first_true(flags) == first_true_from(flags, i as int),
                steps.len() == i,
                forall|j: int|
                    0 <= j < i ==> (#[trigger] steps[j])@ == StepView::Cp(
                        self@.sources[j],
                        target_in(self@.destination, self@.sources[j]),
                    ),
            decreases sources.len() - i,
        {
            assert(sources@[i as int]@ == self@.sources[i as int]);
            let name = match get_file_name(sources[i]) {
                Ok(name) => name,
                Err(error) => {
                    return Err(error);
                },
            };
            let full_destination = join(destination, name.as_str());
            steps.push(TransferStep::Cp(sources[i].to_owned(), full_destination));
            i += 1;
        }
        let transfer = Transfer { steps };
        assert(transfer@ =~= plan_several_sources(self@)->Ok_0);
        Ok(transfer)
    }
}

} // verus!
