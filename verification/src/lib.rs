//! Planning of file transfers in the manner of a copy command.
//!
//! A request names one or more sources and a destination. It is validated
//! against a snapshot of what the filesystem held at those paths, turned
//! into an ordered plan of steps, and the plan is then carried out step by
//! step. Nothing in this library touches the filesystem: the caller observes
//! it, hands the observations in, and performs the steps the library
//! hands out.

use vstd::prelude::*;

pub mod args;
pub mod copy;
pub mod execute;
pub mod paths;
pub mod plan;
pub mod request;
pub mod search;
pub mod snapshot;

use crate::args::{parse_args, parsed, words_of};
use crate::plan::{plan, StepView, Transfer};
use crate::request::{validate, validation};
use crate::snapshot::{PathKind, Snapshot};

verus! {

/// What an argument vector leads to in `state`: the plan, or the line that
/// reports the first thing that stood in its way: the arguments, then the
/// validation, then the planning.
pub open spec fn outcome(args: Seq<Seq<char>>, state: Map<Seq<char>, PathKind>) -> Result<
    Seq<StepView>,
    Seq<char>,
>
    recommends
        args.len() >= 1,
{
    match parsed(args) {
        Err(line) => Err(line),
        Ok(request) => match validation(request, state) {
            Err(error) => Err(error.message()),
            Ok(valid) => match plan(valid) {
                Err(error) => Err(error.message()),
                Ok(steps) => Ok(steps),
            },
        },
    }
}

/// Takes the argument vector `args`, whose first entry is the program's
/// name, through parsing, validation against `snapshot` and planning.
///
/// The result is the plan to carry out, or the line that reports why there
/// is none.
pub fn run(args: Vec<String>, snapshot: &Snapshot) -> (result: Result<Transfer, String>)
    requires
        args@.len() >= 1,
    ensures
        match outcome(words_of(args@), snapshot@) {
            Ok(steps) => result matches Ok(t) && t@ == steps,
            Err(line) => result matches Err(l) && l@ == line,
        },
{
    let request = match parse_args(args.as_slice()) {
        Ok(request) => request,
        Err(line) => {
            return Err(line);
        },
    };
    let request = match validate(request, snapshot) {
        Ok(request) => request,
        Err(error) => {
            return Err(error.message());
        },
    };
    match request.compute_transfer() {
        Ok(transfer) => Ok(transfer),
        Err(error) => Err(error.message()),
    }
}

} // verus!
