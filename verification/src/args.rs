//! From the argument vector to a transfer request.

use vstd::prelude::*;
use crate::request::{RequestView, TransferRequest};

verus! {

/// The line that tells how `program` is to be called.
pub open spec fn usage(program: Seq<char>) -> Seq<char> {
    "Usage: "@ + program + " SRC [SRC ...] DEST"@
}

/// What an argument vector asks for. The first argument is the program's
/// name, the last is the destination, and those between are the sources, of
/// which there must be at least one.
pub open spec fn parsed(args: Seq<Seq<char>>) -> Result<RequestView, Seq<char>>
    recommends
        args.len() >= 1,
{
    if args.len() < 3 {
        Err(usage(args[0]))
    } else {
        Ok(RequestView { sources: args.subrange(1, args.len() - 1), destination: args.last() })
    }
}

/// The views of the entries of an argument vector.
pub open spec fn words_of(args: Seq<String>) -> Seq<Seq<char>> {
    Seq::new(args.len(), |i: int| args[i]@)
}

/// Reads a transfer request out of the argument vector `args`, whose first
/// entry is the program's name.
///
/// With at least one source and a destination after the name, the request
/// holds the sources in the order given and the destination. With fewer, the
/// usage line comes back as the error.
pub fn parse_args<'a>(args: &'a [String]) -> (result: Result<TransferRequest<'a>, String>)
    requires
        args@.len() >= 1,
    ensures
        match parsed(words_of(args@)) {
            Ok(request) => result matches Ok(r) && r@ == request,
            Err(line) => result matches Err(l) && l@ == line,
        },
{
    let arg_count = args.len();
    if arg_count < 3 {
        let mut line = "Usage: ".to_owned();
        line.append(args[0].as_str());
        line.append(" SRC [SRC ...] DEST");
        return Err(line);
    }
    let mut sources: Vec<&'a str> = Vec::new();
    let mut i: usize = 1;
    while i < arg_count - 1
        invariant
            arg_count == args@.len(),
            arg_count >= 3,
            1 <= i <= arg_count - 1,
            sources@.len() == i - 1,
            forall|j: int| 0 <= j < i - 1 ==> (#[trigger] sources@[j])@ == args@[j + 1]@,
        decreases arg_count - i,
    {
        sources.push(args[i].as_str());
        i += 1;
    }
    let request = TransferRequest { sources, destination: args[arg_count - 1].as_str() };
    assert(request@.sources =~= words_of(args@).subrange(1, args@.len() - 1));
    Ok(request)
}

} // verus!
