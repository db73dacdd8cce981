// An external-process invocation as this layer constructs it: the program
// to start and its argument vector, both plain strings. The model of an
// invocation is the pair of their character sequences.

use vstd::prelude::*;

verus! {

/// The character sequences a vector of strings stands for.
pub open spec fn strings_view(v: Seq<String>) -> Seq<Seq<char>> {
    v.map_values(|s: String| s@)
}

/// A fully constructed external-process invocation.
#[derive(Debug, Clone)]
pub struct Invocation {
    /// The program to start.
    pub program: String,
    /// Its arguments, in the exact order they are to be passed.
    pub args: Vec<String>,
}

/// What an invocation stands for: the program name and the argument
/// vector as character sequences.
pub struct InvocationModel {
    pub program: Seq<char>,
    pub args: Seq<Seq<char>>,
}

impl View for Invocation {
    type V = InvocationModel;

    open spec fn view(&self) -> InvocationModel {
        InvocationModel { program: self.program@, args: strings_view(self.args@) }
    }
}

} // verus!
