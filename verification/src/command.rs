//! Programs that are run, and what comes of them.

use vstd::prelude::*;
use vstd::string::*;

verus! {

/// A program and its arguments.
#[derive(Debug, PartialEq, Eq)]
pub struct Invocation {
    pub program: String,
    pub args: Vec<String>,
}

/// The same with texts as character sequences.
#[verifier::ext_equal]
pub struct InvocationView {
    pub program: Seq<char>,
    pub args: Seq<Seq<char>>,
}

impl View for Invocation {
    type V = InvocationView;

    open spec fn view(&self) -> InvocationView {
        InvocationView {
            program: self.program@,
            args: self.args@.map_values(|arg: String| arg@),
        }
    }
}

impl Invocation {
    /// A program with its arguments.
    pub fn new(program: &str, args: &[&str]) -> (invocation: Invocation)
        ensures
            invocation@ == (InvocationView {
                program: program@,
                args: args@.map_values(|arg: &str| arg@),
            }),
    {
        let mut owned: Vec<String> = Vec::new();
        for i in 0..args.len()
            invariant
                owned@.len() == i,
                forall|k: int| 0 <= k < i ==> (#[trigger] owned@[k])@ == args@[k]@,
        {
            owned.push(args[i].to_string());
        }
        let invocation = Invocation { program: program.to_string(), args: owned };
        assert(invocation@.args =~= args@.map_values(|arg: &str| arg@));
        invocation
    }
}

/// What a program printed, and whether it exited with success.
#[derive(Debug, PartialEq, Eq)]
pub struct Output {
    pub success: bool,
    pub stdout: Vec<u8>,
    pub stderr: Vec<u8>,
}

/// What came of running a program for its exit status.
#[derive(Copy, Clone, Debug, PartialEq, Eq, Structural)]
pub enum Exit {
    /// The program could not be run.
    NotRun,
    /// The program exited with success.
    Success,
    /// The program exited with a failure.
    Failure,
}

} // verus!
