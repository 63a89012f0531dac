//! A command line: the program to start and the arguments to hand to it.

use crate::text::{copy_texts, push_all, push_text, strs, texts};
use vstd::prelude::*;
use vstd::string::*;

verus! {

/// One invocation of an external program, ready to be started by the caller.
#[derive(Debug, PartialEq, Eq)]
pub struct Invocation {
    /// The program, looked up on the search path by whoever starts it.
    pub program: String,
    /// The arguments, in the order in which the program receives them.
    pub args: Vec<String>,
}

/// What an [`Invocation`] holds, as plain sequences.
pub struct InvocationView {
    pub program: Seq<char>,
    pub args: Seq<Seq<char>>,
}

impl View for Invocation {
    type V = InvocationView;

    open spec fn view(&self) -> InvocationView {
        InvocationView { program: self.program@, args: texts(self.args@) }
    }
}

impl Clone for Invocation {
    fn clone(&self) -> (copy: Self)
        ensures
            copy@ == self@,
    {
        Invocation { program: self.program.clone(), args: copy_texts(&self.args) }
    }
}

impl Invocation {
    /// An invocation of `program` without arguments.
    pub fn new(program: &str) -> (cmd: Invocation)
        ensures
            cmd@.program == program@,
            cmd@.args == Seq::<Seq<char>>::empty(),
    {
        let cmd = Invocation { program: String::from_str(program), args: Vec::new() };
        assert(texts(cmd.args@) =~= Seq::<Seq<char>>::empty());
        cmd
    }

    /// Adds one argument behind those already present.
    pub fn arg(&mut self, token: &str)
        ensures
            final(self)@.program == old(self)@.program,
            final(self)@.args == old(self)@.args.push(token@),
    {
        push_text(&mut self.args, token);
    }

    /// Adds every token of `tokens`, in order, behind the arguments already present.
    pub fn args(&mut self, tokens: &[&str])
        ensures
            final(self)@.program == old(self)@.program,
            final(self)@.args == old(self)@.args + strs(tokens@),
    {
        push_all(&mut self.args, tokens);
    }
}

} // verus!
