//! Parsed command-line arguments, held as plain data.
//!
//! A parse yields a tree: the arguments given at one level, and at most one
//! subcommand with its own arguments below it.
use vstd::prelude::*;

use crate::text::str_eq;

verus! {

/// One argument that occurred at one level of the tree.
pub struct MatchedArg {
    /// The argument's identifier in the schema (`"JSON"`, `"PAGE"`, ...).
    pub name: String,
    /// The first value given to it, if it takes one.
    pub value: Option<String>,
}

/// The subcommand that was chosen at one level, with its own arguments.
pub struct SubCommandArgs {
    pub name: String,
    pub matches: ParsedArgs,
}

/// The arguments of one level of the parse tree.
pub struct ParsedArgs {
    pub args: Vec<MatchedArg>,
    pub subcommand: Option<Box<SubCommandArgs>>,
}

/// Whether an argument of that name occurs in `args`.
pub open spec fn arg_occurs(args: Seq<MatchedArg>, name: Seq<char>) -> bool {
    exists|i: int| 0 <= i < args.len() && (#[trigger] args[i]).name@ == name
}

/// The value of the first argument of that name in `args`, if it has one.
pub open spec fn first_value(args: Seq<MatchedArg>, name: Seq<char>) -> Option<Seq<char>>
    decreases args.len(),
{
    if args.len() == 0 {
        None
    } else if args[0].name@ == name {
        match args[0].value {
            Some(v) => Some(v@),
            None => None,
        }
    } else {
        first_value(args.drop_first(), name)
    }
}

/// Following `path` down the subcommands of `m`: the arguments of the level
/// reached, if every name on the path was the subcommand chosen at its level.
pub open spec fn select(m: ParsedArgs, path: Seq<Seq<char>>) -> Option<ParsedArgs>
    decreases path.len(),
{
    if path.len() == 0 {
        Some(m)
    } else {
        match m.subcommand {
            Some(sub) => if sub.name@ == path[0] {
                select(sub.matches, path.drop_first())
            } else {
                None
            },
            None => None,
        }
    }
}

impl ParsedArgs {
    /// Whether `name` is the subcommand chosen here.
    pub open spec fn spec_has_subcommand(&self, name: Seq<char>) -> bool {
        &&& self.subcommand is Some
        &&& self.subcommand->0.name@ == name
    }

    /// Whether `name` occurred here, as an argument or as the chosen subcommand.
    pub open spec fn spec_is_present(&self, name: Seq<char>) -> bool {
        self.spec_has_subcommand(name) || arg_occurs(self.args@, name)
    }

    pub open spec fn spec_value_of(&self, name: Seq<char>) -> Option<Seq<char>> {
        first_value(self.args@, name)
    }

    /// Whether `name` occurred at this level, as an argument or as the
    /// chosen subcommand.
    pub fn is_present(&self, name: &str) -> (r: bool)
        ensures
            r == self.spec_is_present(name@),
    {
        if let Some(sub) = &self.subcommand {
            if str_eq(sub.name.as_str(), name) {
                return true;
            }
        }
        let mut i: usize = 0;
        while i < self.args.len()
            invariant
                i <= self.args@.len(),
                forall|j: int| 0 <= j < i ==> (#[trigger] self.args@[j]).name@ != name@,
            decreases self.args@.len() - i,
        {
            if str_eq(self.args[i].name.as_str(), name) {
                return true;
            }
            i = i + 1;
        }
        false
    }

    /// The value of the argument `name` at this level, if it occurred with one.
    pub fn value_of(&self, name: &str) -> (r: Option<&String>)
        ensures
            r is Some <==> self.spec_value_of(name@) is Some,
            r is Some ==> r->0@ == self.spec_value_of(name@)->0,
    {
        let mut i: usize = 0;
        assert(self.args@.subrange(0, self.args@.len() as int) =~= self.args@);
        while i < self.args.len()
            invariant
                i <= self.args@.len(),
                first_value(self.args@, name@) == first_value(self.args@.subrange(i as int, self.args@.len() as int), name@),
            decreases self.args@.len() - i,
        {
            proof {
                let rest = self.args@.subrange(i as int, self.args@.len() as int);
                assert(rest.drop_first() =~= self.args@.subrange(i + 1, self.args@.len() as int));
            }
            if str_eq(self.args[i].name.as_str(), name) {
                return self.args[i].value.as_ref();
            }
            i = i + 1;
        }
        proof {
            assert(self.args@.subrange(i as int, self.args@.len() as int).len() == 0);
        }
        None
    }

    /// The arguments of the subcommand `name`, if it is the one chosen here.
    pub fn subcommand_matches(&self, name: &str) -> (r: Option<&ParsedArgs>)
        ensures
            r is Some <==> self.spec_has_subcommand(name@),
            r is Some ==> *r->0 == self.subcommand->0.matches,
    {
        match &self.subcommand {
            Some(sub) => if str_eq(sub.name.as_str(), name) {
                Some(&sub.matches)
            } else {
                None
            },
            None => None,
        }
    }
}

} // verus!
