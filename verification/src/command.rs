//! Descriptions of external commands.
//!
//! Every process the wrapper may spawn is first fixed here as plain data: a
//! program name, an ordered argument list, and an environment overlay scoped
//! to that one invocation.  The unverified driver spawns exactly what a
//! `CommandSpec` holds and reports the exit status back.

use vstd::prelude::*;

verus! {

/// One external command: program, arguments, and an environment overlay
/// applied to this invocation alone.
pub struct CommandSpec {
    pub program: String,
    pub args: Vec<String>,
    pub env: Vec<(String, String)>,
}

/// The command runs `program` with `args` and an empty environment overlay.
pub open spec fn cmd_is(c: CommandSpec, program: Seq<char>, args: Seq<Seq<char>>) -> bool {
    &&& c.program@ == program
    &&& c.args.deep_view() == args
    &&& c.env.deep_view() == Seq::<(Seq<char>, Seq<char>)>::empty()
}

/// The command runs `program` with `args` under the environment overlay `env`.
pub open spec fn cmd_with_env_is(
    c: CommandSpec,
    program: Seq<char>,
    args: Seq<Seq<char>>,
    env: Seq<(Seq<char>, Seq<char>)>,
) -> bool {
    &&& c.program@ == program
    &&& c.args.deep_view() == args
    &&& c.env.deep_view() == env
}

impl CommandSpec {
    /// A command with no arguments and no environment overlay.
    pub fn new(program: &str) -> (c: CommandSpec)
        ensures
            cmd_is(c, program@, Seq::<Seq<char>>::empty()),
    {
        let c = CommandSpec {
            program: String::from_str(program),
            args: Vec::new(),
            env: Vec::new(),
        };
        proof {
            assert(c.args.deep_view() =~= Seq::<Seq<char>>::empty());
            assert(c.env.deep_view() =~= Seq::<(Seq<char>, Seq<char>)>::empty());
        }
        c
    }

    /// Append one argument.
    pub fn arg(self, a: &str) -> (c: CommandSpec)
        ensures
            c.program@ == self.program@,
            c.args.deep_view() == self.args.deep_view().push(a@),
            c.env.deep_view() == self.env.deep_view(),
    {
        let mut c = self;
        c.args.push(String::from_str(a));
        proof {
            assert(c.args.deep_view() =~= self.args.deep_view().push(a@));
        }
        c
    }

    /// Append one argument handed over as an owned string.
    pub fn arg_string(self, a: String) -> (c: CommandSpec)
        ensures
            c.program@ == self.program@,
            c.args.deep_view() == self.args.deep_view().push(a@),
            c.env.deep_view() == self.env.deep_view(),
    {
        let ghost a_view = a@;
        let mut c = self;
        c.args.push(a);
        proof {
            assert(c.args.deep_view() =~= self.args.deep_view().push(a_view));
        }
        c
    }

    /// Add one variable to the environment overlay.
    pub fn env_var(self, key: &str, value: &str) -> (c: CommandSpec)
        ensures
            c.program@ == self.program@,
            c.args.deep_view() == self.args.deep_view(),
            c.env.deep_view() == self.env.deep_view().push((key@, value@)),
    {
        let mut c = self;
        c.env.push((String::from_str(key), String::from_str(value)));
        proof {
            assert(c.env.deep_view() =~= self.env.deep_view().push((key@, value@)));
        }
        c
    }
}

/// The presence check for a tool: ask the path resolver for its name.
pub fn which_command(tool: &str) -> (c: CommandSpec)
    ensures
        cmd_is(c, "which"@, seq![tool@]),
{
    let c = CommandSpec::new("which").arg(tool);
    proof {
        assert(c.args.deep_view() =~= seq![tool@]);
    }
    c
}

/// The one-line rendering of a program and its arguments, separated by
/// single spaces.
pub open spec fn spec_command_line(program: Seq<char>, args: Seq<Seq<char>>) -> Seq<char>
    decreases args.len(),
{
    if args.len() == 0 {
        program
    } else {
        spec_command_line(program, args.drop_last()) + " "@ + args.last()
    }
}

/// Render a program and its argument list as one line, separated by single
/// spaces.
pub fn render_command_line(program: &str, args: &Vec<String>) -> (line: String)
    ensures
        line@ == spec_command_line(program@, args.deep_view()),
{
    let mut line = String::from_str(program);
    let n: usize = args.len();
    let mut i: usize = 0;
    while i < n
        invariant
            n == args.len(),
            i <= n,
            line@ == spec_command_line(program@, args.deep_view().take(i as int)),
        decreases n - i,
    {
        line.append(" ");
        line.append(args[i].as_str());
        proof {
            let dv = args.deep_view();
            assert(dv.take(i + 1).drop_last() =~= dv.take(i as int));
            assert(dv.take(i + 1).last() == dv[i as int]);
        }
        i = i + 1;
    }
    proof {
        assert(args.deep_view().take(n as int) =~= args.deep_view());
    }
    line
}

/// Render a command as one line: the program, then each argument, separated
/// by single spaces.
pub fn command_line(c: &CommandSpec) -> (line: String)
    ensures
        line@ == spec_command_line(c.program@, c.args.deep_view()),
{
    render_command_line(c.program.as_str(), &c.args)
}

} // verus!
