//! Kernel process launch plans: validation of a kernelspec's argv template
//! and substitution of the connection-descriptor path.
//!
//! Validation happens before any process is spawned, and each way a template
//! can be invalid is a distinct error: an empty argv, an argv of fewer than
//! two tokens, and a connection-file placeholder that does not occur exactly
//! once.

use vstd::prelude::*;
use vstd::string::StringExecFns;
use crate::kernelspec::{RuntimeSpecification, env_map};
use crate::strutil::str_eq;

verus! {

/// The token of an argv template that stands for the connection-descriptor
/// file path.
pub open spec fn placeholder() -> Seq<char> {
    "{connection_file}"@
}

/// How often the placeholder token occurs in an argv template.
pub open spec fn placeholder_count(argv: Seq<Seq<char>>) -> nat
    decreases argv.len(),
{
    if argv.len() == 0 {
        0
    } else {
        placeholder_count(argv.drop_last()) + (if argv.last() == placeholder() {
            1nat
        } else {
            0nat
        })
    }
}

/// A way in which an argv template fails validation.
#[derive(Debug)]
pub enum CommandError {
    /// The argv template is empty.
    EmptyArgv,
    /// The argv template holds fewer than two tokens.
    InvalidArgv,
    /// The placeholder token does not occur in the argv template.
    MissingConnectionFile,
    /// The placeholder token occurs more than once in the argv template.
    DuplicateConnectionFile,
}

/// Why an argv template is invalid, or `None` when it is valid: non-empty,
/// at least two tokens, and the placeholder occurring exactly once.
pub open spec fn command_diagnosis(argv: Seq<Seq<char>>) -> Option<CommandError> {
    if argv.len() == 0 {
        Some(CommandError::EmptyArgv)
    } else if argv.len() < 2 {
        Some(CommandError::InvalidArgv)
    } else if placeholder_count(argv) == 0 {
        Some(CommandError::MissingConnectionFile)
    } else if placeholder_count(argv) > 1 {
        Some(CommandError::DuplicateConnectionFile)
    } else {
        None
    }
}

/// The arguments handed to the kernel process: the argv template after its
/// first token, with the placeholder replaced by the descriptor path.
pub open spec fn substituted_args(argv: Seq<Seq<char>>, path: Seq<char>) -> Seq<Seq<char>> {
    argv.subrange(1, argv.len() as int).map_values(
        |a: Seq<char>|
            if a == placeholder() {
                path
            } else {
                a
            },
    )
}

/// A validated plan for spawning a kernel process: program, arguments with
/// the descriptor path substituted, and environment variables to apply on
/// top of the inherited environment.
#[derive(Debug)]
pub struct LaunchCommand {
    pub program: String,
    pub args: Vec<String>,
    pub env: Vec<(String, String)>,
}

pub struct LaunchCommandView {
    pub program: Seq<char>,
    pub args: Seq<Seq<char>>,
    pub env: Map<Seq<char>, Seq<char>>,
}

impl View for LaunchCommand {
    type V = LaunchCommandView;

    open spec fn view(&self) -> LaunchCommandView {
        LaunchCommandView {
            program: self.program@,
            args: self.args.deep_view(),
            env: env_map(self.env@),
        }
    }
}

impl CommandError {
    /// The text of this validation error, naming the offending kernelspec.
    pub open spec fn message_spec(&self, kernel_name: Seq<char>) -> Seq<char> {
        match self {
            CommandError::EmptyArgv => "Empty argv in kernelspec "@ + kernel_name,
            CommandError::InvalidArgv => "Invalid argv in kernelspec "@ + kernel_name,
            CommandError::MissingConnectionFile => "Missing 'connection_file' in argv in kernelspec "@
                + kernel_name,
            CommandError::DuplicateConnectionFile => "Duplicate 'connection_file' in argv in kernelspec "@
                + kernel_name,
        }
    }

    /// A readable message naming the offending kernelspec.
    pub fn message(&self, kernel_name: &String) -> (m: String)
        ensures
            m@ == self.message_spec(kernel_name@),
    {
        let mut m = match self {
            CommandError::EmptyArgv => "Empty argv in kernelspec ".to_owned(),
            CommandError::InvalidArgv => "Invalid argv in kernelspec ".to_owned(),
            CommandError::MissingConnectionFile => "Missing 'connection_file' in argv in kernelspec ".to_owned(),
            CommandError::DuplicateConnectionFile => "Duplicate 'connection_file' in argv in kernelspec ".to_owned(),
        };
        m.append(kernel_name.as_str());
        m
    }
}

impl RuntimeSpecification {
    /// Builds the launch plan for this specification: validates the argv
    /// template, substitutes the descriptor path for the placeholder, and
    /// carries the kernelspec's environment mapping. Fails exactly as
    /// `command_diagnosis` describes, before any process is spawned.
    pub fn command(&self, connection_path: &String) -> (r: Result<LaunchCommand, CommandError>)
        ensures
            match r {
                Ok(cmd) => {
                    &&& command_diagnosis(self@.kernelspec.argv) is None
                    &&& cmd@.program == self@.kernelspec.argv[0]
                    &&& cmd@.args == substituted_args(self@.kernelspec.argv, connection_path@)
                    &&& cmd@.env == self@.kernelspec.env
                },
                Err(e) => command_diagnosis(self@.kernelspec.argv) == Some(e),
            },
    {
        let argv = &self.kernelspec.argv;
        let n = argv.len();
        if n == 0 {
            return Err(CommandError::EmptyArgv);
        }
        if n < 2 {
            return Err(CommandError::InvalidArgv);
        }
        let ghost gargv = self@.kernelspec.argv;
        proof {
            assert(gargv.len() == n);
        }
        let mut count: usize = 0;
        let mut i: usize = 0;
        while i < n
            invariant
                n == argv@.len(),
                gargv == argv.deep_view(),
                i <= n,
                count <= i,
                count == placeholder_count(gargv.take(i as int)),
            decreases n - i,
        {
            if str_eq(argv[i].as_str(), "{connection_file}") {
                count = count + 1;
            }
            proof {
                assert(gargv.take(i + 1).drop_last() =~= gargv.take(i as int));
                assert(gargv.take(i + 1).last() == gargv[i as int]);
                assert(gargv[i as int] == argv@[i as int]@);
            }
            i = i + 1;
        }
        proof {
            assert(gargv.take(n as int) =~= gargv);
        }
        if count == 0 {
            return Err(CommandError::MissingConnectionFile);
        }
        if count > 1 {
            return Err(CommandError::DuplicateConnectionFile);
        }
        let program = argv[0].clone();
        let mut args: Vec<String> = Vec::new();
        let mut j: usize = 1;
        while j < n
            invariant
                n == argv@.len(),
                gargv == argv.deep_view(),
                n >= 2,
                1 <= j <= n,
                args@.len() == j - 1,
                forall|q: int|
                    0 <= q < j - 1 ==> (#[trigger] args@[q])@ == (if gargv[q + 1] == placeholder() {
                        connection_path@
                    } else {
                        gargv[q + 1]
                    }),
            decreases n - j,
        {
            let arg = &argv[j];
            if str_eq(arg.as_str(), "{connection_file}") {
                args.push(connection_path.clone());
            } else {
                args.push(arg.clone());
            }
            proof {
                assert(gargv[j as int] == argv@[j as int]@);
                assert(args@[j - 1]@ == (if gargv[j as int] == placeholder() {
                    connection_path@
                } else {
                    gargv[j as int]
                }));
            }
            j = j + 1;
        }
        let env = crate::kernelspec::clone_env_pairs(&self.kernelspec.env);
        let cmd = LaunchCommand { program, args, env };
        proof {
            assert(cmd@.args =~= substituted_args(gargv, connection_path@)) by {
                assert(forall|q: int|
                    0 <= q < cmd.args@.len() ==> #[trigger] cmd.args.deep_view()[q]
                        == cmd.args@[q]@);
            }
        }
        Ok(cmd)
    }
}

} // verus!
