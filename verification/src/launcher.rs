//! Process launcher: builds the platform shell invocation for one command —
//! the program, its argument list, the log-format environment variable and
//! the normalized working directory — as plain data, ready to spawn.

use vstd::prelude::*;
use vstd::std_specs::iter::IteratorSpec;
use vstd::string::StringExecFns;

verus! {

/// The shell invocation for one command, ready to spawn: `sh -c "exec <cmd>"`
/// with the child placed in its own process group, so its descendants can be
/// signaled as a unit.
pub struct ShellInvocation {
    /// The shell to start.
    pub program: String,
    /// Its arguments: the command-string flag, then the wrapped command.
    pub args: Vec<String>,
    /// The environment variable that tells the child which log format to emit.
    pub env_name: String,
    /// Its value: structured logs when either stream is treated as logs.
    pub env_value: String,
    /// The normalized working directory, when one is configured.
    pub working_dir: Option<String>,
}

/// A path with every backslash separator turned into a slash, so a path
/// written for either platform family works on a POSIX host.
pub open spec fn spec_normalize_separators(s: Seq<char>) -> Seq<char> {
    s.map(|_i: int, c: char| if c == '\\' { '/' } else { c })
}

/// Relies on String::push: appends the given char to the end of the string.
pub assume_specification[ String::push ](s: &mut String, c: char)
    ensures
        final(s)@ == old(s)@.push(c),
;

/// Replace every backslash in a configured working directory by a slash.
pub fn normalize_separators(dir: &str) -> (r: String)
    ensures
        r@ == spec_normalize_separators(dir@),
{
    let mut out = String::new();
    let mut it = dir.chars();
    let ghost mut done: int = 0;
    loop
        invariant
            0 <= done <= dir@.len(),
            it.remaining() =~= dir@.skip(done),
            out@ =~= spec_normalize_separators(dir@.take(done)),
        decreases dir@.len() - done,
    {
        match it.next() {
            Some(c) => {
                let replaced = if c == '\\' {
                    '/'
                } else {
                    c
                };
                out.push(replaced);
                proof {
                    assert(dir@.skip(done)[0] == dir@[done]);
                    done = done + 1;
                    assert(dir@.skip(done) =~= dir@.skip(done - 1).drop_first());
                    assert(out@ =~= spec_normalize_separators(dir@.take(done)));
                }
            },
            None => {
                proof {
                    assert(dir@.skip(done).len() == 0);
                    assert(dir@.take(done) =~= dir@);
                    assert(spec_normalize_separators(dir@.take(done)) =~= spec_normalize_separators(dir@));
                    assert(out@ =~= spec_normalize_separators(dir@));
                }
                return out;
            },
        }
    }
}

/// The value of the log-format environment variable: structured logs exactly
/// when either stream is marked as log content, plain otherwise.
pub fn log_formatter_value(stdout_is_log: bool, stderr_is_log: bool) -> (v: String)
    ensures
        v@ == if stdout_is_log || stderr_is_log {
            "json"@
        } else {
            ""@
        },
{
    if stdout_is_log || stderr_is_log {
        "json".to_owned()
    } else {
        "".to_owned()
    }
}

/// Build the POSIX shell invocation for a command: `sh -c "exec <command>"`,
/// with the log-format environment variable set from the two stream flags and
/// the already-normalized working directory carried along.
pub fn build_invocation(
    cmd: &String,
    stdout_is_log: bool,
    stderr_is_log: bool,
    working_dir: Option<String>,
) -> (inv: ShellInvocation)
    ensures
        inv.program@ == "sh"@,
        inv.args@.len() == 2,
        inv.args@[0]@ == "-c"@,
        inv.args@[1]@ == "exec "@ + cmd@,
        inv.env_name@ == "TEN_LOG_FORMATTER"@,
        inv.env_value@ == if stdout_is_log || stderr_is_log {
            "json"@
        } else {
            ""@
        },
        inv.working_dir == working_dir,
{
    let mut args: Vec<String> = Vec::new();
    args.push("-c".to_owned());
    args.push("exec ".to_owned().concat(cmd.as_str()));
    ShellInvocation {
        program: "sh".to_owned(),
        args,
        env_name: "TEN_LOG_FORMATTER".to_owned(),
        env_value: log_formatter_value(stdout_is_log, stderr_is_log),
        working_dir,
    }
}

} // verus!
