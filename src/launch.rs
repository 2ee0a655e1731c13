use vstd::prelude::*;
use vstd::string::*;
use crate::error::{ResolveError, ResolveErrorView};

verus! {

/// The flag that makes the server talk over standard input and output.
pub const STDIO_FLAG: &'static str = "--stdio";

/// How the host starts the server: executable, arguments and extra
/// environment variables.
#[derive(Debug)]
pub struct LaunchCommand {
    pub command: String,
    pub args: Vec<String>,
    pub env: Vec<(String, String)>,
}

/// The mathematical model of a [`LaunchCommand`].
pub struct LaunchCommandView {
    pub command: Seq<char>,
    pub args: Seq<Seq<char>>,
    pub env: Seq<(Seq<char>, Seq<char>)>,
}

impl View for LaunchCommand {
    type V = LaunchCommandView;

    open spec fn view(&self) -> LaunchCommandView {
        LaunchCommandView {
            command: self.command@,
            args: self.args@.map_values(|a: String| a@),
            env: self.env@.map_values(|kv: (String, String)| (kv.0@, kv.1@)),
        }
    }
}

/// `rel` resolved against the directory `dir`: an absolute `rel` stands as it
/// is; otherwise it is appended to `dir` with one separator between them.
pub open spec fn joined(dir: Seq<char>, rel: Seq<char>) -> Seq<char> {
    if rel.len() > 0 && rel[0] == '/' {
        rel
    } else if dir.len() == 0 {
        rel
    } else if dir.last() == '/' {
        dir + rel
    } else {
        dir + seq!['/'] + rel
    }
}

/// Resolves the path `rel` against the directory `dir`.
pub fn join_path(dir: &str, rel: &str) -> (r: String)
    ensures
        r@ == joined(dir@, rel@),
{
    proof {
        reveal_strlit("/");
    }
    let rel_len = rel.unicode_len();
    if rel_len > 0 && rel.get_char(0) == '/' {
        return String::from_str(rel);
    }
    let dir_len = dir.unicode_len();
    if dir_len == 0 {
        return String::from_str(rel);
    }
    let mut path = String::from_str(dir);
    if dir.get_char(dir_len - 1) != '/' {
        path.append("/");
    }
    path.append(rel);
    path
}

/// The command that starts the server: the runtime at `runtime`, given the
/// entry point resolved against `working_dir` and the stdio flag, with no
/// extra environment. A runtime that could not be located fails the launch
/// with its message.
pub fn build_launch_command(entry_point: &str, working_dir: &str, runtime: Result<String, String>) -> (r: Result<LaunchCommand, ResolveError>)
    ensures
        match runtime {
            Ok(node) => r matches Ok(c) && c@ == (LaunchCommandView {
                command: node@,
                args: seq![joined(working_dir@, entry_point@), STDIO_FLAG@],
                env: Seq::empty(),
            }),
            Err(cause) => r matches Err(e) && e@ == ResolveErrorView::RuntimeUnavailable(cause@),
        },
{
    match runtime {
        Ok(node) => {
            let mut args: Vec<String> = Vec::new();
            args.push(join_path(working_dir, entry_point));
            args.push(String::from_str(STDIO_FLAG));
            let env: Vec<(String, String)> = Vec::new();
            let c = LaunchCommand { command: node, args, env };
            assert(c@.args =~= seq![joined(working_dir@, entry_point@), STDIO_FLAG@]);
            assert(c@.env =~= Seq::empty());
            Ok(c)
        },
        Err(cause) => Err(ResolveError::RuntimeUnavailable(cause)),
    }
}

} // verus!
