//! The commands that the companion runs. No shell is involved: a command is a
//! program and a list of arguments.
use vstd::prelude::*;

use crate::config;
use crate::text;

verus! {

/// A command of `ip`, the one program whose output is looked at: its arguments.
#[derive(Clone, Debug)]
pub struct Command {
    pub args: Vec<String>,
}

/// What a command of `ip` amounts to.
pub struct CommandModel {
    pub args: Seq<Seq<char>>,
}

impl View for Command {
    type V = CommandModel;

    open spec fn view(&self) -> CommandModel {
        CommandModel { args: self.args.deep_view() }
    }
}

impl DeepView for Command {
    type V = CommandModel;

    open spec fn deep_view(&self) -> CommandModel {
        self@
    }
}

/// The file that is run for a command of `ip`.
pub open spec fn ip_file(found: Option<Seq<char>>) -> Seq<char> {
    config::text_or(found, "ip"@)
}

impl Command {
    /// A copy of the command.
    pub fn copy(&self) -> (r: Command)
        ensures
            r@ == self@,
    {
        Command { args: text::copied(&self.args) }
    }

    /// The file to run for the command: the `ip` that was found, else whatever
    /// the search path has under that name.
    pub fn file(&self, found: Option<String>) -> (r: String)
        ensures
            r@ == ip_file(found.deep_view()),
    {
        bin("ip", found)
    }
}

/// A file to run with its arguments.
#[derive(Clone, Debug)]
pub struct Invocation {
    pub program: String,
    pub args: Vec<String>,
}

/// What an invocation amounts to.
pub struct InvocationModel {
    pub program: Seq<char>,
    pub args: Seq<Seq<char>>,
}

impl View for Invocation {
    type V = InvocationModel;

    open spec fn view(&self) -> InvocationModel {
        InvocationModel { program: self.program@, args: self.args.deep_view() }
    }
}

/// `ip` with these arguments.
pub open spec fn ip_model(args: Seq<Seq<char>>) -> CommandModel {
    CommandModel { args }
}

/// `ip` with these arguments, inside the namespace.
pub open spec fn ns_ip_model(args: Seq<Seq<char>>) -> CommandModel {
    ip_model(seq!["netns"@, "exec"@, config::NETNS@, "ip"@] + args)
}

/// `ip` with these arguments.
pub fn ip(args: &[&str]) -> (r: Command)
    ensures
        r@ == ip_model(args.deep_view()),
{
    Command { args: text::owned(args) }
}

/// `ip` with these arguments, inside the namespace.
pub fn ns_ip(args: &[&str]) -> (r: Command)
    ensures
        r@ == ns_ip_model(args.deep_view()),
{
    let mut full = text::owned(&["netns", "exec", config::NETNS, "ip"]);
    let mut rest = text::owned(args);
    let ghost head = full;
    let ghost tail = rest;
    full.append(&mut rest);
    proof {
        assert(full.deep_view() =~= head.deep_view() + tail.deep_view());
        assert(head.deep_view() =~= seq!["netns"@, "exec"@, config::NETNS@, "ip"@]);
    }
    Command { args: full }
}

/// The texts in the outcome of a command.
pub open spec fn reply_model(r: Result<String, String>) -> Result<Seq<char>, Seq<char>> {
    match r {
        Ok(out) => Ok(out@),
        Err(e) => Err(e@),
    }
}

/// Whether a command succeeded and its output holds `p`.
pub open spec fn output_has(r: Result<Seq<char>, Seq<char>>, p: Seq<char>) -> bool {
    r matches Ok(out) && text::contains(out, p)
}

/// Whether a command succeeded and its output holds `p`.
pub fn reply_has(reply: &Result<String, String>, p: &str) -> (r: bool)
    ensures
        r == output_has(reply_model(*reply), p@),
{
    match reply {
        Ok(out) => text::has(out.as_str(), p),
        Err(_) => false,
    }
}

/// How running a program ended.
pub enum Ran {
    /// It could not be started, for the given reason.
    NotStarted(String),
    /// It ended; `status` describes how.
    Finished { success: bool, status: String, stdout: Vec<u8>, stderr: Vec<u8> },
}

/// The program and its arguments on one line.
pub open spec fn command_line(program: Seq<char>, args: Seq<Seq<char>>) -> Seq<char> {
    program + " "@ + text::join(args, " "@)
}

/// The last line of a text, if it has one.
pub open spec fn last_line(s: Seq<char>) -> Seq<char> {
    let lines = text::lines(s);
    if lines.len() > 0 {
        lines.last()
    } else {
        seq![]
    }
}

/// What a program that ended amounts to: its output if it succeeded, else a
/// message with the last line that it complained with.
pub open spec fn finished(
    program: Seq<char>,
    args: Seq<Seq<char>>,
    success: bool,
    status: Seq<char>,
    stdout: Seq<char>,
    stderr: Seq<char>,
) -> Result<Seq<char>, Seq<char>> {
    let complaint = text::trim(stderr);
    if success {
        Ok(stdout)
    } else if complaint.len() == 0 {
        Err(command_line(program, args) + " exited with "@ + status)
    } else {
        Err(command_line(program, args) + " failed: "@ + last_line(complaint))
    }
}

/// What a program that ended with these texts amounts to.
pub fn command_result(
    program: &str,
    args: &Vec<String>,
    success: bool,
    status: &str,
    stdout: &str,
    stderr: &str,
) -> (r: Result<String, String>)
    ensures
        reply_model(r) == finished(
            program@,
            args.deep_view(),
            success,
            status@,
            stdout@,
            stderr@,
        ),
{
    if success {
        return Ok(stdout.to_owned());
    }
    let complaint = text::trimmed(stderr);
    let mut message = text::cat3(program, " ", text::joined(args, " ").as_str());
    if complaint.as_str().is_empty() {
        message.append(" exited with ");
        message.append(status);
    } else {
        let lines = text::split_lines(complaint.as_str());
        message.append(" failed: ");
        if lines.len() > 0 {
            proof {
                assert(lines.deep_view().last() == lines@.last()@);
            }
            message.append(lines[lines.len() - 1].as_str());
        } else {
            proof {
                assert(lines.deep_view().len() == 0);
                assert(message@ =~= message@ + last_line(complaint@));
            }
        }
    }
    Err(message)
}

/// What running a program amounts to: its output, or a message.
pub open spec fn ran_model(
    program: Seq<char>,
    args: Seq<Seq<char>>,
    ran: Ran,
) -> Result<Seq<char>, Seq<char>> {
    match ran {
        Ran::NotStarted(e) => Err("failed to execute "@ + program + ": "@ + e@),
        Ran::Finished { success, status, stdout, stderr } => finished(
            program,
            args,
            success,
            status@,
            text::lossy_text(stdout@),
            text::lossy_text(stderr@),
        ),
    }
}

/// What running a program amounts to: its output, or a message.
pub fn run_cmd(program: &str, args: &Vec<String>, ran: Ran) -> (r: Result<String, String>)
    ensures
        reply_model(r) == ran_model(program@, args.deep_view(), ran),
{
    match ran {
        Ran::NotStarted(e) => {
            let mut message = text::cat3("failed to execute ", program, ": ");
            message.append(e.as_str());
            Err(message)
        },
        Ran::Finished { success, status, stdout, stderr } => command_result(
            program,
            args,
            success,
            status.as_str(),
            text::from_utf8_lossy(stdout.as_slice()).as_str(),
            text::from_utf8_lossy(stderr.as_slice()).as_str(),
        ),
    }
}

// ---- finding programs ----

/// The places in which programs are looked for first, because `sudo` runs the
/// helper with a minimal search path.
pub open spec fn system_dirs() -> Seq<Seq<char>> {
    seq![
        "/usr/local/sbin"@,
        "/usr/local/bin"@,
        "/usr/sbin"@,
        "/sbin"@,
        "/usr/bin"@,
        "/bin"@,
    ]
}

/// The files that may be the program `name`, in the order in which they count:
/// in the system directories, then in those of the search path.
pub open spec fn bin_candidates(name: Seq<char>, search_path: Option<Seq<char>>) -> Seq<Seq<char>> {
    let dirs = match search_path {
        Some(path) => system_dirs() + text::split(path, ':'),
        None => system_dirs(),
    };
    dirs.map_values(|dir: Seq<char>| dir + "/"@ + name)
}

/// The files that may be the program `name`, in the order in which they count.
pub fn find_bin(name: &str, search_path: Option<String>) -> (r: Vec<String>)
    ensures
        r.deep_view() == bin_candidates(name@, search_path.deep_view()),
{
    let mut dirs = text::owned(
        &["/usr/local/sbin", "/usr/local/bin", "/usr/sbin", "/sbin", "/usr/bin", "/bin"],
    );
    proof {
        assert(dirs.deep_view() =~= system_dirs());
    }
    if let Some(path) = &search_path {
        let mut more = text::split_at(path.as_str(), ':');
        let ghost head = dirs;
        let ghost tail = more;
        dirs.append(&mut more);
        proof {
            assert(dirs.deep_view() =~= head.deep_view() + tail.deep_view());
        }
    }
    let ghost all = dirs.deep_view();
    let mut out: Vec<String> = Vec::new();
    let mut i: usize = 0;
    while i < dirs.len()
        invariant
            i <= dirs@.len(),
            all == dirs.deep_view(),
            out@.len() == i,
            forall|j: int| 0 <= j < i ==> (#[trigger] out@[j])@ == all[j] + "/"@ + name@,
        decreases dirs@.len() - i,
    {
        proof {
            assert(all[i as int] == dirs@[i as int]@);
        }
        out.push(text::cat3(dirs[i].as_str(), "/", name));
        i += 1;
    }
    proof {
        assert(out.deep_view() =~= bin_candidates(name@, search_path.deep_view()));
    }
    out
}

/// The first of the candidates that is there.
pub open spec fn first_present(candidates: Seq<Seq<char>>, present: Seq<bool>) -> Option<Seq<char>>
    decreases candidates.len(),
{
    if candidates.len() == 0 || present.len() == 0 {
        None
    } else if present[0] {
        Some(candidates[0])
    } else {
        first_present(candidates.drop_first(), present.drop_first())
    }
}

/// The first of the candidates that is there; `present` says of each whether
/// it is.
pub fn choose_bin(candidates: &Vec<String>, present: &Vec<bool>) -> (r: Option<String>)
    ensures
        r.deep_view() == first_present(candidates.deep_view(), present@),
{
    let ghost all = candidates.deep_view();
    let mut i: usize = 0;
    proof {
        assert(all.skip(0) =~= all);
        assert(present@.skip(0) =~= present@);
    }
    while i < candidates.len() && i < present.len()
        invariant
            i <= candidates@.len(),
            i <= present@.len(),
            all == candidates.deep_view(),
            first_present(all, present@) == first_present(
                all.skip(i as int),
                present@.skip(i as int),
            ),
        decreases candidates@.len() - i,
    {
        proof {
            assert(all.skip(i as int)[0] == candidates@[i as int]@);
            assert(all.skip(i as int).drop_first() =~= all.skip(i + 1));
            assert(present@.skip(i as int).drop_first() =~= present@.skip(i + 1));
        }
        if present[i] {
            return Some(candidates[i].clone());
        }
        i += 1;
    }
    None
}

/// The file to run for the program `name`: the one that was found, else the
/// name itself.
pub fn bin(name: &str, found: Option<String>) -> (r: String)
    ensures
        r@ == config::text_or(found.deep_view(), name@),
{
    match found {
        Some(path) => path,
        None => name.to_owned(),
    }
}

} // verus!
