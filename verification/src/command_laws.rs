//! What holds of running programs and of finding them.
use vstd::prelude::*;

use crate::command;
use crate::command::Ran;
use crate::text;
use crate::text_laws;

verus! {

/// A program that succeeds gives its output, unchanged, whatever it complained
/// of. One that fails gives no output: its message begins with the program and
/// its arguments, with a space in front of each.
pub proof fn law_outcome_of_a_program(
    program: Seq<char>,
    args: Seq<Seq<char>>,
    status: Seq<char>,
    stdout: Seq<char>,
    stderr: Seq<char>,
)
    ensures
        command::finished(program, args, true, status, stdout, stderr) == Ok::<
            Seq<char>,
            Seq<char>,
        >(stdout),
        command::finished(program, args, false, status, stdout, stderr) is Err,
        text::starts_with(
            command::finished(program, args, false, status, stdout, stderr)->Err_0,
            program + seq![' '] + text::join(args, seq![' ']),
        ),
{
    reveal_strlit(" ");
    assert(" "@ =~= seq![' ']);
    let head = program + seq![' '] + text::join(args, seq![' ']);
    let m = command::finished(program, args, false, status, stdout, stderr)->Err_0;
    assert(m.subrange(0, head.len() as int) =~= head);
}

/// A program that fails silently is reported with how it ended.
pub proof fn law_silent_failure(
    program: Seq<char>,
    args: Seq<Seq<char>>,
    status: Seq<char>,
    stdout: Seq<char>,
    stderr: Seq<char>,
)
    requires
        forall|i: int| 0 <= i < stderr.len() ==> text::white_space(stderr[i]),
    ensures
        command::finished(program, args, false, status, stdout, stderr) == Err::<
            Seq<char>,
            Seq<char>,
        >(program + " "@ + text::join(args, " "@) + " exited with "@ + status),
{
    let none = Seq::<char>::empty();
    text_laws::law_trimming(stderr, none, none);
    assert(stderr + none + none =~= stderr);
}

/// A program that fails with a complaint is reported with the last line of it,
/// without the white space around the complaint.
pub proof fn law_failure_with_a_complaint(
    program: Seq<char>,
    args: Seq<Seq<char>>,
    status: Seq<char>,
    stdout: Seq<char>,
    left: Seq<char>,
    earlier: Seq<char>,
    line: Seq<char>,
    right: Seq<char>,
)
    requires
        forall|i: int| 0 <= i < left.len() ==> text::white_space(left[i]),
        forall|i: int| 0 <= i < right.len() ==> text::white_space(right[i]),
        forall|i: int| 0 <= i < line.len() ==> line[i] != '\n',
        line.len() > 0,
        !text::white_space(line.last()),
        !text::white_space((earlier + line)[0]),
        earlier.len() > 0 ==> earlier.last() == '\n',
    ensures
        command::finished(
            program,
            args,
            false,
            status,
            stdout,
            left + (earlier + line) + right,
        ) == Err::<Seq<char>, Seq<char>>(
            program + " "@ + text::join(args, " "@) + " failed: "@ + line,
        ),
{
    let body = earlier + line;
    assert(body.last() == line.last());
    text_laws::law_trimming(left, body, right);
    lemma_last_line(earlier, line);
}

proof fn lemma_last_line(earlier: Seq<char>, line: Seq<char>)
    requires
        forall|i: int| 0 <= i < line.len() ==> line[i] != '\n',
        line.len() > 0,
        earlier.len() > 0 ==> earlier.last() == '\n',
    ensures
        text::lines(earlier + line).len() > 0,
        text::lines(earlier + line).last() == line,
    decreases earlier.len(),
{
    let s = earlier + line;
    if earlier.len() == 0 {
        assert(s =~= line);
        text_laws::law_lines(line, line);
    } else {
        text::lemma_before(s, '\n');
        let n = text::before(s, '\n') as int;
        if n >= earlier.len() {
            assert(s[earlier.len() - 1] == earlier.last());
        }
        let rest = earlier.skip(n + 1);
        assert(s.skip(n + 1) =~= rest + line);
        if rest.len() > 0 {
            assert(rest.last() == earlier.last());
        }
        lemma_last_line(rest, line);
        let all = text::lines(s);
        assert(all.last() == text::lines(rest + line).last());
    }
}

/// A program that cannot be started is reported with the reason; one that ended
/// is by what it wrote.
pub proof fn law_running_a_program(program: Seq<char>, args: Seq<Seq<char>>, ran: Ran)
    ensures
        ran matches Ran::NotStarted(e) ==> command::ran_model(program, args, ran) == Err::<
            Seq<char>,
            Seq<char>,
        >("failed to execute "@ + program + ": "@ + e@),
        ran matches Ran::Finished { success, status, stdout, stderr } ==> (success ==>
            command::ran_model(program, args, ran) == Ok::<Seq<char>, Seq<char>>(
            text::lossy_text(stdout@),
        )) && (!success ==> command::ran_model(program, args, ran) == command::finished(
            program,
            args,
            false,
            status@,
            text::lossy_text(stdout@),
            text::lossy_text(stderr@),
        )),
{
}

/// The places in which a program may be: six directories of the system, in
/// their order, and behind them those of the search path, in theirs.
pub proof fn law_where_programs_are(name: Seq<char>, dirs: Seq<Seq<char>>)
    requires
        dirs.len() > 0,
        forall|i: int, j: int|
            0 <= i < dirs.len() && 0 <= j < dirs[i].len() ==> (#[trigger] dirs[i][j]) != ':',
    ensures
        ({
            let all = command::bin_candidates(name, Some(text::join(dirs, seq![':'])));
            let system = command::bin_candidates(name, None);
            &&& system == seq![
                "/usr/local/sbin"@ + "/"@ + name,
                "/usr/local/bin"@ + "/"@ + name,
                "/usr/sbin"@ + "/"@ + name,
                "/sbin"@ + "/"@ + name,
                "/usr/bin"@ + "/"@ + name,
                "/bin"@ + "/"@ + name,
            ]
            &&& all.len() == 6 + dirs.len()
            &&& all.take(6) == system
            &&& forall|i: int|
                0 <= i < dirs.len() ==> #[trigger] all[6 + i] == dirs[i] + "/"@ + name
        }),
{
    text::law_join_splits_back(dirs, ':');
    let all = command::bin_candidates(name, Some(text::join(dirs, seq![':'])));
    let system = command::bin_candidates(name, None);
    assert(system =~= seq![
        "/usr/local/sbin"@ + "/"@ + name,
        "/usr/local/bin"@ + "/"@ + name,
        "/usr/sbin"@ + "/"@ + name,
        "/sbin"@ + "/"@ + name,
        "/usr/bin"@ + "/"@ + name,
        "/bin"@ + "/"@ + name,
    ]);
    assert(all.take(6) =~= system);
    assert forall|i: int| 0 <= i < dirs.len() implies #[trigger] all[6 + i] == dirs[i] + "/"@
        + name by {
        assert((command::system_dirs() + dirs)[6 + i] == dirs[i]);
    }
}

/// The candidate that is taken is the first one that is there; none is only if
/// none is there.
pub proof fn law_first_present_is_taken(candidates: Seq<Seq<char>>, present: Seq<bool>, k: int)
    requires
        candidates.len() == present.len(),
        0 <= k <= present.len(),
        forall|i: int| 0 <= i < k ==> !#[trigger] present[i],
        k < present.len() ==> present[k],
    ensures
        k < present.len() ==> command::first_present(candidates, present) == Some(candidates[k]),
        k == present.len() ==> command::first_present(candidates, present) is None,
    decreases k,
{
    if k > 0 {
        assert(!present[0]);
        let rest = present.drop_first();
        assert forall|i: int| 0 <= i < k - 1 implies !#[trigger] rest[i] by {
            assert(rest[i] == present[i + 1]);
        }
        law_first_present_is_taken(candidates.drop_first(), rest, k - 1);
    }
}

/// A command is handed to `ip` as it stands; inside the namespace it is handed
/// to `ip netns exec`.
pub proof fn law_ip_commands(args: Seq<Seq<char>>)
    ensures
        command::ip_model(args).args == args,
        command::ns_ip_model(args).args == seq!["netns"@, "exec"@, "kitvpn"@, "ip"@] + args,
{
}

/// The file that is run for a command is the `ip` that was found, and if none
/// was, whatever the search path has under that name.
pub proof fn law_file_of_ip(path: Seq<char>)
    ensures
        command::ip_file(Some(path)) == path,
        command::ip_file(None) == "ip"@,
{
}

/// A reply tells something only if the command succeeded, and then if its
/// output holds it.
pub proof fn law_replies_tell(out: Seq<char>, e: Seq<char>, p: Seq<char>)
    ensures
        command::output_has(Ok(out), p) <==> exists|a: Seq<char>, b: Seq<char>|
            out == #[trigger] (a + p + b),
        !command::output_has(Err(e), p),
{
    text_laws::law_holding(out, p);
}

} // verus!
