//! What holds of the arguments that the program is started with.
use vstd::prelude::*;

use crate::cli;
use crate::cli::{ModeModel, SocksModel};
use crate::json;
use crate::nm::Operation;
use crate::number;
use crate::text;

verus! {

/// The words that tell the modes apart do so.
proof fn lemma_words()
    ensures
        !text::starts_with("nm"@, "/"@),
        !text::starts_with("helper"@, "/"@),
        !text::starts_with("child-socks"@, "/"@),
        !text::starts_with("config"@, "/"@),
        !text::starts_with("--version"@, "/"@),
        !text::starts_with("--help"@, "/"@),
        !text::starts_with("-h"@, "/"@),
        "helper"@ != "nm"@,
        "child-socks"@ != "nm"@,
        "child-socks"@ != "helper"@,
        "config"@ != "nm"@,
        "config"@ != "helper"@,
        "config"@ != "child-socks"@,
        "--version"@ != "nm"@,
        "--version"@ != "helper"@,
        "--version"@ != "child-socks"@,
        "--version"@ != "config"@,
        "--help"@ != "nm"@,
        "--help"@ != "helper"@,
        "--help"@ != "child-socks"@,
        "--help"@ != "config"@,
        "--help"@ != "--version"@,
        "-h"@ != "nm"@,
        "-h"@ != "helper"@,
        "-h"@ != "child-socks"@,
        "-h"@ != "config"@,
        "-h"@ != "--version"@,
        "enable"@ != "disable"@,
{
    reveal_strlit("/");
    reveal_strlit("nm");
    reveal_strlit("helper");
    reveal_strlit("child-socks");
    reveal_strlit("config");
    reveal_strlit("--version");
    reveal_strlit("--help");
    reveal_strlit("-h");
    reveal_strlit("enable");
    reveal_strlit("disable");
    lemma_no_slash("nm"@);
    lemma_no_slash("helper"@);
    lemma_no_slash("child-socks"@);
    lemma_no_slash("config"@);
    lemma_no_slash("--version"@);
    lemma_no_slash("--help"@);
    lemma_no_slash("-h"@);
    assert("enable"@.len() != "disable"@.len());
    assert("nm"@[0] == 'n' && "helper"@[0] == 'h' && "child-socks"@[1] == 'h' && "config"@[1] == 'o'
        && "--version"@[0] == '-' && "--help"@[0] == '-' && "-h"@[0] == '-');
}

proof fn lemma_no_slash(s: Seq<char>)
    ensures
        text::starts_with(s, "/"@) <==> s.len() > 0 && s[0] == '/',
{
    reveal_strlit("/");
    if s.len() > 0 {
        assert(s.subrange(0, 1)[0] == s[0]);
        if s[0] == '/' {
            assert(s.subrange(0, 1) =~= "/"@);
        }
    }
}

/// Without arguments, with `nm` and with a path for the first one, whatever
/// follows, the program talks to the browser.
pub proof fn law_talks_to_the_browser(args: Seq<Seq<char>>)
    ensures
        args.len() == 0 || args[0] == "nm"@ || (args[0].len() > 0 && args[0][0] == '/')
            ==> cli::mode_for(args) is NativeMessaging,
{
    if args.len() > 0 {
        lemma_no_slash(args[0]);
    }
}

/// With `helper` the program runs the operation that the next argument names;
/// any other word there, or none, is no operation.
pub proof fn law_helper_mode(args: Seq<Seq<char>>)
    requires
        args.len() > 0,
        args[0] == "helper"@,
    ensures
        args.len() > 1 && args[1] == "enable"@ ==> cli::mode_for(args) == ModeModel::Helper(
            Operation::Enable,
        ),
        args.len() > 1 && args[1] == "disable"@ ==> cli::mode_for(args) == ModeModel::Helper(
            Operation::Disable,
        ),
        args.len() > 1 && args[1] != "enable"@ && args[1] != "disable"@ ==> cli::mode_for(args)
            == ModeModel::UnknownOperation(Some(args[1])),
        args.len() == 1 ==> cli::mode_for(args) == ModeModel::UnknownOperation(None),
{
    lemma_words();
}

/// With `config --ovpn FILE` the program installs the file, and with
/// `--auth-user-pass FILE` behind it the credentials in that file too; any
/// other use of `config` is refused.
pub proof fn law_install_mode(args: Seq<Seq<char>>)
    requires
        args.len() > 0,
        args[0] == "config"@,
    ensures
        args.len() > 2 && args[1] == "--ovpn"@ ==> cli::mode_for(args) == (ModeModel::Install {
            ovpn: args[2],
            auth: if args.len() > 4 && args[3] == "--auth-user-pass"@ {
                Some(args[4])
            } else {
                None
            },
        }),
        args.len() <= 2 || args[1] != "--ovpn"@ ==> cli::mode_for(args) is InstallUsage,
{
    lemma_words();
}

/// The version, the help, and the SOCKS5 server with its options; every other
/// first argument is unknown.
pub proof fn law_other_modes(args: Seq<Seq<char>>)
    requires
        args.len() > 0,
    ensures
        args[0] == "--version"@ ==> cli::mode_for(args) is Version,
        args[0] == "--help"@ || args[0] == "-h"@ ==> cli::mode_for(args) is Help,
        args[0] == "child-socks"@ ==> cli::mode_for(args) == ModeModel::ChildSocks(
            cli::child_socks(args.skip(1), cli::no_options()),
        ),
        args[0] != "nm"@ && !(args[0].len() > 0 && args[0][0] == '/') && args[0] != "helper"@
            && args[0] != "child-socks"@ && args[0] != "config"@ && args[0] != "--version"@
            && args[0] != "--help"@ && args[0] != "-h"@ ==> cli::mode_for(args)
            == ModeModel::Unknown(args[0]),
{
    lemma_words();
    lemma_no_slash(args[0]);
    assert(args.drop_first() =~= args.skip(1));
}

/// How the options of the SOCKS5 server are read, from the front: one that
/// takes a value has the value behind it, and the last one counts; what is no
/// option is passed over.
pub proof fn law_socks_options(
    name: Seq<char>,
    value: Seq<char>,
    rest: Seq<Seq<char>>,
    o: SocksModel,
    port: u16,
)
    ensures
        ({
            let read = cli::child_socks(seq![name, value] + rest, o);
            &&& cli::child_socks(Seq::<Seq<char>>::empty(), o) == o
            &&& name == "--bind-ip"@ ==> read == cli::child_socks(
                rest,
                SocksModel { bind_ip: value, ..o },
            )
            &&& name == "--port"@ && number::unsigned(value, 65535) == Some(port as nat) ==> read
                == cli::child_socks(rest, SocksModel { port, ..o })
            &&& name == "--port"@ && number::unsigned(value, 65535) is None ==> read
                == cli::child_socks(rest, SocksModel { port: 0, ..o })
            &&& name == "--dns"@ ==> read == cli::child_socks(
                rest,
                SocksModel { dns: text::split(value, ','), ..o },
            )
            &&& name == "--log"@ ==> read == cli::child_socks(rest, SocksModel { log: value, ..o })
            &&& name != "--bind-ip"@ && name != "--port"@ && name != "--dns"@ && name != "--log"@
                ==> cli::child_socks(seq![name] + rest, o) == cli::child_socks(rest, o)
            &&& name == "--bind-ip"@ || name == "--port"@ || name == "--dns"@ || name == "--log"@
                ==> cli::child_socks(seq![name], o) == o
        }),
{
    let two = seq![name, value] + rest;
    let one = seq![name] + rest;
    assert(two.skip(2) =~= rest);
    assert(one.skip(1) =~= rest);
    assert(two[0] == name && two[1] == value && one[0] == name);
    reveal_strlit("--bind-ip");
    reveal_strlit("--port");
    reveal_strlit("--dns");
    reveal_strlit("--log");
    assert("--dns"@[2] == 'd' && "--log"@[2] == 'l');
}

/// Without options the SOCKS5 server has no address, no port and no DNS
/// servers, and logs to its usual file.
pub proof fn law_no_socks_options()
    ensures
        cli::no_options() == (SocksModel {
            bind_ip: Seq::<char>::empty(),
            port: 0,
            dns: Seq::<Seq<char>>::empty(),
            log: "/run/kit-vpn/socks.log"@,
        }),
{
}

/// The helper prints what an operation gave and exits with 0; what failed it
/// prints as the JSON of an error and exits with 1.
pub proof fn law_helper_prints(json: Seq<char>, e: Seq<char>)
    ensures
        cli::printed_model(Ok(json)) == (json, 0u8),
        cli::printed_model(Err(e)) == (
            json::object(
                seq![
                    ("detail"@, json::quoted(e)),
                    ("error"@, json::quoted(e)),
                    ("pid"@, seq!['0']),
                    ("since"@, seq!['0']),
                    ("socks_port"@, seq!['0']),
                    ("state"@, json::quoted("error"@)),
                ],
            ),
            1u8,
        ),
{
    assert(number::decimal(0) =~= seq!['0']);
}

} // verus!
