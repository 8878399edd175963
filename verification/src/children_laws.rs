//! What holds of how the children are started and stopped.
use vstd::prelude::*;

use crate::children;
use crate::children::{NotSpawned, StopChild, StopStep};
use crate::config::ConfigModel;
use crate::number;
use crate::text;

verus! {

/// OpenVPN is started with the configured file, or with the usual one if none
/// is configured: that is what its first two arguments say.
pub proof fn law_openvpn_reads_its_file(
    cfg: ConfigModel,
    found: Option<Seq<char>>,
    auth_present: bool,
)
    ensures
        ({
            let r = children::openvpn_invocation(cfg, found, auth_present);
            &&& r.args.len() >= 2
            &&& r.args[0] == "--config"@
            &&& cfg.ovpn_path matches Some(file) ==> r.args[1] == file
            &&& cfg.ovpn_path is None ==> r.args[1] == "/etc/kit-vpn/kit.ovpn"@
            &&& found matches Some(program) ==> r.program == program
            &&& found is None ==> r.program == "openvpn"@
        }),
{
}

/// The arguments for two different files differ, whatever else is configured.
pub proof fn law_files_tell_the_arguments_apart(
    a: ConfigModel,
    b: ConfigModel,
    found: Option<Seq<char>>,
    present_a: bool,
    present_b: bool,
)
    requires
        a.ovpn_path is Some,
        b.ovpn_path is Some,
        a.ovpn_path != b.ovpn_path,
    ensures
        children::openvpn_invocation(a, found, present_a).args != children::openvpn_invocation(
            b,
            found,
            present_b,
        ).args,
{
    law_openvpn_reads_its_file(a, found, present_a);
    law_openvpn_reads_its_file(b, found, present_b);
}

/// The other arguments of OpenVPN are the same for every configuration: the
/// device is named and of the kind `tun`, no route is set, no script is run,
/// nothing is asked for, and it logs to its two files.
pub proof fn law_openvpn_is_started_the_same_way(
    cfg: ConfigModel,
    found: Option<Seq<char>>,
    auth_present: bool,
)
    ensures
        children::openvpn_invocation(cfg, found, auth_present).args.subrange(2, 20) == seq![
            "--dev"@, "kitvpn-tun"@, "--dev-type"@, "tun"@, "--route-noexec"@, "--disable-dco"@,
            "--script-security"@, "0"@, "--auth-retry"@, "nointeract"@, "--auth-nocache"@,
            "--verb"@, "3"@, "--log"@, "/run/kit-vpn/openvpn.log"@, "--status"@,
            "/run/kit-vpn/openvpn-status.log"@, "30"@
        ],
{
    let all = children::openvpn_invocation(cfg, found, auth_present).args;
    assert(all.subrange(2, 20) =~= seq![
        "--dev"@, "kitvpn-tun"@, "--dev-type"@, "tun"@, "--route-noexec"@, "--disable-dco"@,
        "--script-security"@, "0"@, "--auth-retry"@, "nointeract"@, "--auth-nocache"@,
        "--verb"@, "3"@, "--log"@, "/run/kit-vpn/openvpn.log"@, "--status"@,
        "/run/kit-vpn/openvpn-status.log"@, "30"@
    ]);
}

/// The file with credentials stands at the end of the arguments of OpenVPN if
/// one is configured and it is there, and nothing stands there otherwise.
pub proof fn law_openvpn_credentials(
    cfg: ConfigModel,
    found: Option<Seq<char>>,
    auth_present: bool,
)
    ensures
        ({
            let args = children::openvpn_invocation(cfg, found, auth_present).args;
            &&& cfg.auth_user_pass is Some && auth_present ==> args.skip(20) == seq![
                "--auth-user-pass"@, cfg.auth_user_pass->0
            ]
            &&& cfg.auth_user_pass is None || !auth_present ==> args.len() == 20
        }),
{
    let args = children::openvpn_invocation(cfg, found, auth_present).args;
    if cfg.auth_user_pass is Some && auth_present {
        assert(args.skip(20) =~= seq!["--auth-user-pass"@, cfg.auth_user_pass->0]);
    }
}

/// The SOCKS5 server is this program, told the address and the port to listen
/// on and the DNS servers to ask, from which each of them can be read back.
pub proof fn law_socks_server_is_told(
    exe: Seq<char>,
    ns_ip: Seq<char>,
    port: u16,
    dns: Seq<Seq<char>>,
)
    ensures
        ({
            let r = children::socks_invocation(exe, ns_ip, port, dns);
            &&& r.program == exe
            &&& r.args.len() == 9
            &&& r.args[0] == "child-socks"@
            &&& r.args[1] == "--bind-ip"@ && r.args[2] == ns_ip
            &&& r.args[3] == "--port"@ && number::unsigned(r.args[4], 65535) == Some(port as nat)
            &&& r.args[5] == "--dns"@
            &&& dns.len() > 0 && (forall|i: int, j: int|
                0 <= i < dns.len() && 0 <= j < dns[i].len() ==> (#[trigger] dns[i][j]) != ',')
                ==> text::split(r.args[6], ',') == dns
            &&& dns.len() == 0 ==> r.args[6].len() == 0
            &&& r.args[7] == "--log"@ && r.args[8] == "/run/kit-vpn/socks.log"@
        }),
{
    number::law_decimal_reads_back(port as nat);
    let d = number::decimal(port as nat);
    assert(number::is_digit(d[0]));
    reveal_strlit(",");
    assert(","@ =~= seq![',']);
    if dns.len() > 0 && (forall|i: int, j: int|
        0 <= i < dns.len() && 0 <= j < dns[i].len() ==> (#[trigger] dns[i][j]) != ',') {
        text::law_join_splits_back(dns, ',');
    }
}

/// Why a program does not run in the namespace says which step failed and ends
/// with the reason.
pub proof fn law_why_it_was_not_spawned(fault: NotSpawned)
    ensures
        fault matches NotSpawned::NoProgram(e) ==> children::not_spawned(fault)
            == "cannot locate own binary: "@ + e@,
        fault matches NotSpawned::NoNamespace(e) ==> children::not_spawned(fault)
            == "cannot open "@ + ("/var/run/netns/"@ + "kitvpn"@) + ": "@ + e@,
        fault matches NotSpawned::NotStarted { program, error } ==> children::not_spawned(fault)
            == "cannot spawn "@ + program@ + ": "@ + error@,
{
}

/// An OpenVPN that cannot be started is reported with the reason.
pub proof fn law_why_openvpn_was_not_started(e: Seq<char>)
    ensures
        children::no_openvpn(e) == "cannot spawn openvpn: "@ + e,
{
}

/// A child that ended gives the code that it exited with; one that a signal
/// ended gives -1; one that has not ended gives none.
pub proof fn law_exit_codes(ended: Option<Option<i32>>)
    ensures
        children::exit_of(ended) is None <==> ended is None,
        ended is Some && ended->0 is Some ==> children::exit_of(ended) == ended->0,
        ended is Some && ended->0 is None ==> children::exit_of(ended) == Some(-1i32),
{
}

/// The steps of stopping a child: it is asked to terminate and then looked at
/// every now and then. While it runs and less than five seconds have gone by
/// since it was last signalled, it is given time; after that it is killed, once,
/// and then looked at again. A child that ended or was given up is left alone.
pub proof fn law_stopping_steps(s: StopChild, ended: bool, now: u64)
    ensures
        ({
            let t = s.after(ended, now);
            &&& children::stop_start().step is Terminate && !children::stop_start().killed
            &&& s.step is Terminate ==> t == (StopChild {
                step: StopStep::Poll,
                killed: s.killed,
                since: now,
            })
            &&& s.step is Sleep ==> t == (StopChild { step: StopStep::Poll, ..s })
            &&& s.step is Kill ==> t == (StopChild {
                step: StopStep::Poll,
                killed: true,
                since: now,
            })
            &&& s.step is Poll && ended ==> t == (StopChild { step: StopStep::Ended, ..s })
            &&& s.step is Poll && !ended && now < s.since + 5000 ==> t == (StopChild {
                step: StopStep::Sleep,
                ..s
            })
            &&& s.step is Poll && !ended && now >= s.since + 5000 && !s.killed ==> t == (StopChild {
                step: StopStep::Kill,
                ..s
            })
            &&& s.step is Poll && !ended && now >= s.since + 5000 && s.killed ==> t == (StopChild {
                step: StopStep::GiveUp,
                ..s
            })
            &&& s.step is Ended || s.step is GiveUp ==> t == s
        }),
{
}

} // verus!
