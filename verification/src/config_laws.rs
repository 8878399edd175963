//! What holds of the configuration and of reading an OpenVPN file.
use vstd::prelude::*;

use crate::config;
use crate::config::ConfigModel;
use crate::number;
use crate::text;
use crate::text_laws;
use crate::toml_file;
use crate::toml_file::EntryModel;

verus! {

// ---- the configuration ----

/// What is configured is used as it stands, and what is not has its default.
pub proof fn law_configured_or_default(cfg: ConfigModel)
    ensures
        cfg.ovpn_path matches Some(path) ==> cfg.ovpn() == path,
        cfg.ovpn_path is None ==> cfg.ovpn() == "/etc/kit-vpn/kit.ovpn"@,
        cfg.socks_port matches Some(port) ==> cfg.port() == port,
        cfg.socks_port is None ==> cfg.port() == 1080,
        cfg.dns_servers matches Some(servers) ==> cfg.dns() == servers,
        cfg.dns_servers is None ==> cfg.dns() == seq![
            "141.3.175.71"@,
            "129.13.10.90"@,
            "129.13.10.91"@,
        ],
        cfg.subnet matches Some(subnet) ==> cfg.subnet_text() == subnet,
        cfg.subnet is None ==> cfg.subnet_text() == "10.200.200.0/30"@,
{
}

/// A text that is there is used, and the default only if there is none.
pub proof fn law_text_or_default(t: Seq<char>, default: Seq<char>)
    ensures
        config::text_or(Some(t), default) == t,
        config::text_or(None, default) == default,
{
}

/// The configuration by default has the defaults, and no credentials.
pub proof fn law_default_configuration()
    ensures
        config::default_model().ovpn() == "/etc/kit-vpn/kit.ovpn"@,
        config::default_model().port() == 1080,
        config::default_model().dns() == seq!["141.3.175.71"@, "129.13.10.90"@, "129.13.10.91"@],
        config::default_model().subnet_text() == "10.200.200.0/30"@,
        config::default_model().auth_user_pass is None,
{
}

/// Whether an entry is missing or a text.
pub open spec fn text_or_missing(entry: Result<Option<EntryModel>, Seq<char>>) -> bool {
    entry is Ok && (entry->Ok_0 is None || entry->Ok_0->0 is Text)
}

/// Whether an entry is missing or a port.
pub open spec fn port_or_missing(entry: Result<Option<EntryModel>, Seq<char>>) -> bool {
    entry is Ok && (entry->Ok_0 is None || (entry->Ok_0->0 is Integer && 0
        <= entry->Ok_0->0->Integer_0 <= 65535))
}

/// Whether an entry is missing or a list of texts.
pub open spec fn texts_or_missing(entry: Result<Option<EntryModel>, Seq<char>>) -> bool {
    entry is Ok && (entry->Ok_0 is None || (entry->Ok_0->0 is List && forall|i: int|
        0 <= i < entry->Ok_0->0->List_0.len() ==> (#[trigger] entry->Ok_0->0->List_0[i]) is Some))
}

/// There is a configuration if each of its entries is missing or of its kind,
/// and only then.
pub proof fn law_when_there_is_a_configuration(
    ovpn_path: Result<Option<EntryModel>, Seq<char>>,
    socks_port: Result<Option<EntryModel>, Seq<char>>,
    dns_servers: Result<Option<EntryModel>, Seq<char>>,
    subnet: Result<Option<EntryModel>, Seq<char>>,
    auth: Result<Option<EntryModel>, Seq<char>>,
)
    ensures
        config::config_of(ovpn_path, socks_port, dns_servers, subnet, auth) is Ok
            <==> text_or_missing(ovpn_path) && port_or_missing(socks_port) && texts_or_missing(
            dns_servers,
        ) && text_or_missing(subnet) && text_or_missing(auth),
{
}

/// What a configuration holds: each entry that is there, as it stands, and the
/// default of each that is missing.
pub proof fn law_what_a_configuration_holds(
    ovpn_path: Result<Option<EntryModel>, Seq<char>>,
    socks_port: Result<Option<EntryModel>, Seq<char>>,
    dns_servers: Result<Option<EntryModel>, Seq<char>>,
    subnet: Result<Option<EntryModel>, Seq<char>>,
    auth: Result<Option<EntryModel>, Seq<char>>,
)
    requires
        config::config_of(ovpn_path, socks_port, dns_servers, subnet, auth) is Ok,
    ensures
        ({
            let cfg = config::config_of(ovpn_path, socks_port, dns_servers, subnet, auth)->Ok_0;
            &&& ovpn_path->Ok_0 is None ==> cfg.ovpn_path == Some("/etc/kit-vpn/kit.ovpn"@)
            &&& ovpn_path->Ok_0 is Some ==> cfg.ovpn_path == Some(ovpn_path->Ok_0->0->Text_0)
            &&& socks_port->Ok_0 is None ==> cfg.socks_port == Some(1080u16)
            &&& socks_port->Ok_0 is Some ==> cfg.socks_port is Some && cfg.socks_port->0
                == socks_port->Ok_0->0->Integer_0
            &&& dns_servers->Ok_0 is None ==> cfg.dns_servers == Some(
                seq!["141.3.175.71"@, "129.13.10.90"@, "129.13.10.91"@],
            )
            &&& dns_servers->Ok_0 is Some ==> {
                &&& cfg.dns_servers is Some
                &&& cfg.dns_servers->0.len() == dns_servers->Ok_0->0->List_0.len()
                &&& forall|i: int|
                    0 <= i < cfg.dns_servers->0.len() ==> dns_servers->Ok_0->0->List_0[i] == Some(
                        #[trigger] cfg.dns_servers->0[i],
                    )
            }
            &&& subnet->Ok_0 is None ==> cfg.subnet == Some("10.200.200.0/30"@)
            &&& subnet->Ok_0 is Some ==> cfg.subnet == Some(subnet->Ok_0->0->Text_0)
            &&& auth->Ok_0 is None ==> cfg.auth_user_pass is None
            &&& auth->Ok_0 is Some ==> cfg.auth_user_pass == Some(auth->Ok_0->0->Text_0)
        }),
{
    let cfg = config::config_of(ovpn_path, socks_port, dns_servers, subnet, auth)->Ok_0;
    if dns_servers->Ok_0 is Some {
        let items = dns_servers->Ok_0->0->List_0;
        assert forall|i: int| 0 <= i < cfg.dns_servers->0.len() implies items[i] == Some(
            #[trigger] cfg.dns_servers->0[i],
        ) by {
            assert(items[i] is Some);
        }
    }
}

/// The reason why there is no configuration is that of the first entry that is
/// not as it should be: what reading it came to, or what was expected.
pub proof fn law_why_there_is_no_configuration(
    ovpn_path: Result<Option<EntryModel>, Seq<char>>,
    socks_port: Result<Option<EntryModel>, Seq<char>>,
    dns_servers: Result<Option<EntryModel>, Seq<char>>,
    subnet: Result<Option<EntryModel>, Seq<char>>,
    auth: Result<Option<EntryModel>, Seq<char>>,
)
    ensures
        ({
            let r = config::config_of(ovpn_path, socks_port, dns_servers, subnet, auth);
            let why = |entry: Result<Option<EntryModel>, Seq<char>>, expected: Seq<char>|
                match entry {
                    Err(e) => e,
                    Ok(_) => expected,
                };
            let ok1 = text_or_missing(ovpn_path);
            let ok2 = ok1 && port_or_missing(socks_port);
            let ok3 = ok2 && texts_or_missing(dns_servers);
            let ok4 = ok3 && text_or_missing(subnet);
            &&& !ok1 ==> r == Err::<ConfigModel, Seq<char>>(
                why(ovpn_path, "ovpn_path"@ + ": expected a string"@),
            )
            &&& ok1 && !ok2 ==> r == Err::<ConfigModel, Seq<char>>(
                why(socks_port, "socks_port: expected a port"@),
            )
            &&& ok2 && !ok3 ==> r == Err::<ConfigModel, Seq<char>>(
                why(dns_servers, "dns_servers: expected strings"@),
            )
            &&& ok3 && !ok4 ==> r == Err::<ConfigModel, Seq<char>>(
                why(subnet, "subnet"@ + ": expected a string"@),
            )
            &&& ok4 && !text_or_missing(auth) ==> r == Err::<ConfigModel, Seq<char>>(
                why(auth, "auth_user_pass"@ + ": expected a string"@),
            )
        }),
{
}

/// The configuration of a text is made of what stands in it under the five
/// keys; a file that cannot be read, or is not valid, gives the reason.
pub proof fn law_loading(text: Seq<char>, e: Seq<char>)
    ensures
        config::config_in(text) == config::config_of(
            toml_file::toml_entry(text, "ovpn_path"@),
            toml_file::toml_entry(text, "socks_port"@),
            toml_file::toml_entry(text, "dns_servers"@),
            toml_file::toml_entry(text, "subnet"@),
            toml_file::toml_entry(text, "auth_user_pass"@),
        ),
        config::config_in(text) is Ok ==> config::loaded(Ok(text)) == config::config_in(text),
        config::config_in(text) is Err ==> config::loaded(Ok(text)) == Err::<
            ConfigModel,
            Seq<char>,
        >("invalid "@ + "/etc/kit-vpn/config.toml"@ + ": "@ + config::config_in(text)->Err_0),
        config::loaded(Err(e)) == Err::<ConfigModel, Seq<char>>(
            "cannot read "@ + "/etc/kit-vpn/config.toml"@ + ": "@ + e,
        ),
{
}

// ---- OpenVPN files ----

/// Whether a text is not empty and has no white space.
pub open spec fn word(t: Seq<char>) -> bool {
    t.len() > 0 && forall|i: int| 0 <= i < t.len() ==> !text::white_space(#[trigger] t[i])
}

/// Whether a text is nothing but white space.
pub open spec fn blank(t: Seq<char>) -> bool {
    forall|i: int| 0 <= i < t.len() ==> text::white_space(#[trigger] t[i])
}

proof fn lemma_two_words(a: Seq<char>, gap: char, b: Seq<char>)
    requires
        word(a),
        word(b),
        text::white_space(gap),
    ensures
        text::words(a + seq![gap] + b) == seq![a, b],
{
    text_laws::law_words(a, gap, b);
    text_laws::law_words(b, gap, a);
    assert(seq![a] + seq![b] =~= seq![a, b]);
}

proof fn lemma_three_words(a: Seq<char>, gap: char, b: Seq<char>, gap2: char, c: Seq<char>)
    requires
        word(a),
        word(b),
        word(c),
        text::white_space(gap),
        text::white_space(gap2),
    ensures
        text::words(a + seq![gap] + b + seq![gap2] + c) == seq![a, b, c],
{
    lemma_two_words(a, gap, b);
    text_laws::law_words(a + seq![gap] + b, gap2, c);
    text_laws::law_words(c, gap, a);
    assert(seq![a, b] + seq![c] =~= seq![a, b, c]);
}

/// A line `remote HOST`, with white space around it or none, names the host
/// and the port 1194; one with a port behind the host, of which a number of at
/// most 65535 is one, names that port; a host that begins with `#` is a comment.
pub proof fn law_remote_lines(
    left: Seq<char>,
    host: Seq<char>,
    gap: char,
    third: Seq<char>,
    right: Seq<char>,
    port: u16,
)
    requires
        blank(left),
        blank(right),
        text::white_space(gap),
        word(host),
        word(third),
    ensures
        ({
            let two = left + ("remote"@ + seq![' '] + host) + right;
            let three = left + ("remote"@ + seq![' '] + host + seq![gap] + third) + right;
            let is_port = exists|plus: bool, zeros: nat|
                third == #[trigger] text_laws::written(plus, zeros, port as nat);
            let no_port = forall|n: nat, plus: bool, zeros: nat|
                n <= 65535 ==> third != #[trigger] text_laws::written(plus, zeros, n);
            &&& host[0] == '#' ==> config::remote_on(two) is None && config::remote_on(three) is None
            &&& host[0] != '#' ==> config::remote_on(two) == Some((host, 1194u16))
            &&& host[0] != '#' && is_port ==> config::remote_on(three) == Some((host, port))
            &&& host[0] != '#' && no_port ==> config::remote_on(three) == Some((host, 1194u16))
        }),
{
    reveal_strlit("remote");
    reveal_strlit("remote ");
    reveal_strlit("#");
    let r = "remote"@;
    assert(word(r));
    let t2 = r + seq![' '] + host;
    let t3 = r + seq![' '] + host + seq![gap] + third;
    assert(t2[0] == 'r' && t3[0] == 'r');
    assert(t2.last() == host.last() && t3.last() == third.last());
    assert(!text::white_space(host[host.len() - 1]));
    assert(!text::white_space(third[third.len() - 1]));
    text_laws::law_trimming(left, t2, right);
    text_laws::law_trimming(left, t3, right);
    lemma_two_words(r, ' ', host);
    lemma_three_words(r, ' ', host, gap, third);
    assert(t2.subrange(0, 7) =~= "remote "@);
    assert(t3.subrange(0, 7) =~= "remote "@);
    assert(text::starts_with(host, "#"@) <==> host[0] == '#') by {
        if host[0] == '#' {
            assert(host.subrange(0, 1) =~= "#"@);
        } else {
            assert(host.subrange(0, 1)[0] == host[0]);
        }
    }
    text_laws::law_reading_numbers(third, port as nat, 65535);
    let read = number::unsigned(third, 65535);
    if read is Some {
        text_laws::law_reading_numbers(third, read->0, 65535);
    }
}

/// A line that begins with `remote ` names the host that is its second word,
/// unless that begins with `#`, and the port that is its third word, or 1194 if
/// that is no port or there is none. What follows does not matter.
pub proof fn law_remote_words(line: Seq<char>, port: u16)
    requires
        text::trim(line).len() >= 7,
        text::trim(line).take(7) == seq!['r', 'e', 'm', 'o', 't', 'e', ' '],
        text::words(line).len() >= 2,
        text::words(line)[1].len() > 0,
    ensures
        ({
            let w = text::words(line);
            let r = config::remote_on(line);
            let is_port = exists|plus: bool, zeros: nat|
                w[2] == #[trigger] text_laws::written(plus, zeros, port as nat);
            let no_port = forall|n: nat, plus: bool, zeros: nat|
                n <= 65535 ==> w[2] != #[trigger] text_laws::written(plus, zeros, n);
            &&& w[1][0] == '#' ==> r is None
            &&& w[1][0] != '#' && w.len() == 2 ==> r == Some((w[1], 1194u16))
            &&& w[1][0] != '#' && w.len() >= 3 && is_port ==> r == Some((w[1], port))
            &&& w[1][0] != '#' && w.len() >= 3 && no_port ==> r == Some((w[1], 1194u16))
        }),
{
    let t = text::trim(line);
    let w = text::words(line);
    lemma_words_of_trimmed(line);
    reveal_strlit("remote ");
    reveal_strlit("#");
    assert(t.subrange(0, 7) =~= t.take(7));
    assert("remote "@ =~= seq!['r', 'e', 'm', 'o', 't', 'e', ' ']);
    let host = w[1];
    assert(text::starts_with(host, "#"@) <==> host[0] == '#') by {
        if host[0] == '#' {
            assert(host.subrange(0, 1) =~= "#"@);
        } else {
            assert(host.subrange(0, 1)[0] == host[0]);
        }
    }
    if w.len() >= 3 {
        text_laws::law_reading_numbers(w[2], port as nat, 65535);
        if let Some(n) = number::unsigned(w[2], 65535) {
            text_laws::law_reading_numbers(w[2], n, 65535);
        }
    }
}

/// A line that does not begin with the word `remote` and a space, but for white
/// space in front, names no server.
pub proof fn law_other_lines_name_no_server(left: Seq<char>, t: Seq<char>, right: Seq<char>)
    requires
        blank(left),
        blank(right),
        t.len() > 0 ==> !text::white_space(t[0]) && !text::white_space(t.last()),
        !(t.len() >= 7 && t.take(7) == seq!['r', 'e', 'm', 'o', 't', 'e', ' ']),
    ensures
        config::remote_on(left + t + right) is None,
{
    text_laws::law_trimming(left, t, right);
    reveal_strlit("remote ");
    if text::starts_with(t, "remote "@) {
        assert(t.take(7) =~= t.subrange(0, 7));
        assert("remote "@ =~= seq!['r', 'e', 'm', 'o', 't', 'e', ' ']);
    }
}

/// The servers of an OpenVPN file are those of its lines, in their order: the
/// servers of two parts are those of the first, then those of the second.
pub proof fn law_servers_keep_their_order(a: Seq<Seq<char>>, b: Seq<Seq<char>>, line: Seq<char>)
    ensures
        config::remotes_on(a + b) == config::remotes_on(a) + config::remotes_on(b),
        config::remote_on(line) matches Some(server) ==> config::remotes_on(seq![line]) == seq![
            server,
        ],
        config::remote_on(line) is None ==> config::remotes_on(seq![line]).len() == 0,
    decreases b.len(),
{
    let one = seq![line];
    assert(one.drop_last() =~= Seq::<Seq<char>>::empty());
    assert(config::remotes_on(one.drop_last()) =~= Seq::<(Seq<char>, u16)>::empty());
    if config::remote_on(line) is Some {
        assert(config::remotes_on(one) =~= seq![config::remote_on(line)->0]);
    }
    if b.len() == 0 {
        assert(a + b =~= a);
        assert(config::remotes_on(a) + config::remotes_on(b) =~= config::remotes_on(a));
    } else {
        law_servers_keep_their_order(a, b.drop_last(), line);
        assert((a + b).drop_last() =~= a + b.drop_last());
        assert((a + b).last() == b.last());
        assert(config::remotes_on(a + b) =~= config::remotes_on(a) + config::remotes_on(b));
    }
}

/// A line names a DNS server if its words begin with `dhcp-option` and `DNS`
/// and there is a third one, which is the server.
pub proof fn law_dns_lines(line: Seq<char>)
    ensures
        ({
            let w = text::words(line);
            config::dhcp_dns_on(line) == (if w.len() >= 3 && w[0] == "dhcp-option"@ && w[1]
                == "DNS"@ {
                Some(w[2])
            } else {
                None
            })
        }),
{
    lemma_words_of_trimmed(line);
}

proof fn lemma_words_of_trimmed(s: Seq<char>)
    ensures
        text::words(text::trim(s)) == text::words(s),
    decreases s.len(),
{
    if s.len() > 0 && text::white_space(s[0]) {
        lemma_words_of_trimmed(s.drop_first());
    } else {
        assert(text::trim_start(s) == s);
        lemma_words_of_trim_end(s);
    }
}

proof fn lemma_words_of_trim_end(s: Seq<char>)
    ensures
        text::words(text::trim_end(s)) == text::words(s),
    decreases s.len(),
{
    if s.len() > 0 && text::white_space(s.last()) {
        let front = s.drop_last();
        lemma_words_of_trim_end(front);
        text_laws::law_words(front, s.last(), Seq::<char>::empty());
        assert(front + seq![s.last()] + Seq::<char>::empty() =~= s);
        assert(text::words(front) + Seq::<Seq<char>>::empty() =~= text::words(front));
    }
}

/// The DNS servers of an OpenVPN file are those of its lines, in their order.
pub proof fn law_dns_servers_keep_their_order(
    a: Seq<Seq<char>>,
    b: Seq<Seq<char>>,
    line: Seq<char>,
)
    ensures
        config::dhcp_dns_in(a + b) == config::dhcp_dns_in(a) + config::dhcp_dns_in(b),
        config::dhcp_dns_on(line) matches Some(server) ==> config::dhcp_dns_in(seq![line]) == seq![
            server,
        ],
        config::dhcp_dns_on(line) is None ==> config::dhcp_dns_in(seq![line]).len() == 0,
    decreases b.len(),
{
    let one = seq![line];
    assert(one.drop_last() =~= Seq::<Seq<char>>::empty());
    assert(config::dhcp_dns_in(one.drop_last()) =~= Seq::<Seq<char>>::empty());
    if config::dhcp_dns_on(line) is Some {
        assert(config::dhcp_dns_in(one) =~= seq![config::dhcp_dns_on(line)->0]);
    }
    if b.len() == 0 {
        assert(a + b =~= a);
        assert(config::dhcp_dns_in(a) + config::dhcp_dns_in(b) =~= config::dhcp_dns_in(a));
    } else {
        law_dns_servers_keep_their_order(a, b.drop_last(), line);
        assert((a + b).drop_last() =~= a + b.drop_last());
        assert((a + b).last() == b.last());
        assert(config::dhcp_dns_in(a + b) =~= config::dhcp_dns_in(a) + config::dhcp_dns_in(b));
    }
}

} // verus!
