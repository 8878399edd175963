//! What was installed can be told from the configuration that is written.
use vstd::prelude::*;

use crate::config;
use crate::install;
use crate::number;
use crate::text;
use crate::toml_file;
use crate::toml_file::Written;

verus! {

/// Whether a text has no quotation mark in it.
pub open spec fn unmarked(t: Seq<char>) -> bool {
    forall|i: int| 0 <= i < t.len() ==> t[i] != '"'
}

proof fn lemma_marked(s: Seq<char>, t: Seq<char>, r: Seq<char>, q: Seq<char>)
    requires
        unmarked(s),
        unmarked(t),
        toml_file::marked(s) + r == toml_file::marked(t) + q,
    ensures
        s == t,
        r == q,
{
    reveal_strlit("\"");
    let x = toml_file::marked(s) + r;
    let y = toml_file::marked(t) + q;
    if s.len() < t.len() {
        assert(x[s.len() + 1int] == '"');
        assert(y[s.len() + 1int] == t[s.len() as int]);
    } else if t.len() < s.len() {
        assert(y[t.len() + 1int] == '"');
        assert(x[t.len() + 1int] == s[t.len() as int]);
    }
    assert(x.subrange(1, 1int + s.len()) =~= s);
    assert(y.subrange(1, 1int + t.len()) =~= t);
    text::lemma_same_front(toml_file::marked(s), r, q);
}

/// A list begins with its first text.
proof fn lemma_listed_front(texts: Seq<Seq<char>>)
    requires
        texts.len() > 0,
    ensures
        toml_file::listed(texts) == toml_file::marked(texts[0]) + (if texts.len() == 1 {
            seq![]
        } else {
            ", "@ + toml_file::listed(texts.drop_first())
        }),
{
    let all = texts.map_values(|t: Seq<char>| toml_file::marked(t));
    assert(all[0] == toml_file::marked(texts[0]));
    if texts.len() == 1 {
        assert(toml_file::listed(texts) =~= toml_file::marked(texts[0]) + Seq::<char>::empty());
    } else {
        text::lemma_join_front(all, ", "@);
        assert(all.drop_first() =~= texts.drop_first().map_values(
            |t: Seq<char>| toml_file::marked(t),
        ));
        assert(toml_file::listed(texts) =~= toml_file::marked(texts[0]) + (", "@ + toml_file::listed(
            texts.drop_first(),
        )));
    }
}

proof fn lemma_listed(a: Seq<Seq<char>>, b: Seq<Seq<char>>, r: Seq<char>, q: Seq<char>)
    requires
        forall|i: int| 0 <= i < a.len() ==> unmarked(#[trigger] a[i]),
        forall|i: int| 0 <= i < b.len() ==> unmarked(#[trigger] b[i]),
        r.len() > 0 && r[0] == ']',
        q.len() > 0 && q[0] == ']',
        toml_file::listed(a) + r == toml_file::listed(b) + q,
    ensures
        a == b,
        r == q,
    decreases a.len(),
{
    reveal_strlit("\"");
    reveal_strlit(", ");
    let x = toml_file::listed(a) + r;
    let y = toml_file::listed(b) + q;
    if a.len() > 0 {
        lemma_listed_front(a);
        assert(x[0] == '"');
    }
    if b.len() > 0 {
        lemma_listed_front(b);
        assert(y[0] == '"');
    }
    if a.len() == 0 && b.len() == 0 {
        assert(toml_file::listed(a) =~= seq![] && toml_file::listed(b) =~= seq![]);
        assert(x =~= r && y =~= q);
        assert(a =~= b);
    } else if a.len() == 0 {
        assert(toml_file::listed(a) =~= seq![]);
        assert(x =~= r);
    } else if b.len() == 0 {
        assert(toml_file::listed(b) =~= seq![]);
        assert(y =~= q);
    } else {
        let a1 = a.drop_first();
        let b1 = b.drop_first();
        let rest = if a.len() == 1 {
            r
        } else {
            ", "@ + (toml_file::listed(a1) + r)
        };
        let more = if b.len() == 1 {
            q
        } else {
            ", "@ + (toml_file::listed(b1) + q)
        };
        assert(x =~= toml_file::marked(a[0]) + rest);
        assert(y =~= toml_file::marked(b[0]) + more);
        lemma_marked(a[0], b[0], rest, more);
        assert(a.len() == 1 <==> rest[0] == ']');
        assert(b.len() == 1 <==> more[0] == ']');
        if a.len() > 1 {
            text::lemma_same_front(", "@, toml_file::listed(a1) + r, toml_file::listed(b1) + q);
            assert forall|i: int| 0 <= i < a1.len() implies unmarked(#[trigger] a1[i]) by {
                assert(a1[i] == a[i + 1]);
            }
            assert forall|i: int| 0 <= i < b1.len() implies unmarked(#[trigger] b1[i]) by {
                assert(b1[i] == b[i + 1]);
            }
            lemma_listed(a1, b1, r, q);
        } else {
            assert(a1 =~= b1);
        }
        assert(a =~= seq![a[0]] + a1);
        assert(b =~= seq![b[0]] + b1);
    }
}

/// What stands in front of the list of DNS servers.
spec fn before_dns() -> Seq<char> {
    toml_file::COMMENT@ + toml_file::line(
        "ovpn_path"@,
        toml_file::marked(config::DEFAULT_OVPN_PATH@),
    ) + toml_file::line("socks_port"@, number::decimal(config::DEFAULT_SOCKS_PORT as nat))
        + "dns_servers"@ + " = "@ + "["@
}

/// What stands behind the list of DNS servers.
spec fn behind_dns(auth: bool) -> Seq<char> {
    "]"@ + "\n"@ + toml_file::line("subnet"@, toml_file::marked(config::DEFAULT_SUBNET@))
        + install::auth_line(auth)
}

/// It does not matter how texts in a row are grouped.
proof fn lemma_regroup(
    p: Seq<char>,
    k: Seq<char>,
    e: Seq<char>,
    o: Seq<char>,
    l: Seq<char>,
    c: Seq<char>,
    n: Seq<char>,
    s: Seq<char>,
    t: Seq<char>,
)
    ensures
        p + (k + e + (o + l + c) + n) + s + t == (p + k + e + o) + (l + (c + n + s + t)),
{
    assert(p + (k + e + (o + l + c) + n) + s + t =~= (p + k + e + o) + (l + (c + n + s + t)));
}

/// Where the list of DNS servers stands in the configuration.
proof fn lemma_around_dns(dns: Seq<Seq<char>>, auth: bool)
    ensures
        install::config_toml(dns, auth) == before_dns() + (toml_file::listed(dns) + behind_dns(
            auth,
        )),
{
    install::lemma_config_lines(dns, auth);
    lemma_regroup(
        toml_file::COMMENT@ + toml_file::line(
            "ovpn_path"@,
            toml_file::marked(config::DEFAULT_OVPN_PATH@),
        ) + toml_file::line("socks_port"@, number::decimal(config::DEFAULT_SOCKS_PORT as nat)),
        "dns_servers"@,
        " = "@,
        "["@,
        toml_file::listed(dns),
        "]"@,
        "\n"@,
        toml_file::line("subnet"@, toml_file::marked(config::DEFAULT_SUBNET@)),
        install::auth_line(auth),
    );
}

/// The configuration that is written tells what was installed: if no name of a
/// DNS server has a quotation mark in it, two installations that write the same
/// configuration have the same DNS servers, and both have credentials or
/// neither.
pub proof fn law_configuration_tells_what_was_installed(
    dns: Seq<Seq<char>>,
    auth: bool,
    other_dns: Seq<Seq<char>>,
    other_auth: bool,
)
    requires
        forall|i: int| 0 <= i < dns.len() ==> unmarked(#[trigger] dns[i]),
        forall|i: int| 0 <= i < other_dns.len() ==> unmarked(#[trigger] other_dns[i]),
        install::config_toml(dns, auth) == install::config_toml(other_dns, other_auth),
    ensures
        dns == other_dns,
        auth == other_auth,
{
    reveal_strlit("]");
    let r = behind_dns(auth);
    let q = behind_dns(other_auth);
    lemma_around_dns(dns, auth);
    lemma_around_dns(other_dns, other_auth);
    text::lemma_same_front(
        before_dns(),
        toml_file::listed(dns) + r,
        toml_file::listed(other_dns) + q,
    );
    lemma_listed(dns, other_dns, r, q);
    reveal_strlit("auth_user_pass");
    assert(install::auth_line(true).len() > 0);
    assert(behind_dns(true).len() != behind_dns(false).len());
}

/// Whether all characters are plain, one after the other.
spec fn plain_chars(t: Seq<char>) -> bool
    decreases t.len(),
{
    t.len() == 0 || toml_file::plain_char(t[0]) && plain_chars(t.drop_first())
}

proof fn lemma_plain_chars(t: Seq<char>)
    requires
        plain_chars(t),
    ensures
        toml_file::plain(t),
    decreases t.len(),
{
    if t.len() > 0 {
        let rest = t.drop_first();
        lemma_plain_chars(rest);
        assert forall|i: int| 0 <= i < t.len() implies toml_file::plain_char(#[trigger] t[i]) by {
            if i > 0 {
                assert(t[i] == rest[i - 1]);
            }
        }
    }
}

/// The texts that the installer itself puts into the configuration are plain.
proof fn lemma_own_texts_are_plain()
    ensures
        toml_file::plain(config::DEFAULT_OVPN_PATH@),
        toml_file::plain(config::DEFAULT_SUBNET@),
        toml_file::plain(config::DEFAULT_AUTH_FILE@),
        toml_file::all_plain(config::default_dns_model()),
{
    reveal_strlit("/etc/kit-vpn/kit.ovpn");
    reveal_strlit("10.200.200.0/30");
    reveal_strlit("/etc/kit-vpn/auth.txt");
    reveal_strlit("141.3.175.71");
    reveal_strlit("129.13.10.90");
    reveal_strlit("129.13.10.91");
    reveal_with_fuel(plain_chars, 23);
    lemma_plain_chars(config::DEFAULT_OVPN_PATH@);
    lemma_plain_chars(config::DEFAULT_SUBNET@);
    lemma_plain_chars(config::DEFAULT_AUTH_FILE@);
    lemma_plain_chars("141.3.175.71"@);
    lemma_plain_chars("129.13.10.90"@);
    lemma_plain_chars("129.13.10.91"@);
}

/// If the DNS servers that an OpenVPN file names are plain texts, so are those
/// that are configured for it.
pub proof fn law_installed_servers_are_plain(ovpn: Seq<char>)
    requires
        toml_file::all_plain(config::dhcp_dns_in(text::lines(ovpn))),
    ensures
        toml_file::all_plain(install::dns_for(ovpn)),
{
    lemma_own_texts_are_plain();
}

/// The entries of the configuration can be read back, and what stands under
/// each key.
pub proof fn lemma_config_entries(dns: Seq<Seq<char>>, auth: bool)
    requires
        toml_file::all_plain(dns),
    ensures
        ({
            let entries = install::config_entries(dns, auth);
            &&& toml_file::readable(entries)
            &&& toml_file::under(entries, "ovpn_path"@) == Some(
                Written::Text(config::DEFAULT_OVPN_PATH@),
            )
            &&& toml_file::under(entries, "socks_port"@) == Some(
                Written::Number(config::DEFAULT_SOCKS_PORT as nat),
            )
            &&& toml_file::under(entries, "dns_servers"@) == Some(Written::Texts(dns))
            &&& toml_file::under(entries, "subnet"@) == Some(
                Written::Text(config::DEFAULT_SUBNET@),
            )
            &&& toml_file::under(entries, "auth_user_pass"@) == (if auth {
                Some(Written::Text(config::DEFAULT_AUTH_FILE@))
            } else {
                None
            })
        }),
{
    lemma_own_texts_are_plain();
    reveal_strlit("ovpn_path");
    reveal_strlit("socks_port");
    reveal_strlit("dns_servers");
    reveal_strlit("subnet");
    reveal_strlit("auth_user_pass");
    assert("ovpn_path"@.len() == 9 && "socks_port"@.len() == 10 && "dns_servers"@.len() == 11
        && "subnet"@.len() == 6 && "auth_user_pass"@.len() == 14);
    let e0 = install::config_entries(dns, auth);
    let e1 = e0.drop_first();
    let e2 = e1.drop_first();
    let e3 = e2.drop_first();
    let e4 = e3.drop_first();
    assert(e1[0] == e0[1] && e2[0] == e0[2] && e3[0] == e0[3]);
    if auth {
        assert(e4[0] == e0[4]);
        assert(e4.drop_first().len() == 0);
    } else {
        assert(e4.len() == 0);
    }
    reveal_with_fuel(toml_file::under, 6);
}

} // verus!
