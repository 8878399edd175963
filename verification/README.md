# kit-vpn-companion

The local companion of a Firefox extension that sends the configured
`*.kit.edu` domains through one isolated OpenVPN tunnel and leaves everything
else on the normal connection. What the companion decides and computes is a
Verus library; the program around it does the input and output.

## Layout

`src/` is the library. Every function states what it does, and Verus proves it.

| Module | What it holds |
|---|---|
| `text`, `number`, `ipv4`, `json`, `toml_file` | texts, numbers, addresses, JSON and TOML as sequences of characters |
| `config`, `install` | the configuration, OpenVPN files, and the installer |
| `command` | commands of `ip`, their outcomes, finding programs |
| `netns`, `subnet`, `tun`, `routes`, `relay` | namespace and veth pair, private subnet, tunnel device, policy rules, free port |
| `dns`, `socks5` | the DNS client and the SOCKS5 server in the namespace |
| `status`, `nm`, `cli` | the published status, Native Messaging, the command line |
| `children`, `supervisor`, `helper` | the processes, the supervisor, `enable` and `disable` |
| `dns_laws`, `route_laws`, `status_laws`, `install_laws`, `supervisor_laws`, `helper_laws` | what holds of several of these together |

Whatever alternates decisions with work outside is a small machine: `next` says
what is to be done, and a second method takes what came of it. The contracts
speak of a model of the machine (`next`, `after`), and the laws, public proof
functions whose names begin with `law_`, of all its runs.

`app/` is the program: arguments, files, sockets, processes, signals, serde.

`tests/` runs the library on concrete values.

## What is taken on trust

Five items have contracts that are not proved: `String::push` and
`String::from_utf8_lossy` in `text`, two calls into `serde_json` in `json`
(writing a text as a JSON string, reading a member of a JSON document), and one
into `toml` in `toml_file` (reading a value of a TOML document). Each says in
its doc comment what it claims.
