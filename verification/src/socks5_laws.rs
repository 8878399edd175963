//! What a session says to its client, byte by byte.
use vstd::prelude::*;

use crate::ipv4::Ipv4Addr;
use crate::socks5;
use crate::socks5::{ActionModel, Event, Socks};
use crate::text;

verus! {

/// Whether a step ends the session, after these bytes were sent.
pub open spec fn ends_with(s: Socks, event: Event, write: Seq<u8>) -> bool {
    &&& s.on(event).next is Closed
    &&& s.on(event).write == write
    &&& s.on(event).action is Close
}

/// Whether a step sends these bytes and goes on to read so many.
pub open spec fn goes_on(s: Socks, event: Event, write: Seq<u8>, wanted: nat) -> bool {
    &&& s.on(event).write == write
    &&& s.on(event).action == ActionModel::Read(wanted)
}

/// A greeting of version 5 is followed by as many methods as its second byte
/// says; any other greeting ends the session without a word.
pub proof fn law_greeting(bytes: Vec<u8>)
    requires
        bytes@.len() == 2,
    ensures
        bytes@[0] == 5 ==> Socks::Greeting.on(Event::Bytes(bytes)).next == (Socks::Methods {
            count: bytes@[1],
        }) && goes_on(Socks::Greeting, Event::Bytes(bytes), seq![], bytes@[1] as nat),
        bytes@[0] != 5 ==> ends_with(Socks::Greeting, Event::Bytes(bytes), seq![]),
{
}

/// When 0 is among the offered methods the client is sent exactly 05 00, and
/// the request is read; else it is sent 05 FF and the session ends. Neither the
/// other methods nor their order matter.
pub proof fn law_method_chosen(count: u8, methods: Vec<u8>)
    requires
        methods@.len() == count,
    ensures
        (exists|i: int| 0 <= i < methods@.len() && #[trigger] methods@[i] == 0) ==> goes_on(
            Socks::Methods { count },
            Event::Bytes(methods),
            seq![5u8, 0u8],
            4,
        ) && (Socks::Methods { count }).on(Event::Bytes(methods)).next is Request,
        (forall|i: int| 0 <= i < methods@.len() ==> #[trigger] methods@[i] != 0) ==> ends_with(
            Socks::Methods { count },
            Event::Bytes(methods),
            seq![5u8, 255u8],
        ),
{
    if exists|i: int| 0 <= i < methods@.len() && #[trigger] methods@[i] == 0 {
        let i = choose|i: int| 0 <= i < methods@.len() && #[trigger] methods@[i] == 0;
        assert(methods@[i] == 0);
        assert(methods@.contains(0));
    }
}

/// Two offers of methods that both hold 0 are answered alike.
pub proof fn law_other_methods_do_not_matter(a: Vec<u8>, b: Vec<u8>, m: u8, n: u8)
    requires
        a@.len() == m,
        b@.len() == n,
        a@.contains(0),
        b@.contains(0),
    ensures
        (Socks::Methods { count: m }).on(Event::Bytes(a)) == (Socks::Methods { count: n }).on(
            Event::Bytes(b),
        ),
{
}

/// The request must be of version 5, or the session ends without a word. It
/// must ask for a connection (else 05 07 is the reply) to an IPv4 address, of
/// which the four bytes are read, or to a host name, of which the length is
/// read (else 05 08 is the reply).
pub proof fn law_request(bytes: Vec<u8>)
    requires
        bytes@.len() == 4,
    ensures
        ({
            let (s, e) = (Socks::Request, Event::Bytes(bytes));
            let b = bytes@;
            &&& b[0] != 5 ==> ends_with(s, e, seq![])
            &&& b[0] == 5 && b[1] != 1 ==> ends_with(s, e, seq![5u8, 7, 0, 1, 0, 0, 0, 0, 0, 0])
            &&& b[0] == 5 && b[1] == 1 && b[3] == 1 ==> s.on(e).next is Address && goes_on(
                s,
                e,
                seq![],
                4,
            )
            &&& b[0] == 5 && b[1] == 1 && b[3] == 3 ==> s.on(e).next is NameLength && goes_on(
                s,
                e,
                seq![],
                1,
            )
            &&& b[0] == 5 && b[1] == 1 && b[3] != 1 && b[3] != 3 ==> ends_with(
                s,
                e,
                seq![5u8, 8, 0, 1, 0, 0, 0, 0, 0, 0],
            )
        }),
{
}

/// The four bytes of an address, and then the two bytes of a port, the high
/// one first, are what is connected to.
pub proof fn law_address_is_connected_to(addr: Vec<u8>, port: Vec<u8>, n: u16)
    requires
        addr@.len() == 4,
        port@.len() == 2,
        port@[0] == n / 256,
        port@[1] == n % 256,
    ensures
        ({
            let s = Socks::Address.on(Event::Bytes(addr));
            let t = s.next.on(Event::Bytes(port));
            &&& s.write.len() == 0 && s.action == ActionModel::Read(2)
            &&& t.write.len() == 0 && t.next is Connecting
            &&& t.action == ActionModel::Connect(
                Ipv4Addr { a: addr@[0], b: addr@[1], c: addr@[2], d: addr@[3] },
                n,
            )
        }),
{
}

/// A host name of the announced length, and then the two bytes of a port, are
/// what is looked up; the address that is found is connected to at that port,
/// and if none is found the reply is 05 04.
pub proof fn law_name_is_looked_up(
    length: Vec<u8>,
    name: Vec<u8>,
    port: Vec<u8>,
    n: u16,
    found: Option<Ipv4Addr>,
)
    requires
        length@.len() == 1,
        name@.len() == length@[0],
        port@.len() == 2,
        port@[0] == n / 256,
        port@[1] == n % 256,
    ensures
        ({
            let s = Socks::NameLength.on(Event::Bytes(length));
            let t = s.next.on(Event::Bytes(name));
            let u = t.next.on(Event::Bytes(port));
            &&& s.write.len() == 0 && s.action == ActionModel::Read(length@[0] as nat)
            &&& t.write.len() == 0 && t.action == ActionModel::Read(2)
            &&& u.write.len() == 0 && u.action == ActionModel::Resolve(text::lossy_text(name@))
            &&& found is None ==> ends_with(
                u.next,
                Event::Resolved(found),
                seq![5u8, 4, 0, 1, 0, 0, 0, 0, 0, 0],
            )
            &&& found is Some ==> u.next.on(Event::Resolved(found)).next is Connecting
                && u.next.on(Event::Resolved(found)).write.len() == 0 && u.next.on(
                Event::Resolved(found),
            ).action == ActionModel::Connect(found->0, n)
        }),
{
}

/// How the attempt to connect is answered: 05 00 when the connection stands,
/// and then bytes are passed on; 05 05 when it was refused, 05 03 when the
/// target cannot be reached, 05 01 otherwise, and then the session ends.
pub proof fn law_connection_is_reported()
    ensures
        Socks::Connecting.on(Event::Connected).next is Relaying,
        Socks::Connecting.on(Event::Connected).action is Relay,
        Socks::Connecting.on(Event::Connected).write == seq![5u8, 0, 0, 1, 0, 0, 0, 0, 0, 0],
        ends_with(Socks::Connecting, Event::Refused, seq![5u8, 5, 0, 1, 0, 0, 0, 0, 0, 0]),
        ends_with(Socks::Connecting, Event::Unreachable, seq![5u8, 3, 0, 1, 0, 0, 0, 0, 0, 0]),
        ends_with(Socks::Connecting, Event::Failed, seq![5u8, 1, 0, 1, 0, 0, 0, 0, 0, 0]),
{
}

/// What does not belong to the state of a session ends it without a word: the
/// client's going away, bytes when none are awaited or not as many as are,
/// news of a lookup when there is none, and of a connection when none is made.
pub proof fn law_what_does_not_belong_ends_the_session(s: Socks, event: Event)
    ensures
        event is Ended ==> ends_with(s, event, seq![]),
        event is Resolved && !(s is Resolving) ==> ends_with(s, event, seq![]),
        (event is Connected || event is Refused || event is Unreachable || event is Failed) && !(
        s is Connecting) ==> ends_with(s, event, seq![]),
        event is Bytes && (s is Resolving || s is Connecting || s is Relaying || s is Closed)
            ==> ends_with(s, event, seq![]),
        event matches Event::Bytes(bytes) ==> (match s {
            Socks::Greeting => bytes@.len() != 2,
            Socks::Methods { count } => bytes@.len() != count,
            Socks::Request => bytes@.len() != 4,
            Socks::Address => bytes@.len() != 4,
            Socks::NameLength => bytes@.len() != 1,
            Socks::Name { length } => bytes@.len() != length,
            Socks::Port { target: _ } => bytes@.len() != 2,
            _ => true,
        }) ==> ends_with(s, event, seq![]),
{
}

/// The reply to a request is ten bytes: version 5, the code, a zero, and an
/// IPv4 address and a port that are all zeros.
pub proof fn law_replies(code: u8)
    ensures
        socks5::reply_bytes(code) == seq![5u8, code, 0, 1, 0, 0, 0, 0, 0, 0],
{
}

} // verus!
