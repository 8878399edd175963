//! The SOCKS5 (RFC 1928) server that runs inside the namespace.
//!
//! Host names are resolved through the tunnel. A connection that fails is
//! reported to the client; there is no other way out.
use vstd::prelude::*;

use crate::ipv4::Ipv4Addr;
use crate::text;

verus! {

/// Where a client wants to go.
pub enum Target {
    Address(Ipv4Addr),
    Name(Vec<u8>),
}

/// How far the talk with a client has come.
pub enum Socks {
    /// The version and the number of methods are awaited.
    Greeting,
    /// The methods are awaited.
    Methods { count: u8 },
    /// Version, command, a reserved byte and the type of the address are
    /// awaited.
    Request,
    /// An IPv4 address is awaited.
    Address,
    /// The length of a host name is awaited.
    NameLength,
    /// A host name is awaited.
    Name { length: u8 },
    /// The port is awaited.
    Port { target: Target },
    /// The address of a host name is awaited.
    Resolving { port: u16 },
    /// The connection to the target is awaited.
    Connecting,
    /// The connection stands; bytes are passed on in both directions.
    Relaying,
    Closed,
}

/// What happens to a session.
pub enum Event {
    /// As many bytes as were awaited came from the client.
    Bytes(Vec<u8>),
    /// The client went away.
    Ended,
    /// The lookup of the host name ended.
    Resolved(Option<Ipv4Addr>),
    /// The target accepted the connection.
    Connected,
    /// The target refused the connection.
    Refused,
    /// The network or the host cannot be reached.
    Unreachable,
    /// The connection failed otherwise.
    Failed,
}

/// What is to be done next.
#[derive(Debug)]
pub enum Action {
    /// Read this many bytes from the client.
    Read(usize),
    /// Look up the host name.
    Resolve(String),
    /// Connect to the target.
    Connect(Ipv4Addr, u16),
    /// Pass bytes on in both directions.
    Relay,
    /// Close the connection to the client.
    Close,
}

/// What an action amounts to.
pub enum ActionModel {
    Read(nat),
    Resolve(Seq<char>),
    Connect(Ipv4Addr, u16),
    Relay,
    Close,
}

impl View for Action {
    type V = ActionModel;

    open spec fn view(&self) -> ActionModel {
        match self {
            Action::Read(n) => ActionModel::Read(*n as nat),
            Action::Resolve(name) => ActionModel::Resolve(name@),
            Action::Connect(ip, port) => ActionModel::Connect(*ip, *port),
            Action::Relay => ActionModel::Relay,
            Action::Close => ActionModel::Close,
        }
    }
}

/// The reply to a request: the code, and no address.
pub open spec fn reply_bytes(code: u8) -> Seq<u8> {
    seq![5u8, code, 0, 1, 0, 0, 0, 0, 0, 0]
}

/// The reply to a request: the code, and no address.
pub fn reply(code: u8) -> (r: Vec<u8>)
    ensures
        r@ == reply_bytes(code),
{
    let r: Vec<u8> = vec![5, code, 0, 1, 0, 0, 0, 0, 0, 0];
    proof {
        assert(r@ =~= reply_bytes(code));
    }
    r
}

/// One step of a session: the state behind it, the bytes to send to the client
/// first, and what to do then.
pub struct Step {
    pub next: Socks,
    pub write: Seq<u8>,
    pub action: ActionModel,
}

/// A step that waits for bytes.
pub open spec fn wait(next: Socks) -> Step {
    Step { next, write: seq![], action: ActionModel::Read(next.wanted()) }
}

/// A step that ends the session with these bytes.
pub open spec fn close(write: Seq<u8>) -> Step {
    Step { next: Socks::Closed, write, action: ActionModel::Close }
}

impl Socks {
    /// Whether bytes from the client are awaited.
    pub open spec fn reading(self) -> bool {
        !(self is Resolving || self is Connecting || self is Relaying || self is Closed)
    }

    /// How many bytes are awaited.
    pub open spec fn wanted(self) -> nat {
        match self {
            Socks::Greeting => 2,
            Socks::Methods { count } => count as nat,
            Socks::Request => 4,
            Socks::Address => 4,
            Socks::NameLength => 1,
            Socks::Name { length } => length as nat,
            Socks::Port { target: _ } => 2,
            _ => 0,
        }
    }

    /// The step when the awaited bytes came.
    pub open spec fn on_bytes(self, bytes: Vec<u8>) -> Step {
        let b = bytes@;
        match self {
            Socks::Greeting => if b[0] == 5 {
                wait(Socks::Methods { count: b[1] })
            } else {
                close(seq![])
            },
            Socks::Methods { count: _ } => if b.contains(0) {
                Step { write: seq![5u8, 0], ..wait(Socks::Request) }
            } else {
                close(seq![5u8, 0xFF])
            },
            Socks::Request => if b[0] != 5 {
                close(seq![])
            } else if b[1] != 1 {
                close(reply_bytes(7))
            } else if b[3] == 1 {
                wait(Socks::Address)
            } else if b[3] == 3 {
                wait(Socks::NameLength)
            } else {
                close(reply_bytes(8))
            },
            Socks::Address => wait(
                Socks::Port {
                    target: Target::Address(Ipv4Addr { a: b[0], b: b[1], c: b[2], d: b[3] }),
                },
            ),
            Socks::NameLength => wait(Socks::Name { length: b[0] }),
            Socks::Name { length: _ } => wait(Socks::Port { target: Target::Name(bytes) }),
            Socks::Port { target } => {
                let port = (b[0] * 256 + b[1]) as u16;
                match target {
                    Target::Address(ip) => Step {
                        next: Socks::Connecting,
                        write: seq![],
                        action: ActionModel::Connect(ip, port),
                    },
                    Target::Name(name) => Step {
                        next: Socks::Resolving { port },
                        write: seq![],
                        action: ActionModel::Resolve(text::lossy_text(name@)),
                    },
                }
            },
            _ => close(seq![]),
        }
    }

    /// The step that an event causes. An event that does not belong to the
    /// state ends the session.
    pub open spec fn on(self, event: Event) -> Step {
        match event {
            Event::Bytes(bytes) => if self.reading() && bytes@.len() == self.wanted() {
                self.on_bytes(bytes)
            } else {
                close(seq![])
            },
            Event::Ended => close(seq![]),
            Event::Resolved(found) => match self {
                Socks::Resolving { port } => match found {
                    Some(ip) => Step {
                        next: Socks::Connecting,
                        write: seq![],
                        action: ActionModel::Connect(ip, port),
                    },
                    None => close(reply_bytes(4)),
                },
                _ => close(seq![]),
            },
            Event::Connected => if self is Connecting {
                Step { next: Socks::Relaying, write: reply_bytes(0), action: ActionModel::Relay }
            } else {
                close(seq![])
            },
            Event::Refused => if self is Connecting {
                close(reply_bytes(5))
            } else {
                close(seq![])
            },
            Event::Unreachable => if self is Connecting {
                close(reply_bytes(3))
            } else {
                close(seq![])
            },
            Event::Failed => if self is Connecting {
                close(reply_bytes(1))
            } else {
                close(seq![])
            },
        }
    }
}

fn holds_zero(bytes: &Vec<u8>) -> (r: bool)
    ensures
        r == bytes@.contains(0),
{
    let mut i: usize = 0;
    while i < bytes.len()
        invariant
            i <= bytes@.len(),
            forall|j: int| 0 <= j < i ==> bytes@[j] != 0,
        decreases bytes@.len() - i,
    {
        if bytes[i] == 0 {
            return true;
        }
        i += 1;
    }
    false
}

/// A session with one client.
pub struct Session {
    state: Socks,
}

impl View for Session {
    type V = Socks;

    closed spec fn view(&self) -> Socks {
        self.state
    }
}

impl Session {
    /// A session with a client that has just connected. Two bytes are awaited.
    pub fn new() -> (r: Session)
        ensures
            r@ == Socks::Greeting,
    {
        Session { state: Socks::Greeting }
    }

    /// How many bytes are awaited from the client.
    pub fn wanted(&self) -> (r: usize)
        ensures
            r == self@.wanted(),
    {
        match &self.state {
            Socks::Greeting => 2,
            Socks::Methods { count } => *count as usize,
            Socks::Request => 4,
            Socks::Address => 4,
            Socks::NameLength => 1,
            Socks::Name { length } => *length as usize,
            Socks::Port { target: _ } => 2,
            _ => 0,
        }
    }

    fn reading(&self) -> (r: bool)
        ensures
            r == self@.reading(),
    {
        match &self.state {
            Socks::Resolving { port: _ } => false,
            Socks::Connecting => false,
            Socks::Relaying => false,
            Socks::Closed => false,
            _ => true,
        }
    }

    fn wait(&mut self, next: Socks) -> (r: (Vec<u8>, Action))
        ensures
            final(self)@ == next,
            r.0@ == Seq::<u8>::empty(),
            r.1@ == ActionModel::Read(next.wanted()),
    {
        self.state = next;
        (Vec::new(), Action::Read(self.wanted()))
    }

    fn close(&mut self, write: Vec<u8>) -> (r: (Vec<u8>, Action))
        ensures
            final(self)@ == Socks::Closed,
            r.0@ == write@,
            r.1@ == ActionModel::Close,
    {
        self.state = Socks::Closed;
        (write, Action::Close)
    }

    fn on_bytes(&mut self, bytes: Vec<u8>) -> (r: (Vec<u8>, Action))
        requires
            old(self)@.reading(),
            bytes@.len() == old(self)@.wanted(),
        ensures
            final(self)@ == old(self)@.on_bytes(bytes).next,
            r.0@ == old(self)@.on_bytes(bytes).write,
            r.1@ == old(self)@.on_bytes(bytes).action,
    {
        let mut state = Socks::Closed;
        std::mem::swap(&mut state, &mut self.state);
        match state {
            Socks::Greeting => if bytes[0] == 5 {
                self.wait(Socks::Methods { count: bytes[1] })
            } else {
                self.close(Vec::new())
            },
            Socks::Methods { count: _ } => if holds_zero(&bytes) {
                let (_, action) = self.wait(Socks::Request);
                let write: Vec<u8> = vec![5, 0];
                proof {
                    assert(write@ =~= seq![5u8, 0]);
                }
                (write, action)
            } else {
                let write: Vec<u8> = vec![5, 0xFF];
                proof {
                    assert(write@ =~= seq![5u8, 0xFF]);
                }
                self.close(write)
            },
            Socks::Request => if bytes[0] != 5 {
                self.close(Vec::new())
            } else if bytes[1] != 1 {
                self.close(reply(7))
            } else if bytes[3] == 1 {
                self.wait(Socks::Address)
            } else if bytes[3] == 3 {
                self.wait(Socks::NameLength)
            } else {
                self.close(reply(8))
            },
            Socks::Address => self.wait(
                Socks::Port {
                    target: Target::Address(
                        Ipv4Addr::new(bytes[0], bytes[1], bytes[2], bytes[3]),
                    ),
                },
            ),
            Socks::NameLength => self.wait(Socks::Name { length: bytes[0] }),
            Socks::Name { length: _ } => self.wait(
                Socks::Port { target: Target::Name(bytes) },
            ),
            Socks::Port { target } => {
                let port: u16 = bytes[0] as u16 * 256 + bytes[1] as u16;
                match target {
                    Target::Address(ip) => {
                        self.state = Socks::Connecting;
                        (Vec::new(), Action::Connect(ip, port))
                    },
                    Target::Name(name) => {
                        self.state = Socks::Resolving { port };
                        (Vec::new(), Action::Resolve(text::from_utf8_lossy(name.as_slice())))
                    },
                }
            },
            _ => self.close(Vec::new()),
        }
    }

    /// Takes an event. Gives the bytes to send to the client, and what to do
    /// then.
    pub fn handle(&mut self, event: Event) -> (r: (Vec<u8>, Action))
        ensures
            final(self)@ == old(self)@.on(event).next,
            r.0@ == old(self)@.on(event).write,
            r.1@ == old(self)@.on(event).action,
            old(self)@ is Methods && event is Bytes && event->Bytes_0@.len() == old(self)@->count
                && event->Bytes_0@.contains(0) ==> r.0@ == seq![5u8, 0u8],
    {
        match event {
            Event::Bytes(bytes) => if self.reading() && bytes.len() == self.wanted() {
                self.on_bytes(bytes)
            } else {
                self.close(Vec::new())
            },
            Event::Ended => self.close(Vec::new()),
            Event::Resolved(found) => match self.state {
                Socks::Resolving { port } => match found {
                    Some(ip) => {
                        self.state = Socks::Connecting;
                        (Vec::new(), Action::Connect(ip, port))
                    },
                    None => self.close(reply(4)),
                },
                _ => self.close(Vec::new()),
            },
            Event::Connected => match self.state {
                Socks::Connecting => {
                    self.state = Socks::Relaying;
                    (reply(0), Action::Relay)
                },
                _ => self.close(Vec::new()),
            },
            Event::Refused => match self.state {
                Socks::Connecting => self.close(reply(5)),
                _ => self.close(Vec::new()),
            },
            Event::Unreachable => match self.state {
                Socks::Connecting => self.close(reply(3)),
                _ => self.close(Vec::new()),
            },
            Event::Failed => match self.state {
                Socks::Connecting => self.close(reply(1)),
                _ => self.close(Vec::new()),
            },
        }
    }
}

// ---- what holds of every session ----

/// The state after some events.
pub open spec fn run(state: Socks, events: Seq<Event>) -> Socks
    decreases events.len(),
{
    if events.len() == 0 {
        state
    } else {
        run(state.on(events[0]).next, events.drop_first())
    }
}

/// Success is reported to the client in no other case than that the target
/// accepted the connection; and bytes are passed on in no other case.
pub proof fn law_success_means_connected(state: Socks, event: Event)
    requires
        state.on(event).write == reply_bytes(0) || state.on(event).action is Relay,
    ensures
        state is Connecting,
        event is Connected,
{
    let write = state.on(event).write;
    if write == reply_bytes(0) {
        assert(write.len() == 10);
        assert(write[1] == 0);
        if !(state is Connecting && event is Connected) {
            let s0: Seq<u8> = seq![];
            assert(s0.len() == 0);
            assert(seq![5u8, 0].len() == 2);
            assert(seq![5u8, 0xFF].len() == 2);
            assert(reply_bytes(7)[1] == 7 && reply_bytes(8)[1] == 8 && reply_bytes(4)[1] == 4);
            assert(reply_bytes(5)[1] == 5 && reply_bytes(3)[1] == 3 && reply_bytes(1)[1] == 1);
        }
    }
}

/// A connection goes to the address that the client asked for, or to the one
/// that the lookup of the name gave, and nowhere else.
pub proof fn law_connects_only_to_the_target(state: Socks, event: Event)
    requires
        state.on(event).action is Connect,
    ensures
        ({
            let ip = state.on(event).action->Connect_0;
            let port = state.on(event).action->Connect_1;
            ||| state == (Socks::Port { target: Target::Address(ip) }) && event is Bytes && port == (
            event->Bytes_0@[0] * 256 + event->Bytes_0@[1]) as u16
            ||| state == (Socks::Resolving { port }) && event == Event::Resolved(Some(ip))
        }),
{
}

/// Nothing is left to do for a session that is closed: every event leaves it
/// closed, and nothing is sent.
pub proof fn law_closed_stays_closed(event: Event)
    ensures
        Socks::Closed.on(event) == close(seq![]),
{
}

/// How each request that is not served is answered, before the connection is
/// closed: no method that needs no authentication, a command other than
/// CONNECT, an address that is neither IPv4 nor a name, a name that has no
/// address, and the three ways in which a connection fails.
pub proof fn law_refusals(methods: Vec<u8>, request: Vec<u8>, port: u16)
    requires
        methods@.len() <= 255,
        !methods@.contains(0),
        request@.len() == 4,
        request@[0] == 5,
    ensures
        (Socks::Methods { count: methods@.len() as u8 }).on(Event::Bytes(methods)) == close(
            seq![5u8, 0xFF],
        ),
        request@[1] != 1 ==> Socks::Request.on(Event::Bytes(request)) == close(reply_bytes(7)),
        request@[1] == 1 && request@[3] != 1 && request@[3] != 3 ==> Socks::Request.on(
            Event::Bytes(request),
        ) == close(reply_bytes(8)),
        (Socks::Resolving { port }).on(Event::Resolved(None)) == close(reply_bytes(4)),
        Socks::Connecting.on(Event::Refused) == close(reply_bytes(5)),
        Socks::Connecting.on(Event::Unreachable) == close(reply_bytes(3)),
        Socks::Connecting.on(Event::Failed) == close(reply_bytes(1)),
{
}

/// The talk of a client that asks for the IPv4 address `ip` leads to a
/// connection to that address and port.
pub proof fn law_address_request_connects(
    greeting: Vec<u8>,
    methods: Vec<u8>,
    request: Vec<u8>,
    address: Vec<u8>,
    port: Vec<u8>,
)
    requires
        greeting@ == seq![5u8, methods@.len() as u8],
        methods@.len() <= 255,
        methods@.contains(0),
        request@.len() == 4,
        request@[0] == 5 && request@[1] == 1 && request@[3] == 1,
        address@.len() == 4,
        port@.len() == 2,
    ensures
        ({
            let asked = run(
                Socks::Greeting,
                seq![
                    Event::Bytes(greeting),
                    Event::Bytes(methods),
                    Event::Bytes(request),
                    Event::Bytes(address),
                ],
            );
            asked.on(Event::Bytes(port)).action == ActionModel::Connect(
                Ipv4Addr { a: address@[0], b: address@[1], c: address@[2], d: address@[3] },
                (port@[0] * 256 + port@[1]) as u16,
            )
        }),
{
    reveal_with_fuel(run, 6);
    let events = seq![
        Event::Bytes(greeting),
        Event::Bytes(methods),
        Event::Bytes(request),
        Event::Bytes(address),
    ];
    let e1 = events.drop_first();
    let e2 = e1.drop_first();
    let e3 = e2.drop_first();
    assert(e1[0] == events[1] && e2[0] == events[2] && e3[0] == events[3]);
    assert(e3.drop_first().len() == 0);
}

/// The talk of a client that asks for a host name leads to a lookup of that
/// name, and then to a connection to the address that the lookup gives.
pub proof fn law_name_request_resolves(
    greeting: Vec<u8>,
    methods: Vec<u8>,
    request: Vec<u8>,
    length: Vec<u8>,
    name: Vec<u8>,
    port: Vec<u8>,
    ip: Ipv4Addr,
)
    requires
        greeting@ == seq![5u8, methods@.len() as u8],
        methods@.len() <= 255,
        methods@.contains(0),
        request@.len() == 4,
        request@[0] == 5 && request@[1] == 1 && request@[3] == 3,
        length@ == seq![name@.len() as u8],
        name@.len() <= 255,
        port@.len() == 2,
    ensures
        ({
            let asked = run(
                Socks::Greeting,
                seq![
                    Event::Bytes(greeting),
                    Event::Bytes(methods),
                    Event::Bytes(request),
                    Event::Bytes(length),
                    Event::Bytes(name),
                ],
            );
            let step = asked.on(Event::Bytes(port));
            &&& step.action == ActionModel::Resolve(text::lossy_text(name@))
            &&& step.next.on(Event::Resolved(Some(ip))).action == ActionModel::Connect(
                ip,
                (port@[0] * 256 + port@[1]) as u16,
            )
        }),
{
    reveal_with_fuel(run, 7);
    let events = seq![
        Event::Bytes(greeting),
        Event::Bytes(methods),
        Event::Bytes(request),
        Event::Bytes(length),
        Event::Bytes(name),
    ];
    let e1 = events.drop_first();
    let e2 = e1.drop_first();
    let e3 = e2.drop_first();
    let e4 = e3.drop_first();
    assert(e1[0] == events[1] && e2[0] == events[2] && e3[0] == events[3] && e4[0] == events[4]);
    assert(e4.drop_first().len() == 0);
}

} // verus!
