//! Moving the tunnel device from the host into the namespace.
use vstd::prelude::*;

use crate::command;
use crate::command::{Command, CommandModel};
use crate::config;
use crate::netns;
use crate::text;

verus! {

/// The address of a device on a line of `ip -o addr`: the local side with the
/// length of its prefix, which is 32 where none is given, and the far side of
/// a point-to-point link, without its prefix.
pub open spec fn addr_on(line: Seq<char>) -> Option<(Seq<char>, Option<Seq<char>>)> {
    let w = text::words(line);
    let n = text::before(w, "inet"@) as int;
    if n + 1 < w.len() {
        let addr = w[n + 1];
        let local = if text::contains(addr, "/"@) {
            addr
        } else {
            addr + "/32"@
        };
        let peer = if n + 3 < w.len() && w[n + 2] == "peer"@ {
            Some(text::split(w[n + 3], '/')[0])
        } else {
            None
        };
        Some((local, peer))
    } else {
        None
    }
}

/// The local address with its prefix and the peer's address, if there is one,
/// on a line such as `55: kitvpn-tun inet 10.8.0.2 peer 10.8.0.1/32 scope
/// global` (`10.8.0.2/32` and `10.8.0.1`) or `55: kitvpn-tun inet 10.8.0.2/24
/// brd 10.8.0.255` (`10.8.0.2/24` alone).
pub fn parse_addr_line(line: &str) -> (r: Option<(String, Option<String>)>)
    ensures
        r.deep_view() == addr_on(line@),
        r matches Some((local, _)) ==> text::contains(local@, "/"@),
{
    let w = text::split_words(line);
    let ghost model = text::words(line@);
    proof {
        assert(model.len() == w@.len());
        assert forall|i: int| 0 <= i < w@.len() implies (#[trigger] w@[i])@ == model[i] by {
            assert(w.deep_view()[i] == w@[i]@);
        }
    }
    let mut n: usize = 0;
    while n < w.len() && !text::same(w[n].as_str(), "inet")
        invariant
            n <= w@.len(),
            model.len() == w@.len(),
            forall|i: int| 0 <= i < w@.len() ==> (#[trigger] w@[i])@ == model[i],
            forall|j: int| 0 <= j < n ==> model[j] != "inet"@,
        decreases w@.len() - n,
    {
        proof {
            assert(w@[n as int]@ == model[n as int]);
        }
        n += 1;
    }
    proof {
        if n < w@.len() {
            assert(w@[n as int]@ == model[n as int]);
        }
        text::lemma_before_is(model, "inet"@, n as nat);
    }
    if n >= w.len() || w.len() - n < 2 {
        return None;
    }
    let local = if text::has(w[n + 1].as_str(), "/") {
        w[n + 1].clone()
    } else {
        text::cat(w[n + 1].as_str(), "/32")
    };
    proof {
        reveal_strlit("/");
        reveal_strlit("/32");
        if !text::contains(w@[n + 1]@, "/"@) {
            let at = w@[n + 1]@.len() as int;
            assert(local@.subrange(at, at + 1) =~= "/"@);
            assert(text::occurs_at(local@, "/"@, at));
        }
    }
    let peer = if w.len() - n > 3 && text::same(w[n + 2].as_str(), "peer") {
        let pieces = text::split_at(w[n + 3].as_str(), '/');
        proof {
            assert(pieces.deep_view().len() == pieces@.len());
            assert(pieces.deep_view()[0] == pieces@[0]@);
        }
        Some(pieces[0].clone())
    } else {
        None
    };
    Some((local, peer))
}

/// The parts of the move, each of which runs one command.
#[derive(Clone, Copy, Debug, PartialEq, Eq, Structural)]
pub enum MovePhase {
    /// Note the address on the host: it does not survive the move.
    ShowAddr,
    /// Drop a device of that name that an earlier run left in the namespace.
    DropOld,
    /// Move the device.
    Move,
    /// Remove what routes the host may have left through the device.
    Flush,
    /// See whether the device has an address in the namespace.
    CheckAddr,
    /// Give it the address that it had.
    AddAddr,
    /// Bring it up.
    Up,
    Done,
}

/// Moving the tunnel device.
pub struct MoveTun {
    phase: MovePhase,
    addr: Option<(String, Option<String>)>,
}

/// What a move amounts to.
pub struct MoveTunModel {
    pub phase: MovePhase,
    pub addr: Option<(Seq<char>, Option<Seq<char>>)>,
}

impl View for MoveTun {
    type V = MoveTunModel;

    closed spec fn view(&self) -> MoveTunModel {
        MoveTunModel { phase: self.phase, addr: self.addr.deep_view() }
    }
}

/// The arguments that give the device an address.
pub open spec fn add_addr_args(local: Seq<char>, peer: Option<Seq<char>>) -> Seq<Seq<char>> {
    match peer {
        Some(p) => seq!["addr"@, "add"@, local, "peer"@, p, "dev"@, config::TUN_DEV@],
        None => seq!["addr"@, "add"@, local, "dev"@, config::TUN_DEV@],
    }
}

impl MoveTunModel {
    /// An address is added only if one was noted.
    pub open spec fn wf(self) -> bool {
        self.phase is AddAddr ==> self.addr is Some
    }

    /// The command to run next.
    pub open spec fn next(self) -> Option<CommandModel> {
        match self.phase {
            MovePhase::ShowAddr => Some(
                command::ip_model(
                    seq!["-4"@, "-o"@, "addr"@, "show"@, "dev"@, config::TUN_DEV@],
                ),
            ),
            MovePhase::DropOld => Some(
                command::ns_ip_model(seq!["link"@, "del"@, config::TUN_DEV@]),
            ),
            MovePhase::Move => Some(
                command::ip_model(
                    seq!["link"@, "set"@, config::TUN_DEV@, "netns"@, config::NETNS@],
                ),
            ),
            MovePhase::Flush => Some(
                command::ip_model(seq!["route"@, "flush"@, "dev"@, config::TUN_DEV@]),
            ),
            MovePhase::CheckAddr => Some(netns::ns_tun_addr_command()),
            MovePhase::AddAddr => Some(
                command::ns_ip_model(add_addr_args((self.addr->0).0, (self.addr->0).1)),
            ),
            MovePhase::Up => Some(
                command::ns_ip_model(seq!["link"@, "set"@, config::TUN_DEV@, "up"@]),
            ),
            MovePhase::Done => None,
        }
    }

    /// The move after the next command ran. Only a failure of the move itself
    /// ends it early.
    pub open spec fn after(self, reply: Result<Seq<char>, Seq<char>>) -> MoveTunModel {
        match self.phase {
            MovePhase::ShowAddr => MoveTunModel {
                phase: MovePhase::DropOld,
                addr: match reply {
                    Ok(line) => addr_on(line),
                    Err(_) => None,
                },
            },
            MovePhase::DropOld => MoveTunModel { phase: MovePhase::Move, ..self },
            MovePhase::Move => MoveTunModel {
                phase: if reply is Ok {
                    MovePhase::Flush
                } else {
                    MovePhase::Done
                },
                ..self
            },
            MovePhase::Flush => MoveTunModel {
                phase: if self.addr is Some {
                    MovePhase::CheckAddr
                } else {
                    MovePhase::Up
                },
                ..self
            },
            MovePhase::CheckAddr => MoveTunModel {
                phase: if self.addr is Some && !command::output_has(reply, "inet "@) {
                    MovePhase::AddAddr
                } else {
                    MovePhase::Up
                },
                ..self
            },
            MovePhase::AddAddr => MoveTunModel { phase: MovePhase::Up, ..self },
            MovePhase::Up => MoveTunModel { phase: MovePhase::Done, ..self },
            MovePhase::Done => self,
        }
    }

    /// The commands that run when the replies come in this order.
    pub open spec fn trace(self, replies: Seq<Result<Seq<char>, Seq<char>>>) -> Seq<CommandModel>
        decreases replies.len(),
    {
        if self.next() is None || replies.len() == 0 {
            seq![]
        } else {
            seq![self.next()->0] + self.after(replies[0]).trace(replies.drop_first())
        }
    }
}

/// Starts moving the tunnel device into the namespace.
pub fn move_tun_to_netns() -> (r: MoveTun)
    ensures
        r@ == (MoveTunModel { phase: MovePhase::ShowAddr, addr: None }),
        r@.wf(),
{
    MoveTun { phase: MovePhase::ShowAddr, addr: None }
}

impl MoveTun {
    /// Which part of the move is next.
    pub fn phase(&self) -> (r: MovePhase)
        ensures
            r == self@.phase,
    {
        self.phase
    }

    /// The command to run next; none when the move is over.
    pub fn next(&self) -> (r: Option<Command>)
        requires
            self@.wf(),
        ensures
            r.deep_view() == self@.next(),
    {
        let r = match self.phase {
            MovePhase::ShowAddr => command::ip(
                &["-4", "-o", "addr", "show", "dev", config::TUN_DEV],
            ),
            MovePhase::DropOld => command::ns_ip(&["link", "del", config::TUN_DEV]),
            MovePhase::Move => command::ip(
                &["link", "set", config::TUN_DEV, "netns", config::NETNS],
            ),
            MovePhase::Flush => command::ip(&["route", "flush", "dev", config::TUN_DEV]),
            MovePhase::CheckAddr => netns::ns_tun_addr_query(),
            MovePhase::AddAddr => match &self.addr {
                Some((local, Some(peer))) => command::ns_ip(
                    &["addr", "add", local.as_str(), "peer", peer.as_str(), "dev", config::TUN_DEV],
                ),
                Some((local, None)) => command::ns_ip(
                    &["addr", "add", local.as_str(), "dev", config::TUN_DEV],
                ),
                None => return None,
            },
            MovePhase::Up => command::ns_ip(&["link", "set", config::TUN_DEV, "up"]),
            MovePhase::Done => return None,
        };
        proof {
            assert(r@.args =~= self@.next()->0.args);
        }
        Some(r)
    }

    /// Takes the outcome of the command that `next` gave.
    pub fn ran(&mut self, reply: &Result<String, String>)
        requires
            old(self)@.wf(),
            old(self)@.next() is Some,
        ensures
            final(self)@.wf(),
            final(self)@ == old(self)@.after(command::reply_model(*reply)),
    {
        match self.phase {
            MovePhase::ShowAddr => {
                self.addr = match reply {
                    Ok(line) => parse_addr_line(line.as_str()),
                    Err(_) => None,
                };
                self.phase = MovePhase::DropOld;
            },
            MovePhase::DropOld => {
                self.phase = MovePhase::Move;
            },
            MovePhase::Move => {
                self.phase = match reply {
                    Ok(_) => MovePhase::Flush,
                    Err(_) => MovePhase::Done,
                };
            },
            MovePhase::Flush => {
                self.phase = if self.addr.is_some() {
                    MovePhase::CheckAddr
                } else {
                    MovePhase::Up
                };
            },
            MovePhase::CheckAddr => {
                self.phase = if self.addr.is_some() && !netns::ns_tun_has_addr(reply) {
                    MovePhase::AddAddr
                } else {
                    MovePhase::Up
                };
            },
            MovePhase::AddAddr => {
                self.phase = MovePhase::Up;
            },
            MovePhase::Up => {
                self.phase = MovePhase::Done;
            },
            MovePhase::Done => {},
        }
    }
}

/// The start of every move.
pub open spec fn move_start() -> MoveTunModel {
    MoveTunModel { phase: MovePhase::ShowAddr, addr: None }
}

/// When the device cannot be moved, nothing else is done to it.
pub proof fn law_failed_move_stops(replies: Seq<Result<Seq<char>, Seq<char>>>)
    requires
        replies.len() >= 3,
        replies[2] is Err,
    ensures
        move_start().after(replies[0]).after(replies[1]).after(replies[2]).next() is None,
        move_start().trace(replies).len() == 3,
{
    let s1 = move_start().after(replies[0]);
    let s2 = s1.after(replies[1]);
    let r1 = replies.drop_first();
    let r2 = r1.drop_first();
    let r3 = r2.drop_first();
    assert(r1[0] == replies[1] && r2[0] == replies[2]);
    assert(s2.after(r2[0]).trace(r3) =~= Seq::<CommandModel>::empty());
    assert(s2.trace(r2).len() == 1);
    assert(s1.trace(r1).len() == 2);
}

/// Once the device has been moved it is brought up, whatever the other
/// commands come to; and if it had an address on the host and has none in the
/// namespace, it is given that address first.
pub proof fn law_moved_device_comes_up(
    addr: Option<(Seq<char>, Option<Seq<char>>)>,
    flush: Result<Seq<char>, Seq<char>>,
    check: Result<Seq<char>, Seq<char>>,
    add: Result<Seq<char>, Seq<char>>,
)
    ensures
        ({
            let moved = MoveTunModel { phase: MovePhase::Flush, addr };
            let up = MoveTunModel { phase: MovePhase::Up, addr };
            let checked = moved.after(flush).after(check);
            &&& addr is None ==> moved.after(flush) == up
            &&& addr is Some && command::output_has(check, "inet "@) ==> checked == up
            &&& addr is Some && !command::output_has(check, "inet "@) ==> checked.next() == Some(
                command::ns_ip_model(add_addr_args((addr->0).0, (addr->0).1)),
            ) && checked.after(add) == up
        }),
{
}

} // verus!
