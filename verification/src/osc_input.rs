//! Incoming OSC datagrams: what a decoded packet holds, and the messages,
//! with their numeric argument, that the control surface acts on.
use vstd::prelude::*;
use rosc::decoder::decode_udp;
use rosc::{OscMessage, OscPacket, OscType};

verus! {

/// An argument of an incoming OSC message, as far as the surface reads it.
#[derive(Debug, Clone, Copy, PartialEq, Eq)]
pub enum OscArgIn {
    /// A 32-bit float, by its bit pattern.
    FloatBits(u32),
    /// A 32-bit integer.
    Int(i32),
    /// Any other argument type.
    Other,
}

/// The numeric argument a command is given.
#[derive(Debug, Clone, Copy, PartialEq, Eq)]
pub enum OscNumber {
    /// A 32-bit float, by its bit pattern.
    FloatBits(u32),
    /// A 32-bit integer.
    Int(i32),
}

/// An incoming OSC message: its address and its arguments.
#[derive(Debug, Clone)]
pub struct OscMessageIn {
    pub addr: String,
    pub args: Vec<OscArgIn>,
}

/// A packet inside a bundle: a message, or a nested bundle (whose content
/// the surface does not read).
#[derive(Debug, Clone)]
pub enum OscItemIn {
    Message(OscMessageIn),
    Bundle,
}

/// A decoded OSC datagram: one message, or a bundle of packets.
#[derive(Debug, Clone)]
pub enum OscPacketIn {
    Message(OscMessageIn),
    Bundle(Vec<OscItemIn>),
}

/// The packet that `rosc::decoder::decode_udp` decodes from `bytes`, None
/// when it reports an error.
pub uninterp spec fn decoded_datagram(bytes: Seq<u8>) -> Option<OscPacketIn>;

/// Calls `rosc::decoder::decode_udp` on a datagram and converts the packet
/// one for one: a float argument becomes its bit pattern, an integer stays,
/// other arguments become `Other`, and a bundle nested in a bundle is kept
/// without its content. The result is the named decoding of the bytes.
#[verifier::external_body]
pub(crate) fn decode_datagram(bytes: &[u8]) -> (r: Option<OscPacketIn>)
    ensures
        r == decoded_datagram(bytes@),
{
    let arg = |a: OscType| match a {
        OscType::Float(f) => OscArgIn::FloatBits(f.to_bits()),
        OscType::Int(i) => OscArgIn::Int(i),
        _ => OscArgIn::Other,
    };
    let msg = |m: OscMessage| OscMessageIn { addr: m.addr, args: m.args.into_iter().map(arg).collect() };
    let (_, packet) = decode_udp(bytes).ok()?;
    Some(match packet {
        OscPacket::Message(m) => OscPacketIn::Message(msg(m)),
        OscPacket::Bundle(b) => OscPacketIn::Bundle(b.content.into_iter().map(|p| match p {
            OscPacket::Message(m) => OscItemIn::Message(msg(m)),
            OscPacket::Bundle(_) => OscItemIn::Bundle,
        }).collect()),
    })
}

/// The numeric first argument of a message, if it has one.
pub open spec fn first_number(args: Seq<OscArgIn>) -> Option<OscNumber> {
    if args.len() == 0 {
        None
    } else {
        match args[0] {
            OscArgIn::FloatBits(b) => Some(OscNumber::FloatBits(b)),
            OscArgIn::Int(i) => Some(OscNumber::Int(i)),
            OscArgIn::Other => None,
        }
    }
}

/// What a message gives the surface: its address with its numeric first
/// argument; nothing when the first argument is missing or not a number.
pub open spec fn command_of(m: OscMessageIn) -> Seq<(Seq<char>, OscNumber)> {
    match first_number(m.args@) {
        Some(n) => seq![(m.addr@, n)],
        None => Seq::empty(),
    }
}

/// The commands of the packets of a bundle, in order; nested bundles give none.
pub open spec fn bundle_commands(items: Seq<OscItemIn>) -> Seq<(Seq<char>, OscNumber)>
    decreases items.len(),
{
    if items.len() == 0 {
        Seq::empty()
    } else {
        bundle_commands(items.drop_last()) + match items.last() {
            OscItemIn::Message(m) => command_of(m),
            OscItemIn::Bundle => Seq::empty(),
        }
    }
}

/// The commands of a packet: those of the message, or of the messages
/// directly inside the bundle, in order.
pub open spec fn packet_commands(p: OscPacketIn) -> Seq<(Seq<char>, OscNumber)> {
    match p {
        OscPacketIn::Message(m) => command_of(m),
        OscPacketIn::Bundle(items) => bundle_commands(items@),
    }
}

/// `v` lists the commands `s`, addresses by their text.
pub open spec fn lists_commands(v: Seq<(String, OscNumber)>, s: Seq<(Seq<char>, OscNumber)>) -> bool {
    &&& v.len() == s.len()
    &&& forall|i: int| 0 <= i < v.len() ==> (#[trigger] v[i]).0@ == s[i].0 && v[i].1 == s[i].1
}

fn push_command(v: &mut Vec<(String, OscNumber)>, m: &OscMessageIn, Ghost(s): Ghost<Seq<(Seq<char>, OscNumber)>>)
    requires
        lists_commands(old(v)@, s),
    ensures
        lists_commands(final(v)@, s + command_of(*m)),
{
    proof {
        assert(s + Seq::<(Seq<char>, OscNumber)>::empty() =~= s);
    }
    if m.args.len() > 0 {
        let n = match m.args[0] {
            OscArgIn::FloatBits(b) => OscNumber::FloatBits(b),
            OscArgIn::Int(i) => OscNumber::Int(i),
            OscArgIn::Other => {
                return;
            },
        };
        let addr = m.addr.clone();
        v.push((addr, n));
        proof {
            assert(command_of(*m) =~= seq![(m.addr@, n)]);
            let t = s + command_of(*m);
            assert forall|i: int| 0 <= i < v@.len() implies (#[trigger] v@[i]).0@ == t[i].0 && v@[i].1 == t[i].1 by {
                if i < s.len() {
                    assert(v@[i] == old(v)@[i]);
                }
            }
        }
    }
}

/// The commands of a decoded packet: a message gives itself, a bundle the
/// messages directly inside it, in order (nested bundles are skipped); each
/// message counts only with a numeric first argument.
pub fn messages_of(p: &OscPacketIn) -> (v: Vec<(String, OscNumber)>)
    ensures
        lists_commands(v@, packet_commands(*p)),
{
    let mut v: Vec<(String, OscNumber)> = Vec::new();
    match p {
        OscPacketIn::Message(m) => {
            push_command(&mut v, m, Ghost(Seq::empty()));
            proof {
                assert(Seq::<(Seq<char>, OscNumber)>::empty() + command_of(*m) =~= command_of(*m));
            }
        },
        OscPacketIn::Bundle(items) => {
            let mut k: usize = 0;
            while k < items.len()
                invariant
                    k <= items@.len(),
                    lists_commands(v@, bundle_commands(items@.take(k as int))),
                decreases items@.len() - k,
            {
                let ghost done = bundle_commands(items@.take(k as int));
                proof {
                    assert(items@.take(k + 1).drop_last() =~= items@.take(k as int));
                    assert(items@.take(k + 1).last() == items@[k as int]);
                }
                match &items[k] {
                    OscItemIn::Message(m) => {
                        push_command(&mut v, m, Ghost(done));
                    },
                    OscItemIn::Bundle => {
                        proof {
                            assert(done + Seq::<(Seq<char>, OscNumber)>::empty() =~= done);
                        }
                    },
                }
                k = k + 1;
            }
            proof {
                assert(items@.take(items@.len() as int) =~= items@);
            }
        },
    }
    v
}

/// The commands an OSC datagram carries, None when it does not decode.
pub fn incoming_messages(bytes: &[u8]) -> (r: Option<Vec<(String, OscNumber)>>)
    ensures
        match decoded_datagram(bytes@) {
            None => r is None,
            Some(p) => r matches Some(v) && lists_commands(v@, packet_commands(p)),
        },
{
    match decode_datagram(bytes) {
        Some(p) => Some(messages_of(&p)),
        None => None,
    }
}

} // verus!
