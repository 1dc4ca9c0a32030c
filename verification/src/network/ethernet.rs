//! Classification of a frame by its EtherType.
//!
//! [`handle_ethernet_frame`] works in two steps. [`dispatch`] runs the decoder
//! that the EtherType selects; [`conclude`] turns what the decoder reported
//! into the classification and the diagnostic. Of a decoder nothing is known
//! but that it was run, so the contract of the first step is a relation,
//! [`reported`]; the contract of the second is exact.
//!
//! Diagnostics are not printed here. They are appended to a log that the
//! caller hands in and prints, stores or drops as it sees fit.

use crate::network::frame::{
    arp_ethertype, ethertype_debug, ethertype_debug_text, ethertype_of, ipv4_ethertype,
    ipv6_ethertype, Frame,
};
use crate::network::types::{DecodeError, Payload};
use vstd::prelude::*;

verus! {

/// A protocol that has a decoder.
#[derive(Debug, Clone, Copy, PartialEq, Eq)]
pub enum Protocol {
    IPv4,
    IPv6,
    Arp,
}

impl Protocol {
    /// The protocol that an EtherType names, if it names one of the three.
    pub open spec fn selected_by(ethertype: u16) -> Option<Protocol> {
        if ethertype == 0x0800 {
            Some(Protocol::IPv4)
        } else if ethertype == 0x86DD {
            Some(Protocol::IPv6)
        } else if ethertype == 0x0806 {
            Some(Protocol::Arp)
        } else {
            None
        }
    }

    /// What a diagnostic calls a frame of this protocol that its decoder
    /// turned down.
    pub open spec fn malformed_label_text(self) -> Seq<char> {
        match self {
            Protocol::IPv4 => "Malformed IPv4 packet"@,
            Protocol::IPv6 => "Malformed IPv6 packet"@,
            Protocol::Arp => "Malformed ARP packet"@,
        }
    }

    /// The protocol that `ethertype` names, if it names one of the three.
    pub fn of_ethertype(ethertype: u16) -> (protocol: Option<Protocol>)
        ensures
            protocol == Protocol::selected_by(ethertype),
    {
        if ethertype == ipv4_ethertype() {
            Some(Protocol::IPv4)
        } else if ethertype == ipv6_ethertype() {
            Some(Protocol::IPv6)
        } else if ethertype == arp_ethertype() {
            Some(Protocol::Arp)
        } else {
            None
        }
    }

    /// What a diagnostic calls a frame of this protocol that its decoder
    /// turned down.
    pub fn malformed_label(&self) -> (label: &'static str)
        ensures
            label@ == self.malformed_label_text(),
    {
        match self {
            Protocol::IPv4 => "Malformed IPv4 packet",
            Protocol::IPv6 => "Malformed IPv6 packet",
            Protocol::Arp => "Malformed ARP packet",
        }
    }
}

/// A classified frame.
#[derive(Debug, PartialEq, Eq)]
pub enum EthernetFrame<V4, V6, A> {
    IPv4(V4),
    IPv6(V6),
    Arp(A),
    Unknown,
}

impl<V4: Payload, V6: Payload, A: Payload> EthernetFrame<V4, V6, A> {
    /// The frame as text: the text of its payload, or a fixed text where it
    /// has none.
    pub fn render(&self) -> (text: String)
        ensures
            match self {
                EthernetFrame::IPv4(payload) => call_ensures(V4::render, (payload,), text),
                EthernetFrame::IPv6(payload) => call_ensures(V6::render, (payload,), text),
                EthernetFrame::Arp(payload) => call_ensures(A::render, (payload,), text),
                EthernetFrame::Unknown => text@ == "Unknown Ethernet Frame"@,
            },
    {
        match self {
            EthernetFrame::IPv4(payload) => payload.render(),
            EthernetFrame::IPv6(payload) => payload.render(),
            EthernetFrame::Arp(payload) => payload.render(),
            EthernetFrame::Unknown => String::from_str("Unknown Ethernet Frame"),
        }
    }
}

/// What came of decoding a frame: the report of the decoder that its
/// EtherType selects, or the EtherType itself where it selects none.
#[derive(Debug, PartialEq, Eq)]
pub enum Decoded<V4, V6, A> {
    IPv4(Result<V4, DecodeError>),
    IPv6(Result<V6, DecodeError>),
    Arp(Result<A, DecodeError>),
    Unknown(u16),
}

/// The diagnostic for a frame that the decoder of `protocol` turned down.
pub open spec fn malformed_packet_text(
    interface: Seq<char>,
    protocol: Protocol,
    cause: Seq<char>,
) -> Seq<char> {
    "["@ + interface + "]: "@ + protocol.malformed_label_text() + ": "@ + cause
}

/// The diagnostic for a frame of a type that no decoder handles; `shown` is
/// the type as text.
pub open spec fn unknown_packet_text(interface: Seq<char>, shown: Seq<char>) -> Seq<char> {
    "["@ + interface + "]: Unknown packet type: "@ + shown
}

/// The classification that follows from what a decoder reported.
pub open spec fn frame_of<V4, V6, A>(decoded: Decoded<V4, V6, A>) -> Result<
    EthernetFrame<V4, V6, A>,
    DecodeError,
> {
    match decoded {
        Decoded::IPv4(Ok(payload)) => Ok(EthernetFrame::IPv4(payload)),
        Decoded::IPv6(Ok(payload)) => Ok(EthernetFrame::IPv6(payload)),
        Decoded::Arp(Ok(payload)) => Ok(EthernetFrame::Arp(payload)),
        Decoded::IPv4(Err(error)) => Err(error),
        Decoded::IPv6(Err(error)) => Err(error),
        Decoded::Arp(Err(error)) => Err(error),
        Decoded::Unknown(_) => Ok(EthernetFrame::Unknown),
    }
}

/// The diagnostic that follows from what a decoder reported: none where it
/// decoded a payload.
pub open spec fn diagnostic_of<V4, V6, A>(
    interface: Seq<char>,
    decoded: Decoded<V4, V6, A>,
) -> Option<Seq<char>> {
    match decoded {
        Decoded::IPv4(Err(error)) => Some(
            malformed_packet_text(interface, Protocol::IPv4, error.cause@),
        ),
        Decoded::IPv6(Err(error)) => Some(
            malformed_packet_text(interface, Protocol::IPv6, error.cause@),
        ),
        Decoded::Arp(Err(error)) => Some(
            malformed_packet_text(interface, Protocol::Arp, error.cause@),
        ),
        Decoded::Unknown(ethertype) => Some(
            unknown_packet_text(interface, ethertype_debug_text(ethertype)),
        ),
        _ => None,
    }
}

/// How a log changes when `entry` is emitted: it grows by that one text at
/// its end, or stays as it is where there is none.
pub open spec fn logged(before: Seq<String>, after: Seq<String>, entry: Option<Seq<char>>) -> bool {
    match entry {
        Some(text) => {
            &&& after.len() == before.len() + 1
            &&& after.take(before.len() as int) =~= before
            &&& after.last()@ == text
        },
        None => after =~= before,
    }
}

/// `decoded` is what decoding `frame` can give: the decoder that the frame's
/// EtherType selects was run on `interface_name` and `frame` and reported it,
/// or the EtherType selects none and `decoded` holds it.
pub open spec fn reported<V4: Payload, V6: Payload, A: Payload>(
    interface_name: &str,
    frame: &Frame,
    decoded: Decoded<V4, V6, A>,
) -> bool {
    let selected = Protocol::selected_by(ethertype_of(frame@));
    match decoded {
        Decoded::IPv4(report) => selected == Some(Protocol::IPv4) && call_ensures(
            V4::decode,
            (interface_name, frame),
            report,
        ),
        Decoded::IPv6(report) => selected == Some(Protocol::IPv6) && call_ensures(
            V6::decode,
            (interface_name, frame),
            report,
        ),
        Decoded::Arp(report) => selected == Some(Protocol::Arp) && call_ensures(
            A::decode,
            (interface_name, frame),
            report,
        ),
        Decoded::Unknown(ethertype) => selected is None && ethertype == ethertype_of(frame@),
    }
}

/// What classifying `frame` can give: the classification and the change of
/// the log that follow from some report of the decoder that the frame's
/// EtherType selects.
pub open spec fn handled<V4: Payload, V6: Payload, A: Payload>(
    interface_name: &str,
    frame: &Frame,
    before: Seq<String>,
    after: Seq<String>,
    result: Result<EthernetFrame<V4, V6, A>, DecodeError>,
) -> bool {
    exists|decoded: Decoded<V4, V6, A>|
        {
            &&& #[trigger] reported(interface_name, frame, decoded)
            &&& result == frame_of(decoded)
            &&& logged(before, after, diagnostic_of(interface_name@, decoded))
        }
}

/// The diagnostic for a frame that the decoder of `protocol` turned down with
/// `error`.
pub fn malformed_packet_diagnostic(
    interface_name: &str,
    protocol: Protocol,
    error: &DecodeError,
) -> (text: String)
    ensures
        text@ == malformed_packet_text(interface_name@, protocol, error.cause@),
{
    let mut text = String::from_str("[");
    text.append(interface_name);
    text.append("]: ");
    text.append(protocol.malformed_label());
    text.append(": ");
    text.append(error.cause.as_str());
    text
}

/// The diagnostic for a frame of a type that no decoder handles;
/// `shown_ethertype` is the type as text.
pub fn unknown_packet_diagnostic(interface_name: &str, shown_ethertype: &str) -> (text: String)
    ensures
        text@ == unknown_packet_text(interface_name@, shown_ethertype@),
{
    let mut text = String::from_str("[");
    text.append(interface_name);
    text.append("]: Unknown packet type: ");
    text.append(shown_ethertype);
    text
}

/// Runs the decoder that the EtherType of `frame` selects.
pub fn dispatch<V4: Payload, V6: Payload, A: Payload>(
    interface_name: &str,
    frame: &Frame,
) -> (decoded: Decoded<V4, V6, A>)
    ensures
        reported(interface_name, frame, decoded),
{
    let ethertype = frame.ethertype();
    match Protocol::of_ethertype(ethertype) {
        Some(Protocol::IPv4) => Decoded::IPv4(V4::decode(interface_name, frame)),
        Some(Protocol::IPv6) => Decoded::IPv6(V6::decode(interface_name, frame)),
        Some(Protocol::Arp) => Decoded::Arp(A::decode(interface_name, frame)),
        None => Decoded::Unknown(ethertype),
    }
}

/// Classifies a frame from what its decoder reported, and appends the
/// diagnostic, if the report calls for one, to `log`.
pub fn conclude<V4, V6, A>(
    interface_name: &str,
    decoded: Decoded<V4, V6, A>,
    log: &mut Vec<String>,
) -> (result: Result<EthernetFrame<V4, V6, A>, DecodeError>)
    ensures
        result == frame_of(decoded),
        logged(old(log)@, final(log)@, diagnostic_of(interface_name@, decoded)),
{
    match decoded {
        Decoded::IPv4(Ok(payload)) => Ok(EthernetFrame::IPv4(payload)),
        Decoded::IPv6(Ok(payload)) => Ok(EthernetFrame::IPv6(payload)),
        Decoded::Arp(Ok(payload)) => Ok(EthernetFrame::Arp(payload)),
        Decoded::IPv4(Err(error)) => {
            log.push(malformed_packet_diagnostic(interface_name, Protocol::IPv4, &error));
            Err(error)
        },
        Decoded::IPv6(Err(error)) => {
            log.push(malformed_packet_diagnostic(interface_name, Protocol::IPv6, &error));
            Err(error)
        },
        Decoded::Arp(Err(error)) => {
            log.push(malformed_packet_diagnostic(interface_name, Protocol::Arp, &error));
            Err(error)
        },
        Decoded::Unknown(ethertype) => {
            let shown = ethertype_debug(ethertype);
            log.push(unknown_packet_diagnostic(interface_name, shown.as_str()));
            Ok(EthernetFrame::Unknown)
        },
    }
}

/// Classifies `frame`, which was captured on the interface `interface_name`.
///
/// The decoder that the frame's EtherType selects is run. Its payload is
/// returned in the variant of its protocol, and nothing is logged; its error
/// is returned as it is, after a diagnostic was appended to `log`. A frame of
/// any other type is `Unknown`, which is a success, and has a diagnostic too.
/// The interface name is not looked into: it goes to the decoder and into the
/// diagnostic as it is.
pub fn handle_ethernet_frame<V4: Payload, V6: Payload, A: Payload>(
    interface_name: &str,
    frame: &Frame,
    log: &mut Vec<String>,
) -> (result: Result<EthernetFrame<V4, V6, A>, DecodeError>)
    ensures
        handled(interface_name, frame, old(log)@, final(log)@, result),
        Protocol::selected_by(ethertype_of(frame@)) is None ==> {
            &&& result == Ok::<EthernetFrame<V4, V6, A>, DecodeError>(EthernetFrame::Unknown)
            &&& logged(
                old(log)@,
                final(log)@,
                Some(
                    unknown_packet_text(
                        interface_name@,
                        ethertype_debug_text(ethertype_of(frame@)),
                    ),
                ),
            )
        },
{
    let decoded = dispatch::<V4, V6, A>(interface_name, frame);
    let ghost report = decoded;
    let result = conclude(interface_name, decoded, log);
    assert(reported(interface_name, frame, report));
    result
}

} // verus!
