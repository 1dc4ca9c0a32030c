//! A captured Ethernet frame: its bytes and the EtherType read from them.
//!
//! The header is read with pnet. What this file takes on trust of pnet stands
//! in the contracts of the five functions marked `external_body`; everything
//! else is proved from them.

use pnet::packet::ethernet::{EtherType, EtherTypes, EthernetPacket};
use vstd::prelude::*;
use vstd::slice::slice_subrange;

verus! {

/// Length of the Ethernet header: two addresses of six bytes and the EtherType.
pub const HEADER_LEN: usize = 14;

/// The EtherType of a frame: bytes 12 and 13, the most significant first.
pub open spec fn ethertype_of(bytes: Seq<u8>) -> u16
    recommends
        bytes.len() >= HEADER_LEN,
{
    (bytes[12] as int * 256 + bytes[13] as int) as u16
}

/// What reading the EtherType of `bytes` gives: nothing where the bytes are
/// too few to hold a header.
pub open spec fn read_ethertype_spec(bytes: Seq<u8>) -> Option<u16> {
    if bytes.len() >= HEADER_LEN {
        Some(ethertype_of(bytes))
    } else {
        None
    }
}

/// Reads the EtherType with pnet: `EthernetPacket::new` on `bytes`, then
/// `get_ethertype` on the packet. The contract claims that `new` gives a
/// packet exactly when there are at least 14 bytes, and that `get_ethertype`
/// reads bytes 12 and 13 as a big-endian number.
#[verifier::external_body]
fn read_ethertype(bytes: &[u8]) -> (tag: Option<u16>)
    ensures
        tag == read_ethertype_spec(bytes@),
{
    match EthernetPacket::new(bytes) {
        Some(packet) => Some(packet.get_ethertype().0),
        None => None,
    }
}

/// The number of pnet's constant `EtherTypes::Ipv4`, which the contract
/// claims to be 0x0800.
#[verifier::external_body]
pub(crate) fn ipv4_ethertype() -> (tag: u16)
    ensures
        tag == 0x0800,
{
    EtherTypes::Ipv4.0
}

/// The number of pnet's constant `EtherTypes::Ipv6`, which the contract
/// claims to be 0x86DD.
#[verifier::external_body]
pub(crate) fn ipv6_ethertype() -> (tag: u16)
    ensures
        tag == 0x86DD,
{
    EtherTypes::Ipv6.0
}

/// The number of pnet's constant `EtherTypes::Arp`, which the contract
/// claims to be 0x0806.
#[verifier::external_body]
pub(crate) fn arp_ethertype() -> (tag: u16)
    ensures
        tag == 0x0806,
{
    EtherTypes::Arp.0
}

/// The text that `{:?}` gives for pnet's `EtherType` of the number `tag`.
pub uninterp spec fn ethertype_debug_text(tag: u16) -> Seq<char>;

/// Formats pnet's `EtherType` of the number `tag` with `{:?}`. The contract
/// claims that the text depends on the number alone: it gives the text a name
/// and says no more of it.
#[verifier::external_body]
pub(crate) fn ethertype_debug(tag: u16) -> (text: String)
    ensures
        text@ == ethertype_debug_text(tag),
{
    format!("{:?}", EtherType(tag))
}

/// A captured frame that is long enough to hold an Ethernet header.
///
/// Its view is the sequence of its bytes, header included.
pub struct Frame {
    ethertype: u16,
    bytes: Vec<u8>,
}

impl View for Frame {
    type V = Seq<u8>;

    /// The bytes of the frame, header included.
    closed spec fn view(&self) -> Seq<u8> {
        self.bytes@
    }
}

impl Frame {
    /// The bytes hold a whole header, and the EtherType kept beside them is
    /// the one that the header holds.
    #[verifier::type_invariant]
    spec fn well_formed(self) -> bool {
        &&& self.bytes@.len() >= HEADER_LEN
        &&& self.ethertype == ethertype_of(self.bytes@)
    }

    /// The frame made of `bytes`, or nothing where they are too few to hold
    /// an Ethernet header.
    pub fn new(bytes: Vec<u8>) -> (frame: Option<Frame>)
        ensures
            frame is Some <==> bytes@.len() >= HEADER_LEN,
            frame matches Some(f) ==> f@ == bytes@,
    {
        match read_ethertype(bytes.as_slice()) {
            Some(ethertype) => Some(Frame { ethertype, bytes }),
            None => None,
        }
    }

    /// The EtherType of the frame.
    pub fn ethertype(&self) -> (tag: u16)
        ensures
            self@.len() >= HEADER_LEN,
            tag == ethertype_of(self@),
    {
        proof {
            use_type_invariant(self);
        }
        self.ethertype
    }

    /// The address that the frame was sent to: its first six bytes.
    pub fn destination(&self) -> (address: [u8; 6])
        ensures
            self@.len() >= HEADER_LEN,
            address@ == self@.subrange(0, 6),
    {
        proof {
            use_type_invariant(self);
        }
        let bytes = self.bytes.as_slice();
        let address = [bytes[0], bytes[1], bytes[2], bytes[3], bytes[4], bytes[5]];
        assert(address@ =~= self@.subrange(0, 6));
        address
    }

    /// The address that the frame was sent from: its bytes 6 to 11.
    pub fn source(&self) -> (address: [u8; 6])
        ensures
            self@.len() >= HEADER_LEN,
            address@ == self@.subrange(6, 12),
    {
        proof {
            use_type_invariant(self);
        }
        let bytes = self.bytes.as_slice();
        let address = [bytes[6], bytes[7], bytes[8], bytes[9], bytes[10], bytes[11]];
        assert(address@ =~= self@.subrange(6, 12));
        address
    }

    /// All bytes of the frame, header included.
    pub fn bytes(&self) -> (bytes: &[u8])
        ensures
            bytes@ == self@,
            bytes@.len() >= HEADER_LEN,
    {
        proof {
            use_type_invariant(self);
        }
        self.bytes.as_slice()
    }

    /// The bytes that follow the header.
    pub fn payload(&self) -> (payload: &[u8])
        ensures
            self@.len() >= HEADER_LEN,
            payload@ == self@.skip(HEADER_LEN as int),
    {
        proof {
            use_type_invariant(self);
        }
        let bytes = self.bytes.as_slice();
        slice_subrange(bytes, HEADER_LEN, bytes.len())
    }
}

} // verus!
