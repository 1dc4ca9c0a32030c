//! What holds of every classification.
//!
//! Each law is stated of [`handled`], which is what `handle_ethernet_frame`
//! ensures of its result and of the log.

use crate::network::ethernet::{
    diagnostic_of, frame_of, handled, logged, malformed_packet_text, reported,
    unknown_packet_text, Decoded, EthernetFrame, Protocol,
};
use crate::network::frame::{ethertype_debug_text, ethertype_of, Frame};
use crate::network::types::{DecodeError, Payload};
use vstd::prelude::*;

verus! {

/// The texts of a log, in the order in which they were emitted.
pub open spec fn texts(log: Seq<String>) -> Seq<Seq<char>> {
    log.map_values(|entry: String| entry@)
}

/// The decoder that the EtherType of `frame` selects can report nothing but
/// `decoded` on `interface_name` and `frame`. Where the EtherType selects no
/// decoder this holds of every `decoded`.
pub open spec fn sole_report<V4: Payload, V6: Payload, A: Payload>(
    interface_name: &str,
    frame: &Frame,
    decoded: Decoded<V4, V6, A>,
) -> bool {
    match decoded {
        Decoded::IPv4(report) => forall|other: Result<V4, DecodeError>| #[trigger]
            call_ensures(V4::decode, (interface_name, frame), other) ==> other == report,
        Decoded::IPv6(report) => forall|other: Result<V6, DecodeError>| #[trigger]
            call_ensures(V6::decode, (interface_name, frame), other) ==> other == report,
        Decoded::Arp(report) => forall|other: Result<A, DecodeError>| #[trigger]
            call_ensures(A::decode, (interface_name, frame), other) ==> other == report,
        Decoded::Unknown(_) => true,
    }
}

/// Every EtherType is handled. Whatever the tag and whatever the decoder
/// reported, the result is one of three: the payload that the selected
/// decoder gave, in the variant of its protocol, with nothing logged;
/// `Unknown`, for a tag that selects no decoder, with its diagnostic; or the
/// error that the selected decoder gave, with its diagnostic.
pub proof fn lemma_every_ethertype_is_handled<V4: Payload, V6: Payload, A: Payload>(
    interface_name: &str,
    frame: &Frame,
    before: Seq<String>,
    after: Seq<String>,
    result: Result<EthernetFrame<V4, V6, A>, DecodeError>,
)
    requires
        handled(interface_name, frame, before, after, result),
    ensures
        match result {
            Ok(EthernetFrame::IPv4(payload)) => {
                &&& reported(interface_name, frame, Decoded::<V4, V6, A>::IPv4(Ok(payload)))
                &&& after =~= before
            },
            Ok(EthernetFrame::IPv6(payload)) => {
                &&& reported(interface_name, frame, Decoded::<V4, V6, A>::IPv6(Ok(payload)))
                &&& after =~= before
            },
            Ok(EthernetFrame::Arp(payload)) => {
                &&& reported(interface_name, frame, Decoded::<V4, V6, A>::Arp(Ok(payload)))
                &&& after =~= before
            },
            Ok(EthernetFrame::Unknown) => {
                &&& Protocol::selected_by(ethertype_of(frame@)) is None
                &&& logged(
                    before,
                    after,
                    Some(
                        unknown_packet_text(
                            interface_name@,
                            ethertype_debug_text(ethertype_of(frame@)),
                        ),
                    ),
                )
            },
            Err(error) => {
                &&& Protocol::selected_by(ethertype_of(frame@)) matches Some(protocol)
                &&& match protocol {
                    Protocol::IPv4 => reported(
                        interface_name,
                        frame,
                        Decoded::<V4, V6, A>::IPv4(Err(error)),
                    ),
                    Protocol::IPv6 => reported(
                        interface_name,
                        frame,
                        Decoded::<V4, V6, A>::IPv6(Err(error)),
                    ),
                    Protocol::Arp => reported(
                        interface_name,
                        frame,
                        Decoded::<V4, V6, A>::Arp(Err(error)),
                    ),
                }
                &&& logged(
                    before,
                    after,
                    Some(malformed_packet_text(interface_name@, protocol, error.cause@)),
                )
            },
        },
{
    let decoded = choose|decoded: Decoded<V4, V6, A>|
        {
            &&& #[trigger] reported(interface_name, frame, decoded)
            &&& result == frame_of(decoded)
            &&& logged(before, after, diagnostic_of(interface_name@, decoded))
        };
    assert(reported(interface_name, frame, decoded));
}

/// Where the selected decoder can report only one thing, the classification
/// is the one that follows from that report, and so is the diagnostic.
pub proof fn lemma_sole_report_decides<V4: Payload, V6: Payload, A: Payload>(
    interface_name: &str,
    frame: &Frame,
    before: Seq<String>,
    after: Seq<String>,
    result: Result<EthernetFrame<V4, V6, A>, DecodeError>,
    decoded: Decoded<V4, V6, A>,
)
    requires
        handled(interface_name, frame, before, after, result),
        reported(interface_name, frame, decoded),
        sole_report(interface_name, frame, decoded),
    ensures
        result == frame_of(decoded),
        logged(before, after, diagnostic_of(interface_name@, decoded)),
{
    let witness = choose|witness: Decoded<V4, V6, A>|
        {
            &&& #[trigger] reported(interface_name, frame, witness)
            &&& result == frame_of(witness)
            &&& logged(before, after, diagnostic_of(interface_name@, witness))
        };
    assert(reported(interface_name, frame, witness));
    assert(witness == decoded);
}

/// Classification is a function of its input. Where the selected decoder
/// can report only one thing on this interface name and frame, two
/// classifications of the frame, started with the same log, end with the
/// same result and with the same texts in the log.
pub proof fn lemma_classification_is_deterministic<V4: Payload, V6: Payload, A: Payload>(
    interface_name: &str,
    frame: &Frame,
    before: Seq<String>,
    first_after: Seq<String>,
    first: Result<EthernetFrame<V4, V6, A>, DecodeError>,
    second_after: Seq<String>,
    second: Result<EthernetFrame<V4, V6, A>, DecodeError>,
    decoded: Decoded<V4, V6, A>,
)
    requires
        handled(interface_name, frame, before, first_after, first),
        handled(interface_name, frame, before, second_after, second),
        reported(interface_name, frame, decoded),
        sole_report(interface_name, frame, decoded),
    ensures
        first == second,
        texts(first_after) == texts(second_after),
{
    lemma_sole_report_decides(interface_name, frame, before, first_after, first, decoded);
    lemma_sole_report_decides(interface_name, frame, before, second_after, second, decoded);
    assert(first_after.len() == second_after.len());
    assert forall|i: int| 0 <= i < first_after.len() implies first_after[i]@
        == second_after[i]@ by {
        if i < before.len() {
            let kept = before.len() as int;
            assert(first_after[i] == first_after.take(kept)[i]);
            assert(second_after[i] == second_after.take(kept)[i]);
        }
    }
    assert(texts(first_after) =~= texts(second_after));
}

/// A payload that the selected decoder accepts is returned as the decoder
/// gave it, in the variant of its protocol, and nothing is logged.
pub proof fn lemma_accepted_payload_is_wrapped<V4: Payload, V6: Payload, A: Payload>(
    interface_name: &str,
    frame: &Frame,
    before: Seq<String>,
    after: Seq<String>,
    result: Result<EthernetFrame<V4, V6, A>, DecodeError>,
    decoded: Decoded<V4, V6, A>,
)
    requires
        handled(interface_name, frame, before, after, result),
        reported(interface_name, frame, decoded),
        sole_report(interface_name, frame, decoded),
    ensures
        decoded matches Decoded::IPv4(Ok(payload)) ==> result == Ok::<
            EthernetFrame<V4, V6, A>,
            DecodeError,
        >(EthernetFrame::IPv4(payload)) && after =~= before,
        decoded matches Decoded::IPv6(Ok(payload)) ==> result == Ok::<
            EthernetFrame<V4, V6, A>,
            DecodeError,
        >(EthernetFrame::IPv6(payload)) && after =~= before,
        decoded matches Decoded::Arp(Ok(payload)) ==> result == Ok::<
            EthernetFrame<V4, V6, A>,
            DecodeError,
        >(EthernetFrame::Arp(payload)) && after =~= before,
{
    lemma_sole_report_decides(interface_name, frame, before, after, result, decoded);
}

/// An error of the selected decoder is returned as the decoder gave it, no
/// frame is returned, and the log grows by the diagnostic that names the
/// interface, the protocol and the error's cause.
pub proof fn lemma_decoder_error_is_returned<V4: Payload, V6: Payload, A: Payload>(
    interface_name: &str,
    frame: &Frame,
    before: Seq<String>,
    after: Seq<String>,
    result: Result<EthernetFrame<V4, V6, A>, DecodeError>,
    decoded: Decoded<V4, V6, A>,
)
    requires
        handled(interface_name, frame, before, after, result),
        reported(interface_name, frame, decoded),
        sole_report(interface_name, frame, decoded),
    ensures
        decoded matches Decoded::IPv4(Err(error)) ==> result == Err::<
            EthernetFrame<V4, V6, A>,
            DecodeError,
        >(error) && logged(
            before,
            after,
            Some(malformed_packet_text(interface_name@, Protocol::IPv4, error.cause@)),
        ),
        decoded matches Decoded::IPv6(Err(error)) ==> result == Err::<
            EthernetFrame<V4, V6, A>,
            DecodeError,
        >(error) && logged(
            before,
            after,
            Some(malformed_packet_text(interface_name@, Protocol::IPv6, error.cause@)),
        ),
        decoded matches Decoded::Arp(Err(error)) ==> result == Err::<
            EthernetFrame<V4, V6, A>,
            DecodeError,
        >(error) && logged(
            before,
            after,
            Some(malformed_packet_text(interface_name@, Protocol::Arp, error.cause@)),
        ),
{
    lemma_sole_report_decides(interface_name, frame, before, after, result, decoded);
}

/// A frame whose EtherType selects no decoder is classified as `Unknown`,
/// which is a success, and the log grows by the diagnostic that names the
/// interface and the EtherType.
pub proof fn lemma_unlisted_ethertype_is_unknown<V4: Payload, V6: Payload, A: Payload>(
    interface_name: &str,
    frame: &Frame,
    before: Seq<String>,
    after: Seq<String>,
    result: Result<EthernetFrame<V4, V6, A>, DecodeError>,
)
    requires
        handled(interface_name, frame, before, after, result),
        Protocol::selected_by(ethertype_of(frame@)) is None,
    ensures
        result == Ok::<EthernetFrame<V4, V6, A>, DecodeError>(EthernetFrame::Unknown),
        logged(
            before,
            after,
            Some(
                unknown_packet_text(interface_name@, ethertype_debug_text(ethertype_of(frame@))),
            ),
        ),
{
    lemma_every_ethertype_is_handled(interface_name, frame, before, after, result);
}

/// The log is only appended to, by one diagnostic at most: by none where a
/// payload was decoded, and by exactly one otherwise.
pub proof fn lemma_one_diagnostic_at_most<V4: Payload, V6: Payload, A: Payload>(
    interface_name: &str,
    frame: &Frame,
    before: Seq<String>,
    after: Seq<String>,
    result: Result<EthernetFrame<V4, V6, A>, DecodeError>,
)
    requires
        handled(interface_name, frame, before, after, result),
    ensures
        after.take(before.len() as int) =~= before,
        result is Ok && !(result->Ok_0 is Unknown) ==> after.len() == before.len(),
        result is Err || result->Ok_0 is Unknown ==> after.len() == before.len() + 1,
{
    lemma_every_ethertype_is_handled(interface_name, frame, before, after, result);
}

} // verus!
