//! The host side of the ASIC data stream.

use vstd::prelude::*;

use crate::uart_codec::{
    decoded, fits, law_decoding_loses_nothing, law_packets_may_split_pairs, streamed,
    NineBitPairDecoder,
};

verus! {

/// The largest packet that the host sends.
pub const USB_PACKET_LENGTH: usize = 64;

/// The words that are decoded from one packet at most.
pub const PACKET_WORDS: usize = 32;

/// Why the data stream of a host ends.
#[derive(Clone, Copy, Debug, PartialEq, Eq, Structural)]
pub enum UartTaskError {
    Disconnected,
}

/// Why a packet could not be transferred.
#[derive(Clone, Copy, Debug, PartialEq, Eq, Structural)]
pub enum EndpointError {
    /// The packet is larger than the buffer for it.
    BufferOverflow,
    /// The host is gone.
    Disabled,
}

/// What happens on the host side of the stream.
pub enum HostEvent<'a> {
    Packet(&'a [u8]),
    Failed(EndpointError),
    ControlChanged { dtr: bool },
}

impl UartTaskError {
    /// The end of a stream whose endpoint failed. A buffer that is too small for a
    /// packet is a programming error, not an end of the stream.
    pub fn from_endpoint(error: EndpointError) -> (ended: Self)
        requires
            error is Disabled,
        ensures
            ended == UartTaskError::Disconnected,
    {
        UartTaskError::Disconnected
    }
}

/// Takes one event of the host: the words of a packet are put at the front of
/// `words` and counted. The stream ends with its endpoint, or when the host drops
/// DTR; a change of the line coding alone means nothing.
pub fn host_to_asic(
    decoder: &mut NineBitPairDecoder,
    event: HostEvent<'_>,
    words: &mut [u16],
) -> (count: Result<usize, UartTaskError>)
    requires
        event != HostEvent::Failed(EndpointError::BufferOverflow),
    ensures
        match event {
            HostEvent::Packet(packet) => {
                let (held, arrived) = decoded(old(decoder)@, packet@, old(words)@.len());
                &&& final(decoder)@ == held
                &&& count is Ok
                &&& count->Ok_0 == arrived.len()
                &&& final(words)@ == arrived + old(words)@.skip(arrived.len() as int)
            },
            HostEvent::Failed(_) => {
                &&& count == Err::<usize, _>(UartTaskError::Disconnected)
                &&& final(decoder)@ == old(decoder)@
                &&& final(words)@ == old(words)@
            },
            HostEvent::ControlChanged { dtr } => {
                &&& dtr ==> count == Ok::<_, UartTaskError>(0usize)
                &&& !dtr ==> count == Err::<usize, _>(UartTaskError::Disconnected)
                &&& final(decoder)@ == old(decoder)@
                &&& final(words)@ == old(words)@
            },
        },
{
    match event {
        HostEvent::Packet(packet) => Ok(decoder.decode(packet, words)),
        HostEvent::Failed(error) => Err(UartTaskError::from_endpoint(error)),
        HostEvent::ControlChanged { dtr } => {
            if dtr {
                Ok(0)
            } else {
                Err(UartTaskError::Disconnected)
            }
        },
    }
}

/// The words of a whole packet always fit, whatever the previous packet left
/// behind: no data of the host is lost.
pub proof fn law_packet_words_fit(pending: Option<u8>, packet: Seq<u8>)
    requires
        packet.len() <= USB_PACKET_LENGTH,
    ensures
        decoded(pending, packet, PACKET_WORDS as nat) == streamed(pending, packet),
{
    assert(fits(pending, packet.len(), PACKET_WORDS as nat));
    law_decoding_loses_nothing(pending, packet, PACKET_WORDS as nat);
}

/// What is left of a stream of packets that are taken one after the other: the byte
/// held back, and the words of all packets.
pub open spec fn received(pending: Option<u8>, packets: Seq<Seq<u8>>) -> (Option<u8>, Seq<u16>)
    decreases packets.len(),
{
    if packets.len() == 0 {
        (pending, Seq::empty())
    } else {
        let (held, words) = decoded(pending, packets[0], PACKET_WORDS as nat);
        let (left, more) = received(held, packets.drop_first());
        (left, words + more)
    }
}

/// However the host cuts its data into packets, the words that arrive are those of
/// the whole stream.
pub proof fn law_packets_form_one_stream(pending: Option<u8>, packets: Seq<Seq<u8>>)
    requires
        forall|i: int| 0 <= i < packets.len() ==> (#[trigger] packets[i]).len()
            <= USB_PACKET_LENGTH,
    ensures
        received(pending, packets) == streamed(pending, packets.flatten()),
    decreases packets.len(),
{
    if packets.len() > 0 {
        let rest = packets.drop_first();
        let held = decoded(pending, packets[0], PACKET_WORDS as nat).0;
        law_packet_words_fit(pending, packets[0]);
        law_packets_form_one_stream(held, rest);
        assert(packets.flatten() == packets[0] + rest.flatten());
        law_packets_may_split_pairs(pending, packets[0], rest.flatten());
    }
}

} // verus!
