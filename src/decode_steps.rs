//! The decisions of the packet-decoding loop that runs behind the decode
//! adapter: which track to decode, what to do with each packet read, and
//! whether to go on after each decode attempt.
use vstd::prelude::*;

verus! {

/// The outcome of reading the next packet from the container.
#[derive(Debug, Clone, Copy, PartialEq, Eq, Structural)]
pub enum PacketRead {
    /// A packet of the given track.
    Packet { track_id: u32 },
    /// The reader asks to be reset: transient, read again.
    ResetRequired,
    /// End of data, or any other read failure.
    Ended,
}

/// What the loop does with a packet read.
#[derive(Debug, Clone, Copy, PartialEq, Eq, Structural)]
pub enum PacketAction {
    Decode,
    Skip,
    Retry,
    Stop,
}

/// The outcome of decoding one packet.
#[derive(Debug, Clone, Copy, PartialEq, Eq, Structural)]
pub enum DecodeStatus {
    /// Samples were produced.
    Decoded,
    /// The packet was corrupt; it contributes nothing.
    Corrupt,
    /// Any other decoder failure.
    Fatal,
}

pub open spec fn packet_action_spec(read: PacketRead, selected_track: u32) -> PacketAction {
    match read {
        PacketRead::Packet { track_id } => if track_id == selected_track {
            PacketAction::Decode
        } else {
            PacketAction::Skip
        },
        PacketRead::ResetRequired => PacketAction::Retry,
        PacketRead::Ended => PacketAction::Stop,
    }
}

/// Packets of the selected track are decoded and others skipped; a reset
/// request is retried rather than treated as the end; anything else stops.
pub fn packet_action(read: PacketRead, selected_track: u32) -> (r: PacketAction)
    ensures
        r == packet_action_spec(read, selected_track),
{
    match read {
        PacketRead::Packet { track_id } => if track_id == selected_track {
            PacketAction::Decode
        } else {
            PacketAction::Skip
        },
        PacketRead::ResetRequired => PacketAction::Retry,
        PacketRead::Ended => PacketAction::Stop,
    }
}

/// Whether the loop goes on after a decode attempt: a corrupt packet is
/// skipped, a fatal decoder failure ends the loop.
pub fn continue_after(status: DecodeStatus) -> (r: bool)
    ensures
        r == (status != DecodeStatus::Fatal),
{
    match status {
        DecodeStatus::Fatal => false,
        _ => true,
    }
}

/// The index of the first track whose codec is known, if any.
pub fn first_known_track(known: &[bool]) -> (r: Option<usize>)
    ensures
        match r {
            Some(i) => i < known@.len() && known@[i as int] && forall|j: int|
                0 <= j < i ==> !known@[j],
            None => forall|j: int| 0 <= j < known@.len() ==> !known@[j],
        },
{
    let mut i: usize = 0;
    while i < known.len()
        invariant
            i <= known@.len(),
            forall|j: int| 0 <= j < i ==> !known@[j],
        decreases known@.len() - i,
    {
        if known[i] {
            return Some(i);
        }
        i = i + 1;
    }
    None
}

} // verus!
