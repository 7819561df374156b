use ytaudio::decode_steps::{
    continue_after, first_known_track, packet_action, DecodeStatus, PacketAction, PacketRead,
};
use ytaudio::error::Error;
use ytaudio::lifecycle::{
    process_next, ProcessEvent, ProcessState, Shutdown, ShutdownEvent, ShutdownStep,
};
use ytaudio::payload::{audio_payload, check_payload};
use ytaudio::playback::{pad_silence, PlaybackBuffer};
use ytaudio::primer::StartupPrimer;
use ytaudio::transport::TransportBuffer;
use ytaudio::{samples_for_seconds, YOUTUBE_TS_SAMPLE_RATE};

#[test]
fn error_messages() {
    assert_eq!(Error::Format.message(), "unsupported format");
    assert_eq!(Error::Decoder.message(), "no supported audio tracks");
    assert_eq!(Error::Track.message(), "unsupported codec");
    assert_eq!(Error::Empty.message(), "empty audio data");
}

#[test]
fn samples_for_durations() {
    assert_eq!(YOUTUBE_TS_SAMPLE_RATE, 22050);
    assert_eq!(samples_for_seconds(20), 882_000);
    assert_eq!(samples_for_seconds(10), 441_000);
    assert_eq!(samples_for_seconds(0), 0);
}

#[test]
fn ingest_below_threshold_holds_bytes() {
    let mut t = TransportBuffer::new(16, 4);
    let (taken, chunk) = t.ingest(&[1, 2, 3]);
    assert_eq!(taken, 3);
    assert!(chunk.is_none());
    assert_eq!(t.len(), 3);
}

#[test]
fn ingest_at_threshold_drains_everything() {
    let mut t = TransportBuffer::new(16, 4);
    assert!(t.ingest(&[1, 2]).1.is_none());
    let (taken, chunk) = t.ingest(&[3, 4, 5]);
    assert_eq!(taken, 3);
    assert_eq!(chunk, Some(vec![1, 2, 3, 4, 5]));
    assert_eq!(t.len(), 0);
}

#[test]
fn ingest_takes_only_what_fits_and_flushes_when_full() {
    let mut t = TransportBuffer::new(4, 4);
    assert!(t.ingest(&[1, 2]).1.is_none());
    let (taken, chunk) = t.ingest(&[3, 4, 5, 6, 7]);
    assert_eq!(taken, 2);
    assert_eq!(chunk, Some(vec![1, 2, 3, 4]));
    let (taken, chunk) = t.ingest(&[5, 6, 7]);
    assert_eq!(taken, 3);
    assert!(chunk.is_none());
    assert_eq!(t.capacity(), 4);
    assert_eq!(t.threshold(), 4);
}

#[test]
fn flush_count_for_single_byte_reads() {
    let mut t = TransportBuffer::new(256, 4);
    let mut flushes = 0;
    for i in 0..16u8 {
        let (taken, chunk) = t.ingest(&[i]);
        assert_eq!(taken, 1);
        if let Some(c) = chunk {
            assert_eq!(c.len(), 4);
            flushes += 1;
        }
    }
    assert_eq!(flushes, 4);
    assert_eq!(t.len(), 0);
}

#[test]
fn empty_read_triggers_nothing() {
    let mut t = TransportBuffer::new(8, 4);
    let (taken, chunk) = t.ingest(&[]);
    assert_eq!(taken, 0);
    assert!(chunk.is_none());
}

#[test]
fn primer_releases_once_then_passes_through() {
    let mut p: StartupPrimer<i32> = StartupPrimer::new(4);
    assert!(p.is_armed());
    assert_eq!(p.feed(vec![1, 2]), None);
    assert_eq!(p.feed(vec![3]), None);
    assert_eq!(p.accumulated_len(), 3);
    assert_eq!(p.feed(vec![4, 5]), Some(vec![1, 2, 3, 4, 5]));
    assert!(!p.is_armed());
    assert_eq!(p.accumulated_len(), 0);
    assert_eq!(p.feed(vec![6]), Some(vec![6]));
    assert_eq!(p.feed(vec![7, 8]), Some(vec![7, 8]));
    assert_eq!(p.target_size(), 4);
}

#[test]
fn primer_release_on_exact_target() {
    let mut p: StartupPrimer<i32> = StartupPrimer::new(3);
    assert_eq!(p.feed(vec![1, 2, 3]), Some(vec![1, 2, 3]));
    assert_eq!(p.feed(vec![]), Some(vec![]));
}

#[test]
fn primer_drops_failed_chunks() {
    let mut p: StartupPrimer<i32> = StartupPrimer::new(3);
    assert_eq!(p.accept(Ok(vec![1])), None);
    assert_eq!(p.accept(Err(Error::Empty)), None);
    assert_eq!(p.accept(Err(Error::Format)), None);
    assert_eq!(p.accumulated_len(), 1);
    assert_eq!(p.accept(Ok(vec![2, 3])), Some(vec![1, 2, 3]));
    assert_eq!(p.accept(Err(Error::Decoder)), None);
    assert_eq!(p.accept(Ok(vec![4])), Some(vec![4]));
}

#[test]
fn primer_order_across_outcomes() {
    let mut p: StartupPrimer<i32> = StartupPrimer::new(5);
    let outcomes = vec![
        Ok(vec![1, 2]),
        Err(Error::Track),
        Ok(vec![3, 4]),
        Ok(vec![5, 6]),
        Err(Error::Empty),
        Ok(vec![7]),
    ];
    let mut delivered = vec![];
    for o in outcomes {
        if let Some(b) = p.accept(o) {
            delivered.extend(b);
        }
    }
    assert_eq!(delivered, vec![1, 2, 3, 4, 5, 6, 7]);
}

#[test]
fn primer_rearms_only_when_drained() {
    let mut p: StartupPrimer<i32> = StartupPrimer::new(2);
    assert_eq!(p.feed(vec![1, 2]), Some(vec![1, 2]));
    p.rearm(false);
    assert!(!p.is_armed());
    p.rearm(true);
    assert!(p.is_armed());
    assert_eq!(p.feed(vec![3]), None);
}

#[test]
fn render_from_empty_buffer_is_all_silence() {
    let mut b: PlaybackBuffer<f32> = PlaybackBuffer::new(8);
    let mut out = [1.0f32; 4];
    assert_eq!(b.render(&mut out, 0.0), 0);
    assert_eq!(out, [0.0; 4]);
}

#[test]
fn render_pads_shortfall_with_silence() {
    let mut b: PlaybackBuffer<f32> = PlaybackBuffer::new(8);
    assert_eq!(b.push_slice(&[0.5, -0.5, 0.25]), 3);
    let mut out = [9.0f32; 5];
    assert_eq!(b.render(&mut out, 0.0), 3);
    assert_eq!(out, [0.5, -0.5, 0.25, 0.0, 0.0]);
    assert!(b.is_empty());
}

#[test]
fn render_takes_exactly_the_request() {
    let mut b: PlaybackBuffer<i32> = PlaybackBuffer::new(8);
    assert_eq!(b.push_slice(&[1, 2, 3, 4, 5]), 5);
    let mut out = [0i32; 2];
    assert_eq!(b.render(&mut out, 0), 2);
    assert_eq!(out, [1, 2]);
    assert_eq!(b.len(), 3);
    let mut out = [0i32; 3];
    assert_eq!(b.pop_slice(&mut out), 3);
    assert_eq!(out, [3, 4, 5]);
}

#[test]
fn push_refuses_overflow() {
    let mut b: PlaybackBuffer<i32> = PlaybackBuffer::new(3);
    assert_eq!(b.push_slice(&[1, 2]), 2);
    assert_eq!(b.push_slice(&[3, 4, 5]), 1);
    assert_eq!(b.len(), 3);
    assert_eq!(b.capacity(), 3);
    let mut out = [0i32; 4];
    assert_eq!(b.render(&mut out, -1), 3);
    assert_eq!(out, [1, 2, 3, -1]);
}

#[test]
fn pad_silence_keeps_prefix() {
    let mut out = [1.0f32, 2.0, 3.0, 4.0];
    pad_silence(&mut out, 1, 0.0);
    assert_eq!(out, [1.0, 0.0, 0.0, 0.0]);
    pad_silence(&mut out, 4, 7.0);
    assert_eq!(out, [1.0, 0.0, 0.0, 0.0]);
}

#[test]
fn empty_payload_is_refused() {
    assert_eq!(check_payload(vec![]), Err(Error::Empty));
    assert_eq!(check_payload(vec![0xff, 0xf1]), Ok(vec![0xff, 0xf1]));
    assert_eq!(audio_payload(&[]), Err(Error::Empty));
}

#[test]
fn non_transport_bytes_carry_no_audio() {
    assert_eq!(audio_payload(&[1, 2, 3, 4]), Err(Error::Empty));
}

#[test]
fn packet_decisions() {
    assert_eq!(packet_action(PacketRead::Packet { track_id: 1 }, 1), PacketAction::Decode);
    assert_eq!(packet_action(PacketRead::Packet { track_id: 2 }, 1), PacketAction::Skip);
    assert_eq!(packet_action(PacketRead::ResetRequired, 1), PacketAction::Retry);
    assert_eq!(packet_action(PacketRead::Ended, 1), PacketAction::Stop);
    assert!(continue_after(DecodeStatus::Decoded));
    assert!(continue_after(DecodeStatus::Corrupt));
    assert!(!continue_after(DecodeStatus::Fatal));
}

#[test]
fn first_known_track_picks_earliest() {
    assert_eq!(first_known_track(&[false, true, true]), Some(1));
    assert_eq!(first_known_track(&[false, false]), None);
    assert_eq!(first_known_track(&[]), None);
}

#[test]
fn process_lifecycle_transitions() {
    let s = process_next(ProcessState::NotStarted, ProcessEvent::Spawned);
    assert_eq!(s, ProcessState::Running);
    assert_eq!(process_next(s, ProcessEvent::OutputClosed), ProcessState::Eof);
    assert_eq!(process_next(s, ProcessEvent::KillSent), ProcessState::Killed);
    assert_eq!(process_next(ProcessState::Killed, ProcessEvent::Exited), ProcessState::Terminated);
    assert_eq!(process_next(ProcessState::Eof, ProcessEvent::Exited), ProcessState::Terminated);
    assert_eq!(process_next(ProcessState::NotStarted, ProcessEvent::Exited), ProcessState::NotStarted);
}

#[test]
fn shutdown_pauses_before_signalling() {
    let mut s = Shutdown::new(ProcessState::Running, true);
    assert_eq!(s.next_step(), ShutdownStep::PauseStream);
    s.report(ShutdownEvent::SignalSent);
    assert_eq!(s.next_step(), ShutdownStep::PauseStream);
    s.report(ShutdownEvent::StreamPaused);
    assert!(s.stream_paused);
    assert_eq!(s.next_step(), ShutdownStep::SignalProcess);
    s.report(ShutdownEvent::SignalSent);
    assert_eq!(s.process, ProcessState::Killed);
    assert_eq!(s.next_step(), ShutdownStep::WaitForExit);
    s.report(ShutdownEvent::ProcessExited);
    assert_eq!(s.process, ProcessState::Terminated);
    assert_eq!(s.next_step(), ShutdownStep::AwaitChat);
    s.report(ShutdownEvent::ChatDone);
    assert_eq!(s.next_step(), ShutdownStep::Finished);
}

#[test]
fn shutdown_without_chat_and_timeout() {
    let mut s = Shutdown::new(ProcessState::Eof, false);
    s.report(ShutdownEvent::StreamPaused);
    s.report(ShutdownEvent::SignalSent);
    s.report(ShutdownEvent::ProcessExited);
    assert_eq!(s.next_step(), ShutdownStep::Finished);
    let mut s = Shutdown::new(ProcessState::Running, false);
    s.report(ShutdownEvent::StreamPaused);
    s.report(ShutdownEvent::SignalSent);
    s.report(ShutdownEvent::ExitTimedOut);
    assert_eq!(s.next_step(), ShutdownStep::Failed);
    assert_eq!(s.process, ProcessState::Killed);
}

#[test]
fn session_counts_discarded_chunks() {
    let mut p: ytaudio::pipeline::Pipeline<i32> = ytaudio::pipeline::Pipeline::new(8, 2, 3);
    assert!(p.is_priming());
    let (taken, chunk) = p.ingest(&[1]);
    assert_eq!(taken, 1);
    assert!(chunk.is_none());
    let (taken, chunk) = p.ingest(&[2, 3]);
    assert_eq!(taken, 2);
    assert_eq!(chunk, Some(vec![1, 2, 3]));
    assert_eq!(p.deliver(Err(Error::Empty)), None);
    assert_eq!(p.deliver(Err(Error::Format)), None);
    assert_eq!(p.discarded(), 2);
    assert_eq!(p.deliver(Ok(vec![10, 11])), None);
    assert_eq!(p.deliver(Ok(vec![12])), Some(vec![10, 11, 12]));
    assert!(!p.is_priming());
    assert_eq!(p.deliver(Ok(vec![13])), Some(vec![13]));
    assert_eq!(p.discarded(), 2);
}
