//! Extraction of the raw audio elementary stream from a transport chunk, the
//! step before the codec decode.
use vstd::prelude::*;
use crate::error::Error;

verus! {

/// The audio elementary stream that yt_tsu extracts from transport-stream bytes.
pub uninterp spec fn ts_audio_of(raw: Seq<u8>) -> Seq<u8>;

/// Relies on `yt_tsu::audio::extract_ts_audio`: the payload of the ADTS/AAC
/// stream found in the transport packets, which depends on the bytes alone;
/// no bytes carry no packets and so no payload.
#[verifier::external_body]
fn extract_ts_audio(raw: &[u8]) -> (r: Vec<u8>)
    ensures
        r@ == ts_audio_of(raw@),
        raw@.len() == 0 ==> r@.len() == 0,
{
    yt_tsu::audio::extract_ts_audio(raw)
}

/// The result of checking an extracted payload before it is decoded.
pub open spec fn checked_payload(audio: Seq<u8>) -> Result<Seq<u8>, Error> {
    if audio.len() == 0 {
        Err(Error::Empty)
    } else {
        Ok(audio)
    }
}

/// The spec view of a payload result.
pub open spec fn payload_view(r: Result<Vec<u8>, Error>) -> Result<Seq<u8>, Error> {
    match r {
        Ok(v) => Ok(v@),
        Err(e) => Err(e),
    }
}

/// Refuses an empty extracted payload with `Error::Empty`, so that no samples
/// are ever decoded from nothing; passes any other payload on unchanged.
pub fn check_payload(audio: Vec<u8>) -> (r: Result<Vec<u8>, Error>)
    ensures
        payload_view(r) == checked_payload(audio@),
{
    if audio.len() == 0 {
        Err(Error::Empty)
    } else {
        Ok(audio)
    }
}

/// Extracts the audio elementary stream of a transport chunk for decoding:
/// `Error::Empty` when the chunk carries no audio payload.
pub fn audio_payload(data: &[u8]) -> (r: Result<Vec<u8>, Error>)
    ensures
        payload_view(r) == checked_payload(ts_audio_of(data@)),
        data@.len() == 0 ==> r == Err::<Vec<u8>, Error>(Error::Empty),
{
    let audio = extract_ts_audio(data);
    check_payload(audio)
}

} // verus!
