//! Opening and reading of compressed streamed sources.  Decoding is
//! delegated to the lewton crate; this module states what the library relies
//! on of it and maps its error into the library's own.  The stream object
//! itself is opaque to verification and is carried through to the streamed
//! renderer.

use vstd::prelude::*;

use crate::manager::{LoadedSong, SoundError};
use crate::songs::SongFormat;

verus! {

/// Whether a byte sequence opens as an Ogg Vorbis stream: the judgment
/// lewton's header parsing makes, which depends on the bytes alone.
pub uninterp spec fn ogg_decodes(bytes: Seq<u8>) -> bool;

/// An opened Ogg Vorbis stream over the bytes of its file.  It holds
/// lewton's stream reader, whose type cannot be declared to verification
/// here (its generic parameter is bound by input/output traits), so the
/// whole struct is opaque and only its wrapper methods are relied on.
#[verifier::external_body]
pub struct OggStream {
    reader: lewton::inside_ogg::OggStreamReader<std::io::Cursor<Vec<u8>>>,
}

impl OggStream {
    /// Relies on lewton's OggStreamReader::new: reading the stream headers
    /// from an in-memory cursor succeeds or fails depending on the bytes
    /// alone; on failure the error describes the complaint.
    #[verifier::external_body]
    fn open_raw(data: Vec<u8>) -> (r: Result<OggStream, String>)
        ensures
            r is Ok <==> ogg_decodes(data@),
    {
        match lewton::inside_ogg::OggStreamReader::new(std::io::Cursor::new(data)) {
            Ok(reader) => Ok(OggStream { reader }),
            Err(e) => Err(format!("{}", e)),
        }
    }

    /// Opens a streamed song part from the bytes of its file.
    pub fn open(data: Vec<u8>) -> (r: Result<OggStream, SoundError>)
        ensures
            r is Ok <==> ogg_decodes(data@),
            r matches Err(e) ==> e is ResourceLoadError,
    {
        match Self::open_raw(data) {
            Ok(s) => Ok(s),
            Err(msg) => Err(SoundError::ResourceLoadError(msg)),
        }
    }

    /// Relies on lewton's read_dec_packet_itl: decodes the next audio packet
    /// into interleaved signed samples, `None` once the stream is exhausted.
    /// What comes back depends on the stream's own read position, so nothing
    /// is promised of it.
    #[verifier::external_body]
    fn next_packet(&mut self) -> (r: Result<Option<Vec<i16>>, String>) {
        match self.reader.read_dec_packet_itl() {
            Ok(p) => Ok(p),
            Err(e) => Err(format!("{}", e)),
        }
    }

    /// Decodes the next audio packet and re-biases every sample to the
    /// unsigned mid-scale representation the mixer consumes.  `None` once
    /// the stream is exhausted; a decoder complaint becomes a resource-load
    /// error.
    pub fn next_packet_frames(&mut self) -> (r: Result<Option<Vec<u16>>, SoundError>)
        ensures
            r matches Err(e) ==> e is ResourceLoadError,
    {
        match self.next_packet() {
            Ok(None) => Ok(None),
            Ok(Some(samples)) => Ok(Some(bias_frames(&samples))),
            Err(msg) => Err(SoundError::ResourceLoadError(msg)),
        }
    }
}

/// Re-biases centered signed samples to the unsigned mid-scale
/// representation the mixer consumes: each sample is shifted up by the
/// mid-scale bias.
pub fn bias_frames(samples: &Vec<i16>) -> (r: Vec<u16>)
    ensures
        r@.len() == samples@.len(),
        forall|j: int| 0 <= j < samples@.len() ==> r@[j] == ((samples@[j] + 0x8000) as u16),
{
    let mut biased: Vec<u16> = Vec::new();
    let mut i: usize = 0;
    while i < samples.len()
        invariant
            i <= samples@.len(),
            biased@.len() == i,
            forall|j: int| 0 <= j < i ==> biased@[j] == ((samples@[j] + 0x8000) as u16),
        decreases samples@.len() - i,
    {
        let s = samples[i];
        biased.push((s as i32 + 0x8000) as u16);
        i += 1;
    }
    biased
}

/// Loads one resolved candidate from the bytes of its files.  A sequenced
/// score is handed through as raw bytes for the external score synthesizer;
/// a streamed candidate must open as Ogg Vorbis — both parts of a dual
/// candidate — and any part that does not is a resource-load error, on
/// which resolution continues to the next candidate.  `files` holds one
/// byte vector per candidate path, in the candidate's path order.
pub fn load_candidate(format: SongFormat, files: Vec<Vec<u8>>) -> (r: Result<
    LoadedSong<Vec<u8>, OggStream>,
    SoundError,
>)
    requires
        files@.len() == (if format is OggMultiPart {
            2int
        } else {
            1int
        }),
    ensures
        format is Organya ==> (r matches Ok(LoadedSong::Organya(b)) && b == files@[0]),
        format is OggSinglePart ==> (((r is Ok) <==> ogg_decodes(files@[0]@)) && (r matches Ok(s)
            ==> s is OggSingle)),
        format is OggMultiPart ==> (((r is Ok) <==> (ogg_decodes(files@[0]@) && ogg_decodes(
            files@[1]@,
        ))) && (r matches Ok(s) ==> s is OggMulti)),
        r matches Err(e) ==> e is ResourceLoadError,
{
    let mut files = files;
    match format {
        SongFormat::Organya => Ok(LoadedSong::Organya(files.remove(0))),
        SongFormat::OggSinglePart => match OggStream::open(files.remove(0)) {
            Ok(stream) => Ok(LoadedSong::OggSingle(stream)),
            Err(e) => Err(e),
        },
        SongFormat::OggMultiPart => {
            let loop_part = files.remove(1);
            let intro = files.remove(0);
            match load_ogg_multi(intro, loop_part) {
                Ok((first, second)) => Ok(LoadedSong::OggMulti(first, second)),
                Err(e) => Err(e),
            }
        },
    }
}

/// Decodes up to `max_packets` audio packets of an opened stream into one
/// interleaved mid-scale sample table, ready for a streamed renderer.  The
/// bound keeps the work finite; a stream that ends earlier yields what it
/// held.
pub fn decode_packets(stream: &mut OggStream, max_packets: usize) -> (r: Result<
    Vec<u16>,
    SoundError,
>)
    ensures
        r matches Err(e) ==> e is ResourceLoadError,
{
    let mut acc: Vec<u16> = Vec::new();
    let mut i: usize = 0;
    while i < max_packets
        decreases max_packets - i,
    {
        match stream.next_packet_frames() {
            Ok(Some(frames)) => {
                let mut frames = frames;
                acc.append(&mut frames);
            },
            Ok(None) => {
                return Ok(acc);
            },
            Err(e) => {
                return Err(e);
            },
        }
        i += 1;
    }
    Ok(acc)
}

/// Opens a dual-part (intro plus loop) streamed song from the bytes of its
/// two files.  Both parts must decode; any failure is reported and nothing
/// is kept.
pub fn load_ogg_multi(intro: Vec<u8>, loop_part: Vec<u8>) -> (r: Result<
    (OggStream, OggStream),
    SoundError,
>)
    ensures
        r is Ok <==> (ogg_decodes(intro@) && ogg_decodes(loop_part@)),
        r matches Err(e) ==> e is ResourceLoadError,
{
    let first = match OggStream::open(intro) {
        Ok(s) => s,
        Err(e) => {
            return Err(e);
        },
    };
    let second = match OggStream::open(loop_part) {
        Ok(s) => s,
        Err(e) => {
            return Err(e);
        },
    };
    Ok((first, second))
}

} // verus!
