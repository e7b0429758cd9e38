//! WAV container decoding.
//!
//! The container is opened and its header parsed through `hound`; every
//! decision made on the header — which channel layouts are accepted, which
//! `(sample format, bit depth)` pairs are supported, which divisor scales a
//! raw integer sample to a float in `[-1, 1)` — is made and proved here.
//! Raw samples are read as stored integers; turning them into floats is the
//! caller's per-sample conversion, driven by [`scale_divisor`].

use vstd::prelude::*;

use crate::audio::AudioError;

verus! {

/// Whether a sample is stored as an IEEE float or an integer.
#[derive(Clone, Copy, Debug, PartialEq, Eq, Structural)]
pub enum WavSampleFormat {
    Int,
    Float,
}

/// The properties of a WAV stream, as its header declares them.
#[derive(Clone, Copy, Debug, PartialEq, Eq, Structural)]
pub struct WavSpecInfo {
    /// The number of interleaved channels.
    pub channels: u16,
    /// The number of samples per second.
    pub sample_rate: u32,
    /// The number of bits used per sample.
    pub bits_per_sample: u16,
    /// Whether samples are stored as floats or integers.
    pub sample_format: WavSampleFormat,
}

/// One of the supported stored sample encodings.
#[derive(Clone, Copy, Debug, PartialEq, Eq, Structural)]
pub enum SampleEncoding {
    Int8,
    Int16,
    Int24,
    Int32,
    Float32,
}

#[verifier::external_type_specification]
#[verifier::external_body]
#[verifier::reject_recursive_types(T)]
pub struct ExCursor<T>(std::io::Cursor<T>);

#[verifier::external_type_specification]
#[verifier::external_body]
#[verifier::reject_recursive_types(R)]
pub struct ExWavReader<R>(hound::WavReader<R>);

/// The header that a WAV byte stream declares, when `hound` accepts the
/// stream: parsing depends on the bytes alone.
pub uninterp spec fn wav_header(bytes: Seq<u8>) -> Option<WavSpecInfo>;

/// The integer samples stored in a WAV byte stream, in stream order, one
/// `None` per sample that does not decode: what `hound` yields from the
/// stream, a function of the bytes alone.
pub uninterp spec fn raw_int_samples(bytes: Seq<u8>) -> Seq<Option<i32>>;

/// Relies on `hound::WavReader::new`: it parses the container header
/// (reading no sample data) and rejects a stream with zero channels, a
/// zero bit depth, or a stored sample count that is no multiple of the
/// channel count; its sample iterator later yields exactly that count of
/// items. No more is claimed of the bit depth: an extensible-format
/// header may redeclare it as any positive value.
#[verifier::external_body]
fn wav_open(bytes: Vec<u8>) -> (r: Result<
    (hound::WavReader<std::io::Cursor<Vec<u8>>>, WavSpecInfo),
    String,
>)
    ensures
        r is Ok <==> wav_header(bytes@) is Some,
        r matches Ok((reader, info)) ==> {
            &&& wav_header(bytes@) == Some(info)
            &&& info.channels >= 1
            &&& info.bits_per_sample >= 1
            &&& raw_int_samples(bytes@).len() as int % (info.channels as int) == 0
        },
{
    let reader = hound::WavReader::new(std::io::Cursor::new(bytes)).map_err(|e| e.to_string())?;
    let s = reader.spec();
    let sample_format = match s.sample_format {
        hound::SampleFormat::Int => WavSampleFormat::Int,
        hound::SampleFormat::Float => WavSampleFormat::Float,
    };
    let (channels, sample_rate, bits_per_sample) = (s.channels, s.sample_rate, s.bits_per_sample);
    Ok((reader, WavSpecInfo { channels, sample_rate, bits_per_sample, sample_format }))
}

/// A WAV stream whose header has been parsed and accepted.
pub struct WavDecoder {
    reader: hound::WavReader<std::io::Cursor<Vec<u8>>>,
    info: WavSpecInfo,
    bytes: Ghost<Seq<u8>>,
}

impl WavDecoder {
    /// The header of the accepted stream.
    pub closed spec fn spec_info(&self) -> WavSpecInfo {
        self.info
    }

    /// The bytes the stream was opened over.
    pub closed spec fn spec_bytes(&self) -> Seq<u8> {
        self.bytes@
    }

    /// An accepted stream is mono or stereo and has a positive sample rate.
    pub open spec fn wf(&self) -> bool {
        &&& 1 <= self.spec_info().channels <= 2
        &&& self.spec_info().sample_rate > 0
    }

    /// Parse the WAV container header of `bytes` and accept the stream
    /// when it is mono or stereo with a positive sample rate. No sample
    /// data is read: a stream of three or more channels is rejected
    /// before any decoding work.
    pub fn new(bytes: Vec<u8>) -> (r: Result<WavDecoder, AudioError>)
        ensures
            wav_header(bytes@) is None ==> (r matches Err(e) && e is ReadWriteError),
            wav_header(bytes@) matches Some(h) ==> {
                &&& h.channels > 2 ==> (r matches Err(e) && e matches AudioError::NotSupported(m)
                    && m@ == "Audio should be mono or stereo"@)
                &&& h.channels <= 2 && h.sample_rate == 0 ==> (r matches Err(e)
                    && e matches AudioError::NotSupported(m)
                    && m@ == "Audio sample rate must be positive"@)
                &&& h.channels <= 2 && h.sample_rate > 0 ==> (r matches Ok(d) && d.spec_info()
                    == h)
            },
            r matches Ok(d) ==> d.wf() && d.spec_bytes() == bytes@,
            r matches Ok(d) ==> raw_int_samples(bytes@).len() as int % (
            d.spec_info().channels as int) == 0,
    {
        let ghost src_bytes: Seq<u8> = bytes@;
        let (reader, info) = match wav_open(bytes) {
            Ok(p) => p,
            Err(m) => {
                return Err(AudioError::ReadWriteError(m));
            },
        };
        if info.channels > 2 {
            return Err(AudioError::NotSupported("Audio should be mono or stereo"));
        }
        if info.sample_rate == 0 {
            return Err(AudioError::NotSupported("Audio sample rate must be positive"));
        }
        Ok(WavDecoder { reader, info, bytes: Ghost(src_bytes) })
    }

    /// The header of the stream.
    pub fn info(&self) -> (r: WavSpecInfo)
        ensures
            r == self.spec_info(),
    {
        self.info
    }

    /// Read every stored sample as the integer it holds, in stream order;
    /// a sample that fails to decode comes back as `None`: exactly the
    /// raw integer samples the opened bytes store.
    pub fn read_int_samples(self) -> (r: Vec<Option<i32>>)
        ensures
            r@ == raw_int_samples(self.spec_bytes()),
    {
        read_int_samples_raw(self)
    }
}

/// Relies on `hound::WavReader::into_samples::<i32>`: it yields the stored
/// integer samples in order, one `Err` per sample it cannot decode — a
/// function of the byte stream the reader was opened over.
#[verifier::external_body]
fn read_int_samples_raw(dec: WavDecoder) -> (r: Vec<Option<i32>>)
    ensures
        r@ == raw_int_samples(dec.spec_bytes()),
{
    dec.reader.into_samples::<i32>().map(|s| s.ok()).collect()
}

/// The supported encoding for a `(sample format, bit depth)` pair, if any.
pub open spec fn spec_encoding_for(format: WavSampleFormat, bits: u16) -> Option<SampleEncoding> {
    match (format, bits) {
        (WavSampleFormat::Int, 8) => Some(SampleEncoding::Int8),
        (WavSampleFormat::Int, 16) => Some(SampleEncoding::Int16),
        (WavSampleFormat::Int, 24) => Some(SampleEncoding::Int24),
        (WavSampleFormat::Int, 32) => Some(SampleEncoding::Int32),
        (WavSampleFormat::Float, 32) => Some(SampleEncoding::Float32),
        _ => None,
    }
}

/// Select the per-sample conversion for a `(sample format, bit depth)`
/// pair. A container-level accept does not imply sample-format support:
/// any pair outside the supported set is rejected here, after the header
/// was accepted.
pub fn encoding_for(format: WavSampleFormat, bits: u16) -> (r: Result<SampleEncoding, AudioError>)
    ensures
        spec_encoding_for(format, bits) matches Some(e) ==> r == Ok::<SampleEncoding, AudioError>(
            e,
        ),
        spec_encoding_for(format, bits) is None ==> (r matches Err(e)
            && e matches AudioError::ReadWriteError(m)
            && m@ == "Unimplemented sample format"@),
{
    match (format, bits) {
        (WavSampleFormat::Int, 8) => Ok(SampleEncoding::Int8),
        (WavSampleFormat::Int, 16) => Ok(SampleEncoding::Int16),
        (WavSampleFormat::Int, 24) => Ok(SampleEncoding::Int24),
        (WavSampleFormat::Int, 32) => Ok(SampleEncoding::Int32),
        (WavSampleFormat::Float, 32) => Ok(SampleEncoding::Float32),
        _ => {
            let m = "Unimplemented sample format";
            Err(AudioError::ReadWriteError(m.to_owned()))
        },
    }
}

/// The divisor that scales a raw integer sample of this encoding to a
/// float, or `None` for the pass-through float encoding.
pub open spec fn spec_scale_divisor(e: SampleEncoding) -> Option<u64> {
    match e {
        SampleEncoding::Int8 => Some(128),
        SampleEncoding::Int16 => Some(32768),
        SampleEncoding::Int24 => Some(8388608),
        SampleEncoding::Int32 => Some(2147483648),
        SampleEncoding::Float32 => None,
    }
}

/// The divisor for an encoding: a raw integer sample converts to the
/// float `raw / divisor`; a stored float passes through unscaled.
pub fn scale_divisor(e: SampleEncoding) -> (r: Option<u64>)
    ensures
        r == spec_scale_divisor(e),
{
    match e {
        SampleEncoding::Int8 => Some(128),
        SampleEncoding::Int16 => Some(32768),
        SampleEncoding::Int24 => Some(8388608),
        SampleEncoding::Int32 => Some(2147483648),
        SampleEncoding::Float32 => None,
    }
}

/// The present values of `s`, in order, with every `None` dropped.
pub open spec fn present_values<T>(s: Seq<Option<T>>) -> Seq<T>
    decreases s.len(),
{
    if s.len() == 0 {
        Seq::empty()
    } else {
        let rest = present_values(s.drop_last());
        match s.last() {
            Some(x) => rest.push(x),
            None => rest,
        }
    }
}

/// Keep the present values of `v`, in order. This is the decoder's
/// deliberate lossy-tolerance policy: a sample that failed to decode is
/// dropped silently rather than failing the whole stream.
pub fn keep_present<T: Copy>(v: Vec<Option<T>>) -> (r: Vec<T>)
    ensures
        r@ == present_values(v@),
{
    let mut r: Vec<T> = Vec::new();
    let mut i: usize = 0;
    while i < v.len()
        invariant
            i <= v.len(),
            r@ == present_values(v@.subrange(0, i as int)),
        decreases v.len() - i,
    {
        match v[i] {
            Some(x) => r.push(x),
            None => {},
        }
        proof {
            assert(v@.subrange(0, i + 1 as int).drop_last() =~= v@.subrange(0, i as int));
            assert(v@.subrange(0, i + 1 as int).last() == v@[i as int]);
        }
        i = i + 1;
    }
    proof {
        assert(v@.subrange(0, v@.len() as int) =~= v@);
    }
    r
}

/// Adjacent pairs of `s`, in order; a trailing unpaired element is dropped.
pub open spec fn spec_pairs<T>(s: Seq<T>) -> Seq<(T, T)> {
    Seq::new(s.len() / 2, |i: int| (s[2 * i], s[2 * i + 1]))
}

/// Pair the elements of an interleaved two-channel stream, consuming it
/// two at a time; a trailing unpaired element (a malformed stereo stream)
/// is dropped silently. Averaging each pair is the caller's per-pair
/// conversion.
pub fn pair_up<T: Copy>(v: Vec<T>) -> (r: Vec<(T, T)>)
    ensures
        r@ == spec_pairs(v@),
        r@.len() == v@.len() / 2,
{
    let mut r: Vec<(T, T)> = Vec::new();
    let mut i: usize = 0;
    while i < v.len() / 2
        invariant
            i <= v@.len() / 2,
            r@.len() == i,
            forall|k: int| 0 <= k < i ==> r@[k] == (v@[2 * k], v@[2 * k + 1]),
        decreases v.len() / 2 - i,
    {
        let a = v[2 * i];
        let b = v[2 * i + 1];
        r.push((a, b));
        i = i + 1;
    }
    proof {
        assert(r@ =~= spec_pairs(v@));
    }
    r
}

/// Law: downmixing pairs adjacent raw samples and drops a trailing
/// unpaired one, so a stereo stream of `n` raw samples yields exactly
/// `floor(n / 2)` mono samples, the `k`-th built from raw samples `2k`
/// and `2k + 1`.
pub proof fn lemma_downmix_shape<T>(raw: Seq<T>)
    ensures
        spec_pairs(raw).len() == raw.len() / 2,
        forall|k: int|
            0 <= k < raw.len() / 2 ==> #[trigger] spec_pairs(raw)[k] == (
            raw[2 * k],
            raw[2 * k + 1],
            ),
{
}

/// Law: when no raw sample is corrupt, the lossy filter keeps every
/// sample, so a fully valid mono stream decodes to one float per raw
/// sample.
pub proof fn lemma_keep_all<T>(s: Seq<Option<T>>)
    requires
        forall|i: int| 0 <= i < s.len() ==> s[i] is Some,
    ensures
        present_values(s).len() == s.len(),
    decreases s.len(),
{
    if s.len() > 0 {
        lemma_keep_all(s.drop_last());
    }
}

/// Law: a fully valid raw stream of an accepted channel count decodes to
/// exactly `floor(raw_sample_count / channel_count)` mono samples: every
/// raw sample of a mono stream, and one per adjacent pair of a stereo
/// stream. An accepted stream stores a whole number of inter-channel
/// samples (see [`WavDecoder::new`]), and then the floor loses nothing.
pub proof fn lemma_decoded_length<T>(raw: Seq<Option<T>>, channels: u16)
    requires
        1 <= channels <= 2,
        forall|i: int| 0 <= i < raw.len() ==> raw[i] is Some,
    ensures
        channels == 1 ==> present_values(raw).len() == raw.len(),
        channels == 2 ==> spec_pairs(present_values(raw)).len() == raw.len() / 2,
        channels == 2 && raw.len() % 2 == 0 ==> spec_pairs(present_values(raw)).len() * 2
            == raw.len(),
{
    lemma_keep_all(raw);
}

} // verus!
