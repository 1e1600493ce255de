//! The audio device: its mix format, how much it takes, and when another device
//! becomes the default.
use vstd::prelude::*;
use crate::decimal::{digits, push_decimal};
use crate::media::AudioStreamFormat;
use crate::text::owned;

verus! {

/// Which way a device carries sound.
#[derive(Clone, Copy, Debug, PartialEq, Eq, Structural)]
pub enum DataFlow {
    Render,
    Capture,
    All,
}

/// What a default device is used for.
#[derive(Clone, Copy, Debug, PartialEq, Eq, Structural)]
pub enum DeviceRole {
    Console,
    Multimedia,
    Communications,
}

/// A notification about devices.
#[derive(Clone, Copy, Debug, PartialEq, Eq, Structural)]
pub enum DeviceNotice {
    /// Another device became the default; the hash of its identity.
    DefaultChanged { flow: DataFlow, role: DeviceRole, endpoint: u64 },
    StateChanged,
    Added,
    Removed,
    PropertyChanged,
}

/// A product, of which the lowest 64 bits count.
pub open spec fn low_product(a: u64, b: u64) -> u64 {
    ((a as int * b as int) % 0x1_0000_0000_0000_0000) as u64
}

/// The FNV-1a hash of 16-bit units, begun with `hash`.
pub open spec fn fnv_from(hash: u64, units: Seq<u16>) -> u64
    decreases units.len(),
{
    if units.len() == 0 {
        hash
    } else {
        low_product(fnv_from(hash, units.drop_last()) ^ (units.last() as u64), 0x100_0000_01b3)
    }
}

/// The hash of a device's identity; a missing one has its own.
pub open spec fn endpoint_hash(id: Option<Seq<u16>>) -> u64 {
    match id {
        Some(units) => fnv_from(0xcbf2_9ce4_8422_2325, units),
        None => 1,
    }
}

/// The units of an identity.
pub open spec fn id_units(id: Option<&[u16]>) -> Option<Seq<u16>> {
    match id {
        Some(v) => Some(v@),
        None => None,
    }
}

/// The hash of a device's identity, which is in UTF-16.
pub fn endpoint_id_hash(id: Option<&[u16]>) -> (r: u64)
    ensures
        r == endpoint_hash(id_units(id)),
{
    let units = match id {
        Some(units) => units,
        None => {
            return 1;
        },
    };
    let mut hash: u64 = 0xcbf2_9ce4_8422_2325;
    let mut i: usize = 0;
    proof {
        assert(units@.take(0) =~= Seq::<u16>::empty());
    }
    while i < units.len()
        invariant
            i <= units@.len(),
            hash == fnv_from(0xcbf2_9ce4_8422_2325, units@.take(i as int)),
        decreases units@.len() - i,
    {
        proof {
            assert(units@.take(i + 1).drop_last() =~= units@.take(i as int));
            assert(units@.take(i + 1).last() == units@[i as int]);
        }
        hash = (hash ^ (units[i] as u64)).wrapping_mul(0x100_0000_01b3);
        i = i + 1;
    }
    proof {
        assert(units@.take(units@.len() as int) =~= units@);
    }
    hash
}

/// Remembers whether another device became the default since it was last asked.
#[derive(Clone, Copy, Debug, PartialEq, Eq, Structural)]
pub struct DefaultRenderEndpointWatch {
    pub changed: bool,
    pub last_endpoint_hash: u64,
}

/// Whether a notice is about the device that sound is played on.
pub open spec fn concerns_playback(flow: DataFlow, role: DeviceRole) -> bool {
    flow == DataFlow::Render && role == DeviceRole::Console
}

/// Whether a notice is about the device that sound is played on.
pub fn is_about_playback(flow: DataFlow, role: DeviceRole) -> (r: bool)
    ensures
        r == concerns_playback(flow, role),
{
    match (flow, role) {
        (DataFlow::Render, DeviceRole::Console) => true,
        _ => false,
    }
}

impl DefaultRenderEndpointWatch {
    pub fn new(current_endpoint_hash: u64) -> (r: Self)
        ensures
            !r.changed,
            r.last_endpoint_hash == current_endpoint_hash,
    {
        DefaultRenderEndpointWatch { changed: false, last_endpoint_hash: current_endpoint_hash }
    }

    /// After a notice: only another default device for playback counts.
    pub open spec fn after(self, notice: DeviceNotice) -> Self {
        match notice {
            DeviceNotice::DefaultChanged { flow, role, endpoint } => if concerns_playback(
                flow,
                role,
            ) {
                DefaultRenderEndpointWatch {
                    changed: self.changed || endpoint != self.last_endpoint_hash,
                    last_endpoint_hash: endpoint,
                }
            } else {
                self
            },
            _ => self,
        }
    }

    /// Takes up a notice.
    pub fn notify(&mut self, notice: &DeviceNotice)
        ensures
            *final(self) == old(self).after(*notice),
    {
        match *notice {
            DeviceNotice::DefaultChanged { flow, role, endpoint } => {
                if is_about_playback(flow, role) {
                    if endpoint != self.last_endpoint_hash {
                        self.changed = true;
                    }
                    self.last_endpoint_hash = endpoint;
                }
            },
            _ => {},
        }
    }

    /// Whether another device became the default, once.
    pub fn take_changed(&mut self) -> (r: bool)
        ensures
            r == old(self).changed,
            *final(self) == (DefaultRenderEndpointWatch { changed: false, ..*old(self) }),
    {
        let changed = self.changed;
        self.changed = false;
        changed
    }
}

/// A notice that is repeated adds nothing, also after the first one was taken.
pub proof fn repeated_notice_adds_nothing(w: DefaultRenderEndpointWatch, notice: DeviceNotice)
    ensures
        w.after(notice).after(notice) == w.after(notice),
        !(DefaultRenderEndpointWatch { changed: false, ..w.after(notice) }).after(notice).changed,
{
}

/// A notice about another flow or role, or of another kind, changes nothing.
pub proof fn other_notices_change_nothing(w: DefaultRenderEndpointWatch, notice: DeviceNotice)
    requires
        notice matches DeviceNotice::DefaultChanged { flow, role, .. } ==> !concerns_playback(
            flow,
            role,
        ),
    ensures
        w.after(notice) == w,
{
}

/// A device with another hash is noticed.
pub proof fn other_device_is_noticed(w: DefaultRenderEndpointWatch, endpoint: u64)
    requires
        endpoint != w.last_endpoint_hash,
    ensures
        w.after(
            DeviceNotice::DefaultChanged {
                flow: DataFlow::Render,
                role: DeviceRole::Console,
                endpoint,
            },
        ).changed,
{
}

/// Why the mix format of a device cannot be used.
#[derive(Clone, Copy, Debug, PartialEq, Eq, Structural)]
pub enum MixFormatError {
    NoBytesPerSample,
    /// The format with this tag holds no floating-point samples.
    NotFloat(u16),
}

/// The words for an unusable mix format.
pub open spec fn mix_error_text(error: MixFormatError) -> Seq<char> {
    match error {
        MixFormatError::NoBytesPerSample => "mix format reported zero bytes per sample"@,
        MixFormatError::NotFloat(tag) => "default shared mix format tag "@ + digits(tag as nat)
            + " is not a float format"@,
    }
}

impl MixFormatError {
    /// The words for the error.
    pub fn message(&self) -> (r: String)
        ensures
            r@ == mix_error_text(*self),
    {
        match self {
            MixFormatError::NoBytesPerSample => owned("mix format reported zero bytes per sample"),
            MixFormatError::NotFloat(tag) => {
                let mut out = owned("default shared mix format tag ");
                push_decimal(&mut out, *tag as u64);
                out.append(" is not a float format");
                out
            },
        }
    }
}

/// The tag of formats with floating-point samples.
pub const FORMAT_IEEE_FLOAT: u16 = 3;

/// The tag of formats that are described further on.
pub const FORMAT_EXTENSIBLE: u16 = 0xFFFE;

/// The layout of samples that a device mixes in. `channel_mask` counts where the
/// format is described further on.
pub fn audio_stream_format(
    format_tag: u16,
    sample_rate: u32,
    channels: u16,
    bits_per_sample: u16,
    channel_mask: u32,
) -> (r: Result<AudioStreamFormat, MixFormatError>)
    ensures
        r == (if bits_per_sample / 8 == 0 {
            Err::<AudioStreamFormat, MixFormatError>(MixFormatError::NoBytesPerSample)
        } else if format_tag != FORMAT_IEEE_FLOAT && format_tag != FORMAT_EXTENSIBLE {
            Err::<AudioStreamFormat, MixFormatError>(MixFormatError::NotFloat(format_tag))
        } else {
            Ok::<AudioStreamFormat, MixFormatError>(
                AudioStreamFormat {
                    sample_rate,
                    channels,
                    bytes_per_sample: bits_per_sample / 8,
                    channel_mask: if format_tag == FORMAT_EXTENSIBLE {
                        channel_mask as u64
                    } else {
                        0
                    },
                },
            )
        }),
{
    let bytes_per_sample: u16 = bits_per_sample / 8;
    if bytes_per_sample == 0 {
        return Err(MixFormatError::NoBytesPerSample);
    }
    if format_tag != FORMAT_IEEE_FLOAT && format_tag != FORMAT_EXTENSIBLE {
        return Err(MixFormatError::NotFloat(format_tag));
    }
    let mask: u64 = if format_tag == FORMAT_EXTENSIBLE {
        channel_mask as u64
    } else {
        0
    };
    Ok(AudioStreamFormat { sample_rate, channels, bytes_per_sample, channel_mask: mask })
}

/// The words for a format whose samples are not four bytes long.
pub open spec fn sample_size_text(format: AudioStreamFormat) -> Seq<char> {
    "default shared mix format is "@ + digits(format.sample_rate as nat) + " Hz, "@ + digits(
        format.channels as nat,
    ) + " channels, "@ + digits(format.bytes_per_sample as nat)
        + " bytes/sample; M3 currently supports only float shared-mode sinks"@
}

/// Whether the sink can play samples in a format: they are four bytes long.
pub fn check_sink_format(format: &AudioStreamFormat) -> (r: Result<(), String>)
    ensures
        match r {
            Ok(()) => format.bytes_per_sample == 4,
            Err(message) => format.bytes_per_sample != 4 && message@ == sample_size_text(*format),
        },
{
    if format.bytes_per_sample == 4 {
        return Ok(());
    }
    let mut out = owned("default shared mix format is ");
    push_decimal(&mut out, format.sample_rate as u64);
    out.append(" Hz, ");
    push_decimal(&mut out, format.channels as u64);
    out.append(" channels, ");
    push_decimal(&mut out, format.bytes_per_sample as u64);
    out.append(" bytes/sample; M3 currently supports only float shared-mode sinks");
    Err(out)
}

/// What is left of a stretch of audio: where it starts and how many frames it has.
#[derive(Clone, Copy, Debug, PartialEq, Eq, Structural)]
pub struct AudioWindow {
    pub start: u64,
    pub frames: u32,
}

/// What is left of a stretch of audio of which the device has taken `offset`
/// frames; nothing if all is taken or the bytes end before.
pub fn audio_window(frame_count: u32, offset: u32, data_len: u64, bytes_per_frame: u32) -> (r:
    Option<AudioWindow>)
    ensures
        match r {
            Some(w) => {
                &&& w.start == offset * bytes_per_frame
                &&& w.frames == frame_count - offset
                &&& w.frames > 0
                &&& w.start < data_len
            },
            None => frame_count <= offset || offset * bytes_per_frame >= data_len,
        },
{
    assert(offset * bytes_per_frame <= 0xffff_ffff * 0xffff_ffff) by (nonlinear_arith)
        requires
            offset <= 0xffff_ffff,
            bytes_per_frame <= 0xffff_ffff,
    ;
    let start: u64 = offset as u64 * bytes_per_frame as u64;
    let frames: u32 = frame_count.saturating_sub(offset);
    if frames == 0 || start >= data_len {
        return None;
    }
    Some(AudioWindow { start, frames })
}

/// What one write to the device is.
#[derive(Clone, Copy, Debug, PartialEq, Eq, Structural)]
pub enum WritePlan {
    /// The device takes nothing now.
    Nothing,
    /// Write this many frames, which are this many bytes.
    Write { frames: u32, bytes: u64 },
    /// The bytes are fewer than the frames need.
    TooShort,
}

/// How many frames a device takes now: those that are offered, as far as its
/// buffer has room.
pub open spec fn writable_frames(frame_count: u32, buffer_frames: u32, padding: u32) -> int {
    let room = if buffer_frames >= padding {
        buffer_frames - padding
    } else {
        0
    };
    if room <= frame_count {
        room
    } else {
        frame_count as int
    }
}

/// Decides one write to the device.
pub fn plan_write(
    data_len: u64,
    frame_count: u32,
    buffer_frames: u32,
    padding: u32,
    bytes_per_frame: u32,
) -> (r: WritePlan)
    ensures
        ({
            let frames = writable_frames(frame_count, buffer_frames, padding);
            if data_len == 0 || frames == 0 {
                r == WritePlan::Nothing
            } else if frames * bytes_per_frame > data_len {
                r == WritePlan::TooShort
            } else {
                r == (WritePlan::Write {
                    frames: frames as u32,
                    bytes: (frames * bytes_per_frame) as u64,
                })
            }
        }),
{
    if data_len == 0 || frame_count == 0 {
        return WritePlan::Nothing;
    }
    let room: u32 = buffer_frames.saturating_sub(padding);
    let frames: u32 = if room <= frame_count {
        room
    } else {
        frame_count
    };
    if frames == 0 {
        return WritePlan::Nothing;
    }
    assert(frames * bytes_per_frame <= 0xffff_ffff * 0xffff_ffff) by (nonlinear_arith)
        requires
            frames <= 0xffff_ffff,
            bytes_per_frame <= 0xffff_ffff,
    ;
    let bytes: u64 = frames as u64 * bytes_per_frame as u64;
    if bytes > data_len {
        return WritePlan::TooShort;
    }
    WritePlan::Write { frames, bytes }
}

/// A write never takes more than the device has room for, nor more than there is.
pub proof fn write_fits(frame_count: u32, buffer_frames: u32, padding: u32)
    requires
        padding <= buffer_frames,
    ensures
        writable_frames(frame_count, buffer_frames, padding) <= frame_count,
        padding + writable_frames(frame_count, buffer_frames, padding) <= buffer_frames,
{
}

/// A notice counts where it is about the console's device for playing, and where
/// it names another device than the one before.
pub proof fn notice_counts_for_another_playing_device(
    w: DefaultRenderEndpointWatch,
    flow: DataFlow,
    role: DeviceRole,
    endpoint: u64,
)
    ensures
        ({
            let after = w.after(DeviceNotice::DefaultChanged { flow, role, endpoint });
            &&& flow == DataFlow::Render && role == DeviceRole::Console ==> (after.changed == (
            w.changed || endpoint != w.last_endpoint_hash) && after.last_endpoint_hash == endpoint)
            &&& flow != DataFlow::Render || role != DeviceRole::Console ==> after == w
        }),
{
}

/// A device takes what is offered as far as it has room, and all of it or all of
/// its room is used.
pub proof fn offered_frames_fill_the_room(frame_count: u32, buffer_frames: u32, padding: u32)
    ensures
        ({
            let taken = writable_frames(frame_count, buffer_frames, padding);
            &&& 0 <= taken <= frame_count
            &&& padding <= buffer_frames ==> padding + taken <= buffer_frames && (taken
                == frame_count || padding + taken == buffer_frames)
            &&& padding > buffer_frames ==> taken == 0
        }),
{
}

/// An identity's hash is that of the identity without its last unit, combined
/// with that unit and multiplied by the prime of the hash, of which the lowest
/// 64 bits count.
pub proof fn hash_takes_unit_after_unit(units: Seq<u16>, unit: u16)
    ensures
        endpoint_hash(Some(Seq::empty())) == 0xcbf2_9ce4_8422_2325,
        endpoint_hash(None) == 1,
        endpoint_hash(Some(units.push(unit))) == ((endpoint_hash(Some(units)) ^ (unit as u64))
            as int * 0x100_0000_01b3) % 0x1_0000_0000_0000_0000,
{
    assert(units.push(unit).drop_last() =~= units);
    let x = endpoint_hash(Some(units)) ^ (unit as u64);
    assert(0 <= (x as int * 0x100_0000_01b3) % 0x1_0000_0000_0000_0000 < 0x1_0000_0000_0000_0000);
}

} // verus!
