//! Taking pictures and sound out of the decoders.
use vstd::prelude::*;
use crate::audio_batcher::{PendingAudioFrame, Stamps};
use crate::decode_math::{
    decoded_frame_pts, display_size, nv12_layout, pts_nanos, sample_aspect, ConvertError, Nv12Layout,
    TimeBase, NO_TIMESTAMP,
};
use crate::decimal::push_decimal;
use crate::drop_stats::counted;
use crate::events::PendingVideoFrame;
use crate::interrupt::signed_text;
use crate::media::AudioStreamFormat;
use crate::text::owned;
use crate::time::Duration;

verus! {

/// One way in which a decoder can use hardware.
#[derive(Clone, Copy, Debug, PartialEq, Eq, Structural)]
pub struct HardwareConfig {
    /// It gives pictures as textures of the graphics device.
    pub gives_textures: bool,
    /// It decodes on the graphics device.
    pub on_graphics_device: bool,
    /// It can be told which device to use.
    pub takes_device: bool,
}

impl HardwareConfig {
    /// Whether pictures can be decoded this way.
    pub open spec fn is_usable(self) -> bool {
        self.gives_textures && self.on_graphics_device && self.takes_device
    }
}

/// Whether a decoder can decode on the graphics device.
pub fn ensure_decoder_supports_d3d11(configs: &Vec<HardwareConfig>) -> (r: Result<(), String>)
    ensures
        match r {
            Ok(()) => exists|i: int|
                0 <= i < configs@.len() && (#[trigger] configs@[i]).is_usable(),
            Err(message) => {
                &&& forall|i: int|
                    0 <= i < configs@.len() ==> !(#[trigger] configs@[i]).is_usable()
                &&& message@ == "decoder does not advertise AV_PIX_FMT_D3D11 via HW_DEVICE_CTX"@
            },
        },
{
    let mut i: usize = 0;
    while i < configs.len()
        invariant
            i <= configs@.len(),
            forall|k: int| 0 <= k < i ==> !(#[trigger] configs@[k]).is_usable(),
        decreases configs@.len() - i,
    {
        let c = configs[i];
        if c.gives_textures && c.on_graphics_device && c.takes_device {
            proof {
                assert(configs@[i as int].is_usable());
            }
            return Ok(());
        }
        i = i + 1;
    }
    Err(owned("decoder does not advertise AV_PIX_FMT_D3D11 via HW_DEVICE_CTX"))
}

/// Whether a list that `end` closes offers a format.
pub open spec fn offers(formats: Seq<i32>, wanted: i32, end: i32) -> bool {
    exists|i: int|
        0 <= i < formats.len() && #[trigger] formats[i] == wanted && forall|k: int|
            0 <= k <= i ==> #[trigger] formats[k] != end
}

/// Chooses the wanted format where the list, which `end` closes, offers it;
/// `end` stands for none.
pub fn select_d3d11_pixel_format(formats: &Vec<i32>, wanted: i32, end: i32) -> (r: i32)
    ensures
        r == (if offers(formats@, wanted, end) {
            wanted
        } else {
            end
        }),
{
    let mut i: usize = 0;
    while i < formats.len() && formats[i] != end
        invariant
            i <= formats@.len(),
            forall|k: int| 0 <= k < i ==> #[trigger] formats@[k] != end,
            forall|k: int| 0 <= k < i ==> #[trigger] formats@[k] != wanted,
        decreases formats@.len() - i,
    {
        if formats[i] == wanted {
            proof {
                assert(formats@[i as int] == wanted);
            }
            return wanted;
        }
        i = i + 1;
    }
    proof {
        if offers(formats@, wanted, end) {
            let at = choose|at: int|
                0 <= at < formats@.len() && #[trigger] formats@[at] == wanted && forall|k: int|
                    0 <= k <= at ==> #[trigger] formats@[k] != end;
            assert(at >= i);
            assert(formats@[i as int] != end);
        }
    }
    end
}

/// What a decoded picture carries beside its pixels.
#[derive(Clone, Copy, Debug, PartialEq, Eq, Structural)]
pub enum SideData {
    MasteringDisplay,
    ContentLight,
    Other,
}

/// Light levels came with a picture, in a form that is not understood.
#[derive(Clone, Copy, Debug, PartialEq, Eq, Structural)]
pub struct UnverifiedHdrMetadata;

/// Looks for light levels at a picture. Entries may be missing.
pub fn extract_hdr_metadata_from_frame(entries: &Vec<Option<SideData>>) -> (r: Result<
    (),
    UnverifiedHdrMetadata,
>)
    ensures
        r is Err <==> exists|i: int|
            0 <= i < entries@.len() && (#[trigger] entries@[i] == Some(SideData::MasteringDisplay)
                || entries@[i] == Some(SideData::ContentLight)),
{
    let mut i: usize = 0;
    while i < entries.len()
        invariant
            i <= entries@.len(),
            forall|k: int|
                0 <= k < i ==> #[trigger] entries@[k] != Some(SideData::MasteringDisplay)
                    && entries@[k] != Some(SideData::ContentLight),
        decreases entries@.len() - i,
    {
        match entries[i] {
            Some(SideData::MasteringDisplay) => {
                proof {
                    assert(entries@[i as int] == Some(SideData::MasteringDisplay));
                }
                return Err(UnverifiedHdrMetadata);
            },
            Some(SideData::ContentLight) => {
                proof {
                    assert(entries@[i as int] == Some(SideData::ContentLight));
                }
                return Err(UnverifiedHdrMetadata);
            },
            _ => {},
        }
        i = i + 1;
    }
    Ok(())
}

/// What the decoder says of a picture.
#[derive(Clone, Copy, Debug, PartialEq, Eq, Structural)]
pub struct FrameHeader {
    pub best_effort: i64,
    pub pts: i64,
    pub width: u32,
    pub height: u32,
    pub sar_num: i32,
    pub sar_den: i32,
}

impl FrameHeader {
    /// The time stamp that counts.
    pub open spec fn stamp(self) -> i64 {
        if self.best_effort != NO_TIMESTAMP {
            self.best_effort
        } else {
            self.pts
        }
    }

    /// The width as it is shown.
    pub open spec fn shown_width(self) -> int {
        if self.sar_num > 0 && self.sar_den > 0 {
            self.width * self.sar_num / (self.sar_den as int)
        } else {
            self.width as int
        }
    }

    /// Whether the stretched width can be computed.
    pub open spec fn is_measurable(self) -> bool {
        self.sar_num > 0 && self.sar_den > 0 ==> self.width * self.sar_num <= u32::MAX
    }
}

/// The picture as it is handed over; `surface` finds its pixels.
pub fn pending_video_frame(header: FrameHeader, base: TimeBase, stamps: Stamps, surface: u64) -> (r:
    PendingVideoFrame)
    requires
        header.is_measurable(),
    ensures
        r == (PendingVideoFrame {
            open_gen: stamps.open_gen,
            seek_gen: stamps.seek_gen,
            op_id: stamps.op_id,
            pts: Duration { nanos: pts_nanos(header.stamp(), base) as u128 },
            surface,
            display_width: header.shown_width() as u32,
            display_height: header.height,
        }),
{
    let (sar_num, sar_den) = sample_aspect(header.sar_num, header.sar_den);
    proof {
        if header.sar_num > 0 && header.sar_den > 0 {
            assert(sar_num == header.sar_num && sar_den == header.sar_den);
        } else {
            assert(header.width * sar_num / (sar_den as int) == header.width) by (nonlinear_arith)
                requires
                    sar_num == 1,
                    sar_den == 1,
            ;
        }
    }
    let (display_width, display_height) = display_size(
        header.width,
        header.height,
        sar_num,
        sar_den,
    );
    PendingVideoFrame {
        open_gen: stamps.open_gen,
        seek_gen: stamps.seek_gen,
        op_id: stamps.op_id,
        pts: decoded_frame_pts(header.best_effort, header.pts, base),
        surface,
        display_width,
        display_height,
    }
}

/// Where taking pictures out of a decoder stands.
#[derive(Clone, Copy, Debug, PartialEq, Eq, Structural)]
pub enum ReceiveStage {
    Receiving,
    Converting,
    HandingOver,
    Over,
}

/// Why taking pictures failed.
#[derive(Clone, Copy, Debug, PartialEq, Eq, Structural)]
pub enum ReceiveFailure {
    /// The call that was made failed, for the reason that it gave.
    Call,
    DeviceRemoved,
    /// The hardware decoder gave a picture in this format.
    UnexpectedFormat(i32),
}

/// What to do next.
#[derive(Clone, Copy, Debug, PartialEq, Eq, Structural)]
pub enum ReceiveStep {
    /// Take a picture out of the decoder.
    Receive,
    /// Copy the picture into a surface of its own.
    Convert,
    /// Hand the picture over.
    HandOver,
    /// Let the picture go and stop.
    DropAndStop,
    /// There is no other picture now, or a newer command has come.
    Stop,
    Fail(ReceiveFailure),
}

/// How a call went.
#[derive(Clone, Copy, Debug, PartialEq, Eq, Structural)]
pub enum ReceiveReply {
    /// A picture was taken out, in this format.
    Picture(i32),
    /// The decoder wants more packets, or has given all.
    Drained,
    Done,
    Failed,
}

/// The words for a failure; `call` is what a failed call said.
pub open spec fn receive_failure_text(failure: ReceiveFailure, call: Seq<char>) -> Seq<char> {
    match failure {
        ReceiveFailure::Call => call,
        ReceiveFailure::DeviceRemoved => "D3D11 device removed during hardware decode"@,
        ReceiveFailure::UnexpectedFormat(format) =>
            "decoder produced unexpected pixel format "@ + signed_text(format as int)
                + " instead of AV_PIX_FMT_D3D11"@,
    }
}

/// Appends a number with its sign.
fn push_signed(out: &mut String, n: i32)
    ensures
        final(out)@ == old(out)@ + signed_text(n as int),
{
    let ghost before = out@;
    if n < 0 {
        out.push('-');
        push_decimal(out, (-(n as i64)) as u64);
        assert(out@ =~= before + signed_text(n as int));
    } else {
        push_decimal(out, n as u64);
    }
}

/// The words for a failure; `call` is what a failed call said.
pub fn receive_failure_message(failure: ReceiveFailure, call: &str) -> (r: String)
    ensures
        r@ == receive_failure_text(failure, call@),
{
    match failure {
        ReceiveFailure::Call => owned(call),
        ReceiveFailure::DeviceRemoved => owned("D3D11 device removed during hardware decode"),
        ReceiveFailure::UnexpectedFormat(format) => {
            let mut out = owned("decoder produced unexpected pixel format ");
            push_signed(&mut out, format);
            out.append(" instead of AV_PIX_FMT_D3D11");
            out
        },
    }
}

/// The taking of pictures out of a decoder, until it has no more or a newer
/// command has come.
#[derive(Clone, Copy, Debug, PartialEq, Eq, Structural)]
pub struct VideoReceive {
    pub stage: ReceiveStage,
    /// The format of hardware pictures; a software decoder has none.
    pub texture_format: Option<i32>,
    pub produced_frames: u64,
}

impl VideoReceive {
    /// At another stage.
    pub open spec fn at(self, stage: ReceiveStage) -> Self {
        VideoReceive { stage, ..self }
    }

    /// To the next picture.
    pub open spec fn again(self, cancelled: bool, device_removed: bool) -> (Self, ReceiveStep) {
        if cancelled {
            (self.at(ReceiveStage::Over), ReceiveStep::Stop)
        } else if self.texture_format is Some && device_removed {
            (self.at(ReceiveStage::Over), ReceiveStep::Fail(ReceiveFailure::DeviceRemoved))
        } else {
            (self.at(ReceiveStage::Receiving), ReceiveStep::Receive)
        }
    }

    /// Whether a reply can be one to the call at hand.
    pub open spec fn expects(self, reply: ReceiveReply) -> bool {
        match self.stage {
            ReceiveStage::Receiving => !(reply is Done),
            ReceiveStage::Converting => reply is Done || reply is Failed,
            ReceiveStage::HandingOver => reply is Done || reply is Failed,
            ReceiveStage::Over => false,
        }
    }

    /// What comes next.
    pub open spec fn after(self, reply: ReceiveReply, cancelled: bool, device_removed: bool) -> (
        Self,
        ReceiveStep,
    ) {
        match (self.stage, reply) {
            (ReceiveStage::Receiving, ReceiveReply::Drained) => (
                self.at(ReceiveStage::Over),
                ReceiveStep::Stop,
            ),
            (ReceiveStage::Receiving, ReceiveReply::Picture(format)) => if cancelled {
                (self.at(ReceiveStage::Over), ReceiveStep::DropAndStop)
            } else if self.texture_format is Some && self.texture_format != Some(format) {
                (
                    self.at(ReceiveStage::Over),
                    ReceiveStep::Fail(ReceiveFailure::UnexpectedFormat(format)),
                )
            } else {
                (self.at(ReceiveStage::Converting), ReceiveStep::Convert)
            },
            (ReceiveStage::Converting, ReceiveReply::Done) => (
                VideoReceive {
                    stage: ReceiveStage::HandingOver,
                    produced_frames: counted(self.produced_frames),
                    ..self
                },
                ReceiveStep::HandOver,
            ),
            (ReceiveStage::HandingOver, ReceiveReply::Done) => self.again(
                cancelled,
                device_removed,
            ),
            _ => (self.at(ReceiveStage::Over), ReceiveStep::Fail(ReceiveFailure::Call)),
        }
    }

    /// Begins.
    pub fn begin(
        texture_format: Option<i32>,
        produced_frames: u64,
        cancelled: bool,
        device_removed: bool,
    ) -> (r: (Self, ReceiveStep))
        ensures
            r == (VideoReceive {
                stage: ReceiveStage::Receiving,
                texture_format,
                produced_frames,
            }).again(cancelled, device_removed),
    {
        let mut receive = VideoReceive {
            stage: ReceiveStage::Receiving,
            texture_format,
            produced_frames,
        };
        let step = receive.go_on(cancelled, device_removed);
        (receive, step)
    }

    /// Goes to the next picture.
    fn go_on(&mut self, cancelled: bool, device_removed: bool) -> (r: ReceiveStep)
        ensures
            (*final(self), r) == old(self).again(cancelled, device_removed),
    {
        if cancelled {
            self.stage = ReceiveStage::Over;
            return ReceiveStep::Stop;
        }
        if self.texture_format.is_some() && device_removed {
            self.stage = ReceiveStage::Over;
            return ReceiveStep::Fail(ReceiveFailure::DeviceRemoved);
        }
        self.stage = ReceiveStage::Receiving;
        ReceiveStep::Receive
    }

    /// Takes up how the last call went; returns what to do next.
    pub fn advance(&mut self, reply: ReceiveReply, cancelled: bool, device_removed: bool) -> (r:
        ReceiveStep)
        requires
            old(self).expects(reply),
        ensures
            (*final(self), r) == old(self).after(reply, cancelled, device_removed),
    {
        match (self.stage, reply) {
            (ReceiveStage::Receiving, ReceiveReply::Drained) => {
                self.stage = ReceiveStage::Over;
                ReceiveStep::Stop
            },
            (ReceiveStage::Receiving, ReceiveReply::Picture(format)) => {
                if cancelled {
                    self.stage = ReceiveStage::Over;
                    return ReceiveStep::DropAndStop;
                }
                if let Some(expected) = self.texture_format {
                    if expected != format {
                        self.stage = ReceiveStage::Over;
                        return ReceiveStep::Fail(ReceiveFailure::UnexpectedFormat(format));
                    }
                }
                self.stage = ReceiveStage::Converting;
                ReceiveStep::Convert
            },
            (ReceiveStage::Converting, ReceiveReply::Done) => {
                self.produced_frames = self.produced_frames.saturating_add(1);
                self.stage = ReceiveStage::HandingOver;
                ReceiveStep::HandOver
            },
            (ReceiveStage::HandingOver, ReceiveReply::Done) => self.go_on(
                cancelled,
                device_removed,
            ),
            _ => {
                self.stage = ReceiveStage::Over;
                ReceiveStep::Fail(ReceiveFailure::Call)
            },
        }
    }
}

/// Every picture that is handed over is counted, and no other.
pub proof fn handed_over_is_counted(
    receive: VideoReceive,
    reply: ReceiveReply,
    cancelled: bool,
    device_removed: bool,
)
    requires
        receive.expects(reply),
    ensures
        ({
            let (next, step) = receive.after(reply, cancelled, device_removed);
            next.produced_frames == (if step == ReceiveStep::HandOver {
                counted(receive.produced_frames)
            } else {
                receive.produced_frames
            })
        }),
{
}

/// Once a newer command has come, no other picture is taken out, and none that
/// was taken out is copied.
pub proof fn cancelled_receive_copies_nothing(
    receive: VideoReceive,
    reply: ReceiveReply,
    device_removed: bool,
)
    requires
        receive.expects(reply),
    ensures
        receive.after(reply, true, device_removed).1 != ReceiveStep::Receive,
        receive.after(reply, true, device_removed).1 != ReceiveStep::Convert,
{
}

/// The taking of sound out of a decoder. What was taken out is always handed
/// over; only between two pieces does a newer command stop it.
#[derive(Clone, Copy, Debug, PartialEq, Eq, Structural)]
pub enum AudioReceiveStep {
    /// Take a piece out of the decoder.
    Receive,
    /// Resample the piece and hand it over.
    HandOver,
    /// There is no other piece now, or a newer command has come.
    Stop,
    Fail,
}

/// What comes before each piece.
pub fn begin_audio_receive(cancelled: bool) -> (r: AudioReceiveStep)
    ensures
        r == (if cancelled {
            AudioReceiveStep::Stop
        } else {
            AudioReceiveStep::Receive
        }),
{
    if cancelled {
        AudioReceiveStep::Stop
    } else {
        AudioReceiveStep::Receive
    }
}

/// What follows the taking of a piece.
pub fn audio_received(drained: bool, status: i32) -> (r: AudioReceiveStep)
    ensures
        r == (if drained {
            AudioReceiveStep::Stop
        } else if status < 0 {
            AudioReceiveStep::Fail
        } else {
            AudioReceiveStep::HandOver
        }),
{
    if drained {
        AudioReceiveStep::Stop
    } else if status < 0 {
        AudioReceiveStep::Fail
    } else {
        AudioReceiveStep::HandOver
    }
}

/// Bytes for so many resampled frames.
pub fn resampled_bytes(frames: u32, format: &AudioStreamFormat) -> (r: u64)
    ensures
        r == frames * format.frame_bytes(),
{
    let bytes: u32 = format.bytes_per_frame();
    assert(frames * bytes <= 0xffff_ffff * 0xffff_ffff) by (nonlinear_arith)
        requires
            frames <= 0xffff_ffff,
            bytes <= 0xffff_ffff,
    ;
    frames as u64 * bytes as u64
}

/// A piece of sound as it is handed over where none is gathered.
pub fn pending_audio_frame(
    pts: Duration,
    data: Vec<u8>,
    format: AudioStreamFormat,
    stamps: Stamps,
    produced_frames: &mut u64,
) -> (r: PendingAudioFrame)
    requires
        format.frame_bytes() > 0,
    ensures
        r == (PendingAudioFrame {
            open_gen: stamps.open_gen,
            seek_gen: stamps.seek_gen,
            op_id: stamps.op_id,
            pts,
            format,
            frame_count: (data@.len() as int / format.frame_bytes() % 0x1_0000_0000) as u32,
            data,
        }),
        *final(produced_frames) == counted(*old(produced_frames)),
{
    let bytes: u32 = format.bytes_per_frame();
    let frames: u64 = data.len() as u64 / bytes as u64;
    *produced_frames = (*produced_frames).saturating_add(1);
    PendingAudioFrame {
        open_gen: stamps.open_gen,
        seek_gen: stamps.seek_gen,
        op_id: stamps.op_id,
        pts,
        format,
        frame_count: (frames % 0x1_0000_0000) as u32,
        data,
    }
}

/// The software converter, made for pictures of one shape.
#[derive(Clone, Copy, Debug, PartialEq, Eq, Structural)]
pub struct SoftwareVideoConverter {
    pub is_made: bool,
    pub source_width: i32,
    pub source_height: i32,
    pub source_format: i32,
}

/// How a picture is converted.
#[derive(Clone, Copy, Debug, PartialEq, Eq, Structural)]
pub struct ConvertPlan {
    /// The converter has to be made for this shape first.
    pub recreate: bool,
    pub layout: Nv12Layout,
}

impl SoftwareVideoConverter {
    /// Whether it was made for this shape.
    pub open spec fn fits(self, width: i32, height: i32, format: i32) -> bool {
        self.is_made && self.source_width == width && self.source_height == height
            && self.source_format == format
    }

    /// None yet.
    pub fn new() -> (r: Self)
        ensures
            r == (SoftwareVideoConverter {
                is_made: false,
                source_width: 0,
                source_height: 0,
                source_format: 0,
            }),
    {
        SoftwareVideoConverter {
            is_made: false,
            source_width: 0,
            source_height: 0,
            source_format: 0,
        }
    }

    /// Plans the conversion of a picture.
    pub fn convert(&self, width: i32, height: i32, format: i32) -> (r: Result<
        ConvertPlan,
        ConvertError,
    >)
        ensures
            match r {
                Ok(plan) => {
                    &&& width > 0 && height > 0 && width % 2 == 0 && height % 2 == 0
                    &&& plan.recreate == !self.fits(width, height, format)
                    &&& plan.layout.stride == width
                    &&& plan.layout.y_len == width * height
                    &&& 2 * plan.layout.uv_len == plan.layout.y_len
                },
                Err(ConvertError::InvalidDimensions) => width <= 0 || height <= 0,
                Err(ConvertError::OddDimensions) => width > 0 && height > 0 && (width % 2 != 0
                    || height % 2 != 0),
            },
    {
        match nv12_layout(width, height) {
            Ok(layout) => Ok(
                ConvertPlan {
                    recreate: !self.is_made || self.source_width != width || self.source_height
                        != height || self.source_format != format,
                    layout,
                },
            ),
            Err(error) => Err(error),
        }
    }

    /// Takes up whether the converter could be made for a shape. The one before is
    /// gone either way.
    pub fn recreate(&mut self, width: i32, height: i32, format: i32, made: bool) -> (r: Result<
        (),
        String,
    >)
        ensures
            match r {
                Ok(()) => made && final(self).fits(width, height, format),
                Err(message) => {
                    &&& !made
                    &&& *final(self) == (SoftwareVideoConverter { is_made: false, ..*old(self) })
                    &&& message@ == "failed to create software video converter from pixel format "@
                        + signed_text(format as int) + " to NV12"@
                },
            },
    {
        self.is_made = made;
        if !made {
            let mut out = owned("failed to create software video converter from pixel format ");
            push_signed(&mut out, format);
            out.append(" to NV12");
            return Err(out);
        }
        self.source_width = width;
        self.source_height = height;
        self.source_format = format;
        Ok(())
    }
}

/// Each picture that comes out is converted, handed over and followed by the next one,
/// until none is left. One of another format than the graphics device gives is a
/// failure, and so is the loss of that device.
pub proof fn pictures_are_handed_over_one_by_one(
    receive: VideoReceive,
    format: i32,
    device_removed: bool,
)
    ensures
        receive.stage == ReceiveStage::Receiving ==> receive.after(
            ReceiveReply::Drained,
            false,
            device_removed,
        ).1 == ReceiveStep::Stop,
        receive.stage == ReceiveStage::Receiving ==> receive.after(
            ReceiveReply::Picture(format),
            false,
            device_removed,
        ).1 == (if receive.texture_format is Some && receive.texture_format != Some(format) {
            ReceiveStep::Fail(ReceiveFailure::UnexpectedFormat(format))
        } else {
            ReceiveStep::Convert
        }),
        receive.stage == ReceiveStage::Converting ==> receive.after(
            ReceiveReply::Done,
            false,
            device_removed,
        ).1 == ReceiveStep::HandOver,
        receive.stage == ReceiveStage::HandingOver ==> receive.after(
            ReceiveReply::Done,
            false,
            device_removed,
        ).1 == (if receive.texture_format is Some && device_removed {
            ReceiveStep::Fail(ReceiveFailure::DeviceRemoved)
        } else {
            ReceiveStep::Receive
        }),
{
}

/// The better time stamp of a picture counts, and its own where there is no better one;
/// a picture whose pixels are not square is stretched by their shape.
pub proof fn header_gives_time_and_width(h: FrameHeader)
    ensures
        h.best_effort != NO_TIMESTAMP ==> h.stamp() == h.best_effort,
        h.best_effort == NO_TIMESTAMP ==> h.stamp() == h.pts,
        h.sar_num > 0 && h.sar_num == h.sar_den ==> h.shown_width() == h.width,
        h.sar_num <= 0 || h.sar_den <= 0 ==> h.shown_width() == h.width,
        h.sar_num > 0 && h.sar_den == 1 ==> h.shown_width() == h.width * h.sar_num,
{
    if h.sar_num > 0 && h.sar_num == h.sar_den {
        let n = h.sar_num as int;
        assert(h.width * n / n == h.width) by (nonlinear_arith)
            requires
                n > 0,
        ;
    }
}

/// A format is offered where it stands in the list before what closes it.
pub proof fn list_offers_what_stands_before_its_end(
    formats: Seq<i32>,
    wanted: i32,
    end: i32,
    at: int,
)
    requires
        0 <= at < formats.len(),
        formats[at] == end,
        wanted != end,
        forall|k: int| 0 <= k < at ==> #[trigger] formats[k] != end,
    ensures
        offers(formats, wanted, end) <==> exists|i: int| 0 <= i < at && #[trigger] formats[i]
            == wanted,
{
    if exists|i: int| 0 <= i < at && #[trigger] formats[i] == wanted {
        let i = choose|i: int| 0 <= i < at && #[trigger] formats[i] == wanted;
        assert(formats[i] == wanted);
    }
}

} // verus!
