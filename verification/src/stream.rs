//! What happens to the buffers of a video stream, and what is said when no
//! frame comes out of them.
use vstd::prelude::*;
use vstd::string::StringExecFns;

use crate::frame::{frame_to_rgb, FrameSlot, VideoFormat};
#[allow(unused_imports)]
use crate::frame::{decodable, law_whole_buffers_become_images, published, shows};
use crate::shot::Screenshot;
use crate::text::push_decimal;
#[allow(unused_imports)]
use crate::text::decimal;

verus! {

/// The frames per second that are asked for.
pub const FRAMERATE: u32 = 30;

/// How many seconds the first frame is waited for.
pub const FIRST_FRAME_TIMEOUT_SECS: u32 = 5;

/// The video formats that are offered to the other side.
pub struct FormatOffer {
    /// The layout that is preferred.
    pub preferred: VideoFormat,
    /// The layouts to choose from.
    pub formats: Vec<VideoFormat>,
    /// The preferred, the smallest and the largest width and height.
    pub size: (u32, u32),
    pub min_size: (u32, u32),
    pub max_size: (u32, u32),
    /// The preferred, the lowest and the highest frame rate.
    pub rate: u32,
    pub min_rate: u32,
    pub max_rate: u32,
}

/// The offer: only layouts whose pixels need no more than their bytes put in
/// order, any size up to 8192 by 8192, and any frame rate up to 1000.
pub fn format_offer() -> (res: FormatOffer)
    ensures
        res.preferred == VideoFormat::Bgrx,
        res.formats@ == seq![
            VideoFormat::Bgrx,
            VideoFormat::Bgra,
            VideoFormat::Rgbx,
            VideoFormat::Rgba,
            VideoFormat::Rgb,
        ],
        res.size == (1920u32, 1080u32),
        res.min_size == (1u32, 1u32),
        res.max_size == (8192u32, 8192u32),
        res.rate == FRAMERATE,
        res.rate == 30,
        res.min_rate == 0,
        res.max_rate == 1000,
        forall|i: int| 0 <= i < res.formats@.len() ==> (#[trigger] res.formats@[i]).supported(),
        res.formats@.contains(res.preferred),
{
    let mut formats: Vec<VideoFormat> = Vec::new();
    formats.push(VideoFormat::Bgrx);
    formats.push(VideoFormat::Bgra);
    formats.push(VideoFormat::Rgbx);
    formats.push(VideoFormat::Rgba);
    formats.push(VideoFormat::Rgb);
    assert(formats@[0] == VideoFormat::Bgrx);
    FormatOffer {
        preferred: VideoFormat::Bgrx,
        formats,
        size: (1920, 1080),
        min_size: (1, 1),
        max_size: (8192, 8192),
        rate: FRAMERATE,
        min_rate: 0,
        max_rate: 1000,
    }
}

/// The kind of media that a stream parameter describes.
#[derive(Debug, Clone, Copy)]
pub struct MediaKind {
    pub video: bool,
    pub raw: bool,
}

/// A stream parameter that has changed.
#[derive(Debug, Clone, Copy)]
pub struct ParamHeader {
    /// Whether it is the format parameter.
    pub is_format: bool,
    /// The media it describes, if that could be read.
    pub media: Option<MediaKind>,
}

/// Whether a changed parameter (`None`: it was cleared) is a raw video format,
/// which is to be taken over.
pub fn is_video_format(param: Option<ParamHeader>) -> (res: bool)
    ensures
        res <==> param is Some && param->0.is_format && param->0.media is Some
            && param->0.media->0.video && param->0.media->0.raw,
{
    match param {
        None => false,
        Some(header) => if !header.is_format {
            false
        } else {
            match header.media {
                None => false,
                Some(media) => media.video && media.raw,
            }
        },
    }
}

/// The video format that was agreed on. The size is zero before that.
#[derive(Debug, Clone, Copy)]
pub struct VideoInfo {
    pub format: VideoFormat,
    pub width: u32,
    pub height: u32,
}

/// What came of dequeuing a buffer, as far as its first plane.
pub enum Buffer<'a> {
    /// The buffer has no planes.
    NoPlane,
    /// The plane's memory cannot be read by the processor.
    Unmapped,
    /// The plane's bytes, and the distance between the beginnings of two rows.
    Mapped { data: &'a [u8], stride: usize },
}

/// What becomes of a buffer.
pub enum BufferOutcome {
    /// There is nothing to show.
    Skipped,
    /// The layout that was agreed on is not one that was offered.
    Unsupported,
    /// A frame.
    Frame(Screenshot),
}

/// Counts of what has happened to a stream's buffers, kept to name the cause
/// when no frame arrives. The counters wrap round.
#[derive(Debug, Clone, Copy)]
pub struct StreamDiagnostics {
    /// A video format was agreed on.
    pub format_negotiated: bool,
    /// Buffers that came.
    pub buffers_dequeued: u32,
    /// Buffers whose memory could not be read.
    pub planes_unmapped: u32,
    /// Buffers that became frames.
    pub frames_decoded: u32,
}

/// `n` counted up by one, wrapping round.
pub open spec fn counted(n: u32) -> u32 {
    if n == u32::MAX {
        0
    } else {
        (n + 1) as u32
    }
}

impl StreamDiagnostics {
    /// Nothing has happened yet.
    pub fn new() -> (res: Self)
        ensures
            !res.format_negotiated,
            res.buffers_dequeued == 0,
            res.planes_unmapped == 0,
            res.frames_decoded == 0,
            res.consistent(),
    {
        StreamDiagnostics {
            format_negotiated: false,
            buffers_dequeued: 0,
            planes_unmapped: 0,
            frames_decoded: 0,
        }
    }

    /// Every buffer is counted, and has become at most one other thing.
    pub open spec fn consistent(self) -> bool {
        self.planes_unmapped + self.frames_decoded <= self.buffers_dequeued
    }

    /// Why no frame came, in words.
    pub open spec fn no_frame_text(self) -> Seq<char> {
        let secs = decimal(FIRST_FRAME_TIMEOUT_SECS as nat);
        if self.planes_unmapped > 0 {
            "no readable frame after "@ + secs + "s: the compositor delivered "@ + decimal(
                self.planes_unmapped as nat,
            )
                + " buffer(s) with no CPU-mappable data, which means DMA-BUF (GPU memory). colza only reads shared-memory buffers, so this compositor/driver combination isn't supported yet — importing DMA-BUF would need an EGL path"@
        } else if self.buffers_dequeued == 0 && !self.format_negotiated {
            "no frame after "@ + secs
                + "s and the video format was never negotiated: the PipeWire stream likely never reached the compositor's node (check that the screen-share permission wasn't revoked mid-session)"@
        } else if self.buffers_dequeued == 0 {
            "no frame after "@ + secs
                + "s: the video format was negotiated but the compositor sent no buffers. The captured monitor may be asleep or powered off"@
        } else {
            "no frame after "@ + secs + "s: "@ + decimal(self.buffers_dequeued as nat)
                + " buffer(s) arrived and were mappable but only "@ + decimal(
                self.frames_decoded as nat,
            )
                + " decoded. Likely an unexpected pixel format, in which case earlier stderr output names it, or buffers shorter than the negotiated size"@
        }
    }

    /// The message for a first frame that was waited for in vain: names the most
    /// likely cause.
    pub fn no_frame_error(&self) -> (res: String)
        ensures
            res@ == self.no_frame_text(),
    {
        let mut out: String = String::new();
        if self.planes_unmapped > 0 {
            out.append("no readable frame after ");
            push_decimal(&mut out, FIRST_FRAME_TIMEOUT_SECS);
            out.append("s: the compositor delivered ");
            push_decimal(&mut out, self.planes_unmapped);
            out.append(
                " buffer(s) with no CPU-mappable data, which means DMA-BUF (GPU memory). colza only reads shared-memory buffers, so this compositor/driver combination isn't supported yet — importing DMA-BUF would need an EGL path",
            );
        } else if self.buffers_dequeued == 0 && !self.format_negotiated {
            out.append("no frame after ");
            push_decimal(&mut out, FIRST_FRAME_TIMEOUT_SECS);
            out.append(
                "s and the video format was never negotiated: the PipeWire stream likely never reached the compositor's node (check that the screen-share permission wasn't revoked mid-session)",
            );
        } else if self.buffers_dequeued == 0 {
            out.append("no frame after ");
            push_decimal(&mut out, FIRST_FRAME_TIMEOUT_SECS);
            out.append(
                "s: the video format was negotiated but the compositor sent no buffers. The captured monitor may be asleep or powered off",
            );
        } else {
            out.append("no frame after ");
            push_decimal(&mut out, FIRST_FRAME_TIMEOUT_SECS);
            out.append("s: ");
            push_decimal(&mut out, self.buffers_dequeued);
            out.append(" buffer(s) arrived and were mappable but only ");
            push_decimal(&mut out, self.frames_decoded);
            out.append(
                " decoded. Likely an unexpected pixel format, in which case earlier stderr output names it, or buffers shorter than the negotiated size",
            );
        }
        out
    }
}

/// What can happen to a video stream while it runs.
pub enum StreamEvent<'a> {
    /// A video format has come, and whether it could be read.
    FormatRead(VideoInfo, bool),
    /// A buffer has been dequeued.
    Dequeued(Buffer<'a>),
    /// A frame has been handed over.
    Delivered(Screenshot),
    /// The stream has failed.
    Failed,
}

impl<'a> StreamEvent<'a> {
    /// Whether this is what the opener of a stream waits to hear of.
    pub open spec fn awaited(self) -> bool {
        self is Delivered || self is Failed
    }
}

/// A video stream while it runs.
pub struct StreamState {
    pub info: VideoInfo,
    pub diagnostics: StreamDiagnostics,
    /// Whether whoever opened the stream still waits to hear of the first frame
    /// or of a failure.
    pub opener_waits: bool,
}

impl StreamState {
    /// A stream that has just been connected.
    pub fn new() -> (res: Self)
        ensures
            res.info.width == 0,
            res.info.height == 0,
            !res.info.format.supported(),
            !res.diagnostics.format_negotiated,
            res.diagnostics.buffers_dequeued == 0,
            res.diagnostics.planes_unmapped == 0,
            res.diagnostics.frames_decoded == 0,
            res.opener_waits,
    {
        StreamState {
            info: VideoInfo { format: VideoFormat::Other, width: 0, height: 0 },
            diagnostics: StreamDiagnostics::new(),
            opener_waits: true,
        }
    }

    /// Takes over what reading a video format has left, and notes whether it
    /// could be read.
    pub fn format_read(&mut self, info: VideoInfo, readable: bool)
        ensures
            *final(self) == old(self).after(StreamEvent::FormatRead(info, readable)),
    {
        self.info = info;
        if readable {
            self.diagnostics.format_negotiated = true;
        }
    }

    /// Whether a buffer becomes a frame under the format agreed on.
    pub open spec fn yields_frame(self, buffer: Buffer) -> bool {
        buffer matches Buffer::Mapped { data, stride } && self.info.width > 0 && self.info.height
            > 0 && decodable(data@, self.info.width, self.info.height, stride, self.info.format)
    }

    /// Whether a buffer has content, but in a layout that is not supported.
    pub open spec fn wrong_layout(self, buffer: Buffer) -> bool {
        buffer is Mapped && self.info.width > 0 && self.info.height > 0
            && !self.info.format.supported()
    }

    /// The counters after one more buffer.
    pub open spec fn counted_with(self, buffer: Buffer) -> StreamDiagnostics {
        StreamDiagnostics {
            format_negotiated: self.diagnostics.format_negotiated,
            buffers_dequeued: counted(self.diagnostics.buffers_dequeued),
            planes_unmapped: if buffer is Unmapped {
                counted(self.diagnostics.planes_unmapped)
            } else {
                self.diagnostics.planes_unmapped
            },
            frames_decoded: if self.yields_frame(buffer) {
                counted(self.diagnostics.frames_decoded)
            } else {
                self.diagnostics.frames_decoded
            },
        }
    }

    /// The stream after something has happened to it.
    pub open spec fn after(self, event: StreamEvent) -> StreamState {
        match event {
            StreamEvent::FormatRead(info, readable) => StreamState {
                info,
                diagnostics: StreamDiagnostics {
                    format_negotiated: self.diagnostics.format_negotiated || readable,
                    ..self.diagnostics
                },
                ..self
            },
            StreamEvent::Dequeued(buffer) => StreamState {
                diagnostics: self.counted_with(buffer),
                ..self
            },
            StreamEvent::Delivered(_) | StreamEvent::Failed => StreamState {
                opener_waits: false,
                ..self
            },
        }
    }

    /// Whether the opener is told of something that happens to the stream.
    pub open spec fn tells(self, event: StreamEvent) -> bool {
        self.opener_waits && event.awaited()
    }

    /// The stream after any number of things have happened to it.
    pub open spec fn after_all(self, events: Seq<StreamEvent>) -> StreamState
        decreases events.len(),
    {
        if events.len() == 0 {
            self
        } else {
            self.after_all(events.drop_last()).after(events.last())
        }
    }

    /// Handles one buffer: counts it, and repacks it where it can be.
    pub fn process(&mut self, buffer: Buffer) -> (res: BufferOutcome)
        ensures
            res is Frame <==> old(self).yields_frame(buffer),
            res is Unsupported <==> old(self).wrong_layout(buffer),
            res matches BufferOutcome::Frame(shot) ==> (buffer matches Buffer::Mapped {
                data,
                stride,
            } && shows(
                shot,
                data@,
                old(self).info.width,
                old(self).info.height,
                stride,
                old(self).info.format,
            ) && shot.has_pixels()),
            *final(self) == old(self).after(StreamEvent::Dequeued(buffer)),
            old(self).diagnostics.consistent() && old(self).diagnostics.buffers_dequeued < u32::MAX
                ==> final(self).diagnostics.consistent(),
    {
        self.diagnostics.buffers_dequeued = self.diagnostics.buffers_dequeued.wrapping_add(1);
        let (data, stride) = match buffer {
            Buffer::NoPlane => {
                return BufferOutcome::Skipped;
            },
            Buffer::Unmapped => {
                self.diagnostics.planes_unmapped = self.diagnostics.planes_unmapped.wrapping_add(1);
                return BufferOutcome::Skipped;
            },
            Buffer::Mapped { data, stride } => (data, stride),
        };
        if self.info.width == 0 || self.info.height == 0 {
            return BufferOutcome::Skipped;
        }
        match self.info.format {
            VideoFormat::Other => {
                return BufferOutcome::Unsupported;
            },
            _ => {},
        }
        match frame_to_rgb(data, self.info.width, self.info.height, stride, self.info.format) {
            None => BufferOutcome::Skipped,
            Some(shot) => {
                self.diagnostics.frames_decoded = self.diagnostics.frames_decoded.wrapping_add(1);
                BufferOutcome::Frame(shot)
            },
        }
    }

    /// Hands a frame over, and says whether the opener is to be told that the
    /// first one is there.
    pub fn deliver(&mut self, slot: &mut FrameSlot, shot: Screenshot) -> (tell: bool)
        ensures
            final(slot).latest == Some(shot),
            final(slot).latest == published(old(slot).latest, seq![shot]),
            tell == old(self).tells(StreamEvent::Delivered(shot)),
            *final(self) == old(self).after(StreamEvent::Delivered(shot)),
    {
        slot.publish(shot);
        let tell: bool = self.opener_waits;
        self.opener_waits = false;
        tell
    }

    /// The stream has failed: says whether the opener is to be told. If not,
    /// nobody listens any more.
    pub fn fail(&mut self) -> (tell: bool)
        ensures
            tell == old(self).tells(StreamEvent::Failed),
            *final(self) == old(self).after(StreamEvent::Failed),
    {
        let tell: bool = self.opener_waits;
        self.opener_waits = false;
        tell
    }
}

/// Whether a buffer becomes a frame depends on the format agreed on and on the
/// buffer alone: not on how many came before it, nor on whether anybody waits.
pub proof fn law_every_frame_counts_alike(a: StreamState, b: StreamState, buffer: Buffer)
    requires
        a.info == b.info,
    ensures
        a.yields_frame(buffer) == b.yields_frame(buffer),
        a.wrong_layout(buffer) == b.wrong_layout(buffer),
{
}

/// A buffer whose bytes can be read becomes a frame exactly if the size agreed on
/// is not zero, the layout is one of the five, and its last row is there whole;
/// no other buffer does.
pub proof fn law_whole_buffers_become_frames(stream: StreamState, data: &[u8], stride: usize)
    requires
        data@.len() <= usize::MAX,
    ensures
        ({
            let info = stream.info;
            let buffer = Buffer::Mapped { data, stride };
            let sized = info.width >= 1 && info.height >= 1;
            &&& info.format == VideoFormat::Rgb ==> (stream.yields_frame(buffer) <==> sized && (
            info.height - 1) * stride + 3 * info.width <= data@.len())
            &&& info.format != VideoFormat::Rgb && info.format != VideoFormat::Other ==> (
            stream.yields_frame(buffer) <==> sized && (info.height - 1) * stride + 4 * info.width
                <= data@.len())
            &&& info.format == VideoFormat::Other ==> !stream.yields_frame(buffer)
            &&& stream.wrong_layout(buffer) <==> sized && info.format == VideoFormat::Other
        }),
        !stream.yields_frame(Buffer::NoPlane) && !stream.wrong_layout(Buffer::NoPlane),
        !stream.yields_frame(Buffer::Unmapped) && !stream.wrong_layout(Buffer::Unmapped),
{
    let info = stream.info;
    if info.height >= 1 {
        assert(0 <= (info.height - 1) * stride) by (nonlinear_arith)
            requires
                info.height >= 1,
                0 <= stride,
        ;
    }
    if 3 * info.width <= usize::MAX {
        law_whole_buffers_become_images(data@, info.width, info.height, stride, info.format);
    }
}

/// The format of a stream is the one that was read last, and a buffer, a frame or
/// a failure does not change it. The stream counts as negotiated from the first
/// format on that could be read.
pub proof fn law_the_last_format_holds(
    stream: StreamState,
    info: VideoInfo,
    readable: bool,
    events: Seq<StreamEvent>,
)
    requires
        forall|i: int| 0 <= i < events.len() ==> !((#[trigger] events[i]) is FormatRead),
    ensures
        ({
            let read = stream.after(StreamEvent::FormatRead(info, readable));
            &&& read.info == info
            &&& read.diagnostics.format_negotiated == (stream.diagnostics.format_negotiated
                || readable)
            &&& read.diagnostics.buffers_dequeued == stream.diagnostics.buffers_dequeued
            &&& read.diagnostics.planes_unmapped == stream.diagnostics.planes_unmapped
            &&& read.diagnostics.frames_decoded == stream.diagnostics.frames_decoded
            &&& read.opener_waits == stream.opener_waits
        }),
        stream.after_all(events).info == stream.info,
        stream.after_all(events).diagnostics.format_negotiated
            == stream.diagnostics.format_negotiated,
    decreases events.len(),
{
    if events.len() > 0 {
        assert(!(events[events.len() - 1] is FormatRead));
        law_the_last_format_holds(stream, info, readable, events.drop_last());
    }
}

/// Each counter of a stream goes up by one with each buffer that it counts, and
/// with nothing else, beginning again at zero after the largest number.
pub proof fn law_buffers_are_counted(stream: StreamState, event: StreamEvent)
    ensures
        ({
            let before = stream.diagnostics;
            let after = stream.after(event).diagnostics;
            let unmapped = event matches StreamEvent::Dequeued(buffer) && buffer is Unmapped;
            let decoded = event matches StreamEvent::Dequeued(buffer) && stream.yields_frame(buffer);
            &&& event is Dequeued ==> after.buffers_dequeued == (before.buffers_dequeued + 1)
                % 0x1_0000_0000
            &&& !(event is Dequeued) ==> after.buffers_dequeued == before.buffers_dequeued
            &&& unmapped ==> after.planes_unmapped == (before.planes_unmapped + 1) % 0x1_0000_0000
            &&& !unmapped ==> after.planes_unmapped == before.planes_unmapped
            &&& decoded ==> after.frames_decoded == (before.frames_decoded + 1) % 0x1_0000_0000
            &&& !decoded ==> after.frames_decoded == before.frames_decoded
        }),
        stream.diagnostics.consistent() <==> stream.diagnostics.planes_unmapped
            + stream.diagnostics.frames_decoded <= stream.diagnostics.buffers_dequeued,
{
}

/// The message on a frame that never came names its cause: memory that cannot be
/// read, where any buffer had it; else that no format was agreed on, or that no
/// buffer came; else that none could be decoded. Each number in it is the count it
/// speaks of, and nothing else that is known changes the message.
pub proof fn law_the_message_names_the_cause(known: StreamDiagnostics)
    ensures
        known.planes_unmapped >= 1 ==> known.no_frame_text() == "no readable frame after "@
            + decimal(5) + "s: the compositor delivered "@ + decimal(known.planes_unmapped as nat)
            + " buffer(s) with no CPU-mappable data, which means DMA-BUF (GPU memory). colza only reads shared-memory buffers, so this compositor/driver combination isn't supported yet — importing DMA-BUF would need an EGL path"@,
        known.planes_unmapped == 0 && known.buffers_dequeued == 0 && !known.format_negotiated
            ==> known.no_frame_text() == "no frame after "@ + decimal(5)
            + "s and the video format was never negotiated: the PipeWire stream likely never reached the compositor's node (check that the screen-share permission wasn't revoked mid-session)"@,
        known.planes_unmapped == 0 && known.buffers_dequeued == 0 && known.format_negotiated
            ==> known.no_frame_text() == "no frame after "@ + decimal(5)
            + "s: the video format was negotiated but the compositor sent no buffers. The captured monitor may be asleep or powered off"@,
        known.planes_unmapped == 0 && known.buffers_dequeued >= 1 ==> known.no_frame_text()
            == "no frame after "@ + decimal(5) + "s: "@ + decimal(known.buffers_dequeued as nat)
            + " buffer(s) arrived and were mappable but only "@ + decimal(
            known.frames_decoded as nat,
        )
            + " decoded. Likely an unexpected pixel format, in which case earlier stderr output names it, or buffers shorter than the negotiated size"@,
{
}

/// The opener waits on until a frame is handed over or the stream fails.
proof fn lemma_opener_waits_on(stream: StreamState, events: Seq<StreamEvent>)
    ensures
        stream.after_all(events).opener_waits <==> stream.opener_waits && forall|j: int|
            0 <= j < events.len() ==> !(#[trigger] events[j]).awaited(),
    decreases events.len(),
{
    if events.len() > 0 {
        let earlier = events.drop_last();
        lemma_opener_waits_on(stream, earlier);
        assert(forall|j: int| 0 <= j < earlier.len() ==> earlier[j] == #[trigger] events[j]);
    }
}

/// Whatever happens to a stream, its opener is told of the first frame that is
/// handed over or of the failure that comes before any, and of nothing else.
pub proof fn law_opener_is_told_once(stream: StreamState, events: Seq<StreamEvent>, i: int)
    requires
        0 <= i < events.len(),
        stream.opener_waits,
    ensures
        stream.after_all(events.take(i)).tells(events[i]) <==> events[i].awaited() && forall|j: int|
            0 <= j < i ==> !(#[trigger] events[j]).awaited(),
        events[i].awaited() <==> events[i] is Delivered || events[i] is Failed,
{
    let earlier = events.take(i);
    lemma_opener_waits_on(stream, earlier);
    assert(forall|j: int| 0 <= j < i ==> earlier[j] == #[trigger] events[j]);
}

} // verus!
