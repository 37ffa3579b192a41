use colza::color::Rgb;
use colza::frame::{frame_to_rgb, FrameSlot, VideoFormat};
use colza::screencast::{
    source_request, still_source, AfterCast, Attempt, CastResult, FirstFrameWait, OpenDecision,
    OpenError, OpenEvent, OpenNext, OpenStep, ScreenSource, SourceChoice,
};
use colza::shot::Screenshot;
use colza::stream::{
    format_offer, is_video_format, Buffer, BufferOutcome, MediaKind, ParamHeader, StreamDiagnostics,
    StreamState, VideoInfo,
};

fn one_pixel(n: u8) -> Screenshot {
    Screenshot::from_raw(1, 1, vec![n, n, n]).unwrap()
}

fn diagnostics(negotiated: bool, dequeued: u32, unmapped: u32, decoded: u32) -> StreamDiagnostics {
    StreamDiagnostics {
        format_negotiated: negotiated,
        buffers_dequeued: dequeued,
        planes_unmapped: unmapped,
        frames_decoded: decoded,
    }
}

#[test]
fn an_image_needs_three_bytes_for_each_pixel() {
    assert!(Screenshot::from_raw(2, 2, vec![0; 11]).is_none());
    let shot = Screenshot::from_raw(2, 2, vec![1, 2, 3, 4, 5, 6, 7, 8, 9, 10, 11, 12, 99]).unwrap();
    assert_eq!((shot.width(), shot.height()), (2, 2));
    assert_eq!(shot.pixel(0, 0), Rgb::new(1, 2, 3));
    assert_eq!(shot.pixel(1, 0), Rgb::new(4, 5, 6));
    assert_eq!(shot.pixel(0, 1), Rgb::new(7, 8, 9));
    assert_eq!(shot.pixel(1, 1), Rgb::new(10, 11, 12));
    assert!(Screenshot::from_raw(7, 0, Vec::new()).is_some());
    assert!(Screenshot::from_raw(u32::MAX, u32::MAX, vec![0; 3]).is_none());
}

#[test]
fn rows_are_repacked_without_their_padding() {
    // Two rows of two pixels, with padding after each.
    let rgb = [1, 2, 3, 4, 5, 6, 0xee, 0xee, 7, 8, 9, 10, 11, 12];
    let shot = frame_to_rgb(&rgb, 2, 2, 8, VideoFormat::Rgb).unwrap();
    assert_eq!((shot.width(), shot.height()), (2, 2));
    assert_eq!(shot.pixel(1, 0), Rgb::new(4, 5, 6));
    assert_eq!(shot.pixel(0, 1), Rgb::new(7, 8, 9));

    let four = [
        1, 2, 3, 0xaa, 4, 5, 6, 0xaa, 0xee, 0xee, 7, 8, 9, 0xaa, 10, 11, 12, 0xaa,
    ];
    for format in [VideoFormat::Rgbx, VideoFormat::Rgba] {
        let shot = frame_to_rgb(&four, 2, 2, 10, format).unwrap();
        assert_eq!(shot.pixel(1, 1), Rgb::new(10, 11, 12));
        assert_eq!(shot.pixel(0, 1), Rgb::new(7, 8, 9));
    }
    for format in [VideoFormat::Bgrx, VideoFormat::Bgra] {
        let shot = frame_to_rgb(&four, 2, 2, 10, format).unwrap();
        assert_eq!(shot.pixel(1, 0), Rgb::new(6, 5, 4));
        assert_eq!(shot.pixel(0, 1), Rgb::new(9, 8, 7));
    }
}

#[test]
fn padding_has_no_influence() {
    let zeros = [1, 2, 3, 4, 0, 0, 5, 6, 7, 8, 0, 0];
    let other = [1, 2, 3, 4, 9, 9, 5, 6, 7, 8, 9, 9];
    let a = frame_to_rgb(&zeros, 1, 2, 6, VideoFormat::Bgra).unwrap();
    let b = frame_to_rgb(&other, 1, 2, 6, VideoFormat::Bgra).unwrap();
    for y in 0..2 {
        assert_eq!(a.pixel(0, y), b.pixel(0, y));
    }
    assert_eq!(a.pixel(0, 1), Rgb::new(7, 6, 5));
}

#[test]
fn short_buffers_and_other_layouts_give_no_image() {
    assert!(frame_to_rgb(&[0; 8], 1, 2, 4, VideoFormat::Bgrx).is_some());
    assert!(frame_to_rgb(&[0; 7], 1, 2, 4, VideoFormat::Bgrx).is_none());
    assert!(frame_to_rgb(&[0; 8], 1, 2, 5, VideoFormat::Bgrx).is_none());
    assert!(frame_to_rgb(&[0; 8], 1, 2, usize::MAX, VideoFormat::Bgrx).is_none());
    assert!(frame_to_rgb(&[0; 8], 1, 3, usize::MAX, VideoFormat::Bgrx).is_none());
    assert!(frame_to_rgb(&[0; 8], u32::MAX, 1, 0, VideoFormat::Rgb).is_none());
    assert!(frame_to_rgb(&[0; 8], 1, 1, 4, VideoFormat::Other).is_none());
    assert!(frame_to_rgb(&[], 1, 0, 4, VideoFormat::Other).is_none());
    assert!(frame_to_rgb(&[], 1, 0, 4, VideoFormat::Rgb).is_some());
    assert!(frame_to_rgb(&[0; 8], u32::MAX, u32::MAX, 4, VideoFormat::Bgrx).is_none());
    // Rows may even overlap.
    let shot = frame_to_rgb(&[1, 2, 3], 1, 2, 0, VideoFormat::Rgb).unwrap();
    assert_eq!(shot.pixel(0, 1), Rgb::new(1, 2, 3));
}

#[test]
fn the_slot_keeps_the_newest_frame_only() {
    let mut slot = FrameSlot::new();
    assert!(slot.take_frame().is_none());
    slot.publish(one_pixel(1));
    slot.publish(one_pixel(2));
    assert_eq!(slot.take_frame().unwrap().pixel(0, 0), Rgb::new(2, 2, 2));
    assert!(slot.take_frame().is_none());
}

#[test]
fn every_format_on_offer_can_be_repacked() {
    let offer = format_offer();
    assert_eq!(offer.preferred, VideoFormat::Bgrx);
    assert_eq!(
        offer.formats,
        vec![
            VideoFormat::Bgrx,
            VideoFormat::Bgra,
            VideoFormat::Rgbx,
            VideoFormat::Rgba,
            VideoFormat::Rgb
        ]
    );
    for format in offer.formats {
        assert!(frame_to_rgb(&[0; 4], 1, 1, 4, format).is_some());
    }
    assert_eq!((offer.size, offer.min_size, offer.max_size), ((1920, 1080), (1, 1), (8192, 8192)));
    assert_eq!((offer.rate, offer.min_rate, offer.max_rate), (30, 0, 1000));
}

#[test]
fn only_raw_video_formats_are_taken_over() {
    let header = |is_format: bool, media: Option<(bool, bool)>| {
        Some(ParamHeader {
            is_format,
            media: media.map(|(video, raw)| MediaKind { video, raw }),
        })
    };
    assert!(is_video_format(header(true, Some((true, true)))));
    assert!(!is_video_format(header(false, Some((true, true)))));
    assert!(!is_video_format(header(true, Some((true, false)))));
    assert!(!is_video_format(header(true, Some((false, true)))));
    assert!(!is_video_format(header(true, None)));
    assert!(!is_video_format(None));
}

#[test]
fn buffers_are_counted_and_decoded() {
    let mut stream = StreamState::new();
    let data = [3u8, 2, 1, 0];
    let mapped = || Buffer::Mapped { data: &data, stride: 4 };
    // No format yet.
    assert!(matches!(stream.process(mapped()), BufferOutcome::Skipped));
    stream.format_read(
        VideoInfo { format: VideoFormat::Other, width: 1, height: 1 },
        false,
    );
    assert!(!stream.diagnostics.format_negotiated);
    assert!(matches!(stream.process(mapped()), BufferOutcome::Unsupported));
    stream.format_read(
        VideoInfo { format: VideoFormat::Bgrx, width: 1, height: 1 },
        true,
    );
    assert!(stream.diagnostics.format_negotiated);
    assert!(matches!(stream.process(Buffer::NoPlane), BufferOutcome::Skipped));
    assert!(matches!(stream.process(Buffer::Unmapped), BufferOutcome::Skipped));
    let BufferOutcome::Frame(shot) = stream.process(mapped()) else {
        panic!("no frame");
    };
    assert_eq!(shot.pixel(0, 0), Rgb::new(1, 2, 3));
    assert!(matches!(
        stream.process(Buffer::Mapped { data: &data[..3], stride: 4 }),
        BufferOutcome::Skipped
    ));
    assert_eq!(stream.diagnostics.buffers_dequeued, 6);
    assert_eq!(stream.diagnostics.planes_unmapped, 1);
    assert_eq!(stream.diagnostics.frames_decoded, 1);
    stream.diagnostics.buffers_dequeued = u32::MAX;
    stream.process(Buffer::NoPlane);
    assert_eq!(stream.diagnostics.buffers_dequeued, 0);
}

#[test]
fn the_opener_is_told_once() {
    let mut stream = StreamState::new();
    let mut slot = FrameSlot::new();
    stream.process(Buffer::NoPlane);
    stream.format_read(VideoInfo { format: VideoFormat::Rgb, width: 1, height: 1 }, true);
    assert!(stream.deliver(&mut slot, one_pixel(1)));
    stream.process(Buffer::Unmapped);
    assert!(!stream.deliver(&mut slot, one_pixel(2)));
    assert!(!stream.fail());
    assert_eq!(slot.take_frame().unwrap().pixel(0, 0), Rgb::new(2, 2, 2));
    let mut broken = StreamState::new();
    assert!(broken.fail());
    assert!(!broken.fail());
}

#[test]
fn the_likely_cause_of_a_missing_frame_is_named() {
    assert_eq!(
        diagnostics(true, 12, 12, 0).no_frame_error(),
        "no readable frame after 5s: the compositor delivered 12 buffer(s) with no CPU-mappable \
         data, which means DMA-BUF (GPU memory). colza only reads shared-memory buffers, so this \
         compositor/driver combination isn't supported yet — importing DMA-BUF would need an EGL \
         path"
    );
    assert_eq!(
        diagnostics(false, 0, 0, 0).no_frame_error(),
        "no frame after 5s and the video format was never negotiated: the PipeWire stream likely \
         never reached the compositor's node (check that the screen-share permission wasn't \
         revoked mid-session)"
    );
    assert_eq!(
        diagnostics(true, 0, 0, 0).no_frame_error(),
        "no frame after 5s: the video format was negotiated but the compositor sent no buffers. \
         The captured monitor may be asleep or powered off"
    );
    assert_eq!(
        diagnostics(true, 4294967295, 0, 10).no_frame_error(),
        "no frame after 5s: 4294967295 buffer(s) arrived and were mappable but only 10 decoded. \
         Likely an unexpected pixel format, in which case earlier stderr output names it, or \
         buffers shorter than the negotiated size"
    );
}

#[test]
fn sources_say_whether_they_are_live() {
    let live: ScreenSource<u8> = ScreenSource::Live(5);
    let still: ScreenSource<u8> = ScreenSource::Still;
    assert!(live.is_live());
    assert!(!still.is_live());
    assert_eq!(
        live.take_frame(|n| Some(one_pixel(*n))).unwrap().pixel(0, 0),
        Rgb::new(5, 5, 5)
    );
    assert!(live.take_frame(|_| None).is_none());
    assert!(still.take_frame(|n| Some(one_pixel(*n))).is_none());
}

#[test]
fn a_refusal_is_remembered_and_nothing_else_falls_back() {
    let mut choice = SourceChoice::new();
    assert_eq!(choice.attempt(), Attempt::ScreenCast);
    let broken: CastResult<u8, &str> = CastResult::Broken("broken");
    assert!(matches!(choice.cast_ended(broken), AfterCast::Fail("broken")));
    assert_eq!(choice.attempt(), Attempt::ScreenCast);
    let opened: CastResult<u8, &str> = CastResult::Opened(7, one_pixel(1));
    assert!(matches!(
        choice.cast_ended(opened),
        AfterCast::Use(ScreenSource::Live(7), _)
    ));
    assert_eq!(choice.attempt(), Attempt::ScreenCast);
    let refused: CastResult<u8, &str> = CastResult::Refused;
    assert!(matches!(choice.cast_ended(refused), AfterCast::FallBack));
    assert_eq!(choice.attempt(), Attempt::Screenshot);
    let opened: CastResult<u8, &str> = CastResult::Opened(7, one_pixel(1));
    choice.cast_ended(opened);
    assert_eq!(choice.attempt(), Attempt::Screenshot);

    let still: Result<(ScreenSource<u8>, Screenshot), &str> = still_source(Ok(one_pixel(3)));
    let (source, image) = still.ok().unwrap();
    assert!(!source.is_live());
    assert_eq!(image.pixel(0, 0), Rgb::new(3, 3, 3));
    let failed: Result<(ScreenSource<u8>, Screenshot), &str> = still_source(Err("no"));
    assert!(matches!(failed, Err("no")));
}

#[test]
fn one_monitor_is_asked_for_without_the_cursor() {
    for saved in [None, Some("token".to_string())] {
        let request = source_request(saved.clone());
        assert!(request.cursor_hidden);
        assert!(request.monitors_only);
        assert!(!request.multiple);
        assert_eq!(request.restore_token, saved);
        assert!(request.keep_until_revoked);
    }
}

fn end(step: OpenStep, event: OpenEvent<&'static str>, slot: &mut FrameSlot) -> OpenDecision<&'static str> {
    step.ended(event, slot, &diagnostics(true, 0, 0, 0))
}

#[test]
fn a_cast_is_opened_step_by_step() {
    let mut slot = FrameSlot::new();
    let mut step = OpenStep::Connect;
    for expected in [OpenStep::CreateSession, OpenStep::SelectSources, OpenStep::Start] {
        let OpenNext::Continue(next) = end(step, OpenEvent::Done, &mut slot).next else {
            panic!("stopped");
        };
        assert_eq!(next, expected);
        step = next;
    }
    let decision = end(
        step,
        OpenEvent::Granted(Some(String::from("token")), vec![42, 43]),
        &mut slot,
    );
    assert_eq!(decision.keep_token.as_deref(), Some("token"));
    assert!(matches!(
        decision.next,
        OpenNext::Continue(OpenStep::OpenRemote(42))
    ));
    assert!(matches!(
        end(OpenStep::OpenRemote(42), OpenEvent::Done, &mut slot).next,
        OpenNext::Continue(OpenStep::StartReader(42))
    ));
    assert!(matches!(
        end(OpenStep::StartReader(42), OpenEvent::Done, &mut slot).next,
        OpenNext::Continue(OpenStep::AwaitFrame)
    ));
    slot.publish(one_pixel(9));
    let OpenNext::Opened(first) =
        end(OpenStep::AwaitFrame, OpenEvent::Waited(FirstFrameWait::Ready), &mut slot).next
    else {
        panic!("not opened");
    };
    assert_eq!(first.pixel(0, 0), Rgb::new(9, 9, 9));
    assert!(slot.take_frame().is_none());
}

#[test]
fn every_way_that_opening_a_cast_can_fail() {
    let mut slot = FrameSlot::new();
    let fail = |next: OpenNext<&'static str>| match next {
        OpenNext::Fail(err) => err,
        _ => panic!("did not fail"),
    };
    let call = fail(end(OpenStep::CreateSession, OpenEvent::Failed("call"), &mut slot).next);
    assert!(matches!(call, OpenError::Call("call")));
    assert!(call.message().is_none());

    // The token is kept even where there is no stream.
    let decision = end(
        OpenStep::Start,
        OpenEvent::Granted(Some(String::from("t")), Vec::new()),
        &mut slot,
    );
    assert_eq!(decision.keep_token.as_deref(), Some("t"));
    assert_eq!(
        fail(decision.next).message().unwrap(),
        "compositor returned no screencast streams"
    );

    let mut waited = |wait: FirstFrameWait<&'static str>| {
        fail(end(OpenStep::AwaitFrame, OpenEvent::Waited(wait), &mut slot).next)
    };
    assert!(matches!(waited(FirstFrameWait::Failed("stream")), OpenError::Call("stream")));
    assert_eq!(
        waited(FirstFrameWait::HungUp).message().unwrap(),
        "the screencast thread stopped before producing a frame"
    );
    assert_eq!(
        waited(FirstFrameWait::Ready).message().unwrap(),
        "screencast signalled a frame but the slot was empty"
    );
    assert_eq!(
        waited(FirstFrameWait::TimedOut).message().unwrap(),
        diagnostics(true, 0, 0, 0).no_frame_error()
    );
}
