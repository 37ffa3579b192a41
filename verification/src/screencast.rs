//! Choosing where the magnifier's pixels come from, and opening it.
//!
//! A screen cast is a live feed without the mouse cursor. A screenshot is a
//! still image with the cursor in it, and is used only once the user has
//! declined the cast.
use vstd::prelude::*;
use vstd::string::StringExecFns;

use crate::frame::FrameSlot;
use crate::shot::Screenshot;
use crate::stream::StreamDiagnostics;

verus! {

/// Where the magnifier's pixels come from. `C` is the handle that keeps a cast
/// running.
pub enum ScreenSource<C> {
    /// A running cast that produces new frames.
    Live(C),
    /// A screenshot, which was handed over when it was taken.
    Still,
}

impl<C> ScreenSource<C> {
    /// The newest frame, if one has arrived since the last call. `newest` asks
    /// a running cast for it; a screenshot never has one.
    pub fn take_frame<F: FnOnce(&C) -> Option<Screenshot>>(&self, newest: F) -> (res: Option<
        Screenshot,
    >)
        requires
            forall|capture: &C| call_requires(newest, (capture,)),
        ensures
            match *self {
                ScreenSource::Live(capture) => call_ensures(newest, (&capture,), res),
                ScreenSource::Still => res is None,
            },
    {
        match self {
            ScreenSource::Live(capture) => newest(capture),
            ScreenSource::Still => None,
        }
    }

    /// Whether this source updates.
    pub fn is_live(&self) -> (res: bool)
        ensures
            res == (*self is Live),
    {
        match self {
            ScreenSource::Live(_) => true,
            ScreenSource::Still => false,
        }
    }
}

/// A way to get at the screen's pixels.
#[derive(Debug, Clone, Copy, PartialEq, Eq, Structural)]
pub enum Attempt {
    ScreenCast,
    Screenshot,
}

/// How opening a cast has ended.
pub enum CastResult<C, E> {
    /// It runs, and this is its first frame.
    Opened(C, Screenshot),
    /// The user said no.
    Refused,
    /// Something broke.
    Broken(E),
}

/// What follows from how opening a cast has ended.
pub enum AfterCast<C, E> {
    /// This source and its first frame are the result.
    Use(ScreenSource<C>, Screenshot),
    /// A screenshot is to be taken instead.
    FallBack,
    /// The error is the result.
    Fail(E),
}

/// Remembers whether the user has declined a cast since the program was started,
/// so that nobody is asked twice.
#[derive(Debug, Clone, Copy, PartialEq, Eq, Structural)]
pub struct SourceChoice {
    pub declined: bool,
}

impl SourceChoice {
    /// Nothing has been declined yet.
    pub fn new() -> (res: Self)
        ensures
            !res.declined,
    {
        SourceChoice { declined: false }
    }

    /// What to try first: a cast, unless one was declined.
    pub open spec fn first_attempt(self) -> Attempt {
        if self.declined {
            Attempt::Screenshot
        } else {
            Attempt::ScreenCast
        }
    }

    /// The memory after a cast has ended in some way.
    pub open spec fn after<C, E>(self, result: CastResult<C, E>) -> SourceChoice {
        SourceChoice { declined: self.declined || result is Refused }
    }

    /// What to try first.
    pub fn attempt(&self) -> (res: Attempt)
        ensures
            res == self.first_attempt(),
    {
        if self.declined {
            Attempt::Screenshot
        } else {
            Attempt::ScreenCast
        }
    }

    /// Decides what follows from how opening a cast has ended. Only a refusal
    /// leads to a screenshot: any other failure is reported, because it says
    /// something that a silent screenshot would hide.
    pub fn cast_ended<C, E>(&mut self, result: CastResult<C, E>) -> (res: AfterCast<C, E>)
        ensures
            *final(self) == old(self).after(result),
            res == match result {
                CastResult::Opened(capture, first) => AfterCast::Use(
                    ScreenSource::Live(capture),
                    first,
                ),
                CastResult::Refused => AfterCast::FallBack,
                CastResult::Broken(err) => AfterCast::Fail(err),
            },
    {
        match result {
            CastResult::Opened(capture, first) => AfterCast::Use(
                ScreenSource::Live(capture),
                first,
            ),
            CastResult::Refused => {
                self.declined = true;
                AfterCast::FallBack
            },
            CastResult::Broken(err) => AfterCast::Fail(err),
        }
    }
}

/// The source that a screenshot makes, with its only frame.
pub fn still_source<C, E>(shot: Result<Screenshot, E>) -> (res: Result<
    (ScreenSource<C>, Screenshot),
    E,
>)
    ensures
        res == match shot {
            Ok(image) => Ok((ScreenSource::<C>::Still, image)),
            Err(err) => Err(err),
        },
{
    match shot {
        Ok(image) => Ok((ScreenSource::Still, image)),
        Err(err) => Err(err),
    }
}

/// The memory after any number of casts have ended.
pub open spec fn remembered<C, E>(choice: SourceChoice, ended: Seq<CastResult<C, E>>) -> SourceChoice
    decreases ended.len(),
{
    if ended.len() == 0 {
        choice
    } else {
        remembered(choice.after(ended[0]), ended.skip(1))
    }
}

/// Once a cast was declined, whatever happens after, no cast is tried again; and
/// as long as none was declined, a cast is what is tried first.
pub proof fn law_a_refusal_is_remembered<C, E>(choice: SourceChoice, ended: Seq<CastResult<C, E>>)
    ensures
        remembered(choice, ended).first_attempt() == Attempt::Screenshot <==> choice.declined
            || exists|i: int| 0 <= i < ended.len() && #[trigger] ended[i] is Refused,
    decreases ended.len(),
{
    if ended.len() > 0 {
        let rest = ended.skip(1);
        law_a_refusal_is_remembered(choice.after(ended[0]), rest);
        if exists|i: int| 0 <= i < rest.len() && #[trigger] rest[i] is Refused {
            let i = choose|i: int| 0 <= i < rest.len() && #[trigger] rest[i] is Refused;
            assert(ended[i + 1] is Refused);
        }
        if exists|i: int| 0 <= i < ended.len() && #[trigger] ended[i] is Refused {
            let i = choose|i: int| 0 <= i < ended.len() && #[trigger] ended[i] is Refused;
            if i > 0 {
                assert(rest[i - 1] is Refused);
            }
        }
    }
}

/// Why a cast could not be opened. `E` is the error of a call that was made to
/// open it.
pub enum OpenError<E> {
    /// A call has failed.
    Call(E),
    /// The cast was granted, but without a stream.
    NoStreams,
    /// The thread that reads the stream ended without a frame.
    ThreadStopped,
    /// The first frame did not come in time. Holds the likely cause.
    NoFrame(String),
    /// The first frame was announced, but is not there.
    EmptySlot,
}

impl<E> OpenError<E> {
    /// The message, where it is not that of a failed call.
    pub open spec fn text(self) -> Option<Seq<char>> {
        match self {
            OpenError::Call(_) => None,
            OpenError::NoStreams => Some("compositor returned no screencast streams"@),
            OpenError::ThreadStopped => Some(
                "the screencast thread stopped before producing a frame"@,
            ),
            OpenError::NoFrame(cause) => Some(cause@),
            OpenError::EmptySlot => Some("screencast signalled a frame but the slot was empty"@),
        }
    }

    /// The message, where it is not that of a failed call.
    pub fn message(&self) -> (res: Option<String>)
        ensures
            match res {
                None => self.text() is None,
                Some(message) => self.text() == Some(message@),
            },
    {
        let mut out: String = String::new();
        match self {
            OpenError::Call(_) => {
                return None;
            },
            OpenError::NoStreams => {
                out.append("compositor returned no screencast streams");
            },
            OpenError::ThreadStopped => {
                out.append("the screencast thread stopped before producing a frame");
            },
            OpenError::NoFrame(cause) => {
                out.append(cause.as_str());
            },
            OpenError::EmptySlot => {
                out.append("screencast signalled a frame but the slot was empty");
            },
        }
        Some(out)
    }
}

/// How waiting for the first frame has ended.
pub enum FirstFrameWait<E> {
    /// The first frame was announced.
    Ready,
    /// The stream has failed.
    Failed(E),
    /// The thread that reads the stream is gone.
    HungUp,
    /// The time is up.
    TimedOut,
}

/// How far opening a cast has come: what is to be done next.
#[derive(Debug, Clone, Copy, PartialEq, Eq, Structural)]
pub enum OpenStep {
    /// Reach the service that grants casts.
    Connect,
    CreateSession,
    /// Ask for what to cast, as `source_request` has it.
    SelectSources,
    /// Have the cast granted, which may ask the user.
    Start,
    /// Get at the media server, for the stream with this number.
    OpenRemote(u32),
    /// Start the thread that reads the stream with this number.
    StartReader(u32),
    /// Wait for the first frame.
    AwaitFrame,
}

/// What to ask for when a cast's sources are selected.
#[derive(Debug)]
pub struct SourceRequest {
    /// The mouse cursor is left out of the frames.
    pub cursor_hidden: bool,
    /// Monitors are all there is to choose from.
    pub monitors_only: bool,
    /// More than one source may be chosen.
    pub multiple: bool,
    /// A token of an earlier cast, whose selection is to be restored without
    /// asking the user.
    pub restore_token: Option<String>,
    /// The permission outlasts the program, until the user revokes it.
    pub keep_until_revoked: bool,
}

/// The request: one monitor, without the cursor, with the saved token if there is
/// one, and for a permission that lasts, so that later runs need not ask.
pub fn source_request(saved: Option<String>) -> (res: SourceRequest)
    ensures
        res.cursor_hidden,
        res.monitors_only,
        !res.multiple,
        res.restore_token == saved,
        res.keep_until_revoked,
{
    SourceRequest {
        cursor_hidden: true,
        monitors_only: true,
        multiple: false,
        restore_token: saved,
        keep_until_revoked: true,
    }
}

/// How what was to be done has ended.
pub enum OpenEvent<E> {
    /// It is done.
    Done,
    /// It has failed.
    Failed(E),
    /// The cast was granted, perhaps with a token for the next time, and with
    /// these streams.
    Granted(Option<String>, Vec<u32>),
    /// Waiting for the first frame is over.
    Waited(FirstFrameWait<E>),
}

/// What opening a cast comes to.
pub enum OpenNext<E> {
    /// There is more to do.
    Continue(OpenStep),
    /// The cast is open, and this is its first frame.
    Opened(Screenshot),
    /// It cannot be opened.
    Fail(OpenError<E>),
}

/// What follows from how a step has ended.
pub struct OpenDecision<E> {
    /// A token to keep for the next time, before anything else is done.
    pub keep_token: Option<String>,
    pub next: OpenNext<E>,
}

impl OpenStep {
    /// Whether a step can end in this way.
    pub open spec fn can_end<E>(self, event: OpenEvent<E>) -> bool {
        match event {
            OpenEvent::Done => self != OpenStep::Start && self != OpenStep::AwaitFrame,
            OpenEvent::Failed(_) => self != OpenStep::AwaitFrame,
            OpenEvent::Granted(_, _) => self == OpenStep::Start,
            OpenEvent::Waited(_) => self == OpenStep::AwaitFrame,
        }
    }

    /// The step after one that is done without more to say.
    pub open spec fn following(self) -> OpenStep {
        match self {
            OpenStep::Connect => OpenStep::CreateSession,
            OpenStep::CreateSession => OpenStep::SelectSources,
            OpenStep::SelectSources => OpenStep::Start,
            OpenStep::OpenRemote(node) => OpenStep::StartReader(node),
            _ => OpenStep::AwaitFrame,
        }
    }

    /// How many steps are left, this one included.
    pub open spec fn steps_left(self) -> nat {
        match self {
            OpenStep::Connect => 7,
            OpenStep::CreateSession => 6,
            OpenStep::SelectSources => 5,
            OpenStep::Start => 4,
            OpenStep::OpenRemote(_) => 3,
            OpenStep::StartReader(_) => 2,
            OpenStep::AwaitFrame => 1,
        }
    }

    /// Decides what follows from how this step has ended.
    ///
    /// Whatever fails ends the opening. A token that comes with the cast is kept
    /// at once, even if there is no stream to connect to. `slot` is where the
    /// first frame is, and `diagnostics` what is known if it is not.
    pub fn ended<E>(
        self,
        event: OpenEvent<E>,
        slot: &mut FrameSlot,
        diagnostics: &StreamDiagnostics,
    ) -> (res: OpenDecision<E>)
        requires
            self.can_end(event),
        ensures
            res.keep_token == match event {
                OpenEvent::Granted(token, _) => token,
                _ => None,
            },
            match event {
                OpenEvent::Done => res.next == OpenNext::<E>::Continue(self.following()),
                OpenEvent::Failed(err) => res.next == OpenNext::Fail(OpenError::Call(err)),
                OpenEvent::Granted(_, nodes) => res.next == if nodes@.len() > 0 {
                    OpenNext::<E>::Continue(OpenStep::OpenRemote(nodes@[0]))
                } else {
                    OpenNext::Fail(OpenError::NoStreams)
                },
                OpenEvent::Waited(FirstFrameWait::Ready) => res.next == match old(slot).latest {
                    Some(shot) => OpenNext::<E>::Opened(shot),
                    None => OpenNext::Fail(OpenError::EmptySlot),
                },
                OpenEvent::Waited(FirstFrameWait::Failed(err)) => res.next == OpenNext::Fail(
                    OpenError::Call(err),
                ),
                OpenEvent::Waited(FirstFrameWait::HungUp) => res.next == OpenNext::<E>::Fail(
                    OpenError::ThreadStopped,
                ),
                OpenEvent::Waited(FirstFrameWait::TimedOut) => res.next matches OpenNext::Fail(
                    OpenError::NoFrame(cause),
                ) && cause@ == diagnostics.no_frame_text(),
            },
            final(slot).latest == if event matches OpenEvent::Waited(FirstFrameWait::Ready) {
                None
            } else {
                old(slot).latest
            },
            res.next matches OpenNext::Continue(step) ==> step.steps_left() < self.steps_left(),
    {
        match event {
            OpenEvent::Done => {
                let following = match self {
                    OpenStep::Connect => OpenStep::CreateSession,
                    OpenStep::CreateSession => OpenStep::SelectSources,
                    OpenStep::SelectSources => OpenStep::Start,
                    OpenStep::OpenRemote(node) => OpenStep::StartReader(node),
                    _ => OpenStep::AwaitFrame,
                };
                OpenDecision { keep_token: None, next: OpenNext::Continue(following) }
            },
            OpenEvent::Failed(err) => OpenDecision {
                keep_token: None,
                next: OpenNext::Fail(OpenError::Call(err)),
            },
            OpenEvent::Granted(token, nodes) => {
                let next = if nodes.len() > 0 {
                    OpenNext::Continue(OpenStep::OpenRemote(nodes[0]))
                } else {
                    OpenNext::Fail(OpenError::NoStreams)
                };
                OpenDecision { keep_token: token, next }
            },
            OpenEvent::Waited(wait) => {
                let next = match wait {
                    FirstFrameWait::Ready => match slot.take_frame() {
                        Some(shot) => OpenNext::Opened(shot),
                        None => OpenNext::Fail(OpenError::EmptySlot),
                    },
                    FirstFrameWait::Failed(err) => OpenNext::Fail(OpenError::Call(err)),
                    FirstFrameWait::HungUp => OpenNext::Fail(OpenError::ThreadStopped),
                    FirstFrameWait::TimedOut => OpenNext::Fail(
                        OpenError::NoFrame(diagnostics.no_frame_error()),
                    ),
                };
                OpenDecision { keep_token: None, next }
            },
        }
    }
}

/// Opening a cast goes through every step in its turn, and reads the stream whose
/// number came with the grant: nothing is left out or done twice, and no step but
/// the grant and the wait is over without more to say.
pub proof fn law_opening_takes_every_step<E>(step: OpenStep, node: u32, event: OpenEvent<E>)
    ensures
        OpenStep::Connect.following() == OpenStep::CreateSession,
        OpenStep::CreateSession.following() == OpenStep::SelectSources,
        OpenStep::SelectSources.following() == OpenStep::Start,
        OpenStep::OpenRemote(node).following() == OpenStep::StartReader(node),
        OpenStep::StartReader(node).following() == OpenStep::AwaitFrame,
        event is Granted ==> (step.can_end(event) <==> step is Start),
        event is Waited ==> (step.can_end(event) <==> step is AwaitFrame),
        event is Failed ==> (step.can_end(event) <==> !(step is AwaitFrame)),
        event is Done ==> (step.can_end(event) <==> !(step is Start) && !(step is AwaitFrame)),
{
}

/// An error that is not that of a call says which of them it is, and one on a
/// frame that never came says its cause word for word.
pub proof fn law_errors_say_what_is_wrong<E>(call: E, cause: String)
    ensures
        OpenError::Call(call).text() is None,
        OpenError::<E>::NoStreams.text() == Some("compositor returned no screencast streams"@),
        OpenError::<E>::ThreadStopped.text() == Some(
            "the screencast thread stopped before producing a frame"@,
        ),
        OpenError::<E>::NoFrame(cause).text() == Some(cause@),
        OpenError::<E>::EmptySlot.text() == Some(
            "screencast signalled a frame but the slot was empty"@,
        ),
{
}

} // verus!
