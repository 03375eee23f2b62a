//! Telling the user how loading the configuration went.
use vstd::prelude::*;

use crate::time::{Duration, NANOS_PER_SEC};

verus! {

/// The width of the area that the message is drawn in.
pub const WIDTH: i32 = 800;

/// The height of the area that the message is drawn in.
pub const HEIGHT: i32 = 640;

/// The distance of the message from the edge of the output.
pub const OUTPUT_PADDING: i32 = 4;

/// How many seconds the message is shown.
pub const SHOWN_SECS: u64 = 10;

/// How many milliseconds the message takes to slide in or out.
pub const SLIDE_MILLIS: u64 = 450;

/// What the user is told.
#[derive(Debug)]
pub enum Content {
    /// The configuration was successfully reloaded from `paths`.
    Reloaded { paths: Vec<String> },
    /// The configuration has encountered an error while reloading.
    ReloadError { error: String },
}

/// What a message does at the moment.
#[derive(Debug)]
pub enum UiState {
    /// The message is sliding in or out, from the top of the screen.
    Sliding { content: Content, hiding: bool },
    /// The message is shown.
    Shown { content: Content, started_at: Duration, last_tick: Duration },
    /// There is no message.
    Hidden,
}

/// Which way a message slides. It takes [`SLIDE_MILLIS`].
#[derive(Clone, Copy, Debug, PartialEq, Eq, Structural)]
pub enum Slide {
    /// Into the screen, from outside.
    In,
    /// Into the screen, from where it is.
    InFromCurrent,
    /// Out of the screen.
    Out,
}

/// What a step of time leads to.
#[derive(Clone, Copy, Debug, PartialEq, Eq, Structural)]
pub struct Advance {
    /// Whether there is something to animate.
    pub ongoing: bool,
    /// The slide that starts.
    pub start: Option<Slide>,
}

/// Informs the user about the success of reloading the configuration, or any errors that might
/// have occured while doing so.
#[derive(Debug)]
pub struct ConfigUi {
    pub state: UiState,
}

impl ConfigUi {
    /// A message that is shown has not been looked at before it appeared.
    pub open spec fn wf(&self) -> bool {
        self.state matches UiState::Shown { started_at, last_tick, .. } ==> started_at@
            <= last_tick@
    }

    /// No message.
    pub fn new() -> (ui: ConfigUi)
        ensures
            ui.state is Hidden,
            ui.wf(),
    {
        ConfigUi { state: UiState::Hidden }
    }

    /// Show a message. `now` is the reading of the clock. Returns the slide that starts.
    ///
    /// With animations, the message slides in, from where the one before it is if that is still
    /// moving; a message that is shown is replaced, and goes away when the one before it would
    /// have. Without animations, the message is shown at once.
    pub fn show(&mut self, content: Content, animate: bool, now: Duration) -> (start: Option<Slide>)
        requires
            old(self).wf(),
        ensures
            final(self).wf(),
            start == if !animate {
                None
            } else {
                match old(self).state {
                    UiState::Hidden => Some(Slide::In),
                    UiState::Sliding { .. } => Some(Slide::InFromCurrent),
                    UiState::Shown { .. } => None,
                }
            },
            if !animate {
                final(self).state == (UiState::Shown {
                    content,
                    started_at: now,
                    last_tick: now,
                })
            } else {
                final(self).state == match old(self).state {
                    UiState::Shown { started_at, last_tick, .. } => UiState::Shown {
                        content,
                        started_at,
                        last_tick,
                    },
                    _ => UiState::Sliding { content, hiding: false },
                }
            },
    {
        if !animate {
            self.state = UiState::Shown { content, started_at: now, last_tick: now };
            return None;
        }
        match &self.state {
            UiState::Hidden => {
                self.state = UiState::Sliding { content, hiding: false };
                Some(Slide::In)
            },
            UiState::Sliding { .. } => {
                self.state = UiState::Sliding { content, hiding: false };
                Some(Slide::InFromCurrent)
            },
            UiState::Shown { started_at, last_tick, .. } => {
                let started_at = *started_at;
                let last_tick = *last_tick;
                self.state = UiState::Shown { content, started_at, last_tick };
                None
            },
        }
    }

    /// The state after a step of time.
    pub open spec fn advanced(state: UiState, target: Duration, animate: bool, finished: bool) -> UiState {
        match state {
            UiState::Hidden => UiState::Hidden,
            UiState::Sliding { content, hiding } => if !finished {
                state
            } else if hiding {
                UiState::Hidden
            } else {
                UiState::Shown { content, started_at: target, last_tick: target }
            },
            UiState::Shown { content, started_at, last_tick } => if last_tick@ - started_at@
                >= SHOWN_SECS * NANOS_PER_SEC {
                if animate {
                    UiState::Sliding { content, hiding: true }
                } else {
                    UiState::Hidden
                }
            } else {
                UiState::Shown { content, started_at, last_tick: target }
            },
        }
    }

    /// Advance the message to the time `target`. `finished` tells whether the slide, if there is
    /// one, is over by then.
    pub fn advance_animations(&mut self, target: Duration, animate: bool, finished: bool) -> (r:
        Advance)
        requires
            old(self).wf(),
        ensures
            final(self).state == ConfigUi::advanced(old(self).state, target, animate, finished),
            r.ongoing == !(old(self).state is Hidden),
            r.start == if old(self).state is Shown && final(self).state is Sliding {
                Some(Slide::Out)
            } else {
                None
            },
            (old(self).state matches UiState::Shown { started_at, .. } ==> started_at@ <= target@)
                ==> final(self).wf(),
    {
        let mut state = UiState::Hidden;
        std::mem::swap(&mut state, &mut self.state);
        match state {
            UiState::Hidden => Advance { ongoing: false, start: None },
            UiState::Sliding { content, hiding } => {
                if !finished {
                    self.state = UiState::Sliding { content, hiding };
                } else if !hiding {
                    self.state =
                    UiState::Shown { content, started_at: target, last_tick: target };
                }
                Advance { ongoing: true, start: None }
            },
            UiState::Shown { content, started_at, last_tick } => {
                let shown = last_tick.minus(&started_at);
                if Duration::from_secs(SHOWN_SECS).le(&shown) {
                    if animate {
                        self.state = UiState::Sliding { content, hiding: true };
                        return Advance { ongoing: true, start: Some(Slide::Out) };
                    }
                } else {
                    self.state = UiState::Shown { content, started_at, last_tick: target };
                }
                Advance { ongoing: true, start: None }
            },
        }
    }

    /// Return whether there is no message.
    pub fn hidden(&self) -> (hidden: bool)
        ensures
            hidden == self.state is Hidden,
    {
        match self.state {
            UiState::Hidden => true,
            _ => false,
        }
    }

    /// Whether there is a message to draw.
    pub fn render(&self) -> (content: Option<&Content>)
        ensures
            content == match self.state {
                UiState::Hidden => None,
                UiState::Sliding { content, .. } => Some(&content),
                UiState::Shown { content, .. } => Some(&content),
            },
    {
        match &self.state {
            UiState::Hidden => None,
            UiState::Sliding { content, .. } => Some(content),
            UiState::Shown { content, .. } => Some(content),
        }
    }
}

/// Without animations a message goes away by itself: once it has been shown long enough, the next
/// step hides it.
pub proof fn messages_go_away(
    content: Content,
    started_at: Duration,
    last_tick: Duration,
    target: Duration,
    finished: bool,
)
    requires
        last_tick@ >= started_at@ + SHOWN_SECS * NANOS_PER_SEC,
    ensures
        ConfigUi::advanced(
            UiState::Shown { content, started_at, last_tick },
            target,
            false,
            finished,
        ) is Hidden,
        ConfigUi::advanced(
            ConfigUi::advanced(
                UiState::Shown { content, started_at, last_tick },
                target,
                true,
                finished,
            ),
            target,
            true,
            true,
        ) is Hidden,
{
}

/// A message that has not been shown long enough stays, and keeps its content.
pub proof fn messages_stay_for_a_while(
    content: Content,
    started_at: Duration,
    last_tick: Duration,
    target: Duration,
    animate: bool,
    finished: bool,
)
    requires
        last_tick@ < started_at@ + SHOWN_SECS * NANOS_PER_SEC,
    ensures
        ConfigUi::advanced(
            UiState::Shown { content, started_at, last_tick },
            target,
            animate,
            finished,
        ) == (UiState::Shown { content, started_at, last_tick: target }),
{
}

/// A message is shown at once without animations. With them it slides in; one that is shown is
/// replaced on the spot, and goes away when that would have. The new message is the one that is
/// drawn from then on.
pub proof fn messages_are_shown(
    ui: &mut ConfigUi,
    content: Content,
    animate: bool,
    now: Duration,
    start: Option<Slide>,
    drawn: Option<&Content>,
    hidden: bool,
)
    requires
        old(ui).wf(),
        call_ensures(ConfigUi::show, (ui, content, animate, now), start),
        call_ensures(ConfigUi::render, (&*final(ui),), drawn),
        call_ensures(ConfigUi::hidden, (&*final(ui),), hidden),
    ensures
        drawn == Some(&content),
        !hidden,
        !animate ==> start is None && final(ui).state is Shown && final(
            ui
        ).state->started_at == now && final(ui).state->last_tick == now,
        animate && old(ui).state is Hidden ==> start == Some(Slide::In) && final(ui).state is
            Sliding && !final(ui).state->hiding,
        animate && old(ui).state is Sliding ==> start == Some(Slide::InFromCurrent) && final(
            ui
        ).state is Sliding && !final(ui).state->hiding,
        animate && old(ui).state is Shown ==> start is None && final(ui).state is Shown && final(
            ui
        ).state->started_at == old(ui).state->started_at && final(ui).state->last_tick == old(
            ui,
        ).state->last_tick,
{
    assert(call_requires(ConfigUi::show, (ui, content, animate, now)));
}

/// A message that slid in is shown from then on, and one that slid out is gone; a slide that is not
/// over goes on. A message that was shown for ten seconds goes, sliding out if that is animated;
/// any other one stays. The content never changes.
pub proof fn messages_come_and_go(
    ui: &mut ConfigUi,
    target: Duration,
    animate: bool,
    finished: bool,
    step: Advance,
)
    requires
        old(ui).wf(),
        call_ensures(ConfigUi::advance_animations, (ui, target, animate, finished), step),
    ensures
        old(ui).state is Hidden ==> final(ui).state is Hidden && !step.ongoing,
        !(old(ui).state is Hidden) ==> step.ongoing,
        old(ui).state matches UiState::Sliding { content, hiding } ==> {
            &&& step.start is None
            &&& !finished ==> final(ui).state == old(ui).state
            &&& finished && hiding ==> final(ui).state is Hidden
            &&& finished && !hiding ==> final(ui).state == (UiState::Shown {
                content,
                started_at: target,
                last_tick: target,
            })
        },
        old(ui).state matches UiState::Shown { content, started_at, last_tick } ==> {
            let over = last_tick@ - started_at@ >= 10_000_000_000;
            &&& over && animate ==> final(ui).state == (UiState::Sliding { content, hiding: true })
                && step.start == Some(Slide::Out)
            &&& over && !animate ==> final(ui).state is Hidden && step.start is None
            &&& !over ==> final(ui).state == (UiState::Shown {
                content,
                started_at,
                last_tick: target,
            }) && step.start is None
        },
{
    assert(call_requires(ConfigUi::advance_animations, (ui, target, animate, finished)));
}

/// There is something to draw exactly if there is a message, and at first there is none.
pub proof fn hidden_messages_are_not_drawn(
    ui: &ConfigUi,
    hidden: bool,
    drawn: Option<&Content>,
    fresh: ConfigUi,
)
    requires
        call_ensures(ConfigUi::hidden, (ui,), hidden),
        call_ensures(ConfigUi::render, (ui,), drawn),
        call_ensures(ConfigUi::new, (), fresh),
    ensures
        hidden <==> drawn is None,
        fresh.state is Hidden,
        ui.state matches UiState::Sliding { content, .. } ==> drawn == Some(&content),
        ui.state matches UiState::Shown { content, .. } ==> drawn == Some(&content),
{
}

} // verus!
