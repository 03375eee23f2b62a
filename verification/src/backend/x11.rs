//! A backend that runs in windows of an X server.
use vstd::prelude::*;
use vstd::string::*;

use super::{OutputMode, VirtualOutput, VIRTUAL_REFRESH};
use crate::backend::udev::connector::Subpixel;
use crate::frame_clock::{ClockState, FrameClock};
use crate::output::{next_sequence, OutputState, RedrawState};
use crate::seqs::{first_index, lemma_first_index, lemma_first_index_is, lemma_first_index_none};
use crate::state::Fht;
use crate::text::{decimal, decimal_reads_back, digits_value, push_decimal};

verus! {

/// A window that stands in for an output.
#[derive(Clone, Copy, Debug, PartialEq, Eq, Structural)]
pub struct Surface {
    pub window: u32,
    pub output: u64,
    pub mode: OutputMode,
}

/// The X11 backend.
#[derive(Debug)]
pub struct X11Data {
    /// The surfaces, in the order in which they were made.
    pub surfaces: Vec<Surface>,
}

/// What happened to a window.
#[derive(Clone, Copy, Debug, PartialEq, Eq, Structural)]
#[allow(inconsistent_fields)]
pub enum X11Event {
    CloseRequested { window: u32 },
    Resized { window: u32, width: u16, height: u16 },
    Refresh { window: u32 },
    PresentCompleted { window: u32 },
    Input { window: Option<u32> },
    Focus { window: u32, focused: bool },
}

/// What an event of a window calls for.
#[derive(Clone, Copy, Debug, PartialEq, Eq, Structural)]
pub enum X11Action {
    Nothing,
    /// Unmap the window and remove the output.
    RemoveOutput { window: u32, output: u64 },
    /// Replace the mode `old` of the output by `new`, arrange the output anew and redraw it.
    ChangeMode { output: u64, old: OutputMode, new: OutputMode },
    QueueRedraw(u64),
    /// Focus the output, if there is one, and process the input event.
    ProcessInput { focus: Option<u64> },
    FocusOutput(u64),
}

/// Why an output was not rendered.
#[derive(Clone, Copy, Debug, PartialEq, Eq, Structural)]
pub enum X11RenderError {
    /// No surface shows the output.
    NonExistingSurface,
    /// Drawing failed: the buffers of the surface are reset.
    RenderFailed,
}

/// Whether a surface is shown in the given window.
pub open spec fn in_window(window: u32) -> spec_fn(Surface) -> bool {
    |surface: Surface| surface.window == window
}

/// Whether a surface shows the given output.
pub open spec fn of_output(output: u64) -> spec_fn(Surface) -> bool {
    |surface: Surface| surface.output == output
}

/// The mode of a window of the given size.
pub open spec fn window_mode(width: u16, height: u16) -> OutputMode {
    OutputMode { width: width as i32, height: height as i32, refresh: VIRTUAL_REFRESH }
}

/// The clock of a window, which presents as soon as a redraw is done.
pub open spec fn window_clock() -> ClockState {
    ClockState { interval: None, last: None, vrr: false }
}

/// A window of the given size that stands in for an output.
pub open spec fn new_window(window: u32, output: u64, width: u16, height: u16) -> Surface {
    Surface {
        window,
        output,
        mode: OutputMode {
            width: width as i32,
            height: height as i32,
            refresh: VIRTUAL_REFRESH,
        },
    }
}

/// Whether an output is the one of the window with the given index and size.
pub open spec fn is_virtual_output(
    made: VirtualOutput,
    index: nat,
    width: u16,
    height: u16,
) -> bool {
    &&& made.name@ == "X11-"@ + decimal(index)
    &&& made.make@ == "Smithay"@
    &&& made.model@ == "X11Window"@
    &&& made.subpixel == Subpixel::Unknown
    &&& made.mode == (OutputMode {
        width: width as i32,
        height: height as i32,
        refresh: VIRTUAL_REFRESH,
    })
    &&& made.transform is None
    &&& made.scale is None
    &&& made.location == Some((0i32, 0i32))
}

/// The window that an event is about, where there has to be one.
pub open spec fn event_window(event: X11Event) -> Option<u32> {
    match event {
        X11Event::CloseRequested { window } => Some(window),
        X11Event::Resized { window, .. } => Some(window),
        X11Event::Refresh { window } => Some(window),
        X11Event::PresentCompleted { window } => Some(window),
        X11Event::Input { window } => window,
        X11Event::Focus { window, focused } => if focused {
            Some(window)
        } else {
            None
        },
    }
}

impl X11Data {
    /// The surface in the given window.
    pub open spec fn surface_of(&self, window: u32) -> Surface {
        self.surfaces@[first_index(self.surfaces@, in_window(window))->0]
    }

    /// Whether there is a surface in the given window.
    pub open spec fn has_window(&self, window: u32) -> bool {
        first_index(self.surfaces@, in_window(window)) is Some
    }

    /// A backend with two windows of the given size, each of them an output of its own: the
    /// outputs are `X11-0` and `X11-1`, of which the second one gets the focus.
    pub fn new(fht: &mut Fht, first: (u32, u64), second: (u32, u64), width: u16, height: u16) -> (
        r: (X11Data, VirtualOutput, VirtualOutput))
        requires
            first.0 != second.0,
        ensures
            r.0.surfaces@ == seq![
                new_window(first.0, first.1, width, height),
                new_window(second.0, second.1, width, height),
            ],
            is_virtual_output(r.1, 0, width, height),
            is_virtual_output(r.2, 1, width, height),
            *final(fht) == (Fht {
                outputs: final(fht).outputs,
                active_output: second.1,
                ..*old(fht)
            }),
            final(fht).outputs@.len() == old(fht).outputs@.len() + 2,
            final(fht).outputs@.take(old(fht).outputs@.len() as int) == old(fht).outputs@,
            final(fht).outputs@[old(fht).outputs@.len() as int].is_new(
                first.1,
                window_clock(),
                Some(window_mode(width, height)),
            ),
            final(fht).outputs@[old(fht).outputs@.len() as int + 1].is_new(
                second.1,
                window_clock(),
                Some(window_mode(width, height)),
            ),
    {
        let ghost start = fht.outputs@;
        let mut data = X11Data { surfaces: Vec::new() };
        proof {
            assert(data.surfaces@ =~= Seq::empty());
        }
        let a = data.new_surface(fht, first.0, first.1, width, height);
        let ghost middle = fht.outputs@;
        proof {
            assert forall|j: int| 0 <= j < data.surfaces@.len() implies !in_window(second.0)(
                #[trigger] data.surfaces@[j],
            ) by {}
            lemma_first_index_none(data.surfaces@, in_window(second.0));
        }
        let b = data.new_surface(fht, second.0, second.1, width, height);
        assert(fht.outputs@.take(start.len() as int) =~= start) by {
            assert(fht.outputs@.drop_last() == middle);
            assert(middle.drop_last() == start);
        }
        assert(fht.outputs@[start.len() as int] == middle.last()) by {
            assert(fht.outputs@.drop_last() == middle);
        }
        assert(data.surfaces@ =~= seq![
            new_window(first.0, first.1, width, height),
            new_window(second.0, second.1, width, height),
        ]);
        (data, a, b)
    }

    /// The title of the window that is made next.
    pub fn next_title(&self) -> (title: String)
        ensures
            title@ == "fht-compositor (X11-"@ + decimal(self.surfaces@.len() as nat) + ")"@,
    {
        let mut title = "fht-compositor (X11-".to_string();
        push_decimal(&mut title, self.surfaces.len() as u64);
        title.append(")");
        title
    }

    /// Add a window as an output. The new output gets the focus and is redrawn.
    pub fn new_surface(
        &mut self,
        fht: &mut Fht,
        window: u32,
        output: u64,
        width: u16,
        height: u16,
    ) -> (made: VirtualOutput)
        requires
            !old(self).has_window(window),
        ensures
            final(self).surfaces@ == old(self).surfaces@.push(
                new_window(window, output, width, height),
            ),
            is_virtual_output(made, old(self).surfaces@.len() as nat, width, height),
            *final(fht) == (Fht {
                outputs: final(fht).outputs,
                active_output: output,
                ..*old(fht)
            }),
            final(fht).gained_output(
                &*old(fht),
                output,
                window_clock(),
                Some(window_mode(width, height)),
            ),
    {
        let mut name = "X11-".to_string();
        push_decimal(&mut name, self.surfaces.len() as u64);
        let mode = OutputMode {
            width: width as i32,
            height: height as i32,
            refresh: VIRTUAL_REFRESH,
        };
        self.surfaces.push(Surface { window, output, mode });
        fht.add_output(output, FrameClock::new(None, false), Some(mode));
        fht.active_output = output;
        VirtualOutput {
            name,
            make: "Smithay".to_string(),
            model: "X11Window".to_string(),
            subpixel: Subpixel::Unknown,
            mode,
            transform: None,
            scale: None,
            location: Some((0, 0)),
        }
    }

    fn window_index(&self, window: u32) -> (r: Option<usize>)
        ensures
            r is Some <==> self.has_window(window),
            r matches Some(i) ==> i < self.surfaces@.len() && first_index(
                self.surfaces@,
                in_window(window),
            ) == Some(i as int),
    {
        let mut i: usize = 0;
        while i < self.surfaces.len()
            invariant
                0 <= i <= self.surfaces.len(),
                forall|j: int| 0 <= j < i ==> (#[trigger] self.surfaces@[j]).window != window,
            decreases self.surfaces.len() - i,
        {
            if self.surfaces[i].window == window {
                proof {
                    lemma_first_index_is(self.surfaces@, in_window(window), i as int);
                }
                return Some(i);
            }
            i += 1;
        }
        proof {
            lemma_first_index_none(self.surfaces@, in_window(window));
        }
        None
    }

    /// React to an event of a window.
    pub fn handle_event(&mut self, event: X11Event) -> (action: X11Action)
        requires
            event_window(event) matches Some(window) ==> old(self).has_window(window),
        ensures
            match event {
                X11Event::CloseRequested { window } => {
                    &&& final(self).surfaces@ == old(self).surfaces@.remove(
                        first_index(old(self).surfaces@, in_window(window))->0,
                    )
                    &&& action == (X11Action::RemoveOutput {
                        window,
                        output: old(self).surface_of(window).output,
                    })
                },
                X11Event::Resized { window, width, height } => {
                    let before = old(self).surface_of(window);
                    let mode = OutputMode {
                        width: width as i32,
                        height: height as i32,
                        refresh: VIRTUAL_REFRESH,
                    };
                    &&& final(self).surfaces@ == old(self).surfaces@.update(
                        first_index(old(self).surfaces@, in_window(window))->0,
                        Surface { mode, ..before },
                    )
                    &&& action == (X11Action::ChangeMode {
                        output: before.output,
                        old: before.mode,
                        new: mode,
                    })
                },
                X11Event::Refresh { window } | X11Event::PresentCompleted { window } => {
                    &&& final(self).surfaces@ == old(self).surfaces@
                    &&& action == X11Action::QueueRedraw(old(self).surface_of(window).output)
                },
                X11Event::Input { window } => {
                    &&& final(self).surfaces@ == old(self).surfaces@
                    &&& action == (X11Action::ProcessInput {
                        focus: match window {
                            Some(window) => Some(old(self).surface_of(window).output),
                            None => None,
                        },
                    })
                },
                X11Event::Focus { window, focused } => {
                    &&& final(self).surfaces@ == old(self).surfaces@
                    &&& action == if focused {
                        X11Action::FocusOutput(old(self).surface_of(window).output)
                    } else {
                        X11Action::Nothing
                    }
                },
            },
    {
        let window = match event {
            X11Event::CloseRequested { window } => Some(window),
            X11Event::Resized { window, .. } => Some(window),
            X11Event::Refresh { window } => Some(window),
            X11Event::PresentCompleted { window } => Some(window),
            X11Event::Input { window } => window,
            X11Event::Focus { window, focused } => if focused {
                Some(window)
            } else {
                None
            },
        };
        let index = match window {
            Some(window) => self.window_index(window),
            None => None,
        };
        let i: usize = match index {
            Some(i) => i,
            None => {
                return match event {
                    X11Event::Input { .. } => X11Action::ProcessInput { focus: None },
                    _ => X11Action::Nothing,
                };
            },
        };
        let surface = self.surfaces[i];
        match event {
            X11Event::CloseRequested { window } => {
                self.surfaces.remove(i);
                X11Action::RemoveOutput { window, output: surface.output }
            },
            X11Event::Resized { window: _, width, height } => {
                let mode = OutputMode {
                    width: width as i32,
                    height: height as i32,
                    refresh: VIRTUAL_REFRESH,
                };
                self.surfaces[i] = Surface { mode, ..surface };
                X11Action::ChangeMode { output: surface.output, old: surface.mode, new: mode }
            },
            X11Event::Refresh { .. } => X11Action::QueueRedraw(surface.output),
            X11Event::PresentCompleted { .. } => X11Action::QueueRedraw(surface.output),
            X11Event::Input { .. } => X11Action::ProcessInput { focus: Some(surface.output) },
            X11Event::Focus { .. } => X11Action::FocusOutput(surface.output),
        }
    }

    /// Count a frame of `output` as shown. `damage` tells whether anything changed, or that
    /// drawing failed. A frame with damage is followed by another one. Returns whether there was
    /// something to draw.
    pub fn render(&self, output: u64, state: &mut OutputState, damage: Option<bool>) -> (r: Result<
        bool,
        X11RenderError,
    >)
        requires
            first_index(self.surfaces@, of_output(output)) is Some && damage is Some ==> old(
                state,
            ).redraw_state == RedrawState::Queued,
        ensures
            r == Err::<bool, X11RenderError>(X11RenderError::NonExistingSurface) <==> first_index(
                self.surfaces@,
                of_output(output),
            ) is None,
            r == Err::<bool, X11RenderError>(X11RenderError::RenderFailed) <==> first_index(
                self.surfaces@,
                of_output(output),
            ) is Some && damage is None,
            r is Err ==> *final(state) == *old(state),
            r matches Ok(drawn) ==> {
                &&& damage == Some(drawn)
                &&& final(state).same_setup(*old(state))
                &&& final(state).current_frame_sequence == next_sequence(
                    old(state).current_frame_sequence,
                )
                &&& final(state).redraw_state == if drawn {
                    RedrawState::Queued
                } else {
                    RedrawState::Idle
                }
            },
    {
        let mut found = false;
        let mut i: usize = 0;
        while i < self.surfaces.len()
            invariant
                0 <= i <= self.surfaces.len(),
                found ==> first_index(self.surfaces@, of_output(output)) is Some,
                !found ==> forall|j: int|
                    0 <= j < i ==> (#[trigger] self.surfaces@[j]).output != output,
            decreases self.surfaces.len() - i,
        {
            if !found && self.surfaces[i].output == output {
                proof {
                    lemma_first_index_is(self.surfaces@, of_output(output), i as int);
                }
                found = true;
            }
            i += 1;
        }
        if !found {
            proof {
                lemma_first_index_none(self.surfaces@, of_output(output));
            }
            return Err(X11RenderError::NonExistingSurface);
        }
        match damage {
            None => Err(X11RenderError::RenderFailed),
            Some(damage) => {
                state.redraw_state = RedrawState::Idle;
                state.current_frame_sequence = state.current_frame_sequence.wrapping_add(1);
                if damage {
                    state.redraw_state.queue();
                }
                Ok(damage)
            },
        }
    }
}

/// Every window is an output of its own: a new one comes after the others, with its size as its mode
/// and a name with its number, and it gets the focus and is drawn.
pub proof fn new_windows_are_outputs(
    data: &mut X11Data,
    fht: &mut Fht,
    window: u32,
    output: u64,
    width: u16,
    height: u16,
    made: VirtualOutput,
)
    requires
        !old(data).has_window(window),
        call_ensures(X11Data::new_surface, (data, fht, window, output, width, height), made),
    ensures
        final(data).surfaces@.len() == old(data).surfaces@.len() + 1,
        final(data).surfaces@.last().window == window,
        final(data).surfaces@.last().output == output,
        final(data).surfaces@.last().mode == made.mode,
        made.mode.width == width,
        made.mode.height == height,
        made.mode.refresh == 60_000,
        made.name@.take(4) == "X11-"@,
        digits_value(made.name@.skip(4)) == old(data).surfaces@.len(),
        final(fht).active_output == output,
        final(fht).outputs@.len() == old(fht).outputs@.len() + 1,
        final(fht).outputs@.last().id == output,
        final(fht).outputs@.last().mode == Some(made.mode),
        final(fht).outputs@.last().state.redraw_state is Queued,
        final(fht).outputs@.last().state.frame_clock@.interval is None,
        final(fht).outputs@.drop_last() == old(fht).outputs@,
        final(fht).lock_state == old(fht).lock_state,
{
    assert(call_requires(X11Data::new_surface, (data, fht, window, output, width, height)));
    reveal_strlit("X11-");
    let number = decimal(old(data).surfaces@.len() as nat);
    decimal_reads_back(old(data).surfaces@.len() as nat);
    assert(made.name@.take(4) =~= "X11-"@);
    assert(made.name@.skip(4) =~= number);
}

/// What happens to a window happens to its output: closing the window removes the output, resizing it
/// changes the mode, and a refresh or a shown frame redraws it. Input and the focus go to it. The
/// other windows are as before.
pub proof fn windows_are_their_outputs(
    data: &mut X11Data,
    event: X11Event,
    action: X11Action,
    i: int,
    j: int,
)
    requires
        0 <= i < old(data).surfaces@.len(),
        forall|k: int, l: int|
            0 <= k < l < old(data).surfaces@.len() ==> (#[trigger] old(data).surfaces@[k]).window
                != (#[trigger] old(data).surfaces@[l]).window,
        ({
            let window = old(data).surfaces@[i].window;
            ||| event == (X11Event::CloseRequested { window })
            ||| event is Resized && event->Resized_window == window
            ||| event == (X11Event::Refresh { window })
            ||| event == (X11Event::PresentCompleted { window })
            ||| event == (X11Event::Input { window: Some(window) })
            ||| event == (X11Event::Focus { window, focused: true })
        }),
        call_ensures(X11Data::handle_event, (data, event), action),
        0 <= j < old(data).surfaces@.len(),
        j != i,
    ensures
        final(data).surfaces@.contains(old(data).surfaces@[j]),
        ({
            let surface = old(data).surfaces@[i];
            match event {
                X11Event::CloseRequested { .. } => action == (X11Action::RemoveOutput {
                    window: surface.window,
                    output: surface.output,
                }) && final(data).surfaces@ == old(data).surfaces@.remove(i),
                X11Event::Resized { width, height, .. } => {
                    let mode = OutputMode {
                        width: width as i32,
                        height: height as i32,
                        refresh: 60_000,
                    };
                    action == (X11Action::ChangeMode {
                        output: surface.output,
                        old: surface.mode,
                        new: mode,
                    }) && final(data).surfaces@[i] == (Surface { mode, ..surface })
                },
                X11Event::Refresh { .. } => action == X11Action::QueueRedraw(surface.output),
                X11Event::PresentCompleted { .. } => action == X11Action::QueueRedraw(
                    surface.output,
                ),
                X11Event::Input { .. } => action == (X11Action::ProcessInput {
                    focus: Some(surface.output),
                }),
                X11Event::Focus { .. } => action == X11Action::FocusOutput(surface.output),
            }
        }),
{
    let before = old(data).surfaces@;
    let p = in_window(before[i].window);
    assert forall|k: int| 0 <= k < i implies !p(#[trigger] before[k]) by {}
    lemma_first_index_is(before, p, i);
    assert(call_requires(X11Data::handle_event, (data, event)));
    let at = if event is CloseRequested && j > i { j - 1 } else { j };
    assert(final(data).surfaces@[at] == before[j]);
}

/// A frame with damage is followed by another one; one without leaves the output idle. A frame of an
/// output that no window shows, or that could not be drawn, changes nothing.
pub proof fn frames_in_windows_are_counted(
    data: &X11Data,
    output: u64,
    state: &mut OutputState,
    damage: Option<bool>,
    drawn: Result<bool, X11RenderError>,
)
    requires
        old(state).redraw_state is Queued,
        call_ensures(X11Data::render, (data, output, state, damage), drawn),
    ensures
        (forall|i: int|
            0 <= i < data.surfaces@.len() ==> (#[trigger] data.surfaces@[i]).output != output)
            ==> drawn == Err::<bool, X11RenderError>(X11RenderError::NonExistingSurface),
        drawn is Err ==> *final(state) == *old(state),
        damage is None ==> drawn is Err,
        (exists|i: int|
            0 <= i < data.surfaces@.len() && (#[trigger] data.surfaces@[i]).output == output)
            ==> match damage {
            Some(changed) => drawn == Ok::<bool, X11RenderError>(changed) && (changed ==> final(
                state
            ).redraw_state is Queued) && (!changed ==> final(state).redraw_state is Idle) && (
            old(state).current_frame_sequence < u32::MAX ==> final(state).current_frame_sequence
                == old(state).current_frame_sequence + 1),
            None => drawn == Err::<bool, X11RenderError>(X11RenderError::RenderFailed),
        },
{
    let p = of_output(output);
    lemma_first_index(data.surfaces@, p);
    assert(call_requires(X11Data::render, (data, output, state, damage)));
    if let Err(err) = drawn {
        match err {
            X11RenderError::NonExistingSurface => {},
            X11RenderError::RenderFailed => {},
        }
    }
    if first_index(data.surfaces@, p) is Some {
        let k = first_index(data.surfaces@, p)->0;
        assert(p(data.surfaces@[k]));
    }
    assert forall|i: int|
        0 <= i < data.surfaces@.len() && (#[trigger] data.surfaces@[i]).output == output implies
        first_index(data.surfaces@, p) is Some by {
        assert(p(data.surfaces@[i]));
    }
}

/// The backend starts with two windows of the same size, one output each; the second one has the
/// focus.
pub proof fn two_windows_are_made(
    fht: &mut Fht,
    first: (u32, u64),
    second: (u32, u64),
    width: u16,
    height: u16,
    made: (X11Data, VirtualOutput, VirtualOutput),
)
    requires
        first.0 != second.0,
        call_ensures(X11Data::new, (fht, first, second, width, height), made),
    ensures
        made.0.surfaces@.len() == 2,
        made.0.surfaces@[0].window == first.0 && made.0.surfaces@[0].output == first.1,
        made.0.surfaces@[1].window == second.0 && made.0.surfaces@[1].output == second.1,
        made.1.mode.width == width && made.1.mode.height == height,
        made.2.mode == made.1.mode,
        made.0.surfaces@[0].mode == made.1.mode && made.0.surfaces@[1].mode == made.1.mode,
        final(fht).active_output == second.1,
        final(fht).outputs@.len() == old(fht).outputs@.len() + 2,
        final(fht).outputs@[old(fht).outputs@.len() as int].id == first.1,
        final(fht).outputs@[old(fht).outputs@.len() as int + 1].id == second.1,
{
    assert(call_requires(X11Data::new, (fht, first, second, width, height)));
}

/// The title of a window has its number, as the name of its output does.
pub proof fn titles_have_the_number(data: &X11Data, title: String)
    requires
        call_ensures(X11Data::next_title, (data,), title),
    ensures
        title@ == "fht-compositor (X11-"@ + decimal(data.surfaces@.len() as nat) + ")"@,
{
}

} // verus!
