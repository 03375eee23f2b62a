//! The backends that put frames on a screen.
use vstd::prelude::*;

pub mod headless;
pub mod udev;
pub mod winit;
pub mod x11;

use crate::config::output::OutputTransform;
use crate::output::{next_sequence, FrameOutcome, OutputState, RedrawState};
use crate::time::Duration;
use headless::HeadlessData;
use udev::connector::{ModeAttempt, Subpixel};
use udev::mode::Mode;
use udev::reload::{ScannedInfo, SetModeError, SurfaceStatus};
use udev::{
    recoverable, swap_error_policy, GammaError, NoMatchingOutput, RenderError, Rendered,
    SwapBuffersError, UdevData,
};
use winit::{WinitData, WinitFrame};

verus! {

/// The refresh rate of an output that is not a real screen, in millihertz.
pub const VIRTUAL_REFRESH: i32 = 60_000;

/// A mode of an output, as clients are told about it.
#[derive(Clone, Copy, Debug, PartialEq, Eq, Structural)]
pub struct OutputMode {
    pub width: i32,
    pub height: i32,
    /// In millihertz.
    pub refresh: i32,
}

/// An output that is not a real screen. Its physical size is zero.
#[derive(Debug)]
pub struct VirtualOutput {
    pub name: String,
    pub make: String,
    pub model: String,
    pub subpixel: Subpixel,
    /// The only mode, which is also the preferred one.
    pub mode: OutputMode,
    pub transform: Option<OutputTransform>,
    pub scale: Option<i32>,
    pub location: Option<(i32, i32)>,
}

/// The backend in use.
#[derive(Debug)]
pub enum Backend {
    Winit(WinitData),
    Udev(UdevData),
    Headless(HeadlessData),
}

impl From<WinitData> for Backend {
    fn from(value: WinitData) -> (backend: Backend) {
        Backend::Winit(value)
    }
}

impl vstd::std_specs::convert::FromSpecImpl<WinitData> for Backend {
    open spec fn obeys_from_spec() -> bool {
        true
    }

    open spec fn from_spec(value: WinitData) -> Backend {
        Backend::Winit(value)
    }
}

impl From<UdevData> for Backend {
    fn from(value: UdevData) -> (backend: Backend) {
        Backend::Udev(value)
    }
}

impl vstd::std_specs::convert::FromSpecImpl<UdevData> for Backend {
    open spec fn obeys_from_spec() -> bool {
        true
    }

    open spec fn from_spec(value: UdevData) -> Backend {
        Backend::Udev(value)
    }
}

impl From<HeadlessData> for Backend {
    fn from(value: HeadlessData) -> (backend: Backend) {
        Backend::Headless(value)
    }
}

impl vstd::std_specs::convert::FromSpecImpl<HeadlessData> for Backend {
    open spec fn obeys_from_spec() -> bool {
        true
    }

    open spec fn from_spec(value: HeadlessData) -> Backend {
        Backend::Headless(value)
    }
}

/// What a frame left to do.
#[derive(Clone, Copy, Debug)]
pub enum BackendFrame {
    Winit(WinitFrame),
    Udev(Rendered),
    Headless { drawn: bool },
}

/// Which renderer draws things outside the frames of an output.
#[derive(Clone, Copy, Debug, PartialEq, Eq, Structural)]
pub enum BackendRenderer {
    /// The one of the window.
    Window,
    /// The one of the given GPU.
    Gpu(u64),
}

impl Backend {
    /// The winit backend data, on a winit backend.
    pub fn winit(&mut self) -> (data: &mut WinitData)
        requires
            *old(self) is Winit,
        ensures
            *data == old(self)->Winit_0,
            *final(self) == Backend::Winit(*final(data)),
    {
        match self {
            Backend::Winit(data) => data,
            _ => vstd::pervasive::unreached(),
        }
    }

    /// The udev backend data, on a udev backend.
    pub fn udev(&mut self) -> (data: &mut UdevData)
        requires
            *old(self) is Udev,
        ensures
            *data == old(self)->Udev_0,
            *final(self) == Backend::Udev(*final(data)),
    {
        match self {
            Backend::Udev(data) => data,
            _ => vstd::pervasive::unreached(),
        }
    }

    /// Advance the redraw cycle of an output after an attempt to draw a frame.
    ///
    /// On a window only damage counts, which `frame` stands for as a submitted frame, and any
    /// error is one to bind the window; without a screen the frame does not matter at all.
    pub fn render(
        &mut self,
        state: &mut OutputState,
        frame: Result<FrameOutcome, SwapBuffersError>,
        target: Duration,
        now: Duration,
    ) -> (r: Result<BackendFrame, RenderError>)
        requires
            match *old(self) {
                Backend::Winit(_) => frame is Ok ==> old(state).redraw_state == RedrawState::Queued,
                Backend::Headless(_) => old(state).redraw_state == RedrawState::Queued,
                Backend::Udev(_) => match frame {
                    Ok(outcome) => old(state).can_finish(outcome, target@, now@),
                    Err(err) => recoverable(err) && (swap_error_policy(err) is Ok ==> old(
                        state,
                    ).can_finish(FrameOutcome::NotSubmitted, target@, now@)),
                },
            },
        ensures
            *final(self) == *old(self),
            match *old(self) {
                Backend::Winit(_) => match frame {
                    Ok(outcome) => {
                        let damage = outcome == FrameOutcome::Submitted;
                        &&& r == Ok::<BackendFrame, RenderError>(
                            BackendFrame::Winit(
                                WinitFrame {
                                    drawn: damage,
                                    submit: damage,
                                    request_redraw: old(state).animations_running,
                                },
                            ),
                        )
                        &&& final(state).same_setup(*old(state))
                        &&& final(state).redraw_state == RedrawState::Idle
                        &&& final(state).current_frame_sequence == next_sequence(
                            old(state).current_frame_sequence,
                        )
                    },
                    Err(_) => {
                        &&& r == Err::<BackendFrame, RenderError>(RenderError::BindFailed)
                        &&& *final(state) == *old(state)
                    },
                },
                Backend::Headless(_) => {
                    &&& r == Ok::<BackendFrame, RenderError>(BackendFrame::Headless { drawn: true })
                    &&& final(state).same_setup(*old(state))
                    &&& final(state).redraw_state == if old(state).animations_running {
                        RedrawState::Queued
                    } else {
                        RedrawState::Idle
                    }
                    &&& final(state).current_frame_sequence == next_sequence(
                        old(state).current_frame_sequence,
                    )
                },
                Backend::Udev(_) => match frame {
                    Ok(outcome) => r matches Ok(BackendFrame::Udev(rendered))
                        && !rendered.reset_device && old(state).finished(
                        *final(state),
                        outcome,
                        target@,
                        now@,
                        rendered.after,
                    ),
                    Err(err) => match swap_error_policy(err) {
                        Ok(reset) => r matches Ok(BackendFrame::Udev(rendered))
                            && rendered.reset_device == reset && old(state).finished(
                            *final(state),
                            FrameOutcome::NotSubmitted,
                            target@,
                            now@,
                            rendered.after,
                        ),
                        Err(e) => r == Err::<BackendFrame, RenderError>(e) && *final(state) == *old(
                            state,
                        ),
                    },
                },
            },
    {
        match self {
            Backend::Winit(data) => {
                let damage = match frame {
                    Ok(FrameOutcome::Submitted) => Some(true),
                    Ok(FrameOutcome::NotSubmitted) => Some(false),
                    Err(_) => None,
                };
                match data.render(state, damage) {
                    Ok(drawn) => Ok(BackendFrame::Winit(drawn)),
                    Err(err) => Err(err),
                }
            },
            Backend::Udev(data) => match data.render(state, frame, target, now) {
                Ok(rendered) => Ok(BackendFrame::Udev(rendered)),
                Err(err) => Err(err),
            },
            Backend::Headless(data) => {
                let drawn = data.render(state);
                Ok(BackendFrame::Headless { drawn })
            },
        }
    }

    /// Take over the variable refresh rate setting that the surface of `output` ended up with.
    /// Returns whether that changed anything about the output; it never does outside of the udev
    /// backend.
    pub fn update_output_vrr(&self, output: u64, state: &mut OutputState, enabled: bool) -> (found:
        bool)
        ensures
            found == (*self matches Backend::Udev(data) && data.location(output) is Some),
            !found ==> *final(state) == *old(state),
            found ==> {
                &&& final(state).redraw_state == old(state).redraw_state
                &&& final(state).current_frame_sequence == old(state).current_frame_sequence
                &&& final(state).animations_running == old(state).animations_running
                &&& final(state).frame_clock@ == old(state).frame_clock@.with_vrr(enabled)
            },
    {
        match self {
            Backend::Winit(_) => false,
            Backend::Udev(data) => data.update_output_vrr(output, state, enabled),
            Backend::Headless(_) => false,
        }
    }

    /// Set the mode of an output: the first attempt to make, or `None` where there is nothing to
    /// do. Only the udev backend has outputs that can change their mode.
    pub fn set_output_mode(
        &self,
        output: u64,
        scan: &[ScannedInfo],
        size: (i32, i32),
        refresh: i32,
        status: &SurfaceStatus,
    ) -> (r: Result<Option<(ModeAttempt, Mode)>, SetModeError>)
        requires
            self matches Backend::Udev(data) ==> data.can_set_output_mode(
                output,
                scan@,
                size,
                refresh,
                *status,
            ),
        ensures
            match *self {
                Backend::Udev(data) => data.sets_output_mode(
                    output,
                    scan@,
                    size,
                    refresh,
                    *status,
                    r,
                ),
                _ => r == Ok::<Option<(ModeAttempt, Mode)>, SetModeError>(None),
            },
    {
        match self {
            Backend::Winit(_) => Ok(None),
            Backend::Udev(data) => data.set_output_mode(output, scan, size, refresh, status),
            Backend::Headless(_) => Ok(None),
        }
    }

    /// The renderer for things outside the frames of an output; there is none without a screen.
    pub fn with_renderer(&self) -> (renderer: Option<BackendRenderer>)
        ensures
            renderer == match *self {
                Backend::Winit(_) => Some(BackendRenderer::Window),
                Backend::Udev(data) => Some(BackendRenderer::Gpu(data.primary_gpu)),
                Backend::Headless(_) => None,
            },
    {
        match self {
            Backend::Winit(_) => Some(BackendRenderer::Window),
            Backend::Udev(data) => Some(BackendRenderer::Gpu(data.primary_gpu)),
            Backend::Headless(_) => None,
        }
    }

    /// Whether `output` uses a variable refresh rate; `surface_vrr` is what its surface says.
    /// Outside of the udev backend there is no such thing.
    pub fn vrr_enabled(&self, output: u64, surface_vrr: bool) -> (r: Result<bool, NoMatchingOutput>)
        ensures
            r == match *self {
                Backend::Udev(data) => match data.location(output) {
                    Some(_) => Ok(surface_vrr),
                    None => Err(NoMatchingOutput),
                },
                _ => Ok(false),
            },
    {
        match self {
            Backend::Winit(_) => Ok(false),
            Backend::Udev(data) => data.vrr_enabled(output, surface_vrr),
            Backend::Headless(_) => Ok(false),
        }
    }

    /// Check that gamma ramps can be set, on a udev backend. Returns the ramps to set.
    pub fn set_gamma(
        &self,
        place: Option<(u64, u32)>,
        length: Option<usize>,
        r: Vec<u16>,
        g: Vec<u16>,
        b: Vec<u16>,
    ) -> (result: Result<(Vec<u16>, Vec<u16>, Vec<u16>), GammaError>)
        requires
            self is Udev,
        ensures
            result == match self->Udev_0.spec_gamma_size(place, length) {
                Err(err) => Err(err),
                Ok(expected) => if expected == r@.len() {
                    Ok((r, g, b))
                } else {
                    Err(GammaError::SizeMismatch { expected, got: r@.len() as usize })
                },
            },
    {
        match self {
            Backend::Udev(data) => data.set_gamma(place, length, r, g, b),
            _ => Ok((r, g, b)),
        }
    }

    /// The length of the gamma ramps of an output, where it has any.
    pub fn gamma_size(&self, place: Option<(u64, u32)>, length: Option<usize>) -> (size: Option<
        usize,
    >)
        ensures
            size == match *self {
                Backend::Udev(data) => match data.spec_gamma_size(place, length) {
                    Ok(size) => Some(size),
                    Err(_) => None,
                },
                _ => None,
            },
    {
        match self {
            Backend::Udev(data) => match data.gamma_size(place, length) {
                Ok(size) => Some(size),
                Err(_) => None,
            },
            _ => None,
        }
    }
}

/// A frame is drawn by the backend in use, which stays as it is. In a window only damage counts;
/// without a screen every frame is drawn.
pub proof fn frames_go_to_the_backend(
    backend: &mut Backend,
    state: &mut OutputState,
    frame: Result<FrameOutcome, SwapBuffersError>,
    target: Duration,
    now: Duration,
    drawn: Result<BackendFrame, RenderError>,
)
    requires
        *old(backend) is Winit || *old(backend) is Headless,
        old(state).redraw_state is Queued,
        call_ensures(Backend::render, (backend, state, frame, target, now), drawn),
    ensures
        *final(backend) == *old(backend),
        *old(backend) is Headless ==> drawn == Ok::<BackendFrame, RenderError>(
            BackendFrame::Headless { drawn: true },
        ) && (final(state).redraw_state is Queued <==> old(state).animations_running),
        *old(backend) is Winit ==> match frame {
            Ok(outcome) => drawn is Ok && drawn->Ok_0 is Winit && drawn->Ok_0->Winit_0.drawn == (
            outcome is Submitted) && drawn->Ok_0->Winit_0.submit == (outcome is Submitted)
                && drawn->Ok_0->Winit_0.request_redraw == old(state).animations_running && final(
                state
            ).redraw_state is Idle,
            Err(_) => drawn == Err::<BackendFrame, RenderError>(RenderError::BindFailed) && *final(
                state
            ) == *old(state),
        },
        drawn is Ok ==> (old(state).current_frame_sequence < u32::MAX ==> final(state).current_frame_sequence
            == old(state).current_frame_sequence + 1),
{
    assert(call_requires(Backend::render, (backend, state, frame, target, now)));
}

/// On a terminal, a frame goes through the same steps as [`UdevData::render`] says.
pub proof fn frames_on_a_terminal_go_to_the_device(
    backend: &mut Backend,
    data: UdevData,
    state: &mut OutputState,
    same: &mut OutputState,
    frame: Result<FrameOutcome, SwapBuffersError>,
    target: Duration,
    now: Duration,
    drawn: Result<BackendFrame, RenderError>,
    rendered: Result<Rendered, RenderError>,
)
    requires
        *old(backend) == Backend::Udev(data),
        *old(same) == *old(state),
        match frame {
            Ok(outcome) => old(state).can_finish(outcome, target@, now@),
            Err(err) => recoverable(err) && (swap_error_policy(err) is Ok ==> old(
                state,
            ).can_finish(FrameOutcome::NotSubmitted, target@, now@)),
        },
        call_ensures(Backend::render, (backend, state, frame, target, now), drawn),
        call_ensures(UdevData::render, (&data, same, frame, target, now), rendered),
    ensures
        drawn is Ok <==> rendered is Ok,
        drawn is Err ==> drawn->Err_0 == rendered->Err_0,
        drawn is Ok ==> drawn->Ok_0 is Udev && drawn->Ok_0->Udev_0.reset_device
            == rendered->Ok_0.reset_device,
        final(state).redraw_state == final(same).redraw_state,
        final(state).current_frame_sequence == final(same).current_frame_sequence,
        *final(backend) == *old(backend),
{
    assert(call_requires(Backend::render, (backend, state, frame, target, now)));
    assert(call_requires(UdevData::render, (&data, same, frame, target, now)));
}

/// Outside of a terminal there is nothing to configure about an output: no variable rate, no other
/// mode, no gamma ramps. Things are rendered by the window, by the primary GPU, or not at all.
pub proof fn only_terminals_configure_outputs(
    backend: &Backend,
    output: u64,
    state: &mut OutputState,
    enabled: bool,
    changed: bool,
    vrr: Result<bool, NoMatchingOutput>,
    place: Option<(u64, u32)>,
    length: Option<usize>,
    size: Option<usize>,
    renderer: Option<BackendRenderer>,
)
    requires
        call_ensures(Backend::update_output_vrr, (backend, output, state, enabled), changed),
        call_ensures(Backend::vrr_enabled, (backend, output, enabled), vrr),
        call_ensures(Backend::gamma_size, (backend, place, length), size),
        call_ensures(Backend::with_renderer, (backend,), renderer),
    ensures
        *backend is Winit || *backend is Headless ==> !changed && *final(state) == *old(state)
            && vrr == Ok::<bool, NoMatchingOutput>(false) && size is None,
        *backend is Winit ==> renderer == Some(BackendRenderer::Window),
        *backend is Headless ==> renderer is None,
        *backend matches Backend::Udev(data) ==> renderer == Some(
            BackendRenderer::Gpu(data.primary_gpu),
        ),
{
}

/// On a terminal, the variable rate and the gamma ramps are those of the device.
pub proof fn terminals_ask_the_device(
    backend: &Backend,
    data: UdevData,
    output: u64,
    enabled: bool,
    vrr: Result<bool, NoMatchingOutput>,
    same_vrr: Result<bool, NoMatchingOutput>,
    place: Option<(u64, u32)>,
    length: Option<usize>,
    size: Option<usize>,
    same_size: Result<usize, GammaError>,
)
    requires
        *backend == Backend::Udev(data),
        call_ensures(Backend::vrr_enabled, (backend, output, enabled), vrr),
        call_ensures(UdevData::vrr_enabled, (&data, output, enabled), same_vrr),
        call_ensures(Backend::gamma_size, (backend, place, length), size),
        call_ensures(UdevData::gamma_size, (&data, place, length), same_size),
    ensures
        vrr == same_vrr,
        size is Some <==> same_size is Ok,
        size matches Some(length) ==> same_size == Ok::<usize, GammaError>(length),
{
}

/// Only on a terminal can the mode of an output be set, and gamma ramps, as the device says.
pub proof fn modes_and_ramps_are_set_by_the_device(
    backend: &Backend,
    output: u64,
    scan: &[ScannedInfo],
    size: (i32, i32),
    refresh: i32,
    status: &SurfaceStatus,
    answer: Result<Option<(ModeAttempt, Mode)>, SetModeError>,
    place: Option<(u64, u32)>,
    length: Option<usize>,
    r: Vec<u16>,
    g: Vec<u16>,
    b: Vec<u16>,
    set: Result<(Vec<u16>, Vec<u16>, Vec<u16>), GammaError>,
    same: Result<(Vec<u16>, Vec<u16>, Vec<u16>), GammaError>,
)
    requires
        *backend matches Backend::Udev(data) ==> data.can_set_output_mode(
            output,
            scan@,
            size,
            refresh,
            *status,
        ),
        call_ensures(
            Backend::set_output_mode,
            (backend, output, scan, size, refresh, status),
            answer,
        ),
        *backend matches Backend::Udev(data) ==> call_ensures(
            Backend::set_gamma,
            (backend, place, length, r, g, b),
            set,
        ) && call_ensures(UdevData::set_gamma, (&data, place, length, r, g, b), same),
    ensures
        !(*backend is Udev) ==> answer == Ok::<Option<(ModeAttempt, Mode)>, SetModeError>(None),
        *backend is Udev ==> set == same,
        *backend matches Backend::Udev(data) ==> (data.location(output) is None ==> answer is Err),
{
    assert(call_requires(
        Backend::set_output_mode,
        (backend, output, scan, size, refresh, status),
    ));
    if let Backend::Udev(data) = *backend {
        assert(call_requires(Backend::set_gamma, (backend, place, length, r, g, b)));
        assert(call_requires(UdevData::set_gamma, (&data, place, length, r, g, b)));
    }
}

} // verus!
