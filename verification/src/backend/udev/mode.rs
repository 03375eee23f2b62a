//! DRM mode handling utilities.
use vstd::prelude::*;

use crate::backend::OutputMode;
use crate::config::keybind::Fraction;

verus! {

/// Mode flag: the vertical sync pulse is positive.
pub const DRM_MODE_FLAG_PVSYNC: u32 = 0x4;

/// Mode flag: the horizontal sync pulse is negative.
pub const DRM_MODE_FLAG_NHSYNC: u32 = 0x2;

/// Mode flag: every frame is made of two fields.
pub const DRM_MODE_FLAG_INTERLACE: u32 = 0x10;

/// Mode flag: every line is scanned out twice.
pub const DRM_MODE_FLAG_DBLSCAN: u32 = 0x20;

/// Mode type: the mode that the display prefers.
pub const DRM_MODE_TYPE_PREFERRED: u32 = 0x8;

/// Mode type: the mode was set up by the user.
pub const DRM_MODE_TYPE_USERDEF: u32 = 0x20;

/// How many bytes the kernel keeps for the name of a mode.
pub const MODE_NAME_LEN: usize = 32;

/// The timings of a display mode, as the kernel describes them.
#[derive(Clone, Copy, Debug)]
pub struct Mode {
    /// Pixel clock, in kilohertz.
    pub clock: u32,
    pub hdisplay: u16,
    pub hsync_start: u16,
    pub hsync_end: u16,
    pub htotal: u16,
    pub hskew: u16,
    pub vdisplay: u16,
    pub vsync_start: u16,
    pub vsync_end: u16,
    pub vtotal: u16,
    pub vscan: u16,
    /// Refresh rate in hertz, as the kernel rounded it.
    pub vrefresh: u32,
    pub flags: u32,
    pub mode_type: u32,
    pub name: [u8; 32],
}

/// Whether two modes agree in every field.
pub open spec fn same_mode(a: Mode, b: Mode) -> bool {
    &&& a.clock == b.clock
    &&& a.hdisplay == b.hdisplay
    &&& a.hsync_start == b.hsync_start
    &&& a.hsync_end == b.hsync_end
    &&& a.htotal == b.htotal
    &&& a.hskew == b.hskew
    &&& a.vdisplay == b.vdisplay
    &&& a.vsync_start == b.vsync_start
    &&& a.vsync_end == b.vsync_end
    &&& a.vtotal == b.vtotal
    &&& a.vscan == b.vscan
    &&& a.vrefresh == b.vrefresh
    &&& a.flags == b.flags
    &&& a.mode_type == b.mode_type
    &&& a.name@ == b.name@
}

impl Mode {
    /// Whether the mode shows `width` times `height` pixels.
    pub open spec fn spec_has_size(&self, width: u16, height: u16) -> bool {
        self.hdisplay == width && self.vdisplay == height
    }

    /// Whether the mode shows `width` times `height` pixels.
    pub fn has_size(&self, width: u16, height: u16) -> (b: bool)
        ensures
            b == self.spec_has_size(width, height),
    {
        self.hdisplay == width && self.vdisplay == height
    }

    /// Whether the display marked this mode as its preferred one.
    pub open spec fn spec_is_preferred(&self) -> bool {
        self.mode_type & DRM_MODE_TYPE_PREFERRED != 0
    }

    /// Whether the display marked this mode as its preferred one.
    pub fn is_preferred(&self) -> (b: bool)
        ensures
            b == self.spec_is_preferred(),
    {
        self.mode_type & DRM_MODE_TYPE_PREFERRED != 0
    }

    /// Whether this mode and `other` agree in every field.
    pub fn same(&self, other: &Mode) -> (b: bool)
        ensures
            b == same_mode(*self, *other),
    {
        let mut same_name = true;
        let mut i: usize = 0;
        while i < MODE_NAME_LEN
            invariant
                0 <= i <= MODE_NAME_LEN,
                same_name <==> forall|j: int| 0 <= j < i ==> self.name@[j] == other.name@[j],
            decreases MODE_NAME_LEN - i,
        {
            if self.name[i] != other.name[i] {
                same_name = false;
            }
            i += 1;
        }
        assert(same_name <==> self.name@ =~= other.name@);
        self.clock == other.clock && self.hdisplay == other.hdisplay && self.hsync_start
            == other.hsync_start && self.hsync_end == other.hsync_end && self.htotal == other.htotal
            && self.hskew == other.hskew && self.vdisplay == other.vdisplay && self.vsync_start
            == other.vsync_start && self.vsync_end == other.vsync_end && self.vtotal == other.vtotal
            && self.vscan == other.vscan && self.vrefresh == other.vrefresh && self.flags
            == other.flags && self.mode_type == other.mode_type && same_name
    }
}

/// The refresh rate of `mode` in millihertz, rounded down; zero for a mode without lines or
/// columns.
pub open spec fn refresh_rate(mode: Mode) -> nat {
    if mode.htotal == 0 || mode.vtotal == 0 {
        0
    } else {
        let vscan: nat = if mode.vscan > 1 { mode.vscan as nat } else { 1 };
        mode.clock as nat * 1_000_000 / (mode.vtotal as nat * mode.htotal as nat * vscan)
    }
}

/// Calculate the refresh rate of this mode, in whole millihertz.
pub fn calculate_refresh_rate(mode: &Mode) -> (rate: u64)
    ensures
        rate == refresh_rate(*mode),
{
    let htotal: u64 = mode.htotal as u64;
    let vtotal: u64 = mode.vtotal as u64;
    if htotal == 0 || vtotal == 0 {
        return 0;
    }
    let vscan: u64 = if mode.vscan > 1 { mode.vscan as u64 } else { 1 };
    let numerator: u64 = mode.clock as u64 * 1_000_000;
    assert(1 <= vtotal * htotal <= 0xffff * 0xffff) by (nonlinear_arith)
        requires
            1 <= vtotal <= 0xffff,
            1 <= htotal <= 0xffff,
    ;
    let area: u64 = vtotal * htotal;
    assert(1 <= area * vscan <= 0xffff * 0xffff * 0xffff) by (nonlinear_arith)
        requires
            1 <= area <= 0xffff * 0xffff,
            1 <= vscan <= 0xffff,
    ;
    let denominator: u64 = area * vscan;
    numerator / denominator
}

/// The frames or fields per thousand seconds that the clock of `mode` scans out, rounded to the
/// nearest.
pub open spec fn scan_rate(mode: Mode) -> nat
    recommends
        mode.htotal != 0,
        mode.vtotal != 0,
{
    (mode.clock as nat * 1_000_000 / mode.htotal as nat + mode.vtotal as nat / 2)
        / mode.vtotal as nat
}

/// The refresh rate of `mode` in millihertz, with its interlacing, double scan and repeated
/// lines taken into account.
pub open spec fn refresh_milli_hz(mode: Mode) -> nat
    recommends
        mode.htotal != 0,
        mode.vtotal != 0,
{
    let fields = if mode.flags & DRM_MODE_FLAG_INTERLACE != 0 {
        scan_rate(mode) * 2
    } else {
        scan_rate(mode)
    };
    let frames = if mode.flags & DRM_MODE_FLAG_DBLSCAN != 0 {
        fields / 2
    } else {
        fields
    };
    if mode.vscan > 1 {
        frames / mode.vscan as nat
    } else {
        frames
    }
}

/// The signed value of the low 32 bits of `x`.
pub open spec fn wrap_i32(x: nat) -> int {
    let low = x as int % 0x1_0000_0000;
    if low < 0x8000_0000 {
        low
    } else {
        low - 0x1_0000_0000
    }
}

/// Get a mode's refresh rate in millihertz.
pub fn get_refresh_milli_hz(mode: &Mode) -> (rate: i32)
    requires
        mode.htotal != 0,
        mode.vtotal != 0,
    ensures
        rate == wrap_i32(refresh_milli_hz(*mode)),
{
    let clock: u64 = mode.clock as u64;
    let htotal: u64 = mode.htotal as u64;
    let vtotal: u64 = mode.vtotal as u64;
    let lines: u64 = clock * 1_000_000 / htotal;
    assert(lines <= clock * 1_000_000) by (nonlinear_arith)
        requires
            lines == clock * 1_000_000 / htotal as int,
            htotal >= 1,
            clock >= 0,
    ;
    let mut refresh: u64 = (lines + vtotal / 2) / vtotal;
    assert(refresh <= lines + vtotal / 2) by (nonlinear_arith)
        requires
            refresh == (lines + vtotal / 2) / vtotal as int,
            vtotal >= 1,
            lines >= 0,
    ;
    if mode.flags & DRM_MODE_FLAG_INTERLACE != 0 {
        refresh = refresh * 2;
    }
    if mode.flags & DRM_MODE_FLAG_DBLSCAN != 0 {
        refresh = refresh / 2;
    }
    if mode.vscan > 1 {
        refresh = refresh / mode.vscan as u64;
    }
    let low: u64 = refresh % 0x1_0000_0000;
    if low < 0x8000_0000 {
        low as i32
    } else {
        (low as i64 - 0x1_0000_0000) as i32
    }
}

/// How clients are told about a mode.
pub open spec fn output_mode(mode: Mode) -> OutputMode {
    OutputMode {
        width: mode.hdisplay as i32,
        height: mode.vdisplay as i32,
        refresh: wrap_i32(refresh_milli_hz(mode)) as i32,
    }
}

/// How clients are told about a mode.
pub fn to_output_mode(mode: &Mode) -> (r: OutputMode)
    requires
        mode.htotal != 0,
        mode.vtotal != 0,
    ensures
        r == output_mode(*mode),
{
    OutputMode {
        width: mode.hdisplay as i32,
        height: mode.vdisplay as i32,
        refresh: get_refresh_milli_hz(mode),
    }
}

/// How far the refresh rate of `mode` is from `refresh`, both in millihertz.
pub open spec fn refresh_distance(mode: Mode, refresh: i32) -> int {
    let d = refresh - wrap_i32(refresh_milli_hz(mode));
    if d < 0 {
        -d
    } else {
        d
    }
}

/// Whether the mode at index `i` is preferred over the one at index `j`, both of the right size:
/// the closer refresh rate wins where one is asked for, else the higher one; ties go to the
/// earlier mode.
pub open spec fn better_match(modes: Seq<Mode>, refresh: Option<i32>, i: int, j: int) -> bool {
    match refresh {
        Some(refresh) => {
            let di = refresh_distance(modes[i], refresh);
            let dj = refresh_distance(modes[j], refresh);
            di < dj || (di == dj && i <= j)
        },
        None => modes[i].vrefresh > modes[j].vrefresh || (modes[i].vrefresh == modes[j].vrefresh && i
            <= j),
    }
}

/// Whether the mode at index `i` is the one that matches the description the closest.
pub open spec fn is_best_match(
    modes: Seq<Mode>,
    width: u16,
    height: u16,
    refresh: Option<i32>,
    i: int,
) -> bool {
    &&& 0 <= i < modes.len()
    &&& modes[i].spec_has_size(width, height)
    &&& forall|j: int|
        0 <= j < modes.len() && #[trigger] modes[j].spec_has_size(width, height) ==> better_match(
            modes,
            refresh,
            i,
            j,
        )
}

/// Whether the modes of the given size can be told apart by a refresh rate that is asked for:
/// each of them has lines and columns, without which it has no rate.
pub open spec fn can_match(
    modes: Seq<Mode>,
    width: u16,
    height: u16,
    refresh: Option<i32>,
) -> bool {
    refresh is Some ==> forall|i: int|
        0 <= i < modes.len() && #[trigger] modes[i].spec_has_size(width, height)
            ==> modes[i].htotal != 0 && modes[i].vtotal != 0
}

/// Whether there is a mode to use for an output, and the one that is asked for can be found.
pub open spec fn can_request(modes: Seq<Mode>, wanted: Option<(u16, u16, Option<i32>)>) -> bool {
    &&& modes.len() > 0
    &&& wanted matches Some(w) ==> can_match(modes, w.0, w.1, w.2)
}

/// Gets the mode that matches the given description the closest.
///
/// It first tries to match by **resolution**, then tries to find the one with the closest refresh
/// rate. If no refresh rate is specified, it uses the highest.
///
/// `refresh` is in millihertz.
pub fn get_matching_mode(modes: &[Mode], width: u16, height: u16, refresh: Option<i32>) -> (r:
    Option<Mode>)
    requires
        can_match(modes@, width, height, refresh),
    ensures
        r is None <==> forall|i: int|
            0 <= i < modes@.len() ==> !#[trigger] modes@[i].spec_has_size(width, height),
        r matches Some(mode) ==> exists|i: int|
            #[trigger] is_best_match(modes@, width, height, refresh, i) && modes@[i] == mode,
{
    let mut best: Option<usize> = None;
    let mut i: usize = 0;
    while i < modes.len()
        invariant
            0 <= i <= modes.len(),
            can_match(modes@, width, height, refresh),
            best is None ==> forall|j: int|
                0 <= j < i ==> !#[trigger] modes@[j].spec_has_size(width, height),
            best matches Some(b) ==> {
                &&& 0 <= b < i
                &&& modes@[b as int].spec_has_size(width, height)
                &&& forall|j: int|
                    0 <= j < i && #[trigger] modes@[j].spec_has_size(width, height) ==> better_match(
                        modes@,
                        refresh,
                        b as int,
                        j,
                    )
            },
        decreases modes.len() - i,
    {
        if modes[i].has_size(width, height) {
            match best {
                None => {
                    best = Some(i);
                },
                Some(b) => {
                    let improves = match refresh {
                        Some(refresh) => distance(&modes[i], refresh) < distance(
                            &modes[b],
                            refresh,
                        ),
                        None => modes[i].vrefresh > modes[b].vrefresh,
                    };
                    if improves {
                        best = Some(i);
                    }
                },
            }
        }
        i += 1;
    }
    match best {
        Some(b) => {
            assert(is_best_match(modes@, width, height, refresh, b as int));
            Some(modes[b])
        },
        None => None,
    }
}

/// How far the refresh rate of `mode` is from `refresh`, both in millihertz.
fn distance(mode: &Mode, refresh: i32) -> (d: i64)
    requires
        mode.htotal != 0,
        mode.vtotal != 0,
    ensures
        d == refresh_distance(*mode, refresh),
{
    let d: i64 = refresh as i64 - get_refresh_milli_hz(mode) as i64;
    if d < 0 {
        -d
    } else {
        d
    }
}

/// Whether the mode at index `i` is the default one: the first preferred mode, or the first of
/// all where none is preferred.
pub open spec fn is_default_mode(modes: Seq<Mode>, i: int) -> bool {
    &&& 0 <= i < modes.len()
    &&& {
        ||| modes[i].spec_is_preferred() && forall|j: int|
            0 <= j < i ==> !#[trigger] modes[j].spec_is_preferred()
        ||| i == 0 && forall|j: int|
            0 <= j < modes.len() ==> !#[trigger] modes[j].spec_is_preferred()
    }
}

/// Get the default mode from a mode list.
/// It first tries to find the preferred mode, if not found, uses the first one available.
pub fn get_default_mode(modes: &[Mode]) -> (mode: Mode)
    requires
        modes@.len() > 0,
    ensures
        exists|i: int| #[trigger] is_default_mode(modes@, i) && modes@[i] == mode,
{
    let mut i: usize = 0;
    while i < modes.len()
        invariant
            0 <= i <= modes.len(),
            forall|j: int| 0 <= j < i ==> !#[trigger] modes@[j].spec_is_preferred(),
        decreases modes.len() - i,
    {
        if modes[i].is_preferred() {
            assert(is_default_mode(modes@, i as int));
            return modes[i];
        }
        i += 1;
    }
    assert(is_default_mode(modes@, 0));
    modes[0]
}

/// The mode to use for an output: the one that the configuration asks for where there is a
/// match, else the default one. `refresh` is in millihertz.
pub fn get_requested_mode(modes: &[Mode], wanted: Option<(u16, u16, Option<i32>)>) -> (mode: Mode)
    requires
        can_request(modes@, wanted),
    ensures
        is_requested_mode(modes@, wanted, mode),
{
    match wanted {
        Some((width, height, refresh)) => match get_matching_mode(modes, width, height, refresh) {
            Some(mode) => mode,
            None => get_default_mode(modes),
        },
        None => get_default_mode(modes),
    }
}

/// Whether `mode` is what [`get_requested_mode`] picks from `modes`.
pub open spec fn is_requested_mode(
    modes: Seq<Mode>,
    wanted: Option<(u16, u16, Option<i32>)>,
    mode: Mode,
) -> bool {
    match wanted {
        Some(w) if has_size_in(modes, w.0, w.1) => exists|i: int| #[trigger]
            is_best_match(modes, w.0, w.1, w.2, i) && modes[i] == mode,
        _ => exists|i: int| #[trigger] is_default_mode(modes, i) && modes[i] == mode,
    }
}

/// Whether some mode of the list has the given size.
pub open spec fn has_size_in(modes: Seq<Mode>, width: u16, height: u16) -> bool {
    exists|i: int| 0 <= i < modes.len() && #[trigger] modes[i].spec_has_size(width, height)
}

/// The name of a mode in the fixed space that the kernel gives it: the first bytes of the label,
/// filled up with zeros.
pub open spec fn padded_name(label: Seq<u8>) -> Seq<u8> {
    Seq::new(
        MODE_NAME_LEN as nat,
        |i: int|
            if i < label.len() {
                label[i]
            } else {
                0u8
            },
    )
}

/// Fit the label of a mode into the space that the kernel has for it.
pub fn mode_name(label: &[u8]) -> (name: [u8; 32])
    ensures
        name@ == padded_name(label@),
{
    let mut name: [u8; 32] = [0u8;32];
    let mut i: usize = 0;
    while i < label.len() && i < MODE_NAME_LEN
        invariant
            0 <= i <= label.len(),
            i <= MODE_NAME_LEN,
            name@.len() == MODE_NAME_LEN,
            forall|j: int| 0 <= j < i ==> name@[j] == label@[j],
            forall|j: int| i <= j < MODE_NAME_LEN ==> name@[j] == 0,
        decreases label.len() - i,
    {
        name[i] = label[i];
        i += 1;
    }
    assert(name@ =~= padded_name(label@));
    name
}

/// The refresh rate of a custom mode for which none is asked, sixty hertz, by its bits.
pub const DEFAULT_RATE_BITS: u64 = 0x404e_0000_0000_0000;

/// What the coordinated video timings formula is asked for.
#[derive(Clone, Copy, Debug, PartialEq, Eq, Structural)]
pub struct CvtRequest {
    pub h_pixels: i32,
    pub v_lines: i32,
    /// The refresh rate, in hertz.
    pub rate: Fraction,
}

/// What the coordinated video timings formula is asked for to get a custom mode.
pub open spec fn spec_cvt_request(width: u16, height: u16, refresh: Option<Fraction>) -> CvtRequest {
    CvtRequest {
        h_pixels: width as i32,
        v_lines: height as i32,
        rate: match refresh {
            Some(rate) => rate,
            None => Fraction { bits: DEFAULT_RATE_BITS },
        },
    }
}

/// What the coordinated video timings formula is asked for to get a custom mode. The margins, the
/// interlacing and the reduced blanking that it knows of are not used.
pub fn cvt_request(width: u16, height: u16, refresh: Option<Fraction>) -> (request: CvtRequest)
    ensures
        request == spec_cvt_request(width, height, refresh),
{
    let rate = match refresh {
        Some(rate) => rate,
        None => Fraction { bits: DEFAULT_RATE_BITS },
    };
    CvtRequest { h_pixels: width as i32, v_lines: height as i32, rate }
}

/// The bytes of the decimal digits of `n`.
pub open spec fn decimal_bytes(n: nat) -> Seq<u8>
    decreases n,
{
    if n < 10 {
        seq![(48 + n) as u8]
    } else {
        decimal_bytes(n / 10).push((48 + n % 10) as u8)
    }
}

fn push_decimal_bytes(out: &mut Vec<u8>, n: u16)
    ensures
        final(out)@ == old(out)@ + decimal_bytes(n as nat),
    decreases n,
{
    if n < 10 {
        out.push(48 + n as u8);
    } else {
        push_decimal_bytes(out, n / 10);
        out.push(48 + (n % 10) as u8);
    }
    assert(out@ =~= old(out)@ + decimal_bytes(n as nat));
}

/// The text by which a custom mode is shown, such as `1920x1080@60`. `rate` is the text of the
/// refresh rate.
pub open spec fn spec_mode_label(width: u16, height: u16, rate: Seq<u8>) -> Seq<u8> {
    decimal_bytes(width as nat).push('x' as u8) + decimal_bytes(height as nat).push('@' as u8)
        + rate
}

/// The text by which a custom mode is shown, such as `1920x1080@60`. `rate` is the text of the
/// refresh rate.
pub fn mode_label(width: u16, height: u16, rate: &[u8]) -> (label: Vec<u8>)
    ensures
        label@ == spec_mode_label(width, height, rate@),
{
    let mut label: Vec<u8> = Vec::new();
    push_decimal_bytes(&mut label, width);
    label.push(0x78);
    push_decimal_bytes(&mut label, height);
    label.push(0x40);
    let ghost front = label@;
    let mut i: usize = 0;
    assert(label@ =~= front + rate@.take(0));
    while i < rate.len()
        invariant
            0 <= i <= rate.len(),
            label@ == front + rate@.take(i as int),
        decreases rate.len() - i,
    {
        label.push(rate[i]);
        i += 1;
        assert(label@ =~= front + rate@.take(i as int));
    }
    assert(rate@.take(rate@.len() as int) =~= rate@);
    assert(label@ =~= spec_mode_label(width, height, rate@));
    label
}

/// The timings that the coordinated video timings formula gives for a resolution and a refresh
/// rate, rounded to what a mode can hold.
#[derive(Clone, Copy, Debug)]
pub struct CvtTiming {
    pub clock: u32,
    pub hsync_start: u16,
    pub hsync_end: u16,
    pub htotal: u16,
    pub vdisplay: u16,
    pub vsync_start: u16,
    pub vsync_end: u16,
    pub vtotal: u16,
    pub vrefresh: u32,
}

/// Whether `mode` is the custom mode of the given size and rate, with these timings.
pub open spec fn is_custom_mode(
    mode: Mode,
    width: u16,
    height: u16,
    rate: Seq<u8>,
    timing: CvtTiming,
) -> bool {
    &&& mode.clock == timing.clock
    &&& mode.hdisplay == width
    &&& mode.hsync_start == timing.hsync_start
    &&& mode.hsync_end == timing.hsync_end
    &&& mode.htotal == timing.htotal
    &&& mode.hskew == 0
    &&& mode.vdisplay == timing.vdisplay
    &&& mode.vsync_start == timing.vsync_start
    &&& mode.vsync_end == timing.vsync_end
    &&& mode.vtotal == timing.vtotal
    &&& mode.vscan == 0
    &&& mode.vrefresh == timing.vrefresh
    &&& mode.flags == DRM_MODE_FLAG_NHSYNC | DRM_MODE_FLAG_PVSYNC
    &&& mode.mode_type == DRM_MODE_TYPE_USERDEF
    &&& mode.name@ == padded_name(spec_mode_label(width, height, rate))
}

/// Create a mode out of computed timings, which always succeeds.
///
/// `timing` is what the formula gives for [`cvt_request`], and `rate` the text of the refresh rate
/// in that request.
pub fn get_custom_mode(width: u16, height: u16, rate: &[u8], timing: &CvtTiming) -> (r: Option<
    Mode,
>)
    ensures
        r matches Some(mode) && is_custom_mode(mode, width, height, rate@, *timing),
{
    let label = mode_label(width, height, rate);
    Some(Mode {
        clock: timing.clock,
        hdisplay: width,
        hsync_start: timing.hsync_start,
        hsync_end: timing.hsync_end,
        htotal: timing.htotal,
        hskew: 0,
        vdisplay: timing.vdisplay,
        vsync_start: timing.vsync_start,
        vsync_end: timing.vsync_end,
        vtotal: timing.vtotal,
        vscan: 0,
        vrefresh: timing.vrefresh,
        flags: DRM_MODE_FLAG_NHSYNC | DRM_MODE_FLAG_PVSYNC,
        mode_type: DRM_MODE_TYPE_USERDEF,
        name: mode_name(label.as_slice()),
    })
}

/// A custom mode for which no refresh rate is asked is one of sixty hertz.
pub proof fn custom_modes_have_sixty_hertz_by_default(width: u16, height: u16)
    ensures
        spec_cvt_request(width, height, None) == spec_cvt_request(
            width,
            height,
            Some(Fraction { bits: DEFAULT_RATE_BITS }),
        ),
{
}

/// A custom mode is made by the user, has the width that was asked for, scans every line once, and
/// is named after its size and rate, as far as the name has room for that.
pub proof fn custom_modes_are_named_after_their_size(
    mode: Mode,
    width: u16,
    height: u16,
    rate: Seq<u8>,
    timing: CvtTiming,
)
    requires
        is_custom_mode(mode, width, height, rate, timing),
    ensures
        mode.hdisplay == width,
        mode.vscan == 0,
        mode.mode_type == DRM_MODE_TYPE_USERDEF,
        forall|i: int|
            0 <= i < MODE_NAME_LEN && i < spec_mode_label(width, height, rate).len()
                ==> #[trigger] mode.name@[i] == spec_mode_label(width, height, rate)[i],
        forall|i: int|
            spec_mode_label(width, height, rate).len() <= i < MODE_NAME_LEN
                ==> #[trigger] mode.name@[i] == 0,
{
}

/// The closest match is unique: no two indices of a list can both be it.
pub proof fn best_match_is_unique(
    modes: Seq<Mode>,
    width: u16,
    height: u16,
    refresh: Option<i32>,
    i: int,
    j: int,
)
    requires
        is_best_match(modes, width, height, refresh, i),
        is_best_match(modes, width, height, refresh, j),
    ensures
        i == j,
{
    assert(modes[i].spec_has_size(width, height));
    assert(modes[j].spec_has_size(width, height));
}

/// A mode that has exactly the refresh rate asked for is matched before any other rate.
pub proof fn exact_refresh_is_matched(
    modes: Seq<Mode>,
    width: u16,
    height: u16,
    refresh: i32,
    exact: int,
    best: int,
)
    requires
        0 <= exact < modes.len(),
        modes[exact].spec_has_size(width, height),
        wrap_i32(refresh_milli_hz(modes[exact])) == refresh,
        is_best_match(modes, width, height, Some(refresh), best),
    ensures
        wrap_i32(refresh_milli_hz(modes[best])) == refresh,
{
    assert(better_match(modes, Some(refresh), best, exact));
}

/// Without a refresh rate no mode of the size beats the matched one.
pub proof fn highest_refresh_is_matched(
    modes: Seq<Mode>,
    width: u16,
    height: u16,
    best: int,
    other: int,
)
    requires
        is_best_match(modes, width, height, None, best),
        0 <= other < modes.len(),
        modes[other].spec_has_size(width, height),
    ensures
        modes[best].vrefresh >= modes[other].vrefresh,
{
    assert(better_match(modes, None, best, other));
}

/// The mode to use for an output is unique as well.
pub proof fn requested_mode_is_unique(
    modes: Seq<Mode>,
    wanted: Option<(u16, u16, Option<i32>)>,
    a: Mode,
    b: Mode,
)
    requires
        is_requested_mode(modes, wanted, a),
        is_requested_mode(modes, wanted, b),
    ensures
        a == b,
{
    match wanted {
        Some(w) if has_size_in(modes, w.0, w.1) => {
            let i = choose|i: int| #[trigger]
                is_best_match(modes, w.0, w.1, w.2, i) && modes[i] == a;
            let j = choose|j: int| #[trigger]
                is_best_match(modes, w.0, w.1, w.2, j) && modes[j] == b;
            best_match_is_unique(modes, w.0, w.1, w.2, i, j);
        },
        _ => {
            let i = choose|i: int| #[trigger] is_default_mode(modes, i) && modes[i] == a;
            let j = choose|j: int| #[trigger] is_default_mode(modes, j) && modes[j] == b;
            default_mode_is_unique(modes, i, j);
        },
    }
}

/// The default mode is unique, too.
pub proof fn default_mode_is_unique(modes: Seq<Mode>, i: int, j: int)
    requires
        is_default_mode(modes, i),
        is_default_mode(modes, j),
    ensures
        i == j,
{
    assert(modes[i].spec_is_preferred() || !modes[i].spec_is_preferred());
    assert(modes[j].spec_is_preferred() || !modes[j].spec_is_preferred());
}

/// No mode of the size that is asked for has a refresh rate closer to the one that is asked for
/// than the matched mode, be it faster or slower; among equally close ones the first is matched.
/// Where there is a mode of the size, there is a match.
pub proof fn closest_refresh_is_matched(
    modes: &[Mode],
    width: u16,
    height: u16,
    refresh: i32,
    matched: Option<Mode>,
    other: int,
)
    requires
        can_match(modes@, width, height, Some(refresh)),
        call_ensures(get_matching_mode, (modes, width, height, Some(refresh)), matched),
        0 <= other < modes@.len(),
        modes@[other].hdisplay == width,
        modes@[other].vdisplay == height,
    ensures
        matched matches Some(mode) && mode.hdisplay == width && mode.vdisplay == height && exists|
            best: int,
        |
            0 <= best < modes@.len() && #[trigger] modes@[best] == mode && {
                let off = refresh - wrap_i32(refresh_milli_hz(mode));
                let other_off = refresh - wrap_i32(refresh_milli_hz(modes@[other]));
                &&& off <= other_off || off <= -other_off
                &&& -off <= other_off || -off <= -other_off
                &&& off == other_off || off == -other_off ==> best <= other
            },
{
    assert(call_requires(get_matching_mode, (modes, width, height, Some(refresh))));
    assert(modes@[other].spec_has_size(width, height));
    let mode = matched->0;
    let best = choose|i: int|
        #[trigger] is_best_match(modes@, width, height, Some(refresh), i) && modes@[i] == mode;
    assert(better_match(modes@, Some(refresh), best, other));
    assert(modes@[best] == mode);
}

/// Where no refresh rate is asked for, no mode of the size that is asked for is faster than the
/// matched mode, and the first of the fastest is matched.
pub proof fn fastest_mode_is_matched(
    modes: &[Mode],
    width: u16,
    height: u16,
    matched: Option<Mode>,
    other: int,
)
    requires
        call_ensures(get_matching_mode, (modes, width, height, None), matched),
        0 <= other < modes@.len(),
        modes@[other].hdisplay == width,
        modes@[other].vdisplay == height,
    ensures
        matched matches Some(mode) && mode.hdisplay == width && mode.vdisplay == height
            && mode.vrefresh >= modes@[other].vrefresh && exists|best: int|
            0 <= best < modes@.len() && #[trigger] modes@[best] == mode && (mode.vrefresh
                == modes@[other].vrefresh ==> best <= other),
{
    assert(call_requires(get_matching_mode, (modes, width, height, None)));
    assert(modes@[other].spec_has_size(width, height));
    let mode = matched->0;
    let best = choose|i: int|
        #[trigger] is_best_match(modes@, width, height, None, i) && modes@[i] == mode;
    assert(better_match(modes@, None, best, other));
    assert(modes@[best] == mode);
}

/// A mode is only matched if the display has it, in the size that is asked for.
pub proof fn matched_modes_have_the_size(
    modes: &[Mode],
    width: u16,
    height: u16,
    refresh: Option<i32>,
    matched: Option<Mode>,
)
    requires
        can_match(modes@, width, height, refresh),
        call_ensures(get_matching_mode, (modes, width, height, refresh), matched),
    ensures
        matched matches Some(mode) ==> modes@.contains(mode) && mode.hdisplay == width
            && mode.vdisplay == height,
{
    if let Some(mode) = matched {
        let best = choose|i: int|
            #[trigger] is_best_match(modes@, width, height, refresh, i) && modes@[i] == mode;
        assert(modes@[best] == mode);
    }
}

/// The default mode is one that the display has; it is a preferred one if there is any, and then
/// none before it is preferred, and else it is the first one.
pub proof fn default_mode_is_preferred(modes: &[Mode], mode: Mode, other: int)
    requires
        call_ensures(get_default_mode, (modes,), mode),
        0 <= other < modes@.len(),
    ensures
        modes@.contains(mode),
        modes@[other].mode_type & 0x8 != 0 ==> mode.mode_type & 0x8 != 0,
        mode.mode_type & 0x8 == 0 ==> mode == modes@[0],
        mode.mode_type & 0x8 != 0 ==> exists|i: int|
            0 <= i < modes@.len() && #[trigger] modes@[i] == mode && (other < i
                ==> modes@[other].mode_type & 0x8 == 0),
{
    let i = choose|i: int| #[trigger] is_default_mode(modes@, i) && modes@[i] == mode;
    assert(modes@[i] == mode);
    assert(modes@[other].spec_is_preferred() == (modes@[other].mode_type & 0x8 != 0));
    assert(modes@[i].spec_is_preferred() == (modes@[i].mode_type & 0x8 != 0));
}

/// The mode for an output is the one that matches the configuration, if the display has any mode
/// of that size; without a configured mode, or without a match, it is the default one.
pub proof fn configured_mode_comes_first(
    modes: &[Mode],
    wanted: Option<(u16, u16, Option<i32>)>,
    mode: Mode,
    default_mode: Mode,
    matched: Option<Mode>,
)
    requires
        can_request(modes@, wanted),
        call_ensures(get_requested_mode, (modes, wanted), mode),
        call_ensures(get_default_mode, (modes,), default_mode),
        wanted matches Some(w) ==> call_ensures(get_matching_mode, (modes, w.0, w.1, w.2), matched),
    ensures
        wanted is None ==> mode == default_mode,
        wanted is Some ==> match matched {
            Some(matched) => mode == matched,
            None => mode == default_mode,
        },
{
    let d = choose|i: int| #[trigger] is_default_mode(modes@, i) && modes@[i] == default_mode;
    match wanted {
        Some(w) if has_size_in(modes@, w.0, w.1) => {
            let i = choose|i: int| #[trigger]
                is_best_match(modes@, w.0, w.1, w.2, i) && modes@[i] == mode;
            assert(call_requires(get_matching_mode, (modes, w.0, w.1, w.2)));
            assert(modes@[i].spec_has_size(w.0, w.1));
            let j = choose|j: int| #[trigger]
                is_best_match(modes@, w.0, w.1, w.2, j) && modes@[j] == matched->0;
            best_match_is_unique(modes@, w.0, w.1, w.2, i, j);
        },
        _ => {
            if let Some(w) = wanted {
                assert(call_requires(get_matching_mode, (modes, w.0, w.1, w.2)));
            }
            let i = choose|i: int| #[trigger] is_default_mode(modes@, i) && modes@[i] == mode;
            default_mode_is_unique(modes@, i, d);
        },
    }
}

/// The whole millihertz of a refresh rate: in a thousand seconds, that many frames of all pixels
/// can be scanned out, with every line as often as it is repeated, but not one more. A mode
/// without lines or columns has no rate.
pub proof fn refresh_rate_counts_frames(mode: &Mode, rate: u64)
    requires
        call_ensures(calculate_refresh_rate, (mode,), rate),
    ensures
        mode.htotal == 0 || mode.vtotal == 0 ==> rate == 0,
        mode.htotal != 0 && mode.vtotal != 0 ==> {
            let repeats = if mode.vscan > 1 { mode.vscan as int } else { 1 };
            let pixels = mode.vtotal * mode.htotal * repeats;
            rate * pixels <= mode.clock * 1_000_000 < (rate + 1) * pixels
        },
{
    if mode.htotal != 0 && mode.vtotal != 0 {
        let repeats = if mode.vscan > 1 { mode.vscan as int } else { 1 };
        let pixels = mode.vtotal * mode.htotal * repeats;
        let clock = mode.clock * 1_000_000;
        assert(pixels > 0) by (nonlinear_arith)
            requires
                pixels == mode.vtotal * mode.htotal * repeats,
                mode.vtotal > 0,
                mode.htotal > 0,
                repeats > 0,
        ;
        assert(rate * pixels <= clock < (rate + 1) * pixels) by (nonlinear_arith)
            requires
                pixels > 0,
                rate == clock / pixels,
        ;
    }
}

/// The rate that clients are told about a plain mode is the pixel clock divided by the size of a
/// frame, rounded: a whole number of pixels is scanned out for each line, and half a frame more or
/// less is as close as it gets.
pub proof fn refresh_follows_the_pixel_clock(mode: &Mode, rate: i32)
    requires
        call_ensures(get_refresh_milli_hz, (mode,), rate),
        mode.htotal != 0,
        mode.vtotal != 0,
        mode.flags & 0x10 == 0,
        mode.flags & 0x20 == 0,
        mode.vscan <= 1,
        mode.clock * 1_000_000 <= 0x7fff_0000 * mode.htotal,
    ensures
        rate >= 0,
        2 * rate * mode.vtotal * mode.htotal <= 2 * mode.clock * 1_000_000 + mode.vtotal
            * mode.htotal,
        2 * mode.clock * 1_000_000 < 2 * rate * mode.vtotal * mode.htotal + (mode.vtotal + 3)
            * mode.htotal,
{
    let h = mode.htotal as int;
    let v = mode.vtotal as int;
    let c = mode.clock * 1_000_000;
    let lines = c / h;
    let r = (lines + v / 2) / v;
    assert(h * lines <= c < h * lines + h) by (nonlinear_arith)
        requires
            lines == c / h,
            h > 0,
    ;
    assert(lines <= 0x7fff_0000) by (nonlinear_arith)
        requires
            h * lines <= c,
            c <= 0x7fff_0000 * h,
            h >= 1,
    ;
    assert(v * r <= lines + v / 2 < v * r + v) by (nonlinear_arith)
        requires
            r == (lines + v / 2) / v,
            v > 0,
    ;
    assert(0 <= r <= lines + v / 2) by (nonlinear_arith)
        requires
            r == (lines + v / 2) / v,
            v >= 1,
            lines + v / 2 >= 0,
    ;
    assert(lines >= 0) by (nonlinear_arith)
        requires
            lines == c / h,
            h > 0,
            c >= 0,
    ;
    assert(rate == r);
    assert(2 * r * v * h <= 2 * c + v * h) by (nonlinear_arith)
        requires
            2 * (v * r) <= 2 * lines + v,
            h * lines <= c,
            h > 0,
    ;
    assert(2 * c < 2 * r * v * h + (v + 3) * h) by (nonlinear_arith)
        requires
            2 * lines < 2 * (v * r) + v + 1,
            c < h * lines + h,
            h > 0,
    ;
}

/// Of two modes with the same clock and the same totals, one that differs from a plain one by being
/// interlaced shows twice as many pictures, one that scans every line twice shows half as many,
/// and one that repeats its lines shows as many fewer.
pub proof fn scanning_changes_the_refresh(
    plain: &Mode,
    mode: &Mode,
    plain_rate: i32,
    rate: i32,
)
    requires
        plain.htotal != 0,
        plain.vtotal != 0,
        call_ensures(get_refresh_milli_hz, (plain,), plain_rate),
        call_ensures(get_refresh_milli_hz, (mode,), rate),
        plain.flags & 0x10 == 0,
        plain.flags & 0x20 == 0,
        plain.vscan <= 1,
        mode.clock == plain.clock,
        mode.htotal == plain.htotal,
        mode.vtotal == plain.vtotal,
        plain.clock * 1_000_000 <= 0x3fff_0000 * plain.htotal,
    ensures
        mode.flags & 0x10 != 0 && mode.flags & 0x20 == 0 && mode.vscan <= 1 ==> rate == 2
            * plain_rate,
        mode.flags & 0x10 == 0 && mode.flags & 0x20 != 0 && mode.vscan <= 1 ==> 2 * rate
            <= plain_rate < 2 * rate + 2,
        mode.flags & 0x10 != 0 && mode.flags & 0x20 != 0 && mode.vscan <= 1 ==> rate == plain_rate,
        mode.flags & 0x10 == 0 && mode.flags & 0x20 == 0 && mode.vscan > 1 ==> rate * mode.vscan
            <= plain_rate < (rate + 1) * mode.vscan,
{
    let h = plain.htotal as int;
    let v = plain.vtotal as int;
    let c = plain.clock * 1_000_000;
    let lines = c / h;
    let r = (lines + v / 2) / v;
    assert(0 <= lines <= 0x3fff_0000) by (nonlinear_arith)
        requires
            lines == c / h,
            c <= 0x3fff_0000 * h,
            c >= 0,
            h >= 1,
    ;
    assert(0 <= r <= lines + v / 2) by (nonlinear_arith)
        requires
            r == (lines + v / 2) / v,
            v >= 1,
            lines + v / 2 >= 0,
    ;
    assert(plain_rate == r);
    if mode.vscan > 1 {
        let s = mode.vscan as int;
        let q = r / s;
        assert(0 <= q <= r && q * s <= r < (q + 1) * s) by (nonlinear_arith)
            requires
                q == r / s,
                s > 1,
                r >= 0,
        ;
    }
}

/// Clients are told the size of a mode as it is, and the refresh rate of the mode.
pub proof fn clients_are_told_the_mode(mode: &Mode, told: OutputMode, rate: i32)
    requires
        mode.htotal != 0,
        mode.vtotal != 0,
        call_ensures(to_output_mode, (mode,), told),
        call_ensures(get_refresh_milli_hz, (mode,), rate),
    ensures
        told.width == mode.hdisplay,
        told.height == mode.vdisplay,
        told.refresh == rate,
{
}

/// Modes are taken for the same exactly if no field differs.
pub proof fn different_modes_are_told_apart(a: &Mode, b: &Mode, same: bool)
    requires
        call_ensures(Mode::same, (a, b), same),
    ensures
        a.clock != b.clock || a.hdisplay != b.hdisplay || a.vdisplay != b.vdisplay || a.vrefresh
            != b.vrefresh || a.flags != b.flags || a.mode_type != b.mode_type ==> !same,
        a.hsync_start != b.hsync_start || a.hsync_end != b.hsync_end || a.htotal != b.htotal
            || a.hskew != b.hskew || a.vsync_start != b.vsync_start || a.vsync_end != b.vsync_end
            || a.vtotal != b.vtotal || a.vscan != b.vscan || a.name@ != b.name@ ==> !same,
        *a == *b ==> same,
        !same ==> *a != *b,
{
}

/// The size that is asked for is handed to the formula for custom modes, and so is the rate; where
/// there is none, it is sixty hertz, whose bits are those of the number sixty.
pub proof fn custom_modes_are_computed_for_the_request(
    width: u16,
    height: u16,
    refresh: Option<Fraction>,
    request: CvtRequest,
)
    requires
        call_ensures(cvt_request, (width, height, refresh), request),
    ensures
        request.h_pixels == width,
        request.v_lines == height,
        refresh matches Some(rate) ==> request.rate == rate,
        refresh is None ==> request.rate.bits == 0x404e_0000_0000_0000,
{
}

/// The number that decimal digits stand for.
pub open spec fn digits_number(digits: Seq<u8>) -> int
    decreases digits.len(),
{
    if digits.len() == 0 {
        0
    } else {
        digits_number(digits.drop_last()) * 10 + (digits.last() - 48)
    }
}

proof fn lemma_decimal_bytes(n: nat)
    ensures
        digits_number(decimal_bytes(n)) == n,
        decimal_bytes(n).len() >= 1,
        n > 0 ==> decimal_bytes(n)[0] != 48,
        forall|i: int|
            0 <= i < decimal_bytes(n).len() ==> 48 <= #[trigger] decimal_bytes(n)[i] <= 57,
    decreases n,
{
    reveal_with_fuel(digits_number, 2);
    if n < 10 {
        assert(decimal_bytes(n).drop_last() =~= Seq::empty());
    } else {
        lemma_decimal_bytes(n / 10);
        assert(decimal_bytes(n).drop_last() =~= decimal_bytes(n / 10));
    }
}

/// The label of a custom mode is its width, an `x`, its height, an `@` and its rate, in this order,
/// with both numbers in decimal digits and without leading zeros.
pub proof fn labels_spell_out_the_mode(
    width: u16,
    height: u16,
    rate: &[u8],
    label: Vec<u8>,
)
    requires
        call_ensures(mode_label, (width, height, rate), label),
    ensures
        exists|x: int, at: int|
            0 < x < at - 1 && at < label@.len() && #[trigger] label@[x] == 120
                && #[trigger] label@[at] == 64 && digits_number(label@.subrange(0, x)) == width
                && digits_number(label@.subrange(x + 1, at)) == height && label@.subrange(
                at + 1,
                label@.len() as int,
            ) == rate@ && (width > 0 ==> label@[0] != 48) && (height > 0 ==> label@[x + 1] != 48),
{
    let w = decimal_bytes(width as nat);
    let h = decimal_bytes(height as nat);
    lemma_decimal_bytes(width as nat);
    lemma_decimal_bytes(height as nat);
    let x = w.len() as int;
    let at = x + 1 + h.len();
    assert(label@.subrange(0, x) =~= w);
    assert(label@.subrange(x + 1, at) =~= h);
    assert(label@.subrange(at + 1, label@.len() as int) =~= rate@);
    assert(label@[x] == 120 && label@[at] == 64);
}

/// A custom mode has the timings that were computed, the width that was asked for, and the first
/// bytes of its label as its name, with zeros after it. It is marked as made by the user, with a
/// negative horizontal and a positive vertical sync pulse.
pub proof fn custom_modes_have_the_computed_timings(
    width: u16,
    height: u16,
    rate: &[u8],
    timing: &CvtTiming,
    made: Option<Mode>,
    label: Vec<u8>,
)
    requires
        call_ensures(get_custom_mode, (width, height, rate, timing), made),
        call_ensures(mode_label, (width, height, rate), label),
    ensures
        made matches Some(mode) && mode.hdisplay == width && mode.vdisplay == timing.vdisplay
            && mode.clock == timing.clock && mode.htotal == timing.htotal && mode.vtotal
            == timing.vtotal && mode.hsync_start == timing.hsync_start && mode.hsync_end
            == timing.hsync_end && mode.vsync_start == timing.vsync_start && mode.vsync_end
            == timing.vsync_end && mode.vrefresh == timing.vrefresh && mode.hskew == 0
            && mode.vscan == 0 && mode.mode_type == 0x20 && mode.flags & 0x2 != 0 && mode.flags
            & 0x4 != 0 && mode.flags & 0x10 == 0 && mode.flags & 0x20 == 0 && (forall|i: int|
            0 <= i < 32 ==> #[trigger] mode.name@[i] == if i < label@.len() {
                label@[i]
            } else {
                0
            }),
{
    assert(2u32 | 4u32 == 6u32) by (bit_vector);
    assert(6u32 & 0x2 != 0 && 6u32 & 0x4 != 0 && 6u32 & 0x10 == 0 && 6u32 & 0x20 == 0)
        by (bit_vector);
}

/// A mode that repeats every line several times shows as many fewer pictures than the same mode
/// without that, however it is scanned otherwise.
pub proof fn repeated_lines_divide_the_refresh(
    once: &Mode,
    mode: &Mode,
    once_rate: i32,
    rate: i32,
)
    requires
        once.htotal != 0,
        once.vtotal != 0,
        call_ensures(get_refresh_milli_hz, (once,), once_rate),
        call_ensures(get_refresh_milli_hz, (mode,), rate),
        once.vscan <= 1,
        mode.vscan > 1,
        mode.flags == once.flags,
        mode.clock == once.clock,
        mode.htotal == once.htotal,
        mode.vtotal == once.vtotal,
        once.clock * 1_000_000 <= 0x3fff_0000 * once.htotal,
    ensures
        rate * mode.vscan <= once_rate < (rate + 1) * mode.vscan,
{
    let h = once.htotal as int;
    let v = once.vtotal as int;
    let c = once.clock * 1_000_000;
    let lines = c / h;
    let r = (lines + v / 2) / v;
    assert(0 <= lines <= 0x3fff_0000) by (nonlinear_arith)
        requires
            lines == c / h,
            c <= 0x3fff_0000 * h,
            c >= 0,
            h >= 1,
    ;
    assert(0 <= r <= lines + v / 2) by (nonlinear_arith)
        requires
            r == (lines + v / 2) / v,
            v >= 1,
            lines + v / 2 >= 0,
    ;
    let s = mode.vscan as int;
    let b = once_rate as int;
    assert(0 <= once_rate);
    let q = b / s;
    assert(0 <= q <= b && q * s <= b < (q + 1) * s) by (nonlinear_arith)
        requires
            q == b / s,
            s > 1,
            b >= 0,
    ;
    assert(rate == q);
}

} // verus!
