use fht_compositor::backend::udev::mode::{
    calculate_refresh_rate, cvt_request, get_custom_mode, get_default_mode, get_matching_mode,
    get_refresh_milli_hz, get_requested_mode, mode_label, mode_name, CvtRequest, CvtTiming, Mode,
    DRM_MODE_FLAG_DBLSCAN,
    DRM_MODE_FLAG_INTERLACE, DRM_MODE_FLAG_NHSYNC, DRM_MODE_FLAG_PVSYNC, DRM_MODE_TYPE_PREFERRED,
    DRM_MODE_TYPE_USERDEF,
};
use fht_compositor::config::keybind::Fraction;

pub fn mode(w: u16, h: u16, clock: u32, htotal: u16, vtotal: u16, vrefresh: u32) -> Mode {
    Mode {
        clock,
        hdisplay: w,
        hsync_start: w + 8,
        hsync_end: w + 16,
        htotal,
        hskew: 0,
        vdisplay: h,
        vsync_start: h + 2,
        vsync_end: h + 4,
        vtotal,
        vscan: 0,
        vrefresh,
        flags: 0,
        mode_type: 0,
        name: [0; 32],
    }
}

fn full_hd() -> Mode {
    mode(1920, 1080, 148_500, 2200, 1125, 60)
}

#[test]
fn flags_are_those_of_the_kernel() {
    assert_eq!(DRM_MODE_FLAG_INTERLACE, drm_ffi::DRM_MODE_FLAG_INTERLACE);
    assert_eq!(DRM_MODE_FLAG_DBLSCAN, drm_ffi::DRM_MODE_FLAG_DBLSCAN);
    assert_eq!(DRM_MODE_FLAG_NHSYNC, drm_ffi::DRM_MODE_FLAG_NHSYNC);
    assert_eq!(DRM_MODE_FLAG_PVSYNC, drm_ffi::DRM_MODE_FLAG_PVSYNC);
    assert_eq!(DRM_MODE_TYPE_PREFERRED, drm_ffi::DRM_MODE_TYPE_PREFERRED);
    assert_eq!(DRM_MODE_TYPE_USERDEF, drm_ffi::DRM_MODE_TYPE_USERDEF);
}

#[test]
fn refresh_rates() {
    let m = full_hd();
    assert_eq!(calculate_refresh_rate(&m), 60_000);
    assert_eq!(get_refresh_milli_hz(&m), 60_000);
    let interlaced = Mode { flags: DRM_MODE_FLAG_INTERLACE, ..m };
    assert_eq!(get_refresh_milli_hz(&interlaced), 120_000);
    let doubled = Mode { flags: DRM_MODE_FLAG_DBLSCAN, ..m };
    assert_eq!(get_refresh_milli_hz(&doubled), 30_000);
    let repeated = Mode { vscan: 3, ..m };
    assert_eq!(get_refresh_milli_hz(&repeated), 20_000);
    assert_eq!(calculate_refresh_rate(&repeated), 20_000);
    // One is rounded to the nearest, the other down.
    let odd = mode(1920, 1080, 148_352, 2200, 1125, 60);
    assert_eq!(calculate_refresh_rate(&odd), 59_940);
    assert_eq!(get_refresh_milli_hz(&odd), 59_940);
    let odd = mode(640, 480, 25_175, 800, 525, 60);
    assert_eq!(calculate_refresh_rate(&odd), 59_940);
    assert_eq!(get_refresh_milli_hz(&odd), 59_940);
    assert_eq!(calculate_refresh_rate(&Mode { htotal: 0, ..m }), 0);
    assert_eq!(calculate_refresh_rate(&Mode { vtotal: 0, ..m }), 0);
}

#[test]
fn refresh_rate_wraps_around() {
    // 4294967295 kHz over one line of one pixel is far beyond the range of the result.
    let m = Mode { clock: u32::MAX, htotal: 1, vtotal: 1, ..full_hd() };
    let exact: u64 = u32::MAX as u64 * 1_000_000;
    assert_eq!(get_refresh_milli_hz(&m), exact as i32);
}

#[test]
fn closest_refresh_is_matched() {
    let m60 = full_hd();
    let m144 = mode(1920, 1080, 356_400, 2200, 1125, 144);
    let m180 = mode(1920, 1080, 445_495, 2200, 1125, 180);
    let other = mode(1280, 720, 74_250, 1650, 750, 60);
    let modes = [other, m60, m144, m180];
    let m = get_matching_mode(&modes, 1920, 1080, Some(180_000)).unwrap();
    assert!(m.same(&m180));
    let m = get_matching_mode(&modes, 1920, 1080, Some(70_000)).unwrap();
    assert!(m.same(&m60));
    assert!(get_matching_mode(&modes, 800, 600, Some(60_000)).is_none());
    assert!(get_matching_mode(&[], 800, 600, None).is_none());
}

#[test]
fn highest_refresh_is_matched_without_a_wish() {
    let m60 = full_hd();
    let m144 = mode(1920, 1080, 356_400, 2200, 1125, 144);
    let m144b = mode(1920, 1080, 356_401, 2200, 1125, 144);
    let modes = [m60, m144, m144b];
    let m = get_matching_mode(&modes, 1920, 1080, None).unwrap();
    assert!(m.same(&m144));
    assert!(!m.same(&m144b));
}

#[test]
fn default_mode_is_the_preferred_one() {
    let a = full_hd();
    let b = Mode { mode_type: DRM_MODE_TYPE_PREFERRED, ..mode(1280, 720, 74_250, 1650, 750, 60) };
    let c = Mode { mode_type: DRM_MODE_TYPE_PREFERRED, ..a };
    assert!(get_default_mode(&[a, b, c]).same(&b));
    assert!(get_default_mode(&[a]).same(&a));
    assert!(get_requested_mode(&[a, b], Some((1920, 1080, None))).same(&a));
    assert!(get_requested_mode(&[a, b], Some((1, 1, None))).same(&b));
    assert!(get_requested_mode(&[a, b], None).same(&b));
}

#[test]
fn names_are_padded_and_cut() {
    let name = mode_name(b"1920x1080@60");
    assert_eq!(&name[..12], b"1920x1080@60");
    assert!(name[12..].iter().all(|b| *b == 0));
    let long = [b'x'; 40];
    assert_eq!(mode_name(&long), [b'x'; 32]);
}

#[test]
fn custom_modes() {
    let timing = CvtTiming {
        clock: 173_000,
        hsync_start: 2048,
        hsync_end: 2248,
        htotal: 2576,
        vdisplay: 1080,
        vsync_start: 1083,
        vsync_end: 1088,
        vtotal: 1120,
        vrefresh: 60,
    };
    let m = get_custom_mode(1920, 1080, b"60", &timing).unwrap();
    assert_eq!((m.clock, m.hdisplay, m.htotal, m.vtotal), (173_000, 1920, 2576, 1120));
    assert_eq!(m.flags, 6);
    assert_eq!(m.mode_type, 32);
    assert_eq!((m.hskew, m.vscan), (0, 0));
    assert_eq!(&m.name[..13], b"1920x1080@60\0");
    assert_eq!(mode_label(7, 10, b"59.94"), b"7x10@59.94".to_vec());
    let long = get_custom_mode(1920, 1080, &[b'1'; 40], &timing).unwrap();
    assert_eq!(&long.name[..10], b"1920x1080@");
    assert!(long.name[10..].iter().all(|b| *b == b'1'));
}

#[test]
fn custom_modes_default_to_sixty_hertz() {
    let sixty = Fraction { bits: 60f64.to_bits() };
    let request = cvt_request(1920, 1080, None);
    assert_eq!(request, CvtRequest { h_pixels: 1920, v_lines: 1080, rate: sixty });
    assert_eq!(cvt_request(1920, 1080, Some(sixty)), request);
    let other = Fraction { bits: 75f64.to_bits() };
    assert_eq!(cvt_request(1920, 1080, Some(other)).rate, other);
}
