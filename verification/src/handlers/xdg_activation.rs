//! Windows that ask for attention.
use vstd::prelude::*;

use crate::time::{Duration, NANOS_PER_SEC};

verus! {

/// How many seconds a client has to use a token.
pub const ACTIVATION_TIMEOUT_SECS: u64 = 10;

/// Whether the serial `a` was given out after `b` or is the same. Serials wrap around, so of two
/// that are far apart the smaller one is the later one.
pub open spec fn no_older_than(a: u32, b: u32) -> bool {
    let distance = if a > b { a - b } else { b - a };
    if distance < u32::MAX / 2 {
        b <= a
    } else {
        a <= b
    }
}

/// Whether the serial `a` was given out after `b` or is the same.
pub fn is_no_older_than(a: u32, b: u32) -> (r: bool)
    ensures
        r == no_older_than(a, b),
{
    let distance: u32 = if a > b {
        a - b
    } else {
        b - a
    };
    if distance < u32::MAX / 2 {
        b <= a
    } else {
        a <= b
    }
}

/// Whether a token is given out: the client has to show a serial of our seat that is no older
/// than the last time that the keyboard got a focus.
pub fn token_created(serial: Option<(u32, bool)>, last_enter: Option<u32>) -> (valid: bool)
    ensures
        valid == match (serial, last_enter) {
            (Some((serial, our_seat)), Some(enter)) => our_seat && no_older_than(serial, enter),
            _ => false,
        },
{
    match (serial, last_enter) {
        (Some((serial, our_seat)), Some(enter)) => our_seat && is_no_older_than(serial, enter),
        _ => false,
    }
}

/// The window that is activated, if any: the token must not be too old. `window` is the window
/// whose surface asks for it, with its output, which is redrawn.
pub fn request_activation(elapsed: Duration, window: Option<(u64, u64)>) -> (r: Option<(u64, u64)>)
    ensures
        r == if elapsed@ < ACTIVATION_TIMEOUT_SECS * NANOS_PER_SEC {
            window
        } else {
            None
        },
{
    let timeout = Duration::from_secs(ACTIVATION_TIMEOUT_SECS);
    if timeout.le(&elapsed) {
        None
    } else {
        window
    }
}

/// Of two different serials exactly one is the later one.
pub proof fn serials_are_ordered(a: u32, b: u32)
    ensures
        no_older_than(a, a),
        no_older_than(a, b) || no_older_than(b, a),
        no_older_than(a, b) && no_older_than(b, a) ==> a == b,
{
}

/// Of two serials that are less than half the range apart, the larger one was given out later; of
/// two that are further apart, the smaller one was, since serials wrap around.
pub proof fn serials_wrap_around(a: u32, b: u32, later: bool)
    requires
        call_ensures(is_no_older_than, (a, b), later),
    ensures
        b <= a && a - b < 0x7fff_ffff ==> later,
        a < b && b - a < 0x7fff_ffff ==> !later,
        a < b && b - a >= 0x7fff_ffff ==> later,
        b < a && a - b >= 0x7fff_ffff ==> !later,
{
}

/// A token is given out only for a serial of our seat that is no older than the last time that the
/// keyboard got a focus; and for any such serial it is.
pub proof fn tokens_need_a_recent_serial(
    serial: Option<(u32, bool)>,
    last_enter: Option<u32>,
    valid: bool,
    recent: bool,
)
    requires
        call_ensures(token_created, (serial, last_enter), valid),
        serial is None || last_enter is None || call_ensures(
            is_no_older_than,
            ((serial->0).0, last_enter->0),
            recent,
        ),
    ensures
        serial is None || last_enter is None ==> !valid,
        serial matches Some((_, ours)) ==> (last_enter is Some ==> valid == (ours && recent)),
{
}

/// A token is good for ten seconds: within them the window that it is used for is activated, and no
/// window is afterwards.
pub proof fn tokens_are_good_for_ten_seconds(
    elapsed: Duration,
    window: Option<(u64, u64)>,
    activated: Option<(u64, u64)>,
)
    requires
        call_ensures(request_activation, (elapsed, window), activated),
    ensures
        elapsed@ < 10_000_000_000 ==> activated == window,
        elapsed@ >= 10_000_000_000 ==> activated is None,
{
}

} // verus!
