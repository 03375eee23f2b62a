//! Gamma ramps from clients.
use vstd::prelude::*;

verus! {

/// How many bytes the ramps for red, green and blue take.
pub open spec fn ramp_bytes(size: usize) -> int {
    size * 3 * 2
}

/// The gamma control that a client gets for an output.
#[derive(Clone, Copy, Debug, PartialEq, Eq, Structural)]
pub struct GammaControl {
    pub output: u64,
    /// The length of a ramp that the client is told, zero where the output has none. Of a length
    /// beyond the range of the type only the low bits are told.
    pub size: Option<u32>,
}

/// The gamma control that a client gets.
///
/// `output` is the output that it asks for, with `size` the length of its ramps. Where there is
/// no such output, the client gets a control for `first`, the first output of all, and is told no
/// length; without any output it gets none.
pub fn get_gamma_control(output: Option<u64>, size: Option<usize>, first: Option<u64>) -> (r: Option<
    GammaControl,
>)
    ensures
        r == match (output, first) {
            (Some(output), _) => Some(
                GammaControl {
                    output,
                    size: Some(
                        match size {
                            Some(size) => (size as int % 0x1_0000_0000) as u32,
                            None => 0,
                        },
                    ),
                },
            ),
            (None, Some(output)) => Some(GammaControl { output, size: None }),
            (None, None) => None,
        },
{
    match (output, first) {
        (Some(output), _) => {
            let size: u32 = match size {
                Some(size) => (size as u64 % 0x1_0000_0000) as u32,
                None => 0,
            };
            Some(GammaControl { output, size: Some(size) })
        },
        (None, Some(output)) => Some(GammaControl { output, size: None }),
        (None, None) => None,
    }
}

/// What becomes of a request to set the gamma ramps of an output.
#[derive(Debug)]
pub enum GammaRequest {
    /// The client is told that it failed.
    Failed,
    /// The ramps to set.
    Ramps { r: Vec<u16>, g: Vec<u16>, b: Vec<u16> },
}

/// The number in two bytes, the low one first.
pub open spec fn little_endian(a: u8, b: u8) -> u16 {
    (a + 256 * b) as u16
}

/// `u16::from_ne_bytes`: the number in two bytes, in the order that the machine uses, which is
/// either the low byte first or the high byte first.
#[verifier::external_body]
fn u16_from_ne_bytes(a: u8, b: u8) -> (r: u16)
    ensures
        r == little_endian(a, b) || r == little_endian(b, a),
{
    u16::from_ne_bytes([a, b])
}

/// The number in two bytes, in the given order.
pub open spec fn number(little: bool, a: u8, b: u8) -> u16 {
    if little {
        little_endian(a, b)
    } else {
        little_endian(b, a)
    }
}

/// Whether `words` are the numbers in `bytes`, two bytes for each, all in the given order.
pub open spec fn are_words(words: Seq<u16>, bytes: Seq<u8>, little: bool) -> bool {
    &&& words.len() == bytes.len() / 2
    &&& forall|i: int|
        0 <= i < words.len() ==> #[trigger] words[i] == number(
            little,
            bytes[2 * i],
            bytes[2 * i + 1],
        )
}

/// The numbers in `bytes`, two bytes for each, all in the given order. A byte that is left over is
/// passed over.
pub fn words_in(bytes: &[u8], little: bool) -> (words: Vec<u16>)
    ensures
        are_words(words@, bytes@, little),
{
    let mut words: Vec<u16> = Vec::new();
    let length: usize = bytes.len();
    let count: usize = length / 2;
    let mut i: usize = 0;
    while i < count
        invariant
            0 <= i <= count,
            length == bytes@.len(),
            count == length / 2,
            words@.len() == i,
            forall|j: int|
                0 <= j < i ==> #[trigger] words@[j] == number(
                    little,
                    bytes@[2 * j],
                    bytes@[2 * j + 1],
                ),
        decreases count - i,
    {
        let (a, b) = (bytes[2 * i], bytes[2 * i + 1]);
        words.push(
            if little {
                a as u16 + 256 * b as u16
            } else {
                b as u16 + 256 * a as u16
            },
        );
        i += 1;
    }
    words
}

/// Whether the machine puts the low byte of a number first. It tells that by how it reads a one.
fn machine_is_little() -> bool {
    u16_from_ne_bytes(1, 0) == 1
}

/// The numbers in `bytes`, two bytes for each, in the order that the machine uses; see
/// [`words_in`].
pub fn to_u16_vec(bytes: &[u8]) -> (words: Vec<u16>)
    ensures
        exists|little: bool| #[trigger] are_words(words@, bytes@, little),
{
    words_in(bytes, machine_is_little())
}

/// Split a list of numbers into three ramps of the given size.
pub fn split_ramps(words: &[u16], size: usize) -> (r: (Vec<u16>, Vec<u16>, Vec<u16>))
    requires
        words@.len() == 3 * size,
    ensures
        r.0@ == words@.subrange(0, size as int),
        r.1@ == words@.subrange(size as int, 2 * size),
        r.2@ == words@.subrange(2 * size, 3 * size),
{
    let mut red: Vec<u16> = Vec::new();
    let mut green: Vec<u16> = Vec::new();
    let mut blue: Vec<u16> = Vec::new();
    let mut i: usize = 0;
    while i < size
        invariant
            0 <= i <= size,
            words@.len() == 3 * size,
            red@ =~= words@.subrange(0, i as int),
            green@ =~= words@.subrange(size as int, size + i),
            blue@ =~= words@.subrange(2 * size, 2 * size + i),
        decreases size - i,
    {
        red.push(words[i]);
        green.push(words[size + i]);
        blue.push(words[size + size + i]);
        i += 1;
    }
    (red, green, blue)
}

/// Take the gamma ramps out of what a client sent.
///
/// `size` is the length of a ramp, zero where the output has none, and `buffer` what was read, if
/// reading as many bytes as the ramps take succeeded. `little` tells the order of the bytes of a
/// number.
pub fn parse_gamma(size: usize, buffer: Option<&[u8]>, little: bool) -> (request: GammaRequest)
    requires
        ramp_bytes(size) <= usize::MAX,
        buffer matches Some(buffer) ==> buffer@.len() == ramp_bytes(size),
    ensures
        request is Failed <==> size == 0 || buffer is None,
        request matches GammaRequest::Ramps { r, g, b } ==> are_words(
            r@ + g@ + b@,
            buffer->0@,
            little,
        ) && r@.len() == size && g@.len() == size && b@.len() == size,
{
    if size == 0 {
        return GammaRequest::Failed;
    }
    match buffer {
        None => GammaRequest::Failed,
        Some(buffer) => {
            let words = words_in(buffer, little);
            let (r, g, b) = split_ramps(words.as_slice(), size);
            assert(r@ + g@ + b@ =~= words@);
            GammaRequest::Ramps { r, g, b }
        },
    }
}

/// Take the gamma ramps out of what a client sent, with its numbers in the order that the machine
/// uses; see [`parse_gamma`].
pub fn set_gamma_request(size: usize, buffer: Option<&[u8]>) -> (request: GammaRequest)
    requires
        ramp_bytes(size) <= usize::MAX,
        buffer matches Some(buffer) ==> buffer@.len() == ramp_bytes(size),
    ensures
        request is Failed <==> size == 0 || buffer is None,
        request matches GammaRequest::Ramps { r, g, b } ==> (exists|little: bool| #[trigger]
            are_words(r@ + g@ + b@, buffer->0@, little)) && r@.len() == size && g@.len() == size
            && b@.len() == size,
{
    parse_gamma(size, buffer, machine_is_little())
}

/// A client gets a control for the output that it asks for, with the length of its ramps, as far as
/// that fits, or zero without any. Without such an output it gets one that it is told no length
/// for, and none where there is no output at all.
pub proof fn gamma_controls_are_for_the_output(
    output: Option<u64>,
    size: Option<usize>,
    first: Option<u64>,
    control: Option<GammaControl>,
)
    requires
        call_ensures(get_gamma_control, (output, size, first), control),
    ensures
        output matches Some(asked) ==> control is Some && control->0.output == asked && match size {
            Some(length) => control->0.size is Some && control->0.size->0 == length as int
                % 0x1_0000_0000,
            None => control->0.size == Some(0u32),
        },
        output is None ==> match first {
            Some(first) => control == Some(GammaControl { output: first, size: None }),
            None => control is None,
        },
{
}

/// Numbers are read from pairs of bytes: the first of a pair counts for ones and the second for
/// two hundred and fifty-sixes where the low byte comes first, and the other way round else.
pub proof fn words_are_pairs_of_bytes(bytes: &[u8], little: bool, words: Vec<u16>, i: int)
    requires
        call_ensures(words_in, (bytes, little), words),
        0 <= i,
        2 * i + 1 < bytes@.len(),
    ensures
        words@.len() == bytes@.len() / 2,
        little ==> words@[i] == bytes@[2 * i] + 256 * bytes@[2 * i + 1],
        !little ==> words@[i] == 256 * bytes@[2 * i] + bytes@[2 * i + 1],
{
    assert(words@[i] == number(little, bytes@[2 * i], bytes@[2 * i + 1]));
}

/// The ramps that a client sent follow each other, red, green and blue, each of the length of the
/// ramps of the output. They are refused without such a length, or if not all could be read.
pub proof fn ramps_follow_each_other(
    size: usize,
    buffer: Option<&[u8]>,
    little: bool,
    request: GammaRequest,
    i: int,
)
    requires
        ramp_bytes(size) <= usize::MAX,
        buffer matches Some(buffer) ==> buffer@.len() == ramp_bytes(size),
        call_ensures(parse_gamma, (size, buffer, little), request),
        0 <= i < size,
    ensures
        size == 0 || buffer is None <==> request is Failed,
        request matches GammaRequest::Ramps { r, g, b } ==> {
            let bytes = buffer->0@;
            let low = if little { 0int } else { 1int };
            let high = 1 - low;
            &&& bytes.len() == 6 * size
            &&& r@.len() == size
            &&& g@.len() == size
            &&& b@.len() == size
            &&& r@[i] == bytes[2 * i + low] + 256 * bytes[2 * i + high]
            &&& g@[i] == bytes[2 * (size + i) + low] + 256 * bytes[2 * (size + i) + high]
            &&& b@[i] == bytes[2 * (2 * size + i) + low] + 256 * bytes[2 * (2 * size + i) + high]
        },
{
    assert(call_requires(parse_gamma, (size, buffer, little)));
    if let GammaRequest::Ramps { r, g, b } = request {
        let bytes = buffer->0@;
        let all = r@ + g@ + b@;
        assert(all[i] == r@[i]);
        assert(all[size + i] == g@[i]);
        assert(all[2 * size + i] == b@[i]);
        assert(all[i] == number(little, bytes[2 * i], bytes[2 * i + 1]));
        assert(all[size + i] == number(
            little,
            bytes[2 * (size + i)],
            bytes[2 * (size + i) + 1],
        ));
        assert(all[2 * size + i] == number(
            little,
            bytes[2 * (2 * size + i)],
            bytes[2 * (2 * size + i) + 1],
        ));
    }
}

/// A request that the machine reads in its own order is the one that [`parse_gamma`] reads in one of
/// the two orders.
pub proof fn requests_are_read_in_one_order(
    size: usize,
    buffer: Option<&[u8]>,
    request: GammaRequest,
    little: GammaRequest,
    big: GammaRequest,
)
    requires
        ramp_bytes(size) <= usize::MAX,
        buffer matches Some(buffer) ==> buffer@.len() == ramp_bytes(size),
        call_ensures(set_gamma_request, (size, buffer), request),
        call_ensures(parse_gamma, (size, buffer, true), little),
        call_ensures(parse_gamma, (size, buffer, false), big),
        size > 0,
        buffer is Some,
    ensures
        request is Ramps,
        little is Ramps,
        big is Ramps,
        ({
            ||| request->r@ == little->r@ && request->g@ == little->g@ && request->b@ == little->b@
            ||| request->r@ == big->r@ && request->g@ == big->g@ && request->b@ == big->b@
        }),
{
    assert(call_requires(set_gamma_request, (size, buffer)));
    assert(call_requires(parse_gamma, (size, buffer, true)));
    assert(call_requires(parse_gamma, (size, buffer, false)));
    let bytes = buffer->0@;
    let all = request->r@ + request->g@ + request->b@;
    let l = little->r@ + little->g@ + little->b@;
    let b = big->r@ + big->g@ + big->b@;
    let order = choose|order: bool| #[trigger] are_words(all, bytes, order);
    let same = if order { little } else { big };
    let other = if order { l } else { b };
    assert(all =~= other) by {
        assert forall|i: int| 0 <= i < all.len() implies all[i] == other[i] by {
            assert(all[i] == number(order, bytes[2 * i], bytes[2 * i + 1]));
            assert(other[i] == number(order, bytes[2 * i], bytes[2 * i + 1]));
        }
    }
    assert(request->r@ =~= same->r@) by {
        assert forall|i: int| 0 <= i < size implies request->r@[i] == same->r@[i] by {
            assert(all[i] == other[i]);
        }
    }
    assert(request->g@ =~= same->g@) by {
        assert forall|i: int| 0 <= i < size implies request->g@[i] == same->g@[i] by {
            assert(all[size + i] == other[size + i]);
        }
    }
    assert(request->b@ =~= same->b@) by {
        assert forall|i: int| 0 <= i < size implies request->b@[i] == same->b@[i] by {
            assert(all[2 * size + i] == other[2 * size + i]);
        }
    }
}

/// A list of numbers is split into three parts of the same length, in their order.
pub proof fn ramps_are_thirds(
    words: &[u16],
    size: usize,
    split: (Vec<u16>, Vec<u16>, Vec<u16>),
    i: int,
)
    requires
        words@.len() == 3 * size,
        call_ensures(split_ramps, (words, size), split),
        0 <= i < size,
    ensures
        split.0@.len() == size && split.1@.len() == size && split.2@.len() == size,
        split.0@[i] == words@[i],
        split.1@[i] == words@[size + i],
        split.2@[i] == words@[2 * size + i],
{
    assert(call_requires(split_ramps, (words, size)));
}

} // verus!
