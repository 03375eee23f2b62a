//! Text building blocks.
use vstd::prelude::*;
use vstd::string::*;

verus! {

/// The character of a decimal digit.
pub open spec fn digit_char(d: nat) -> char {
    ('0' as u8 + d) as u8 as char
}

/// The decimal digits of `n`, without leading zeros.
pub open spec fn decimal(n: nat) -> Seq<char>
    decreases n,
{
    if n < 10 {
        seq![digit_char(n)]
    } else {
        decimal(n / 10).push(digit_char(n % 10))
    }
}

/// The text of a decimal digit.
fn digit_text(d: u64) -> (text: &'static str)
    requires
        d < 10,
    ensures
        text@ == seq![digit_char(d as nat)],
{
    proof {
        reveal_strlit("0");
        reveal_strlit("1");
        reveal_strlit("2");
        reveal_strlit("3");
        reveal_strlit("4");
        reveal_strlit("5");
        reveal_strlit("6");
        reveal_strlit("7");
        reveal_strlit("8");
        reveal_strlit("9");
    }
    let text = if d == 0 {
        "0"
    } else if d == 1 {
        "1"
    } else if d == 2 {
        "2"
    } else if d == 3 {
        "3"
    } else if d == 4 {
        "4"
    } else if d == 5 {
        "5"
    } else if d == 6 {
        "6"
    } else if d == 7 {
        "7"
    } else if d == 8 {
        "8"
    } else {
        "9"
    };
    assert(text@ =~= seq![digit_char(d as nat)]);
    text
}

/// Append the decimal digits of `n` to `out`.
pub fn push_decimal(out: &mut String, n: u64)
    ensures
        final(out)@ == old(out)@ + decimal(n as nat),
    decreases n,
{
    if n < 10 {
        out.append(digit_text(n));
    } else {
        push_decimal(out, n / 10);
        out.append(digit_text(n % 10));
        assert(out@ =~= old(out)@ + decimal(n as nat));
    }
}

/// The name of an output: the kind of its connector, a dash, and the number of the connector.
pub open spec fn spec_output_name(interface: Seq<char>, id: nat) -> Seq<char> {
    interface + "-"@ + decimal(id)
}

/// The name of the output behind a connector.
pub fn output_name(interface: &str, id: u32) -> (name: String)
    ensures
        name@ == spec_output_name(interface@, id as nat),
{
    let mut name = interface.to_string();
    name.append("-");
    push_decimal(&mut name, id as u64);
    name
}

/// Whether a character is a decimal digit.
pub open spec fn is_digit(c: char) -> bool {
    '0' <= c && c <= '9'
}

/// The number that decimal digits stand for.
pub open spec fn digits_value(text: Seq<char>) -> nat
    decreases text.len(),
{
    if text.len() == 0 {
        0
    } else {
        digits_value(text.drop_last()) * 10 + (text.last() as nat - '0' as nat) as nat
    }
}

/// A text without the plus sign in front of it, if there is one.
pub open spec fn without_plus(text: Seq<char>) -> Seq<char> {
    if text.len() > 0 && text[0] == '+' {
        text.skip(1)
    } else {
        text
    }
}

/// Whether a text is a number: digits, and nothing else but a plus sign in front.
pub open spec fn is_number(text: Seq<char>) -> bool {
    &&& without_plus(text).len() > 0
    &&& forall|i: int| 0 <= i < without_plus(text).len() ==> is_digit(#[trigger] without_plus(text)[i])
}

proof fn lemma_digits_value_grows(text: Seq<char>, n: int)
    requires
        0 <= n <= text.len(),
        forall|i: int| 0 <= i < text.len() ==> is_digit(#[trigger] text[i]),
    ensures
        digits_value(text.take(n)) <= digits_value(text),
    decreases text.len() - n,
{
    if n < text.len() {
        lemma_digits_value_grows(text, n + 1);
        assert(text.take(n + 1).drop_last() =~= text.take(n));
    } else {
        assert(text.take(n) =~= text);
    }
}

/// Read a number.
pub fn parse_u32(text: &str) -> (r: Option<u32>)
    ensures
        r is Some <==> is_number(text@) && digits_value(without_plus(text@)) <= u32::MAX,
        r matches Some(n) ==> n == digits_value(without_plus(text@)),
{
    let length: usize = text.unicode_len();
    let start: usize = if length > 0 && text.get_char(0) == '+' {
        1
    } else {
        0
    };
    let ghost digits = without_plus(text@);
    assert(digits =~= text@.skip(start as int));
    if start == length {
        return None;
    }
    let mut value: u64 = 0;
    let mut i: usize = start;
    assert(digits.take(0) =~= Seq::empty());
    while i < length
        invariant
            start <= i <= length,
            length == text@.len(),
            digits == without_plus(text@),
            digits == text@.skip(start as int),
            value <= u32::MAX,
            value == digits_value(digits.take(i - start)),
            forall|j: int| 0 <= j < i - start ==> is_digit(#[trigger] digits[j]),
        decreases length - i,
    {
        let c: char = text.get_char(i);
        assert(c == digits[i - start]);
        if c < '0' || c > '9' {
            assert(!is_digit(digits[i - start]));
            return None;
        }
        proof {
            assert(digits.take(i - start + 1).drop_last() =~= digits.take(i - start));
            assert(digits.take(i - start + 1).last() == c);
        }
        let ghost n = i - start + 1;
        value = value * 10 + (c as u64 - '0' as u64);
        assert(value == digits_value(digits.take(n)));
        if value > u32::MAX as u64 {
            proof {
                if is_number(text@) {
                    lemma_digits_value_grows(digits, n);
                }
            }
            return None;
        }
        i += 1;
    }
    assert(digits.take(digits.len() as int) =~= digits);
    Some(value as u32)
}

/// Read a truth value: `true` or `false`.
pub fn parse_bool(text: &str) -> (r: Option<bool>)
    ensures
        r == if text@ == "true"@ {
            Some(true)
        } else if text@ == "false"@ {
            Some(false)
        } else {
            None
        },
{
    let owned = text.to_string();
    if owned == "true".to_string() {
        Some(true)
    } else if owned == "false".to_string() {
        Some(false)
    } else {
        None
    }
}

/// Reading the digits that a number is written with gives back the number.
pub proof fn decimal_reads_back(n: nat)
    ensures
        digits_value(decimal(n)) == n,
        is_number(decimal(n)),
    decreases n,
{
    if n < 10 {
        assert(decimal(n).drop_last() =~= Seq::empty());
        assert(digits_value(decimal(n).drop_last()) == 0);
        assert(without_plus(decimal(n)) =~= decimal(n));
    } else {
        decimal_reads_back(n / 10);
        let text = decimal(n);
        let front = decimal(n / 10);
        assert(text.drop_last() =~= front);
        assert(front.len() > 0);
        assert(without_plus(front)[0] == front[0] || front[0] == '+');
        lemma_no_plus(n / 10);
        assert(text[0] == front[0]);
        assert(without_plus(text) =~= text);
        assert forall|i: int| 0 <= i < text.len() implies is_digit(#[trigger] text[i]) by {
            if i < front.len() {
                assert(text[i] == front[i]);
                assert(is_digit(without_plus(front)[i]));
            }
        }
    }
}

proof fn lemma_no_plus(n: nat)
    ensures
        decimal(n).len() > 0,
        is_digit(decimal(n)[0]),
        without_plus(decimal(n)) == decimal(n),
    decreases n,
{
    if n >= 10 {
        lemma_no_plus(n / 10);
        assert(decimal(n)[0] == decimal(n / 10)[0]);
    }
    assert(without_plus(decimal(n)) =~= decimal(n));
}

/// A number is read exactly from a text of digits, with a plus sign in front or not, that stands for
/// a number which fits; it is the number that the digits stand for.
pub proof fn numbers_are_read_from_digits(text: &str, read: Option<u32>)
    requires
        call_ensures(parse_u32, (text,), read),
    ensures
        text@.len() == 0 ==> read is None,
        (exists|i: int| 0 < i < text@.len() && !('0' <= #[trigger] text@[i] && text@[i] <= '9'))
            ==> read is None,
        forall|n: u32| text@ == #[trigger] decimal(n as nat) ==> read == Some(n),
        forall|n: u32| text@ == seq!['+'] + #[trigger] decimal(n as nat) ==> read == Some(n),
{
    if exists|i: int| 0 < i < text@.len() && !('0' <= #[trigger] text@[i] && text@[i] <= '9') {
        let i = choose|i: int|
            0 < i < text@.len() && !('0' <= #[trigger] text@[i] && text@[i] <= '9');
        let digits = without_plus(text@);
        if text@[0] == '+' {
            assert(digits[i - 1] == text@[i]);
        } else {
            assert(digits[i] == text@[i]);
        }
    }
    assert forall|n: u32| text@ == #[trigger] decimal(n as nat) implies read == Some(n) by {
        decimal_reads_back(n as nat);
        lemma_no_plus(n as nat);
    }
    assert forall|n: u32| text@ == seq!['+'] + #[trigger] decimal(n as nat) implies read == Some(
        n,
    ) by {
        decimal_reads_back(n as nat);
        lemma_no_plus(n as nat);
        assert(text@[0] == '+');
        assert(without_plus(text@) =~= decimal(n as nat));
    }
}

/// The decimal digits of a number end in its last digit, and the rest of them are those of the
/// number without it.
pub proof fn decimal_digits_are_in_order(n: nat, d: nat)
    requires
        d < 10,
        n > 0,
    ensures
        decimal(10 * n + d).drop_last() == decimal(n),
        decimal(10 * n + d).last() as nat == '0' as nat + d,
        decimal(d).len() == 1,
        decimal(d)[0] as nat == '0' as nat + d,
{
    assert((10 * n + d) / 10 == n);
    assert((10 * n + d) % 10 == d);
    assert(decimal(10 * n + d).drop_last() =~= decimal(n));
}

/// The name of an output is the kind of its connector, a dash, and the number of the connector, so
/// that connectors of one kind with different numbers have different names.
pub proof fn outputs_are_named_after_their_connector(interface: &str, id: u32, name: String)
    requires
        call_ensures(output_name, (interface, id), name),
    ensures
        name@.len() > interface@.len() + 1,
        name@.take(interface@.len() as int) == interface@,
        name@[interface@.len() as int] == '-',
        digits_value(name@.skip(interface@.len() as int + 1)) == id,
        is_number(name@.skip(interface@.len() as int + 1)),
{
    reveal_strlit("-");
    decimal_reads_back(id as nat);
    lemma_no_plus(id as nat);
    assert(name@.take(interface@.len() as int) =~= interface@);
    assert(name@.skip(interface@.len() as int + 1) =~= decimal(id as nat));
}

/// Only the words for them are truth values.
pub proof fn truth_values_are_words(text: &str, read: Option<bool>)
    requires
        call_ensures(parse_bool, (text,), read),
    ensures
        text@ == "true"@ ==> read == Some(true),
        text@ == "false"@ ==> read == Some(false),
        text@ != "true"@ && text@ != "false"@ ==> read is None,
{
    reveal_strlit("true");
    reveal_strlit("false");
    assert("true"@.len() != "false"@.len());
}

} // verus!
