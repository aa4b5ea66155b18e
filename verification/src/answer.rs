//! The kinds of answer a question can ask for, and which answers each kind accepts.
//!
//! A numeric answer is one that reads as a decimal floating-point number:
//!
//! ```text
//! Float  ::= Sign? ( 'inf' | 'infinity' | 'nan' | Number )
//! Number ::= ( Digit+ | Digit+ '.' Digit* | Digit* '.' Digit+ ) Exp?
//! Exp    ::= 'e' Sign? Digit+
//! Sign   ::= [+-]
//! Digit  ::= [0-9]
//! ```
//!
//! Letters match in either case. Nothing may precede or follow the number, not even a space.

use vstd::prelude::*;
use vstd::slice::*;

verus! {

/// The longest answer that is accepted, in bytes of UTF-8.
pub const MAX_ANSWER_LEN: usize = 200;

/// The byte `0`.
pub const DIGIT_0: u8 = 0x30;

/// The byte `9`.
pub const DIGIT_9: u8 = 0x39;

/// The byte `+`.
pub const PLUS: u8 = 0x2b;

/// The byte `-`.
pub const MINUS: u8 = 0x2d;

/// The byte `.`.
pub const POINT: u8 = 0x2e;

/// The byte `e`.
pub const SMALL_E: u8 = 0x65;

/// The byte `E`.
pub const CAPITAL_E: u8 = 0x45;

/// The byte `A`.
pub const CAPITAL_A: u8 = 0x41;

/// The byte `Z`.
pub const CAPITAL_Z: u8 = 0x5a;

/// The kind of answer that a question asks for.
#[derive(Clone, Copy, Debug, PartialEq, Eq, Structural)]
pub enum AnswerType {
    YesNo,
    MultipleChoice,
    Numeric,
}

/// `0` to `9`.
pub open spec fn is_digit(b: u8) -> bool {
    DIGIT_0 <= b <= DIGIT_9
}

/// `+` or `-`.
pub open spec fn is_sign(b: u8) -> bool {
    b == PLUS || b == MINUS
}

/// `e` or `E`.
pub open spec fn is_exponent_mark(b: u8) -> bool {
    b == SMALL_E || b == CAPITAL_E
}

/// A letter `A` to `Z` as its small letter, any other byte as it is.
pub open spec fn to_lower(b: u8) -> u8 {
    if CAPITAL_A <= b <= CAPITAL_Z {
        (b + 32) as u8
    } else {
        b
    }
}

/// Every byte of `s` from `lo` up to `hi` is a digit.
pub open spec fn digits_in(s: Seq<u8>, lo: int, hi: int) -> bool {
    forall|i: int| lo <= i < hi ==> is_digit(#[trigger] s[i])
}

/// The bytes of `s` from `lo` up to `hi` are digits with at most one point among them, and
/// at least one digit.
pub open spec fn mantissa_in(s: Seq<u8>, lo: int, hi: int) -> bool {
    ||| lo < hi && digits_in(s, lo, hi)
    ||| exists|dot: int|
        {
            &&& lo <= dot < hi
            &&& #[trigger] s[dot] == POINT
            &&& hi - lo >= 2
            &&& digits_in(s, lo, dot)
            &&& digits_in(s, dot + 1, hi)
        }
}

/// The bytes of `s` from `lo` up to `hi` are an exponent mark, then at most one sign, then
/// at least one digit.
pub open spec fn exponent_in(s: Seq<u8>, lo: int, hi: int) -> bool {
    &&& hi - lo >= 2
    &&& is_exponent_mark(s[lo])
    &&& if is_sign(s[lo + 1]) {
        hi - lo >= 3 && digits_in(s, lo + 2, hi)
    } else {
        digits_in(s, lo + 1, hi)
    }
}

/// The bytes of `s` from `lo` up to `hi` are a mantissa, or a mantissa and then an exponent.
pub open spec fn number_in(s: Seq<u8>, lo: int, hi: int) -> bool {
    ||| mantissa_in(s, lo, hi)
    ||| exists|cut: int|
        lo < cut < hi && #[trigger] mantissa_in(s, lo, cut) && exponent_in(s, cut, hi)
}

/// The bytes of `s` from `lo` up to `hi` spell `word`, in small or capital letters.
pub open spec fn spells(s: Seq<u8>, lo: int, hi: int, word: Seq<u8>) -> bool {
    &&& hi - lo == word.len()
    &&& forall|i: int| 0 <= i < word.len() ==> to_lower(s[lo + i]) == #[trigger] word[i]
}

/// The word `inf`, in ASCII.
pub open spec fn word_inf() -> Seq<u8> {
    seq![0x69, 0x6e, 0x66]
}

/// The word `infinity`, in ASCII.
pub open spec fn word_infinity() -> Seq<u8> {
    seq![0x69, 0x6e, 0x66, 0x69, 0x6e, 0x69, 0x74, 0x79]
}

/// The word `nan`, in ASCII.
pub open spec fn word_nan() -> Seq<u8> {
    seq![0x6e, 0x61, 0x6e]
}

/// The bytes of `s` from `lo` up to `hi` name an infinity or a value that is no number.
pub open spec fn special_in(s: Seq<u8>, lo: int, hi: int) -> bool {
    ||| spells(s, lo, hi, word_inf())
    ||| spells(s, lo, hi, word_infinity())
    ||| spells(s, lo, hi, word_nan())
}

/// The bytes `s` read as a decimal floating-point number: after at most one sign, either
/// a special word or a number.
pub open spec fn is_float_literal(s: Seq<u8>) -> bool {
    let lo: int = if s.len() > 0 && is_sign(s[0]) {
        1
    } else {
        0
    };
    special_in(s, lo, s.len() as int) || number_in(s, lo, s.len() as int)
}

/// The text `YES`.
pub open spec fn text_yes() -> Seq<char> {
    seq!['Y', 'E', 'S']
}

/// The text `NO`.
pub open spec fn text_no() -> Seq<char> {
    seq!['N', 'O']
}

/// Whether a question that asks for `answer_type` accepts the text `answer`.
pub open spec fn answer_accepted(answer_type: AnswerType, answer: Seq<char>) -> bool {
    match answer_type {
        AnswerType::YesNo => answer == text_yes() || answer == text_no(),
        AnswerType::MultipleChoice => true,
        AnswerType::Numeric => is_float_literal(vstd::utf8::encode_utf8(answer)),
    }
}

/// The index of the first byte at or after `from` that is no digit, or the length of `s`.
fn skip_digits(s: &[u8], from: usize) -> (end: usize)
    requires
        from <= s.len(),
    ensures
        from <= end <= s.len(),
        digits_in(s@, from as int, end as int),
        end < s.len() ==> !is_digit(s@[end as int]),
{
    let mut end: usize = from;
    while end < s.len() && DIGIT_0 <= s[end] && s[end] <= DIGIT_9
        invariant
            from <= end <= s.len(),
            digits_in(s@, from as int, end as int),
        decreases s.len() - end,
    {
        end += 1;
    }
    end
}

/// Whether the bytes of `s` from `lo` to the end spell `word`, in small or capital letters.
fn spells_from(s: &[u8], lo: usize, word: &[u8]) -> (r: bool)
    requires
        lo <= s.len(),
    ensures
        r == spells(s@, lo as int, s.len() as int, word@),
{
    if s.len() - lo != word.len() {
        return false;
    }
    let mut i: usize = 0;
    while i < word.len()
        invariant
            lo <= s.len(),
            s.len() - lo == word.len(),
            i <= word.len(),
            forall|k: int| 0 <= k < i ==> to_lower(s@[lo + k]) == #[trigger] word@[k],
        decreases word.len() - i,
    {
        let b: u8 = s[lo + i];
        let folded: u8 = if CAPITAL_A <= b && b <= CAPITAL_Z {
            b + 32
        } else {
            b
        };
        if folded != word[i] {
            return false;
        }
        i += 1;
    }
    true
}

/// Whether the bytes of `s` from `lo` to the end are an exponent.
fn exponent_from(s: &[u8], lo: usize) -> (r: bool)
    requires
        lo < s.len(),
    ensures
        r == exponent_in(s@, lo as int, s.len() as int),
{
    if s.len() - lo < 2 {
        return false;
    }
    if s[lo] != SMALL_E && s[lo] != CAPITAL_E {
        return false;
    }
    let signed: bool = s[lo + 1] == PLUS || s[lo + 1] == MINUS;
    let first: usize = if signed {
        lo + 2
    } else {
        lo + 1
    };
    let end: usize = skip_digits(s, first);
    first < end && end == s.len()
}

/// A mantissa that starts at `lo` can only end where the scan for it ended, at `pos`.
proof fn lemma_mantissa_ends_at_scan(
    s: Seq<u8>,
    lo: int,
    hi: int,
    int_end: int,
    pos: int,
    cut: int,
)
    requires
        0 <= lo <= int_end <= pos <= hi <= s.len(),
        digits_in(s, lo, int_end),
        int_end < hi ==> !is_digit(s[int_end]),
        int_end < hi && s[int_end] == POINT ==> int_end < pos && digits_in(s, int_end + 1, pos),
        !(int_end < hi && s[int_end] == POINT) ==> pos == int_end,
        pos < hi ==> !is_digit(s[pos]),
        lo < cut <= hi,
        mantissa_in(s, lo, cut),
        cut < hi ==> !is_digit(s[cut]) && s[cut] != POINT,
    ensures
        cut == pos,
{
    if lo < cut && digits_in(s, lo, cut) {
        if cut > int_end {
            assert(is_digit(s[int_end]));
        }
        if cut < int_end {
            assert(is_digit(s[cut]));
        }
    } else {
        let dot = choose|dot: int|
            {
                &&& lo <= dot < cut
                &&& #[trigger] s[dot] == POINT
                &&& cut - lo >= 2
                &&& digits_in(s, lo, dot)
                &&& digits_in(s, dot + 1, cut)
            };
        if dot > int_end {
            assert(is_digit(s[int_end]));
        }
        if dot < int_end {
            assert(is_digit(s[dot]));
        }
        assert(dot == int_end);
        if cut > pos {
            assert(is_digit(s[pos]));
        }
        if cut < pos {
            assert(is_digit(s[cut]));
        }
    }
}

/// Whether the bytes `s` read as a decimal floating-point number.
pub fn parses_as_float(s: &[u8]) -> (r: bool)
    ensures
        r == is_float_literal(s@),
{
    let n: usize = s.len();
    let lo: usize = if n > 0 && (s[0] == PLUS || s[0] == MINUS) {
        1
    } else {
        0
    };
    let inf: [u8; 3] = [0x69, 0x6e, 0x66];
    let infinity: [u8; 8] = [0x69, 0x6e, 0x66, 0x69, 0x6e, 0x69, 0x74, 0x79];
    let nan: [u8; 3] = [0x6e, 0x61, 0x6e];
    assert(inf@ =~= word_inf());
    assert(infinity@ =~= word_infinity());
    assert(nan@ =~= word_nan());
    if spells_from(s, lo, inf.as_slice()) || spells_from(s, lo, infinity.as_slice())
        || spells_from(s, lo, nan.as_slice()) {
        return true;
    }
    let int_end: usize = skip_digits(s, lo);
    let pointed: bool = int_end < n && s[int_end] == POINT;
    let pos: usize = if pointed {
        skip_digits(s, int_end + 1)
    } else {
        int_end
    };
    let digits: usize = if pointed {
        pos - lo - 1
    } else {
        pos - lo
    };
    let r: bool = digits > 0 && (pos == n || exponent_from(s, pos));
    proof {
        let b = s@;
        let ghost_lo = lo as int;
        let hi = n as int;
        if r {
            assert(mantissa_in(b, ghost_lo, pos as int));
            if pos < n {
                assert(number_in(b, ghost_lo, hi));
            }
        } else if number_in(b, ghost_lo, hi) {
            if mantissa_in(b, ghost_lo, hi) {
                lemma_mantissa_ends_at_scan(b, ghost_lo, hi, int_end as int, pos as int, hi);
                assert(false);
            } else {
                let cut = choose|cut: int|
                    ghost_lo < cut < hi && #[trigger] mantissa_in(b, ghost_lo, cut) && exponent_in(
                        b,
                        cut,
                        hi,
                    );
                lemma_mantissa_ends_at_scan(b, ghost_lo, hi, int_end as int, pos as int, cut);
                assert(false);
            }
        }
    }
    r
}

/// Whether two byte strings hold the same bytes.
fn same_bytes(a: &[u8], b: &[u8]) -> (r: bool)
    ensures
        r == (a@ == b@),
{
    if a.len() != b.len() {
        return false;
    }
    let mut i: usize = 0;
    while i < a.len()
        invariant
            a.len() == b.len(),
            i <= a.len(),
            forall|k: int| 0 <= k < i ==> a@[k] == b@[k],
        decreases a.len() - i,
    {
        if a[i] != b[i] {
            return false;
        }
        i += 1;
    }
    assert(a@ =~= b@);
    true
}

/// A text of ASCII characters is the only text with its bytes, and its bytes are its
/// characters.
proof fn lemma_ascii_text_by_bytes(text: Seq<char>, other: Seq<char>)
    requires
        vstd::utf8::is_ascii_chars(text),
    ensures
        vstd::utf8::encode_utf8(text).len() == text.len(),
        forall|i: int|
            0 <= i < text.len() ==> #[trigger] vstd::utf8::encode_utf8(text)[i] == text[i] as u8,
        vstd::utf8::encode_utf8(other) == vstd::utf8::encode_utf8(text) <==> other == text,
{
    vstd::utf8::is_ascii_chars_encode_utf8(text);
    vstd::utf8::encode_utf8_decode_utf8(text);
    vstd::utf8::encode_utf8_decode_utf8(other);
}

/// Whether a question that asks for `answer_type` accepts `answer`.
pub fn accepts_answer(answer_type: AnswerType, answer: &str) -> (r: bool)
    ensures
        r == answer_accepted(answer_type, answer@),
{
    match answer_type {
        AnswerType::YesNo => {
            let yes: [u8; 3] = [0x59, 0x45, 0x53];
            let no: [u8; 2] = [0x4e, 0x4f];
            proof {
                lemma_ascii_text_by_bytes(text_yes(), answer@);
                lemma_ascii_text_by_bytes(text_no(), answer@);
                assert(yes@ =~= vstd::utf8::encode_utf8(text_yes()));
                assert(no@ =~= vstd::utf8::encode_utf8(text_no()));
            }
            same_bytes(answer.as_bytes(), yes.as_slice()) || same_bytes(
                answer.as_bytes(),
                no.as_slice(),
            )
        },
        AnswerType::MultipleChoice => true,
        AnswerType::Numeric => parses_as_float(answer.as_bytes()),
    }
}

} // verus!
