//! Small text rules: exact and ASCII-case-insensitive comparison, reading an
//! unsigned decimal setting, and writing zero-padded frame numbers.
use vstd::prelude::*;
use vstd::string::StrSliceExecFns;
use vstd::string::StringExecFns;

verus! {

/// Code of `c` with ASCII upper-case letters folded to lower case.
pub open spec fn ascii_fold(c: char) -> u32 {
    if 'A' <= c && c <= 'Z' {
        (c as u32 + 32) as u32
    } else {
        c as u32
    }
}

/// The two texts are equal when ASCII letter case is ignored.
pub open spec fn eq_ignoring_ascii_case(a: Seq<char>, b: Seq<char>) -> bool {
    &&& a.len() == b.len()
    &&& forall|i: int| 0 <= i < a.len() ==> ascii_fold(#[trigger] a[i]) == ascii_fold(b[i])
}

pub open spec fn is_digit(c: char) -> bool {
    '0' <= c && c <= '9'
}

pub open spec fn digit_value(c: char) -> nat {
    (c as int - '0' as int) as nat
}

/// The character of decimal digit `d`.
pub open spec fn digit_char(d: nat) -> char {
    ('0' as nat + d) as char
}

pub open spec fn all_digits(s: Seq<char>) -> bool {
    forall|i: int| 0 <= i < s.len() ==> is_digit(#[trigger] s[i])
}

/// Value of a string of decimal digits, most significant first.
pub open spec fn digits_value(s: Seq<char>) -> nat
    decreases s.len(),
{
    if s.len() == 0 {
        0
    } else {
        digits_value(s.drop_last()) * 10 + digit_value(s.last())
    }
}

/// The digits after an optional leading `+`.
pub open spec fn unsigned_digits(s: Seq<char>) -> Seq<char> {
    if s.len() > 0 && s[0] == '+' {
        s.drop_first()
    } else {
        s
    }
}

/// How the standard library reads a `u32`: an optional `+`, then one or
/// more ASCII digits whose value fits in 32 bits; anything else is refused.
pub open spec fn parsed_u32(s: Seq<char>) -> Option<u32> {
    let d = unsigned_digits(s);
    if d.len() > 0 && all_digits(d) && digits_value(d) <= u32::MAX {
        Some(digits_value(d) as u32)
    } else {
        None
    }
}

/// Decimal digits of `n`, most significant first, without leading zeros.
pub open spec fn decimal(n: nat) -> Seq<char>
    decreases n,
{
    if n < 10 {
        seq![digit_char(n)]
    } else {
        decimal(n / 10).push(digit_char(n % 10))
    }
}

/// `s` padded on the left with zeros to at least `width` characters.
pub open spec fn zero_padded(s: Seq<char>, width: nat) -> Seq<char> {
    if s.len() < width {
        Seq::new((width - s.len()) as nat, |i: int| '0') + s
    } else {
        s
    }
}

/// Whether two texts are exactly equal.
pub fn str_equal(a: &str, b: &str) -> (r: bool)
    ensures
        r == (a@ == b@),
{
    let n = a.unicode_len();
    if n != b.unicode_len() {
        return false;
    }
    let mut i: usize = 0;
    while i < n
        invariant
            n == a@.len(),
            n == b@.len(),
            i <= n,
            forall|j: int| 0 <= j < i ==> a@[j] == b@[j],
        decreases n - i,
    {
        if a.get_char(i) != b.get_char(i) {
            return false;
        }
        i = i + 1;
    }
    assert(a@ =~= b@);
    true
}

fn fold_code(c: char) -> (r: u32)
    ensures
        r == ascii_fold(c),
{
    let code = c as u32;
    if 65 <= code && code <= 90 {
        code + 32
    } else {
        code
    }
}

/// Whether two texts are equal when ASCII letter case is ignored.
pub fn eq_ignore_ascii_case(a: &str, b: &str) -> (r: bool)
    ensures
        r == eq_ignoring_ascii_case(a@, b@),
{
    let n = a.unicode_len();
    if n != b.unicode_len() {
        return false;
    }
    let mut i: usize = 0;
    while i < n
        invariant
            n == a@.len(),
            n == b@.len(),
            i <= n,
            forall|j: int| 0 <= j < i ==> ascii_fold(#[trigger] a@[j]) == ascii_fold(b@[j]),
        decreases n - i,
    {
        if fold_code(a.get_char(i)) != fold_code(b.get_char(i)) {
            return false;
        }
        i = i + 1;
    }
    true
}

/// One past the largest `u32`: where the running value saturates.
const OVERFLOWED: u64 = 0x1_0000_0000;

proof fn lemma_saturated_step(v: nat, d: nat)
    requires
        d < 10,
    ensures
        (if v < OVERFLOWED { v } else { OVERFLOWED as nat }) * 10 + d >= OVERFLOWED
            ==> v * 10 + d >= OVERFLOWED,
        (if v < OVERFLOWED { v } else { OVERFLOWED as nat }) * 10 + d < OVERFLOWED
            ==> v * 10 + d == (if v < OVERFLOWED { v } else { OVERFLOWED as nat }) * 10 + d,
{
}

/// Reads a `u32` the way `str::parse::<u32>` does: `None` for an empty text,
/// a stray character, or a value too large.
pub fn parse_u32(s: &str) -> (r: Option<u32>)
    ensures
        r == parsed_u32(s@),
{
    let n = s.unicode_len();
    let mut start: usize = 0;
    if n > 0 && s.get_char(0) == '+' {
        start = 1;
    }
    let ghost d = unsigned_digits(s@);
    assert(d =~= s@.subrange(start as int, n as int));
    if start == n {
        return None;
    }
    let mut acc: u64 = 0;
    let mut i: usize = start;
    while i < n
        invariant
            d == unsigned_digits(s@),
            d =~= s@.subrange(start as int, n as int),
            start <= i <= n,
            n == s@.len(),
            all_digits(s@.subrange(start as int, i as int)),
            acc == if digits_value(s@.subrange(start as int, i as int)) < OVERFLOWED {
                digits_value(s@.subrange(start as int, i as int))
            } else {
                OVERFLOWED as nat
            },
        decreases n - i,
    {
        let c = s.get_char(i);
        if !('0' <= c && c <= '9') {
            assert(d[i - start] == c);
            assert(!is_digit(d[i - start]));
            assert(!all_digits(d));
            return None;
        }
        let ghost prefix = s@.subrange(start as int, i as int);
        let ghost next = s@.subrange(start as int, i + 1);
        assert(next.drop_last() =~= prefix);
        assert(next.last() == c);
        let dv = (c as u32 - '0' as u32) as u64;
        proof {
            lemma_saturated_step(digits_value(prefix), dv as nat);
        }
        let stepped = acc * 10 + dv;
        acc = if stepped >= OVERFLOWED {
            OVERFLOWED
        } else {
            stepped
        };
        i = i + 1;
        assert(all_digits(next)) by {
            assert forall|j: int| 0 <= j < next.len() implies is_digit(#[trigger] next[j]) by {
                if j < prefix.len() {
                    assert(next[j] == prefix[j]);
                }
            }
        }
    }
    assert(s@.subrange(start as int, n as int) =~= d);
    if acc >= OVERFLOWED {
        None
    } else {
        Some(acc as u32)
    }
}

fn digit_str(d: u32) -> (r: &'static str)
    requires
        d < 10,
    ensures
        r@ == seq![digit_char(d as nat)],
{
    proof {
        reveal_strlit("0");
        reveal_strlit("1");
        reveal_strlit("2");
        reveal_strlit("3");
        reveal_strlit("4");
        reveal_strlit("5");
        reveal_strlit("6");
        reveal_strlit("7");
        reveal_strlit("8");
        reveal_strlit("9");
    }
    let r = match d {
        0 => "0",
        1 => "1",
        2 => "2",
        3 => "3",
        4 => "4",
        5 => "5",
        6 => "6",
        7 => "7",
        8 => "8",
        _ => "9",
    };
    assert(r@ =~= seq![digit_char(d as nat)]);
    r
}

/// Appends the decimal digits of `n`.
fn push_decimal(out: &mut String, n: u32)
    ensures
        final(out)@ == old(out)@ + decimal(n as nat),
    decreases n,
{
    if n >= 10 {
        push_decimal(out, n / 10);
        out.append(digit_str(n % 10));
        assert(final(out)@ =~= old(out)@ + decimal(n as nat));
    } else {
        out.append(digit_str(n));
    }
}

/// Number of decimal digits of `n`.
fn decimal_width(n: u32) -> (w: usize)
    ensures
        w == decimal(n as nat).len(),
        1 <= w <= n / 10 + 1,
    decreases n,
{
    if n >= 10 {
        decimal_width(n / 10) + 1
    } else {
        1
    }
}

/// Appends the decimal digits of `n`, zero-padded to at least `width` digits.
fn push_padded_decimal(out: &mut String, n: u32, width: usize)
    ensures
        final(out)@ == old(out)@ + zero_padded(decimal(n as nat), width as nat),
{
    let w = decimal_width(n);
    let ghost start = out@;
    let mut pad: usize = w;
    while pad < width
        invariant
            w == decimal(n as nat).len(),
            w <= pad <= width || (width < w && pad == w),
            out@ == start + Seq::new((pad - w) as nat, |i: int| '0'),
        decreases width - pad,
    {
        proof {
            reveal_strlit("0");
        }
        out.append("0");
        assert(out@ =~= start + Seq::new((pad + 1 - w) as nat, |i: int| '0'));
        pad = pad + 1;
    }
    push_decimal(out, n);
    assert(final(out)@ =~= start + zero_padded(decimal(n as nat), width as nat));
}

/// Width to which frame numbers are padded in file names.
pub const FRAME_NUMBER_WIDTH: usize = 4;

/// File name of the `index`-th captured frame: `frame_` and the index
/// zero-padded to four digits, then `.png` (so `frame_0007.png`).
pub fn frame_file_name(index: u32) -> (name: String)
    ensures
        name@ == "frame_"@ + zero_padded(decimal(index as nat), FRAME_NUMBER_WIDTH as nat) + ".png"@,
{
    let mut name = String::from_str("frame_");
    push_padded_decimal(&mut name, index, FRAME_NUMBER_WIDTH);
    name.append(".png");
    name
}

proof fn lemma_digit_char_value(d: nat)
    requires
        d < 10,
    ensures
        is_digit(digit_char(d)),
        digit_value(digit_char(d)) == d,
{
}

proof fn lemma_decimal_digits(n: nat)
    ensures
        decimal(n).len() > 0,
        all_digits(decimal(n)),
        digits_value(decimal(n)) == n,
    decreases n,
{
    lemma_digit_char_value(n % 10);
    if n < 10 {
        assert(decimal(n).drop_last() =~= Seq::<char>::empty());
        assert(digits_value(Seq::<char>::empty()) == 0);
        assert(digits_value(decimal(n)) == digit_value(digit_char(n)));
    } else {
        lemma_decimal_digits(n / 10);
        let d = decimal(n);
        assert(d.drop_last() =~= decimal(n / 10));
        assert(d.last() == digit_char(n % 10));
        assert(digits_value(d) == digits_value(decimal(n / 10)) * 10 + digit_value(digit_char(n % 10)));
        assert forall|i: int| 0 <= i < d.len() implies is_digit(#[trigger] d[i]) by {
            if i < d.len() - 1 {
                assert(d[i] == decimal(n / 10)[i]);
            }
        }
    }
}

proof fn lemma_zeros_value(k: nat)
    ensures
        digits_value(Seq::new(k, |i: int| '0')) == 0,
    decreases k,
{
    if k > 0 {
        lemma_zeros_value((k - 1) as nat);
        assert(Seq::new(k, |i: int| '0').drop_last() =~= Seq::new((k - 1) as nat, |i: int| '0'));
    }
}

proof fn lemma_leading_zeros(k: nat, s: Seq<char>)
    ensures
        digits_value(Seq::new(k, |i: int| '0') + s) == digits_value(s),
    decreases s.len(),
{
    let z = Seq::new(k, |i: int| '0');
    if s.len() == 0 {
        assert(z + s =~= z);
        lemma_zeros_value(k);
    } else {
        lemma_leading_zeros(k, s.drop_last());
        assert((z + s).drop_last() =~= z + s.drop_last());
        assert((z + s).last() == s.last());
    }
}

/// The number written into a frame file name reads back as the frame index.
pub proof fn law_frame_number_reads_back(index: u32, width: nat)
    ensures
        parsed_u32(zero_padded(decimal(index as nat), width)) == Some(index),
{
    let d = decimal(index as nat);
    lemma_decimal_digits(index as nat);
    let p = zero_padded(d, width);
    if d.len() < width {
        let z = Seq::new((width - d.len()) as nat, |i: int| '0');
        lemma_leading_zeros((width - d.len()) as nat, d);
        assert(p == z + d);
        assert forall|i: int| 0 <= i < p.len() implies is_digit(#[trigger] p[i]) by {
            if i >= z.len() {
                assert(p[i] == d[i - z.len()]);
            }
        }
        assert(p[0] == '0');
    } else {
        assert(is_digit(d[0]));
    }
    assert(unsigned_digits(p) == p);
}

} // verus!
