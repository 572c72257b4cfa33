//! Text and path helpers: file-name tests, path pieces, and decimal numbers.
use vstd::prelude::*;

verus! {

/// Does `s` end in `.pdf`, in any mix of upper and lower case?
pub open spec fn has_pdf_suffix(s: Seq<char>) -> bool {
    let n = s.len();
    &&& n >= 4
    &&& s[n - 4] == '.'
    &&& (s[n - 3] == 'p' || s[n - 3] == 'P')
    &&& (s[n - 2] == 'd' || s[n - 2] == 'D')
    &&& (s[n - 1] == 'f' || s[n - 1] == 'F')
}

/// The index of the last `/` in `s`, or -1 where there is none.
pub open spec fn last_sep(s: Seq<char>) -> int
    decreases s.len(),
{
    if s.len() == 0 {
        -1
    } else if s.last() == '/' {
        s.len() - 1
    } else {
        last_sep(s.drop_last())
    }
}

/// The directory part of a path: everything up to and including its last `/`.
pub open spec fn dir_part(s: Seq<char>) -> Seq<char> {
    s.subrange(0, last_sep(s) + 1)
}

/// The file's base name: everything after the last `/`.
pub open spec fn base_name_of(s: Seq<char>) -> Seq<char> {
    s.subrange(last_sep(s) + 1, s.len() as int)
}

/// Where a submitted file goes: the `sent` directory beside it, same base name.
pub open spec fn sent_path_of(s: Seq<char>) -> Seq<char> {
    dir_part(s) + seq!['s', 'e', 'n', 't', '/'] + base_name_of(s)
}

pub open spec fn is_digit(c: char) -> bool {
    '0' <= c && c <= '9'
}

pub open spec fn digit_value(c: char) -> int {
    c as int - '0' as int
}

pub open spec fn digit_char(d: int) -> char {
    if d == 0 {
        '0'
    } else if d == 1 {
        '1'
    } else if d == 2 {
        '2'
    } else if d == 3 {
        '3'
    } else if d == 4 {
        '4'
    } else if d == 5 {
        '5'
    } else if d == 6 {
        '6'
    } else if d == 7 {
        '7'
    } else if d == 8 {
        '8'
    } else {
        '9'
    }
}

/// The decimal digits of a natural number, without leading zeros.
pub open spec fn digits_of(n: nat) -> Seq<char>
    decreases n,
{
    if n < 10 {
        seq![digit_char(n as int)]
    } else {
        digits_of(n / 10).push(digit_char((n % 10) as int))
    }
}

/// An integer written in decimal, with a leading `-` when negative.
pub open spec fn decimal_of(n: int) -> Seq<char> {
    if n < 0 {
        seq!['-'] + digits_of((-n) as nat)
    } else {
        digits_of(n as nat)
    }
}

/// A non-empty run of decimal digits.
pub open spec fn all_digits(s: Seq<char>) -> bool {
    s.len() > 0 && forall|i: int| 0 <= i < s.len() ==> is_digit(#[trigger] s[i])
}

/// The value of a run of decimal digits.
pub open spec fn digits_value(s: Seq<char>) -> int
    decreases s.len(),
{
    if s.len() == 0 {
        0
    } else {
        digits_value(s.drop_last()) * 10 + digit_value(s.last())
    }
}

/// The integer that `s` writes: an optional sign, then decimal digits.
pub open spec fn integer_of(s: Seq<char>) -> Option<int> {
    if s.len() > 0 && s[0] == '-' && all_digits(s.drop_first()) {
        Some(-digits_value(s.drop_first()))
    } else if s.len() > 0 && s[0] == '+' && all_digits(s.drop_first()) {
        Some(digits_value(s.drop_first()))
    } else if all_digits(s) {
        Some(digits_value(s))
    } else {
        None
    }
}

/// The `i32` that `s` writes, if it writes one in range.
pub open spec fn i32_of(s: Seq<char>) -> Option<i32> {
    match integer_of(s) {
        Some(v) => if i32::MIN <= v <= i32::MAX {
            Some(v as i32)
        } else {
            None
        },
        None => None,
    }
}

/// `s` followed by spaces up to `width` characters.
pub open spec fn padded(s: Seq<char>, width: nat) -> Seq<char> {
    if s.len() >= width {
        s
    } else {
        s + Seq::new((width - s.len()) as nat, |i: int| ' ')
    }
}

/// Tests whether a file name ends in `.pdf`, ignoring case.
pub fn is_pdf_name(s: &str) -> (r: bool)
    ensures
        r == has_pdf_suffix(s@),
{
    let n = s.unicode_len();
    if n < 4 {
        return false;
    }
    let dot = s.get_char(n - 4);
    let p = s.get_char(n - 3);
    let d = s.get_char(n - 2);
    let f = s.get_char(n - 1);
    dot == '.' && (p == 'p' || p == 'P') && (d == 'd' || d == 'D') && (f == 'f' || f == 'F')
}

proof fn lemma_last_sep_step(s: Seq<char>, i: int)
    requires
        0 <= i < s.len(),
    ensures
        last_sep(s.subrange(0, i + 1)) == if s[i] == '/' {
            i
        } else {
            last_sep(s.subrange(0, i))
        },
{
    assert(s.subrange(0, i + 1).drop_last() =~= s.subrange(0, i));
}

proof fn lemma_last_sep_range(s: Seq<char>)
    ensures
        -1 <= last_sep(s) < s.len(),
        last_sep(s) >= 0 ==> s[last_sep(s)] == '/',
    decreases s.len(),
{
    if s.len() > 0 && s.last() != '/' {
        lemma_last_sep_range(s.drop_last());
    }
}

/// The index of the last `/` in `s`, or `s@.len()` where there is none.
fn last_sep_index(s: &str) -> (r: usize)
    ensures
        last_sep(s@) == -1 ==> r == s@.len(),
        last_sep(s@) >= 0 ==> r == last_sep(s@),
{
    let n = s.unicode_len();
    let mut last: usize = n;
    let mut i: usize = 0;
    assert(s@.subrange(0, 0).len() == 0);
    while i < n
        invariant
            n == s@.len(),
            0 <= i <= n,
            last_sep(s@.subrange(0, i as int)) == -1 ==> last == n,
            last_sep(s@.subrange(0, i as int)) >= 0 ==> last == last_sep(
                s@.subrange(0, i as int),
            ),
            last_sep(s@.subrange(0, i as int)) >= -1,
        decreases n - i,
    {
        proof {
            lemma_last_sep_step(s@, i as int);
        }
        if s.get_char(i) == '/' {
            last = i;
        }
        i = i + 1;
    }
    assert(s@.subrange(0, n as int) =~= s@);
    last
}

/// The base name of a path: what follows its last `/`.
pub fn base_name(s: &str) -> (r: String)
    ensures
        r@ == base_name_of(s@),
{
    proof {
        lemma_last_sep_range(s@);
    }
    let n = s.unicode_len();
    let k = last_sep_index(s);
    if k == n {
        assert(s@.subrange(0, n as int) =~= s@);
        s.to_owned()
    } else {
        s.substring_char(k + 1, n).to_owned()
    }
}

/// The path a submitted file is moved to: `sent/` inserted before its base name.
pub fn sent_path(s: &str) -> (r: String)
    ensures
        r@ == sent_path_of(s@),
{
    proof {
        lemma_last_sep_range(s@);
        reveal_strlit("sent/");
    }
    let n = s.unicode_len();
    let k = last_sep_index(s);
    let (dir, base) = if k == n {
        ("", s)
    } else {
        (s.substring_char(0, k + 1), s.substring_char(k + 1, n))
    };
    proof {
        reveal_strlit("");
        if k == n {
            assert(dir@ =~= dir_part(s@));
            assert(base@ =~= base_name_of(s@));
        }
    }
    let r = dir.to_owned().concat("sent/").concat(base);
    assert(r@ =~= sent_path_of(s@));
    r
}

/// The one-character text of a decimal digit.
fn digit_str(d: u32) -> (r: &'static str)
    requires
        d < 10,
    ensures
        r@ == seq![digit_char(d as int)],
{
    proof {
        reveal_strlit("0");
        reveal_strlit("1");
        reveal_strlit("2");
        reveal_strlit("3");
        reveal_strlit("4");
        reveal_strlit("5");
        reveal_strlit("6");
        reveal_strlit("7");
        reveal_strlit("8");
        reveal_strlit("9");
    }
    let r = if d == 0 {
        "0"
    } else if d == 1 {
        "1"
    } else if d == 2 {
        "2"
    } else if d == 3 {
        "3"
    } else if d == 4 {
        "4"
    } else if d == 5 {
        "5"
    } else if d == 6 {
        "6"
    } else if d == 7 {
        "7"
    } else if d == 8 {
        "8"
    } else {
        "9"
    };
    assert(r@ =~= seq![digit_char(d as int)]);
    r
}

fn digits(n: u32) -> (r: String)
    ensures
        r@ == digits_of(n as nat),
    decreases n,
{
    if n < 10 {
        digit_str(n).to_owned()
    } else {
        let mut r = digits(n / 10);
        r.append(digit_str(n % 10));
        r
    }
}

/// An `i32` written in decimal.
pub fn decimal(n: i32) -> (r: String)
    ensures
        r@ == decimal_of(n as int),
{
    if n < 0 {
        let m: u32 = (-(n as i64)) as u32;
        proof {
            reveal_strlit("-");
        }
        let r = "-".to_owned().concat(digits(m).as_str());
        r
    } else {
        digits(n as u32)
    }
}

proof fn lemma_digits_value_step(s: Seq<char>, i: int)
    requires
        0 <= i < s.len(),
    ensures
        digits_value(s.subrange(0, i + 1)) == digits_value(s.subrange(0, i)) * 10 + digit_value(
            s[i],
        ),
{
    assert(s.subrange(0, i + 1).drop_last() =~= s.subrange(0, i));
}

/// Reads a run of decimal digits from position `from` to the end; `None`
/// where one is missing or the value exceeds 2^31.
fn digits_run(s: &str, from: usize) -> (r: Option<u64>)
    requires
        from <= s@.len(),
    ensures
        r is Some <==> all_digits(s@.skip(from as int)) && digits_value(s@.skip(from as int))
            <= 0x8000_0000,
        r is Some ==> r->0 == digits_value(s@.skip(from as int)),
{
    let n = s.unicode_len();
    if from == n {
        return None;
    }
    let ghost t = s@.skip(from as int);
    let mut acc: u64 = 0;
    let mut big = false;
    let mut i: usize = from;
    assert(t.subrange(0, 0).len() == 0);
    while i < n
        invariant
            n == s@.len(),
            from < n,
            t == s@.skip(from as int),
            from <= i <= n,
            forall|j: int| 0 <= j < i - from ==> is_digit(#[trigger] t[j]),
            !big ==> acc == digits_value(t.subrange(0, i - from)),
            !big ==> acc <= 0x8000_0000,
            big ==> digits_value(t.subrange(0, i - from)) > 0x8000_0000,
            digits_value(t.subrange(0, i - from)) >= 0,
        decreases n - i,
    {
        let c = s.get_char(i);
        if !('0' <= c && c <= '9') {
            assert(!is_digit(t[i - from]));
            return None;
        }
        proof {
            lemma_digits_value_step(t, i - from);
        }
        if !big {
            let d: u64 = (c as u32 - '0' as u32) as u64;
            acc = acc * 10 + d;
            if acc > 0x8000_0000 {
                big = true;
            }
        }
        i = i + 1;
    }
    assert(t.subrange(0, (n - from) as int) =~= t);
    if big {
        None
    } else {
        Some(acc)
    }
}

/// Reads an `i32` written in decimal with an optional sign, as `str::parse` does.
pub fn parse_i32(s: &str) -> (r: Option<i32>)
    ensures
        r == i32_of(s@),
{
    let n = s.unicode_len();
    if n == 0 {
        return None;
    }
    let c = s.get_char(0);
    let from: usize = if c == '-' || c == '+' {
        1
    } else {
        0
    };
    assert(s@.skip(1) =~= s@.drop_first());
    assert(s@.skip(0) =~= s@);
    match digits_run(s, from) {
        None => {
            assert(!is_digit('-') && !is_digit('+'));
            None
        },
        Some(v) => {
            if c == '-' {
                Some((-(v as i64)) as i32)
            } else if v <= 0x7fff_ffff {
                Some(v as i32)
            } else {
                None
            }
        },
    }
}

/// Pads `s` with spaces on the right to `width` characters.
pub fn pad_right(s: &str, width: usize) -> (r: String)
    ensures
        r@ == padded(s@, width as nat),
{
    let n = s.unicode_len();
    let mut r = s.to_owned();
    if n >= width {
        return r;
    }
    let mut i: usize = n;
    proof {
        reveal_strlit(" ");
    }
    while i < width
        invariant
            n == s@.len(),
            n <= i <= width,
            r@ =~= s@ + Seq::new((i - n) as nat, |j: int| ' '),
        decreases width - i,
    {
        r.append(" ");
        proof {
            reveal_strlit(" ");
        }
        assert(Seq::new((i + 1 - n) as nat, |j: int| ' ') =~= Seq::new(
            (i - n) as nat,
            |j: int| ' ',
        ) + " "@);
        i = i + 1;
    }
    r
}

} // verus!
