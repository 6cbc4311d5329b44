use vstd::prelude::*;

verus! {

/// Relies on `String::push`: the character is appended at the end.
pub assume_specification[ String::push ](s: &mut String, ch: char)
    ensures
        final(s)@ == old(s)@.push(ch),
;

/// The character of a decimal digit.
pub open spec fn digit_char(d: nat) -> char {
    (48 + d) as char
}

/// The decimal digits of `n`, most significant first, without leading zeros.
pub open spec fn dec(n: nat) -> Seq<char>
    decreases n,
{
    if n < 10 {
        seq![digit_char(n)]
    } else {
        dec(n / 10).push(digit_char(n % 10))
    }
}

/// `v` in decimal, with a leading minus sign when it is negative.
pub open spec fn signed_dec(v: int) -> Seq<char> {
    if v < 0 {
        seq!['-'] + dec((-v) as nat)
    } else {
        dec(v as nat)
    }
}

/// The last `k` decimal digits of `f`, zero-padded on the left.
pub open spec fn padded(f: nat, k: nat) -> Seq<char>
    decreases k,
{
    if k == 0 {
        seq![]
    } else {
        padded(f / 10, (k - 1) as nat).push(digit_char(f % 10))
    }
}

/// The fraction `f / 10^k` written after a decimal point: `k` digits with the
/// trailing zeros dropped (nothing at all when `f` is zero).
pub open spec fn frac_digits(f: nat, k: nat) -> Seq<char>
    decreases k,
{
    if k == 0 || f == 0 {
        seq![]
    } else if f % 10 == 0 {
        frac_digits(f / 10, (k - 1) as nat)
    } else {
        padded(f, k)
    }
}

/// `whole` followed, when `frac` is not zero, by a point and `frac` as `k`
/// decimal places without trailing zeros.
pub open spec fn fixed_point(whole: nat, frac: nat, k: nat) -> Seq<char> {
    if frac_digits(frac, k).len() == 0 {
        dec(whole)
    } else {
        dec(whole) + seq!['.'] + frac_digits(frac, k)
    }
}

/// Appends the character of a decimal digit.
pub fn push_digit(s: &mut String, d: u64)
    requires
        d < 10,
    ensures
        final(s)@ == old(s)@.push(digit_char(d as nat)),
{
    let c = (48u8 + d as u8) as char;
    s.push(c);
}

/// Appends `n` in decimal.
pub fn push_decimal(s: &mut String, n: u64)
    ensures
        final(s)@ == old(s)@ + dec(n as nat),
    decreases n,
{
    let ghost s0 = s@;
    if n >= 10 {
        push_decimal(s, n / 10);
    }
    push_digit(s, n % 10);
    proof {
        if n >= 10 {
            assert(s@ =~= s0 + dec(n as nat));
        } else {
            assert(s@ =~= s0 + dec(n as nat));
        }
    }
}

/// Appends `v` in decimal, with a minus sign when it is negative.
pub fn push_signed(s: &mut String, v: i64)
    ensures
        final(s)@ == old(s)@ + signed_dec(v as int),
{
    let ghost s0 = s@;
    if v < 0 {
        s.push('-');
        let m: u64 = if v == i64::MIN {
            0x8000_0000_0000_0000u64
        } else {
            (-v) as u64
        };
        push_decimal(s, m);
        assert(s@ =~= s0 + signed_dec(v as int));
    } else {
        push_decimal(s, v as u64);
    }
}

fn push_padded(s: &mut String, f: u64, k: u64)
    ensures
        final(s)@ == old(s)@ + padded(f as nat, k as nat),
    decreases k,
{
    let ghost s0 = s@;
    if k > 0 {
        push_padded(s, f / 10, k - 1);
        push_digit(s, f % 10);
        assert(s@ =~= s0 + padded(f as nat, k as nat));
    } else {
        assert(s@ =~= s0 + padded(f as nat, k as nat));
    }
}

/// Appends the fraction `f / 10^k` as decimal places without trailing zeros.
fn push_fraction(s: &mut String, f: u64, k: u64)
    ensures
        final(s)@ == old(s)@ + frac_digits(f as nat, k as nat),
    decreases k,
{
    if k == 0 || f == 0 {
        assert(s@ =~= s@ + frac_digits(f as nat, k as nat));
    } else if f % 10 == 0 {
        push_fraction(s, f / 10, k - 1);
    } else {
        push_padded(s, f, k);
    }
}

/// Appends `whole`, then a point and the decimal places of `frac / 10^k` when
/// there are any.
pub fn push_fixed_point(s: &mut String, whole: u64, frac: u64, k: u64)
    ensures
        final(s)@ == old(s)@ + fixed_point(whole as nat, frac as nat, k as nat),
{
    let ghost s0 = s@;
    push_decimal(s, whole);
    let ghost s1 = s@;
    let mut tail = String::new();
    push_fraction(&mut tail, frac, k);
    assert(tail@ =~= frac_digits(frac as nat, k as nat));
    if tail.unicode_len() > 0 {
        s.push('.');
        s.append(tail.as_str());
        assert(s@ =~= s0 + fixed_point(whole as nat, frac as nat, k as nat));
    } else {
        assert(s@ =~= s0 + fixed_point(whole as nat, frac as nat, k as nat));
    }
}

/// `n` written in decimal.
pub fn decimal_text(n: u64) -> (r: String)
    ensures
        r@ == dec(n as nat),
{
    let mut s = String::new();
    push_decimal(&mut s, n);
    assert(s@ =~= dec(n as nat));
    s
}

/// `before`, then `value`, then `after`: the display rule shared by every
/// labelled scalar.
pub fn labeled(before: &str, value: &str, after: &str) -> (r: String)
    ensures
        r@ == before@ + value@ + after@,
{
    let mut s = String::from_str(before);
    s.append(value);
    s.append(after);
    s
}

/// A frequency given in MHz, written in GHz: the thousands, then up to three
/// decimal places without trailing zeros (2412 gives "2.412").
pub open spec fn ghz_text(mhz: nat) -> Seq<char> {
    fixed_point(mhz / 1000, mhz % 1000, 3)
}

/// A signal given in mBm (1/100 dBm), written in dBm with one decimal place,
/// truncated toward zero (-5300 gives "-53.0"); no sign when it reads zero.
pub open spec fn mbm_text(v: int) -> Seq<char> {
    let t = if v < 0 {
        (-v) / 10
    } else {
        v / 10
    };
    if v < 0 && t > 0 {
        seq!['-'] + dec((t / 10) as nat) + seq!['.', digit_char((t % 10) as nat)]
    } else {
        dec((t / 10) as nat) + seq!['.', digit_char((t % 10) as nat)]
    }
}

/// A duration given in seconds, written in minutes: the whole minutes, then up
/// to six decimal places, truncated, without trailing zeros (5494 gives
/// "91.566666").
pub open spec fn minutes_text(secs: nat) -> Seq<char> {
    fixed_point(secs / 60, (secs % 60) * 1_000_000 / 60, 6)
}

/// Writes a frequency in MHz as GHz.
pub fn ghz_string(mhz: u32) -> (r: String)
    ensures
        r@ == ghz_text(mhz as nat),
{
    let mut s = String::new();
    push_fixed_point(&mut s, (mhz / 1000) as u64, (mhz % 1000) as u64, 3);
    assert(s@ =~= ghz_text(mhz as nat));
    s
}

/// Writes a signal in mBm as dBm with one decimal place.
pub fn mbm_string(v: i32) -> (r: String)
    ensures
        r@ == mbm_text(v as int),
{
    let m: u64 = if v < 0 {
        (-(v as i64)) as u64
    } else {
        v as u64
    };
    let t = m / 10;
    let mut s = String::new();
    if v < 0 && t > 0 {
        s.push('-');
    }
    push_decimal(&mut s, t / 10);
    s.push('.');
    push_digit(&mut s, t % 10);
    assert(s@ =~= mbm_text(v as int));
    s
}

/// Writes a duration in seconds as minutes.
pub fn minutes_string(secs: u32) -> (r: String)
    ensures
        r@ == minutes_text(secs as nat),
{
    let mut s = String::new();
    let frac = (secs % 60) as u64 * 1_000_000 / 60;
    push_fixed_point(&mut s, (secs / 60) as u64, frac, 6);
    assert(s@ =~= minutes_text(secs as nat));
    s
}

/// Writes a signed value in decimal.
pub fn signed_text(v: i64) -> (r: String)
    ensures
        r@ == signed_dec(v as int),
{
    let mut s = String::new();
    push_signed(&mut s, v);
    assert(s@ =~= signed_dec(v as int));
    s
}

/// Lines joined by newline characters, with none after the last.
pub open spec fn join_lines(lines: Seq<Seq<char>>) -> Seq<char>
    decreases lines.len(),
{
    if lines.len() == 0 {
        seq![]
    } else if lines.len() == 1 {
        lines[0]
    } else {
        join_lines(lines.drop_last()) + seq!['\n'] + lines.last()
    }
}

/// `lines` with `line` added at the end when there is one.
pub open spec fn add_line(lines: Seq<Seq<char>>, line: Option<Seq<char>>) -> Seq<Seq<char>> {
    match line {
        Some(l) => lines.push(l),
        None => lines,
    }
}

/// Builds a report one line at a time.
pub struct LineJoiner {
    text: String,
    count: usize,
    lines: Ghost<Seq<Seq<char>>>,
}

impl LineJoiner {
    /// The text holds the lines added so far, joined by newlines.
    pub closed spec fn wf(&self) -> bool {
        &&& self.text@ == join_lines(self.lines@)
        &&& self.count == self.lines@.len()
    }

    /// The lines added so far.
    pub closed spec fn lines(&self) -> Seq<Seq<char>> {
        self.lines@
    }

    /// A report with no lines yet.
    pub fn new() -> (r: LineJoiner)
        ensures
            r.wf(),
            r.lines() == Seq::<Seq<char>>::empty(),
    {
        LineJoiner { text: String::new(), count: 0, lines: Ghost(Seq::empty()) }
    }

    /// Adds `line` when there is one.
    pub fn add(&mut self, line: Option<String>)
        requires
            old(self).wf(),
            old(self).lines().len() < 64,
        ensures
            final(self).wf(),
            final(self).lines() == add_line(
                old(self).lines(),
                match line {
                    Some(l) => Some(l@),
                    None => None,
                },
            ),
    {
        if let Some(l) = line {
            let ghost before = self.lines@;
            if self.count > 0 {
                self.text.push('\n');
            }
            self.text.append(l.as_str());
            self.count = self.count + 1;
            self.lines = Ghost(before.push(l@));
            proof {
                assert(self.lines@.drop_last() =~= before);
                if before.len() == 0 {
                    assert(self.text@ =~= join_lines(self.lines@));
                } else {
                    assert(self.text@ =~= join_lines(self.lines@));
                }
            }
        }
    }

    /// The report: the lines joined by newlines.
    pub fn finish(self) -> (r: String)
        requires
            self.wf(),
        ensures
            r@ == join_lines(self.lines()),
    {
        self.text
    }
}

/// `label`, the value and `unit` when the value is there.
pub fn line_of(label: &str, value: Option<String>, unit: &str) -> (r: Option<String>)
    ensures
        match value {
            Some(v) => r matches Some(l) && l@ == label@ + v@ + unit@,
            None => r is None,
        },
{
    match value {
        Some(v) => Some(labeled(label, v.as_str(), unit)),
        None => None,
    }
}

} // verus!
