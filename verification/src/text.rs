//! Text building for diagnostics: decimal rendering of exit codes and the
//! description of how a process ended.

use vstd::prelude::*;
use vstd::string::StringExecFns;

use crate::channel::ExitStatus;

verus! {

/// The character for one decimal digit.
pub open spec fn digit_char(d: int) -> char {
    if d == 0 { '0' }
    else if d == 1 { '1' }
    else if d == 2 { '2' }
    else if d == 3 { '3' }
    else if d == 4 { '4' }
    else if d == 5 { '5' }
    else if d == 6 { '6' }
    else if d == 7 { '7' }
    else if d == 8 { '8' }
    else { '9' }
}

/// The decimal digits of `n`, most significant first.
pub open spec fn dec_digits(n: nat) -> Seq<char>
    decreases n,
{
    if n < 10 {
        seq![digit_char(n as int)]
    } else {
        dec_digits(n / 10) + seq![digit_char((n % 10) as int)]
    }
}

/// The decimal text of an integer, with a leading minus sign when negative.
pub open spec fn int_text(v: int) -> Seq<char> {
    if v < 0 {
        seq!['-'] + dec_digits((-v) as nat)
    } else {
        dec_digits(v as nat)
    }
}

/// The description of an exit status: the decimal exit code, or a fixed
/// phrase when the process was ended by a signal and reported no code.
pub open spec fn exit_text(es: ExitStatus) -> Seq<char> {
    match es.code {
        Some(c) => "exit code: "@ + int_text(c as int),
        None => "terminated by a signal"@,
    }
}

fn digit_str(d: u64) -> (r: &'static str)
    requires
        d < 10,
    ensures
        r@ == seq![digit_char(d as int)],
{
    let r: &'static str = if d == 0 { "0" }
    else if d == 1 { "1" }
    else if d == 2 { "2" }
    else if d == 3 { "3" }
    else if d == 4 { "4" }
    else if d == 5 { "5" }
    else if d == 6 { "6" }
    else if d == 7 { "7" }
    else if d == 8 { "8" }
    else { "9" };
    proof {
        reveal_strlit("0");
        reveal_strlit("1");
        reveal_strlit("2");
        reveal_strlit("3");
        reveal_strlit("4");
        reveal_strlit("5");
        reveal_strlit("6");
        reveal_strlit("7");
        reveal_strlit("8");
        reveal_strlit("9");
    }
    r
}

/// Appends the decimal digits of `n` to `out`.
fn push_decimal(out: &mut String, n: u64)
    ensures
        final(out)@ == old(out)@ + dec_digits(n as nat),
    decreases n,
{
    if n >= 10 {
        push_decimal(out, n / 10);
    }
    out.append(digit_str(n % 10));
    proof {
        if n < 10 {
            assert(old(out)@ + dec_digits(n as nat) =~= out@);
        } else {
            assert(old(out)@ + dec_digits(n as nat)
                =~= (old(out)@ + dec_digits((n / 10) as nat)) + seq![digit_char((n % 10) as int)]);
        }
    }
}

/// The decimal text of a 32-bit integer.
pub fn render_int(v: i32) -> (r: String)
    ensures
        r@ == int_text(v as int),
{
    let mut out = String::new();
    let magnitude: u64 = if v < 0 {
        out.append("-");
        proof {
            reveal_strlit("-");
            assert(Seq::<char>::empty() + "-"@ =~= seq!['-']);
        }
        (-(v as i64)) as u64
    } else {
        v as u64
    };
    proof {
        if v < 0 {
            assert(magnitude as nat == (-(v as int)) as nat);
            assert(out@ =~= seq!['-']);
        }
    }
    push_decimal(&mut out, magnitude);
    proof {
        if v < 0 {
            assert(seq!['-'] + dec_digits((-(v as int)) as nat) =~= out@);
        } else {
            assert(Seq::<char>::empty() + dec_digits(v as nat) =~= dec_digits(v as nat));
        }
    }
    out
}

impl ExitStatus {
    /// How the process ended, as text for a diagnostic body.
    pub fn describe(&self) -> (r: String)
        ensures
            r@ == exit_text(*self),
    {
        match self.code {
            Some(c) => {
                let mut out = String::from_str("exit code: ");
                let digits = render_int(c);
                out.append(digits.as_str());
                out
            }
            None => String::from_str("terminated by a signal"),
        }
    }
}

} // verus!
