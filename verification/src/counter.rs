//! The counter demo: an integer state, a message that increments it, and
//! a projection that renders the count as decimal text.
//!
//! This is the state the demo tree binds its dynamic label to: clicks send
//! [`Message::Incr`] to the store, and the label's selector projects the
//! count through [`ToDecimalText`].

use vstd::prelude::*;

use crate::state::{MutReducer, Projection, Reducer};

verus! {

/// Messages the counter store understands.
#[derive(Clone, Copy, PartialEq, Eq, Structural, Debug)]
pub enum Message {
    Incr,
}

/// Increments the count by one; at the top of the range it wraps to zero,
/// so the reducer is total.
#[derive(Clone, Copy, PartialEq, Eq, Structural, Debug)]
pub struct CounterReducer;

impl Reducer for CounterReducer {
    type State = u64;

    type Msg = Message;

    open spec fn spec_reduce(&self, s: u64, m: Message) -> u64 {
        if s == u64::MAX {
            0
        } else {
            (s + 1) as u64
        }
    }

    fn reduce(&self, s: &u64, m: Message) -> (r: u64) {
        if *s == u64::MAX {
            0
        } else {
            *s + 1
        }
    }
}

/// The in-place flavor of [`CounterReducer`]: rewrites the count where it
/// sits, applying the same transition.
#[derive(Clone, Copy, PartialEq, Eq, Structural, Debug)]
pub struct CounterMutReducer;

impl MutReducer for CounterMutReducer {
    type State = u64;

    type Msg = Message;

    open spec fn spec_reduce(&self, s: u64, m: Message) -> u64 {
        if s == u64::MAX {
            0
        } else {
            (s + 1) as u64
        }
    }

    fn reduce(&self, s: &mut u64, m: Message) {
        if *s == u64::MAX {
            *s = 0;
        } else {
            *s = *s + 1;
        }
    }
}

/// The decimal digit character for one digit value; values ten and above
/// fall back to `'9'`, which keeps the function total.
pub open spec fn digit_char(d: nat) -> char {
    if d == 0 {
        '0'
    } else if d == 1 {
        '1'
    } else if d == 2 {
        '2'
    } else if d == 3 {
        '3'
    } else if d == 4 {
        '4'
    } else if d == 5 {
        '5'
    } else if d == 6 {
        '6'
    } else if d == 7 {
        '7'
    } else if d == 8 {
        '8'
    } else {
        '9'
    }
}

/// The decimal digits of `n`, most significant first; zero is `"0"`.
pub open spec fn spec_digits(n: nat) -> Seq<char>
    decreases n,
{
    if n < 10 {
        seq![digit_char(n)]
    } else {
        spec_digits(n / 10).push(digit_char(n % 10))
    }
}

/// Renders a count in decimal.
fn u64_to_digits(n: u64) -> (r: Vec<char>)
    ensures
        r@ == spec_digits(n as nat),
{
    let mut rev: Vec<char> = Vec::new();
    let mut m: u64 = n;
    proof {
        assert(rev@.reverse() =~= Seq::<char>::empty());
    }
    while m >= 10
        invariant
            spec_digits(n as nat) == spec_digits(m as nat) + rev@.reverse(),
        decreases m,
    {
        let d = digit_of(m % 10);
        let ghost rev0 = rev@;
        rev.push(d);
        proof {
            assert(m / 10 < m) by (nonlinear_arith)
                requires m >= 10
            ;
            assert(m % 10 < 10) by (nonlinear_arith);
            assert(spec_digits(m as nat) == spec_digits((m as nat) / 10).push(
                digit_char((m as nat) % 10),
            ));
            assert((m as nat) / 10 == (m / 10) as nat);
            assert((m as nat) % 10 == (m % 10) as nat);
            assert(rev@.reverse() =~= seq![d] + rev0.reverse());
            assert(spec_digits((m / 10) as nat) + rev@.reverse() =~= (spec_digits(
                (m / 10) as nat,
            ).push(d)) + rev0.reverse());
        }
        m = m / 10;
    }
    let d = digit_of(m);
    let ghost rev1 = rev@;
    rev.push(d);
    proof {
        assert(spec_digits(m as nat) == seq![digit_char(m as nat)]);
        assert(rev@.reverse() =~= seq![d] + rev1.reverse());
        assert(spec_digits(n as nat) =~= rev@.reverse());
    }
    let mut out: Vec<char> = Vec::new();
    let k: usize = rev.len();
    proof {
        assert(out@ =~= rev@.reverse().take(0));
    }
    for i in 0..k
        invariant
            k == rev@.len(),
            out@ == rev@.reverse().take(i as int),
    {
        out.push(rev[k - 1 - i]);
        proof {
            assert(rev@.reverse()[i as int] == rev@[k - 1 - i]);
            assert(rev@.reverse().take(i + 1) =~= rev@.reverse().take(i as int).push(
                rev@.reverse()[i as int],
            ));
        }
    }
    proof {
        assert(rev@.reverse().take(k as int) =~= rev@.reverse());
    }
    out
}

/// The character for a digit below ten.
fn digit_of(d: u64) -> (r: char)
    requires
        d < 10,
    ensures
        r == digit_char(d as nat),
{
    if d == 0 {
        '0'
    } else if d == 1 {
        '1'
    } else if d == 2 {
        '2'
    } else if d == 3 {
        '3'
    } else if d == 4 {
        '4'
    } else if d == 5 {
        '5'
    } else if d == 6 {
        '6'
    } else if d == 7 {
        '7'
    } else if d == 8 {
        '8'
    } else {
        '9'
    }
}

/// Projects a counter state to its decimal text.
#[derive(Clone, Copy, PartialEq, Eq, Structural, Debug)]
pub struct ToDecimalText;

impl Projection for ToDecimalText {
    type In = u64;

    type Out = Vec<char>;

    open spec fn spec_project(&self, s: u64) -> Seq<char> {
        spec_digits(s as nat)
    }

    fn project(&self, s: &u64) -> (r: Vec<char>) {
        u64_to_digits(*s)
    }
}

/// A decimal rendering of a counter state never exceeds twenty digits,
/// so a counter label's derived text always fits one layout call.
pub proof fn lemma_digits_len(n: nat)
    requires
        n <= 0xffff_ffff_ffff_ffff,
    ensures
        1 <= spec_digits(n).len() <= 20,
{
    assert(spec_digits(n).len() >= 1);
    if spec_digits(n).len() > 20 {
        lemma_digits_pow(n, 20);
        assert(n >= pow10(20));
        reveal_with_fuel(pow10, 21);
        assert(pow10(20) == 100000000000000000000);
        assert(false);
    }
}

/// Ten to the `e`.
pub open spec fn pow10(e: nat) -> nat
    decreases e,
{
    if e == 0 {
        1
    } else {
        10 * pow10((e - 1) as nat)
    }
}

/// A number whose rendering has more than `e` digits is at least ten to
/// the `e`, for positive `e`.
proof fn lemma_digits_pow(n: nat, e: nat)
    requires
        spec_digits(n).len() > e,
        e > 0,
    ensures
        n >= pow10(e),
    decreases e,
{
    assert(spec_digits(n).len() >= 2);
    assert(n >= 10);
    assert(spec_digits(n).len() == spec_digits(n / 10).len() + 1);
    if e == 1 {
        assert(pow10(0) == 1);
        assert(pow10(1) == 10 * pow10(0));
    } else {
        lemma_digits_pow(n / 10, (e - 1) as nat);
        assert(n / 10 >= pow10((e - 1) as nat));
        assert(n >= 10 * pow10((e - 1) as nat)) by (nonlinear_arith)
            requires n / 10 >= pow10((e - 1) as nat)
        ;
    }
}

} // verus!
