//! Decimal text for page numbers and identifiers: rendering a `usize`
//! into its decimal digits and reading an attribute string back into a
//! `usize`, each pinned to the one mathematical decimal meaning.

use vstd::prelude::*;
use vstd::string::{StrSliceExecFns, StringExecFns};

verus! {

/// The digit character for a value below ten.
pub open spec fn digit_char(d: int) -> char {
    if d == 0 {
        '0'
    } else if d == 1 {
        '1'
    } else if d == 2 {
        '2'
    } else if d == 3 {
        '3'
    } else if d == 4 {
        '4'
    } else if d == 5 {
        '5'
    } else if d == 6 {
        '6'
    } else if d == 7 {
        '7'
    } else if d == 8 {
        '8'
    } else {
        '9'
    }
}

pub open spec fn is_dec_digit(c: char) -> bool {
    48 <= c as int && c as int <= 57
}

/// The numeric value of one digit character.
pub open spec fn digit_val(c: char) -> int {
    c as int - 48
}

/// The decimal rendering of a natural number, most significant digit
/// first, with no leading zeros (zero itself renders as one digit).
pub open spec fn dec_str(n: nat) -> Seq<char>
    decreases n,
{
    if n < 10 {
        seq![digit_char(n as int)]
    } else {
        dec_str(n / 10).push(digit_char((n % 10) as int))
    }
}

pub open spec fn all_digits(s: Seq<char>) -> bool {
    forall|i: int| 0 <= i < s.len() ==> is_dec_digit(#[trigger] s[i])
}

/// The number a digit string denotes, most significant digit first.
pub open spec fn dec_value(s: Seq<char>) -> int
    decreases s.len(),
{
    if s.len() == 0 {
        0
    } else {
        dec_value(s.drop_last()) * 10 + digit_val(s.last())
    }
}

/// An attribute string carries a usable number exactly when it is
/// nonempty, all digits, and its value fits the machine word.
pub open spec fn valid_usize_str(s: Seq<char>) -> bool {
    s.len() > 0 && all_digits(s) && dec_value(s) <= usize::MAX
}

fn digit_char_exec(d: usize) -> (c: char)
    requires
        d < 10,
    ensures
        c == digit_char(d as int),
{
    match d {
        0 => '0',
        1 => '1',
        2 => '2',
        3 => '3',
        4 => '4',
        5 => '5',
        6 => '6',
        7 => '7',
        8 => '8',
        _ => '9',
    }
}

/// Relies on String::push: appends exactly one character at the end.
#[verifier::external_body]
fn push_char(s: &mut String, c: char)
    ensures
        final(s)@ == old(s)@.push(c),
{
    s.push(c);
}

fn digit_string(d: usize) -> (s: String)
    requires
        d < 10,
    ensures
        s@ == seq![digit_char(d as int)],
{
    let mut s = String::new();
    push_char(&mut s, digit_char_exec(d));
    proof {
        assert(s@ =~= seq![digit_char(d as int)]);
    }
    s
}

/// Render `n` in decimal, most significant digit first.
pub fn usize_to_string(n: usize) -> (s: String)
    ensures
        s@ == dec_str(n as nat),
{
    let mut s = digit_string(n % 10);
    let mut rem = n / 10;
    proof {
        if rem > 0 {
            assert(dec_str(n as nat) == dec_str(rem as nat).push(digit_char((n % 10) as int)));
            assert(dec_str(n as nat) =~= dec_str(rem as nat) + s@);
        }
    }
    while rem > 0
        invariant
            rem > 0 ==> dec_str(n as nat) == dec_str(rem as nat) + s@,
            rem == 0 ==> dec_str(n as nat) == s@,
        decreases rem,
    {
        let d = rem % 10;
        let prefix = digit_string(d);
        let joined = prefix.concat(s.as_str());
        proof {
            let r2 = (rem / 10) as nat;
            if r2 > 0 {
                assert(dec_str(rem as nat) == dec_str(r2).push(digit_char(d as int)));
                assert(dec_str(r2).push(digit_char(d as int)) =~= dec_str(r2) + seq![
                    digit_char(d as int),
                ]);
                assert(dec_str(n as nat) =~= dec_str(r2) + joined@);
            } else {
                assert(rem < 10);
                assert(dec_str(rem as nat) == seq![digit_char(rem as int)]);
                assert(dec_str(n as nat) =~= joined@);
            }
        }
        s = joined;
        rem = rem / 10;
    }
    s
}

proof fn lemma_dec_value_step(s: Seq<char>, i: int)
    requires
        0 <= i < s.len(),
    ensures
        dec_value(s.subrange(0, i + 1)) == dec_value(s.subrange(0, i)) * 10 + digit_val(s[i]),
{
    let p = s.subrange(0, i + 1);
    assert(p.drop_last() =~= s.subrange(0, i));
    assert(p.last() == s[i]);
}

proof fn lemma_dec_value_prefix_le(s: Seq<char>, i: int)
    requires
        all_digits(s),
        0 <= i <= s.len(),
    ensures
        dec_value(s.subrange(0, i)) <= dec_value(s),
        0 <= dec_value(s.subrange(0, i)),
    decreases s.len() - i,
{
    if i == s.len() {
        assert(s.subrange(0, i) =~= s);
        lemma_dec_value_nonneg(s);
    } else {
        lemma_dec_value_step(s, i);
        lemma_dec_value_nonneg(s.subrange(0, i));
        assert(dec_value(s.subrange(0, i)) * 10 >= dec_value(s.subrange(0, i))) by (nonlinear_arith)
            requires dec_value(s.subrange(0, i)) >= 0;
        assert(is_dec_digit(s[i]));
        lemma_dec_value_prefix_le(s, i + 1);
    }
}

proof fn lemma_dec_value_nonneg(s: Seq<char>)
    requires
        all_digits(s),
    ensures
        dec_value(s) >= 0,
    decreases s.len(),
{
    if s.len() > 0 {
        assert(all_digits(s.drop_last())) by {
            assert(forall|i: int| 0 <= i < s.len() - 1 ==> s.drop_last()[i] == #[trigger] s[i]);
        }
        lemma_dec_value_nonneg(s.drop_last());
        assert(is_dec_digit(s.last()));
        assert(dec_value(s.drop_last()) * 10 >= 0) by (nonlinear_arith)
            requires dec_value(s.drop_last()) >= 0;
    }
}

/// Read a decimal string: `Some` exactly on nonempty all-digit strings
/// whose value fits a `usize`, and then the decimal value itself.
pub fn parse_usize(s: &str) -> (r: Option<usize>)
    ensures
        match r {
            Some(v) => valid_usize_str(s@) && v == dec_value(s@),
            None => !valid_usize_str(s@),
        },
{
    let n = s.unicode_len();
    if n == 0 {
        return None;
    }
    let mut acc: usize = 0;
    let mut i: usize = 0;
    proof {
        assert(s@.subrange(0, 0) =~= Seq::<char>::empty());
    }
    while i < n
        invariant
            n == s@.len(),
            0 <= i <= n,
            acc == dec_value(s@.subrange(0, i as int)),
            forall|j: int| 0 <= j < i ==> is_dec_digit(#[trigger] s@[j]),
        decreases n - i,
    {
        let c = s.get_char(i);
        let cv = c as u32;
        if cv < 48 || cv > 57 {
            assert(!is_dec_digit(s@[i as int]));
            return None;
        }
        let d = (cv - 48) as usize;
        assert(d == digit_val(s@[i as int]));
        proof {
            lemma_dec_value_step(s@, i as int);
        }
        let stepped = match acc.checked_mul(10) {
            Some(x) => x.checked_add(d),
            None => None,
        };
        match stepped {
            Some(y) => {
                acc = y;
            },
            None => {
                proof {
                    assert(dec_value(s@.subrange(0, i + 1)) > usize::MAX);
                    if all_digits(s@) {
                        lemma_dec_value_prefix_le(s@, i + 1);
                    }
                }
                return None;
            },
        }
        i = i + 1;
    }
    proof {
        assert(s@.subrange(0, n as int) =~= s@);
    }
    Some(acc)
}

/// What a discovered marker attribute denotes: the decimal value of the
/// attribute text, when the marker is present and its text is a valid
/// number; an absent or unusable marker denotes nothing.
pub open spec fn parsed_attr(a: Option<Seq<char>>) -> Option<usize> {
    match a {
        None => None,
        Some(s) => if valid_usize_str(s) {
            Some(dec_value(s) as usize)
        } else {
            None
        },
    }
}

/// Read an optional marker attribute as a number.
pub fn parse_attr(a: Option<String>) -> (r: Option<usize>)
    ensures
        r == parsed_attr(a.deep_view()),
{
    match a {
        None => None,
        Some(s) => parse_usize(s.as_str()),
    }
}

/// Rendering then reading a number gives it back: the decimal string of
/// `n` is nonempty, all digits, and denotes `n`.
pub proof fn law_dec_round_trip(n: nat)
    ensures
        dec_str(n).len() > 0,
        all_digits(dec_str(n)),
        dec_value(dec_str(n)) == n,
    decreases n,
{
    if n < 10 {
        let w = seq![digit_char(n as int)];
        assert(w.drop_last() =~= Seq::<char>::empty());
        assert(w.last() == digit_char(n as int));
        assert(dec_value(w) == dec_value(Seq::<char>::empty()) * 10 + digit_val(digit_char(n as int)));
        assert(digit_val(digit_char(n as int)) == n);
    } else {
        law_dec_round_trip(n / 10);
        let s = dec_str(n / 10);
        let w = s.push(digit_char((n % 10) as int));
        assert(w.drop_last() =~= s);
        assert(w.last() == digit_char((n % 10) as int));
        assert(dec_value(w) == dec_value(s) * 10 + digit_val(digit_char((n % 10) as int)));
        assert(digit_val(digit_char((n % 10) as int)) == n % 10);
        assert(dec_value(s) * 10 + n % 10 == n) by (nonlinear_arith)
            requires dec_value(s) == n / 10, n >= 10;
        assert(forall|i: int| 0 <= i < w.len() ==> is_dec_digit(#[trigger] w[i])) by {
            assert(forall|i: int| 0 <= i < s.len() ==> w[i] == #[trigger] s[i]);
        }
    }
}

} // verus!
