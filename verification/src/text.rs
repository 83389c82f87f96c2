//! Text helpers: decimal numbers and the substitution of a token in a text.
use vstd::prelude::*;
use vstd::string::*;

verus! {

/// `String::push` appends one character.
pub assume_specification[ String::push ](text: &mut String, c: char)
    ensures
        final(text)@ == old(text)@.push(c),
;

/// The character of the decimal digit `d`.
pub open spec fn digit(d: nat) -> char {
    if d == 0 {
        '0'
    } else if d == 1 {
        '1'
    } else if d == 2 {
        '2'
    } else if d == 3 {
        '3'
    } else if d == 4 {
        '4'
    } else if d == 5 {
        '5'
    } else if d == 6 {
        '6'
    } else if d == 7 {
        '7'
    } else if d == 8 {
        '8'
    } else {
        '9'
    }
}

/// The decimal writing of `n`, without sign or leading zeros.
pub open spec fn decimal(n: nat) -> Seq<char>
    decreases n,
{
    if n < 10 {
        seq![digit(n)]
    } else {
        decimal(n / 10).push(digit(n % 10))
    }
}

/// The number of decimal digits of `n`; 0 has one digit.
pub open spec fn digit_count(n: nat) -> nat
    decreases n,
{
    if n < 10 {
        1
    } else {
        1 + digit_count(n / 10)
    }
}

/// The decimal writing of `n` has `digit_count(n)` characters.
pub proof fn lemma_decimal_len(n: nat)
    ensures
        decimal(n).len() == digit_count(n),
    decreases n,
{
    if n >= 10 {
        lemma_decimal_len(n / 10);
    }
}

/// A number has `k` digits exactly when it lies between `10^(k-1)` and
/// `10^k - 1`; stated here for the thirteen digits of a timestamp in
/// milliseconds.
pub proof fn lemma_thirteen_digits(n: nat)
    ensures
        digit_count(n) == 13 <==> 1_000_000_000_000 <= n <= 9_999_999_999_999,
{
    reveal_with_fuel(digit_count, 15);
}

fn digit_char(d: u64) -> (c: char)
    requires
        d < 10,
    ensures
        c == digit(d as nat),
{
    if d == 0 {
        '0'
    } else if d == 1 {
        '1'
    } else if d == 2 {
        '2'
    } else if d == 3 {
        '3'
    } else if d == 4 {
        '4'
    } else if d == 5 {
        '5'
    } else if d == 6 {
        '6'
    } else if d == 7 {
        '7'
    } else if d == 8 {
        '8'
    } else {
        '9'
    }
}

/// Appends the decimal writing of `n` to `out`.
pub fn push_decimal(out: &mut String, n: u64)
    ensures
        final(out)@ == old(out)@ + decimal(n as nat),
    decreases n,
{
    if n >= 10 {
        push_decimal(out, n / 10);
    }
    out.push(digit_char(n % 10));
    assert(out@ =~= old(out)@ + decimal(n as nat));
}

/// The decimal writing of `n`.
pub fn to_decimal(n: u64) -> (r: String)
    ensures
        r@ == decimal(n as nat),
{
    let mut out = String::new();
    push_decimal(&mut out, n);
    assert(out@ =~= decimal(n as nat));
    out
}

/// The number of decimal digits of `n`.
pub fn count_digits(n: u64) -> (r: usize)
    ensures
        r == digit_count(n as nat),
        1 <= r <= 20,
{
    let mut rest = n;
    let mut count: usize = 1;
    proof {
        assert(pow10(20) == 100_000_000_000_000_000_000nat) by {
            reveal_with_fuel(pow10, 21);
        }
        lemma_digit_count_bound(n as nat, 20);
    }
    while rest >= 10
        invariant
            count >= 1,
            digit_count(n as nat) <= 20,
            count + digit_count(rest as nat) == 1 + digit_count(n as nat),
        decreases rest,
    {
        rest = rest / 10;
        count = count + 1;
    }
    count
}

/// Ten to the power `k`.
pub open spec fn pow10(k: nat) -> nat
    decreases k,
{
    if k == 0 {
        1
    } else {
        10 * pow10((k - 1) as nat)
    }
}

/// A number below `10^k` has at most `k` digits.
pub proof fn lemma_digit_count_bound(n: nat, k: nat)
    requires
        k >= 1,
        n < pow10(k),
    ensures
        digit_count(n) <= k,
    decreases k,
{
    reveal_with_fuel(pow10, 2);
    if n >= 10 {
        lemma_digit_count_bound(n / 10, (k - 1) as nat);
    }
}

/// The characters of `text`.
pub fn chars_of(text: &str) -> (r: Vec<char>)
    ensures
        r@ == text@,
{
    let n = text.unicode_len();
    let mut r: Vec<char> = Vec::new();
    let mut i: usize = 0;
    while i < n
        invariant
            i <= n,
            n == text@.len(),
            r@ == text@.take(i as int),
        decreases n - i,
    {
        r.push(text.get_char(i));
        i = i + 1;
        assert(r@ =~= text@.take(i as int));
    }
    assert(text@.take(n as int) =~= text@);
    r
}

/// `pattern` stands in `text` at position `at`.
pub open spec fn occurs_at(text: Seq<char>, at: int, pattern: Seq<char>) -> bool {
    &&& 0 <= at
    &&& at + pattern.len() <= text.len()
    &&& text.subrange(at, at + pattern.len()) == pattern
}

/// `pattern` stands somewhere in `text`.
pub open spec fn occurs_in(text: Seq<char>, pattern: Seq<char>) -> bool {
    exists|at: int| occurs_at(text, at, pattern)
}

/// `text` with every occurrence of `pattern` replaced by `with`, found from
/// left to right, an occurrence starting only where the one before it has
/// ended. An empty pattern occurs nowhere.
pub open spec fn replaced(text: Seq<char>, pattern: Seq<char>, with: Seq<char>) -> Seq<char>
    decreases text.len(),
{
    if text.len() == 0 || pattern.len() == 0 {
        text
    } else if occurs_at(text, 0, pattern) {
        with + replaced(text.skip(pattern.len() as int), pattern, with)
    } else {
        seq![text[0]] + replaced(text.skip(1), pattern, with)
    }
}

fn starts_at(text: &Vec<char>, at: usize, pattern: &Vec<char>) -> (r: bool)
    requires
        at <= text@.len(),
    ensures
        r == occurs_at(text@, at as int, pattern@),
{
    if pattern.len() > text.len() - at {
        return false;
    }
    let mut k: usize = 0;
    while k < pattern.len()
        invariant
            k <= pattern@.len(),
            at + pattern@.len() <= text@.len() <= usize::MAX,
            forall|j: int| 0 <= j < k ==> text@[at + j] == pattern@[j],
        decreases pattern@.len() - k,
    {
        if text[at + k] != pattern[k] {
            assert(text@.subrange(at as int, at + pattern@.len())[k as int] != pattern@[k as int]);
            return false;
        }
        k = k + 1;
    }
    assert(text@.subrange(at as int, at + pattern@.len()) =~= pattern@);
    true
}

/// Replaces every occurrence of `pattern` in `text` by `with`.
pub fn replace(text: &str, pattern: &str, with: &str) -> (r: String)
    ensures
        r@ == replaced(text@, pattern@, with@),
{
    let source = chars_of(text);
    let token = chars_of(pattern);
    let mut out = String::new();
    let mut i: usize = 0;
    if token.len() == 0 {
        return text.to_owned();
    }
    assert(source@.skip(0) =~= source@);
    assert(out@ + replaced(source@, token@, with@) =~= replaced(source@, token@, with@));
    while i < source.len()
        invariant
            i <= source@.len(),
            token@.len() > 0,
            source@ == text@,
            token@ == pattern@,
            out@ + replaced(source@.skip(i as int), token@, with@) == replaced(
                source@,
                token@,
                with@,
            ),
        decreases source@.len() - i,
    {
        let ghost rest = source@.skip(i as int);
        if starts_at(&source, i, &token) {
            assert(rest.subrange(0, token@.len() as int) =~= source@.subrange(
                i as int,
                i + token@.len(),
            ));
            assert(rest.skip(token@.len() as int) =~= source@.skip(i + token@.len()));
            out.append(with);
            i = i + token.len();
            assert(out@ + replaced(source@.skip(i as int), token@, with@) =~= replaced(
                source@,
                token@,
                with@,
            ));
        } else {
            proof {
                if i + token@.len() <= source@.len() {
                    assert(rest.subrange(0, token@.len() as int) =~= source@.subrange(
                        i as int,
                        i + token@.len(),
                    ));
                }
            }
            assert(rest.skip(1) =~= source@.skip(i + 1));
            out.push(source[i]);
            i = i + 1;
            assert(out@ + replaced(source@.skip(i as int), token@, with@) =~= replaced(
                source@,
                token@,
                with@,
            ));
        }
    }
    assert(out@ =~= replaced(source@, token@, with@));
    out
}

/// `left` followed by `right`.
pub fn join(left: &str, right: &str) -> (r: String)
    ensures
        r@ == left@ + right@,
{
    let mut out = left.to_owned();
    out.append(right);
    out
}

} // verus!
