//! Names of per-stage and per-row tensors: a prefix, the decimal digits of
//! an index, and a suffix.
use vstd::prelude::*;
use vstd::string::*;

verus! {

/// The decimal digit character of `d`.
pub open spec fn digit_char(d: int) -> char {
    if d == 0 {
        '0'
    } else if d == 1 {
        '1'
    } else if d == 2 {
        '2'
    } else if d == 3 {
        '3'
    } else if d == 4 {
        '4'
    } else if d == 5 {
        '5'
    } else if d == 6 {
        '6'
    } else if d == 7 {
        '7'
    } else if d == 8 {
        '8'
    } else {
        '9'
    }
}

/// The decimal digits of `n`, most significant first, with no leading
/// zero.
pub open spec fn decimal(n: nat) -> Seq<char>
    decreases n,
{
    if n < 10 {
        seq![digit_char(n as int)]
    } else {
        decimal(n / 10).push(digit_char((n % 10) as int))
    }
}

/// `prefix`, then the decimal digits of `index`, then `suffix`.
pub open spec fn indexed_name(prefix: Seq<char>, index: nat, suffix: Seq<char>) -> Seq<char> {
    prefix + decimal(index) + suffix
}

fn digit(d: u64) -> (c: char)
    requires
        d < 10,
    ensures
        c == digit_char(d as int),
{
    if d == 0 {
        '0'
    } else if d == 1 {
        '1'
    } else if d == 2 {
        '2'
    } else if d == 3 {
        '3'
    } else if d == 4 {
        '4'
    } else if d == 5 {
        '5'
    } else if d == 6 {
        '6'
    } else if d == 7 {
        '7'
    } else if d == 8 {
        '8'
    } else {
        '9'
    }
}

/// The decimal digits of `n`.
pub fn decimal_digits(n: u64) -> (digits: Vec<char>)
    ensures
        digits@ == decimal(n as nat),
    decreases n,
{
    if n < 10 {
        let mut digits: Vec<char> = Vec::new();
        digits.push(digit(n));
        assert(digits@ =~= decimal(n as nat));
        digits
    } else {
        let mut digits = decimal_digits(n / 10);
        digits.push(digit(n % 10));
        digits
    }
}

/// Whether `name` is `prefix`, then `digits`, then `suffix`.
pub fn name_is(name: &str, prefix: &str, digits: &Vec<char>, suffix: &str) -> (matches: bool)
    ensures
        matches == (name@ == prefix@ + digits@ + suffix@),
{
    let ghost expected = prefix@ + digits@ + suffix@;
    let total = name.unicode_len();
    let head = prefix.unicode_len();
    let middle = digits.len();
    let tail = suffix.unicode_len();
    if head > total || middle > total - head || tail != total - head - middle {
        return false;
    }
    let mut index: usize = 0;
    while index < head
        invariant
            index <= head,
            head == prefix@.len(),
            total == name@.len(),
            head + middle + tail == total,
            middle == digits@.len(),
            tail == suffix@.len(),
            expected == prefix@ + digits@ + suffix@,
            forall|i: int| 0 <= i < index ==> name@[i] == expected[i],
        decreases head - index,
    {
        if name.get_char(index) != prefix.get_char(index) {
            assert(name@[index as int] != expected[index as int]);
            return false;
        }
        index = index + 1;
    }
    let mut index: usize = 0;
    while index < middle
        invariant
            index <= middle,
            head == prefix@.len(),
            total == name@.len(),
            head + middle + tail == total,
            middle == digits@.len(),
            tail == suffix@.len(),
            expected == prefix@ + digits@ + suffix@,
            forall|i: int| 0 <= i < head + index ==> name@[i] == expected[i],
        decreases middle - index,
    {
        if name.get_char(head + index) != digits[index] {
            assert(name@[head + index] != expected[head + index]);
            return false;
        }
        index = index + 1;
    }
    let mut index: usize = 0;
    while index < tail
        invariant
            index <= tail,
            head == prefix@.len(),
            total == name@.len(),
            head + middle + tail == total,
            middle == digits@.len(),
            tail == suffix@.len(),
            expected == prefix@ + digits@ + suffix@,
            forall|i: int| 0 <= i < head + middle + index ==> name@[i] == expected[i],
        decreases tail - index,
    {
        if name.get_char(head + middle + index) != suffix.get_char(index) {
            assert(name@[head + middle + index] != expected[head + middle + index]);
            return false;
        }
        index = index + 1;
    }
    assert(name@ =~= expected);
    true
}

} // verus!
