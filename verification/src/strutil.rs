//! Small verified helpers for comparing and building strings.

use vstd::prelude::*;
use vstd::string::StrSliceExecFns;
use vstd::string::StringExecFns;

verus! {

/// Relies on `String::push`: appends one character at the end of the string.
#[verifier::external_body]
pub fn push_char(s: &mut String, c: char)
    ensures
        final(s)@ == old(s)@ + seq![c],
{
    s.push(c);
}

/// Character-for-character equality of two string slices.
pub fn str_eq(a: &str, b: &str) -> (r: bool)
    ensures
        r == (a@ == b@),
{
    let alen = a.unicode_len();
    let blen = b.unicode_len();
    if alen != blen {
        proof {
            assert(a@ != b@) by {
                if a@ == b@ {
                    assert(a@.len() == b@.len());
                }
            }
        }
        return false;
    }
    let mut i: usize = 0;
    while i < alen
        invariant
            i <= alen,
            alen == a@.len(),
            alen == b@.len(),
            forall|j: int| 0 <= j < i ==> a@[j] == b@[j],
        decreases alen - i,
    {
        if a.get_char(i) != b.get_char(i) {
            return false;
        }
        i = i + 1;
    }
    proof {
        assert(a@ =~= b@);
    }
    true
}


/// The decimal digit for a value below ten.
pub open spec fn decimal_digit(n: int) -> char {
    if n == 0 {
        '0'
    } else if n == 1 {
        '1'
    } else if n == 2 {
        '2'
    } else if n == 3 {
        '3'
    } else if n == 4 {
        '4'
    } else if n == 5 {
        '5'
    } else if n == 6 {
        '6'
    } else if n == 7 {
        '7'
    } else if n == 8 {
        '8'
    } else {
        '9'
    }
}

/// The decimal text of a nonnegative number.
pub open spec fn decimal_of(n: int) -> Seq<char>
    decreases n,
{
    if n < 10 {
        seq![decimal_digit(n)]
    } else {
        decimal_of(n / 10) + seq![decimal_digit(n % 10)]
    }
}

fn decimal_digit_exec(n: usize) -> (r: char)
    requires
        n < 10,
    ensures
        r == decimal_digit(n as int),
{
    if n == 0 {
        '0'
    } else if n == 1 {
        '1'
    } else if n == 2 {
        '2'
    } else if n == 3 {
        '3'
    } else if n == 4 {
        '4'
    } else if n == 5 {
        '5'
    } else if n == 6 {
        '6'
    } else if n == 7 {
        '7'
    } else if n == 8 {
        '8'
    } else {
        '9'
    }
}

/// A number rendered as decimal text.
pub fn usize_to_string(n: usize) -> (r: String)
    ensures
        r@ == decimal_of(n as int),
    decreases n,
{
    if n < 10 {
        let mut s = String::new();
        push_char(&mut s, decimal_digit_exec(n));
        proof {
            assert(s@ =~= decimal_of(n as int));
        }
        s
    } else {
        let mut s = usize_to_string(n / 10);
        push_char(&mut s, decimal_digit_exec(n % 10));
        proof {
            assert(s@ =~= decimal_of(n as int));
        }
        s
    }
}

/// The path of a field inside one element of a named collection:
/// the collection's name, the element's index in brackets, a dot, and the
/// field's own path.
pub fn indexed_field(outer: &str, index: usize, inner: &str) -> (r: String)
    ensures
        r@ == outer@ + seq!['['] + decimal_of(index as int) + seq![']', '.'] + inner@,
{
    let mut s = String::from_str(outer);
    push_char(&mut s, '[');
    let digits = usize_to_string(index);
    s.append(digits.as_str());
    push_char(&mut s, ']');
    push_char(&mut s, '.');
    s.append(inner);
    proof {
        assert(s@ =~= outer@ + seq!['['] + decimal_of(index as int) + seq![']', '.'] + inner@);
    }
    s
}

/// The path of a field inside a named record: the record's field, a dot,
/// and the field's own path.
pub fn nested_field(outer: &str, inner: &str) -> (r: String)
    ensures
        r@ == outer@ + seq!['.'] + inner@,
{
    let mut s = String::from_str(outer);
    push_char(&mut s, '.');
    s.append(inner);
    proof {
        assert(s@ =~= outer@ + seq!['.'] + inner@);
    }
    s
}

} // verus!
