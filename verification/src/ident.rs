use vstd::prelude::*;
use vstd::string::StrSliceExecFns;
use vstd::string::StringExecFns;

use crate::errors::Error;

verus! {

/// A container name is usable as a single path component: it never contains
/// a path separator.
pub open spec fn valid_name(s: Seq<char>) -> bool {
    !s.contains('/')
}

/// Rejects a container name that contains `/`. Pure: no side effect can
/// precede the check.
pub fn check_name(name: &str) -> (r: Result<(), Error>)
    ensures
        r is Ok <==> valid_name(name@),
        r is Err ==> r == Err::<(), Error>(Error::InvalidInput),
{
    let len = name.unicode_len();
    let mut i: usize = 0;
    while i < len
        invariant
            i <= len,
            len == name@.len(),
            forall|j: int| 0 <= j < i ==> name@[j] != '/',
        decreases len - i,
    {
        if name.get_char(i) == '/' {
            assert(name@.contains('/'));
            return Err(Error::InvalidInput);
        }
        i = i + 1;
    }
    assert(forall|j: int| 0 <= j < name@.len() ==> name@[j] != '/');
    Ok(())
}

/// The power 16^k, for the eight nibble positions of a 32-bit identifier.
pub open spec fn pow16(k: int) -> u32 {
    if k <= 0 {
        1
    } else if k == 1 {
        16
    } else if k == 2 {
        256
    } else if k == 3 {
        4096
    } else if k == 4 {
        65536
    } else if k == 5 {
        1048576
    } else if k == 6 {
        16777216
    } else {
        268435456
    }
}

/// The lower-case hexadecimal digit for a value below 16.
pub open spec fn hex_char(d: u32) -> char {
    if d == 0 {
        '0'
    } else if d == 1 {
        '1'
    } else if d == 2 {
        '2'
    } else if d == 3 {
        '3'
    } else if d == 4 {
        '4'
    } else if d == 5 {
        '5'
    } else if d == 6 {
        '6'
    } else if d == 7 {
        '7'
    } else if d == 8 {
        '8'
    } else if d == 9 {
        '9'
    } else if d == 10 {
        'a'
    } else if d == 11 {
        'b'
    } else if d == 12 {
        'c'
    } else if d == 13 {
        'd'
    } else if d == 14 {
        'e'
    } else {
        'f'
    }
}

/// The eight-digit lower-case hexadecimal rendering of a 32-bit integer,
/// most significant nibble first.
pub open spec fn hex8(n: u32) -> Seq<char> {
    Seq::new(8, |i: int| hex_char((n / pow16(7 - i)) % 16))
}

fn pow16_exec(k: usize) -> (r: u32)
    requires
        k < 8,
    ensures
        r == pow16(k as int),
{
    if k == 0 {
        1
    } else if k == 1 {
        16
    } else if k == 2 {
        256
    } else if k == 3 {
        4096
    } else if k == 4 {
        65536
    } else if k == 5 {
        1048576
    } else if k == 6 {
        16777216
    } else {
        268435456
    }
}

fn hex_digit_str(d: u32) -> (r: &'static str)
    requires
        d < 16,
    ensures
        r@ =~= seq![hex_char(d)],
{
    proof {
        reveal_strlit("0");
        reveal_strlit("1");
        reveal_strlit("2");
        reveal_strlit("3");
        reveal_strlit("4");
        reveal_strlit("5");
        reveal_strlit("6");
        reveal_strlit("7");
        reveal_strlit("8");
        reveal_strlit("9");
        reveal_strlit("a");
        reveal_strlit("b");
        reveal_strlit("c");
        reveal_strlit("d");
        reveal_strlit("e");
        reveal_strlit("f");
    }
    if d == 0 {
        "0"
    } else if d == 1 {
        "1"
    } else if d == 2 {
        "2"
    } else if d == 3 {
        "3"
    } else if d == 4 {
        "4"
    } else if d == 5 {
        "5"
    } else if d == 6 {
        "6"
    } else if d == 7 {
        "7"
    } else if d == 8 {
        "8"
    } else if d == 9 {
        "9"
    } else if d == 10 {
        "a"
    } else if d == 11 {
        "b"
    } else if d == 12 {
        "c"
    } else if d == 13 {
        "d"
    } else if d == 14 {
        "e"
    } else {
        "f"
    }
}

/// Renders a 32-bit integer as its eight-digit hexadecimal identifier.
pub fn format_id(n: u32) -> (r: String)
    ensures
        r@ == hex8(n),
{
    let mut r = String::new();
    let mut i: usize = 0;
    while i < 8
        invariant
            i <= 8,
            r@ =~= hex8(n).take(i as int),
        decreases 8 - i,
    {
        let p = pow16_exec(7 - i);
        let d = (n / p) % 16;
        r.append(hex_digit_str(d));
        proof {
            assert(hex8(n)[i as int] == hex_char((n / pow16(7 - i as int)) % 16));
            assert(hex8(n).take(i + 1 as int) =~= hex8(n).take(i as int) + seq![
                hex8(n)[i as int],
            ]);
        }
        i = i + 1;
    }
    proof {
        assert(hex8(n).take(8) =~= hex8(n));
    }
    r
}

/// Relies on rand::random: an arbitrary drawing of a value; nothing is
/// promised of which value comes back.
pub assume_specification<T>[ rand::random::<T> ]() -> (r: T)
    where
        rand::distr::StandardUniform: rand::distr::Distribution<T>,
;

/// Draws a fresh candidate container identifier: eight hexadecimal digits
/// from a uniformly random 32-bit integer. Uniqueness is not promised here;
/// the allocator enforces it by exclusive directory creation.
pub fn random_id() -> (r: String)
    ensures
        exists|n: u32| r@ == hex8(n),
{
    let n: u32 = rand::random::<u32>();
    let r = format_id(n);
    proof {
        assert(r@ == hex8(n));
    }
    r
}

} // verus!
