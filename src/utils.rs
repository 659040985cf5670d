//! Small formatting helpers.
use vstd::prelude::*;
use crate::bindings::string_from_chars;

verus! {

/// Lower-case hex digit of `d` (`d < 16`).
pub open spec fn hex_digit(d: int) -> char {
    if d < 10 {
        crate::text::digit_char(d)
    } else if d == 10 {
        'a'
    } else if d == 11 {
        'b'
    } else if d == 12 {
        'c'
    } else if d == 13 {
        'd'
    } else if d == 14 {
        'e'
    } else {
        'f'
    }
}

/// Two lower-case hex digits per byte.
pub open spec fn hex(b: Seq<u8>) -> Seq<char>
    decreases b.len(),
{
    if b.len() == 0 {
        Seq::<char>::empty()
    } else {
        hex(b.drop_last()) + seq![hex_digit(b.last() as int / 16), hex_digit(b.last() as int % 16)]
    }
}

fn hex_char(d: u8) -> (c: char)
    requires
        d < 16,
    ensures
        c == hex_digit(d as int),
{
    if d < 10 {
        if d == 0 {
            '0'
        } else if d == 1 {
            '1'
        } else if d == 2 {
            '2'
        } else if d == 3 {
            '3'
        } else if d == 4 {
            '4'
        } else if d == 5 {
            '5'
        } else if d == 6 {
            '6'
        } else if d == 7 {
            '7'
        } else if d == 8 {
            '8'
        } else {
            '9'
        }
    } else if d == 10 {
        'a'
    } else if d == 11 {
        'b'
    } else if d == 12 {
        'c'
    } else if d == 13 {
        'd'
    } else if d == 14 {
        'e'
    } else {
        'f'
    }
}

/// Hex of the leading bytes of `data` that fit, two characters each, in a
/// string of `capacity` characters.
pub fn bytes_to_hex_string(data: &[u8], capacity: usize) -> (r: String)
    ensures
        ({
            let n = if data@.len() <= capacity / 2 {
                data@.len() as int
            } else {
                (capacity / 2) as int
            };
            r@ == hex(data@.subrange(0, n))
        }),
{
    let mut out: Vec<char> = Vec::new();
    let mut i: usize = 0;
    let n = if data.len() <= capacity / 2 {
        data.len()
    } else {
        capacity / 2
    };
    while i < n
        invariant
            i <= n <= data@.len(),
            out@ == hex(data@.subrange(0, i as int)),
        decreases n - i,
    {
        let b = data[i];
        out.push(hex_char(b / 16));
        out.push(hex_char(b % 16));
        let ghost next = data@.subrange(0, i as int + 1);
        assert(next.drop_last() =~= data@.subrange(0, i as int));
        i += 1;
        assert(out@ =~= hex(data@.subrange(0, i as int)));
    }
    string_from_chars(&out)
}

} // verus!
