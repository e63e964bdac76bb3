//! Fixed-width integer encodings and the hexadecimal rendering of bytes.

use vstd::prelude::*;

verus! {

/// The value of eight bytes read as a big-endian unsigned integer.
/// Meaningful for sequences of length eight.
pub open spec fn be_value(b: Seq<u8>) -> int {
    b[0] * 0x100_0000_0000_0000 + b[1] * 0x1_0000_0000_0000 + b[2] * 0x100_0000_0000 + b[3]
        * 0x1_0000_0000 + b[4] * 0x100_0000 + b[5] * 0x1_0000 + b[6] * 0x100 + b[7]
}

/// The byte of weight `256^(7 - i)` in `n`.
pub open spec fn be_byte(n: u64, i: int) -> u8 {
    if i == 0 {
        ((n / 0x100_0000_0000_0000) % 256) as u8
    } else if i == 1 {
        ((n / 0x1_0000_0000_0000) % 256) as u8
    } else if i == 2 {
        ((n / 0x100_0000_0000) % 256) as u8
    } else if i == 3 {
        ((n / 0x1_0000_0000) % 256) as u8
    } else if i == 4 {
        ((n / 0x100_0000) % 256) as u8
    } else if i == 5 {
        ((n / 0x1_0000) % 256) as u8
    } else if i == 6 {
        ((n / 0x100) % 256) as u8
    } else {
        (n % 256) as u8
    }
}

/// The eight bytes of `n`, most significant first.
pub open spec fn be_bytes(n: u64) -> Seq<u8> {
    Seq::new(8, |i: int| be_byte(n, i))
}

/// Splits an unsigned 64-bit integer into eight bytes, most significant first.
pub fn int2bytes(n: &u64) -> (result: [u8; 8])
    ensures
        result@ == be_bytes(*n),
        be_value(result@) == *n,
{
    let v: u64 = *n;
    let b0: u8 = ((v >> 56) & 0xff) as u8;
    let b1: u8 = ((v >> 48) & 0xff) as u8;
    let b2: u8 = ((v >> 40) & 0xff) as u8;
    let b3: u8 = ((v >> 32) & 0xff) as u8;
    let b4: u8 = ((v >> 24) & 0xff) as u8;
    let b5: u8 = ((v >> 16) & 0xff) as u8;
    let b6: u8 = ((v >> 8) & 0xff) as u8;
    let b7: u8 = (v & 0xff) as u8;
    let result: [u8; 8] = [b0, b1, b2, b3, b4, b5, b6, b7];
    proof {
        assert((v >> 56) & 0xff == (v / 0x100_0000_0000_0000) % 256) by (bit_vector);
        assert((v >> 48) & 0xff == (v / 0x1_0000_0000_0000) % 256) by (bit_vector);
        assert((v >> 40) & 0xff == (v / 0x100_0000_0000) % 256) by (bit_vector);
        assert((v >> 32) & 0xff == (v / 0x1_0000_0000) % 256) by (bit_vector);
        assert((v >> 24) & 0xff == (v / 0x100_0000) % 256) by (bit_vector);
        assert((v >> 16) & 0xff == (v / 0x1_0000) % 256) by (bit_vector);
        assert((v >> 8) & 0xff == (v / 0x100) % 256) by (bit_vector);
        assert(v & 0xff == v % 256) by (bit_vector);
        assert(result@ =~= be_bytes(v));
        encode_then_decode(v);
    }
    result
}

/// Combines eight bytes, most significant first, into one unsigned 64-bit
/// integer.
pub fn bytes2int(b: &[u8; 8]) -> (result: u64)
    ensures
        result == be_value(b@),
        be_bytes(result) == b@,
{
    let mut result: u64 = 0;
    let mut i: usize = 0;
    while i < 8
        invariant
            i <= 8,
            i == 0 ==> result == 0,
            i == 1 ==> result == b[0],
            i == 2 ==> result == b[0] * 0x100 + b[1],
            i == 3 ==> result == b[0] * 0x1_0000 + b[1] * 0x100 + b[2],
            i == 4 ==> result == b[0] * 0x100_0000 + b[1] * 0x1_0000 + b[2] * 0x100 + b[3],
            i == 5 ==> result == b[0] * 0x1_0000_0000 + b[1] * 0x100_0000 + b[2] * 0x1_0000 + b[3]
                * 0x100 + b[4],
            i == 6 ==> result == b[0] * 0x100_0000_0000 + b[1] * 0x1_0000_0000 + b[2] * 0x100_0000
                + b[3] * 0x1_0000 + b[4] * 0x100 + b[5],
            i == 7 ==> result == b[0] * 0x1_0000_0000_0000 + b[1] * 0x100_0000_0000 + b[2]
                * 0x1_0000_0000 + b[3] * 0x100_0000 + b[4] * 0x1_0000 + b[5] * 0x100 + b[6],
            i == 8 ==> result == be_value(b@),
        decreases 8 - i,
    {
        result = result * 256 + b[i] as u64;
        i += 1;
    }
    proof {
        decode_then_encode(b@);
    }
    result
}

/// Encoding an integer and reading the bytes back gives the integer.
pub proof fn encode_then_decode(n: u64)
    ensures
        be_bytes(n).len() == 8,
        be_value(be_bytes(n)) == n,
{
    assert(((n / 0x100_0000_0000_0000) % 256) * 0x100_0000_0000_0000 + ((n / 0x1_0000_0000_0000)
        % 256) * 0x1_0000_0000_0000 + ((n / 0x100_0000_0000) % 256) * 0x100_0000_0000 + ((n
        / 0x1_0000_0000) % 256) * 0x1_0000_0000 + ((n / 0x100_0000) % 256) * 0x100_0000 + ((n
        / 0x1_0000) % 256) * 0x1_0000 + ((n / 0x100) % 256) * 0x100 + (n % 256) == n)
        by (bit_vector);
}

/// Reading eight bytes as an integer and encoding it gives the bytes back.
pub proof fn decode_then_encode(b: Seq<u8>)
    requires
        b.len() == 8,
    ensures
        0 <= be_value(b) <= u64::MAX,
        be_bytes(be_value(b) as u64) == b,
{
    let b0: u64 = b[0] as u64;
    let b1: u64 = b[1] as u64;
    let b2: u64 = b[2] as u64;
    let b3: u64 = b[3] as u64;
    let b4: u64 = b[4] as u64;
    let b5: u64 = b[5] as u64;
    let b6: u64 = b[6] as u64;
    let b7: u64 = b[7] as u64;
    let v: u64 = be_value(b) as u64;
    assert(v == b0 * 0x100_0000_0000_0000 + b1 * 0x1_0000_0000_0000 + b2 * 0x100_0000_0000 + b3
        * 0x1_0000_0000 + b4 * 0x100_0000 + b5 * 0x1_0000 + b6 * 0x100 + b7);
    assert((v / 0x100_0000_0000_0000) % 256 == b0 && (v / 0x1_0000_0000_0000) % 256 == b1 && (v
        / 0x100_0000_0000) % 256 == b2 && (v / 0x1_0000_0000) % 256 == b3 && (v / 0x100_0000) % 256
        == b4 && (v / 0x1_0000) % 256 == b5 && (v / 0x100) % 256 == b6 && v % 256 == b7)
        by (bit_vector)
        requires
            b0 < 256 && b1 < 256 && b2 < 256 && b3 < 256 && b4 < 256 && b5 < 256 && b6 < 256 && b7
                < 256,
            v == b0 * 0x100_0000_0000_0000 + b1 * 0x1_0000_0000_0000 + b2 * 0x100_0000_0000 + b3
                * 0x1_0000_0000 + b4 * 0x100_0000 + b5 * 0x1_0000 + b6 * 0x100 + b7,
    ;
    assert(be_bytes(v) =~= b);
}

/// The lower-case hexadecimal digit of a value below sixteen.
pub open spec fn hex_digit(d: u8) -> char {
    if d == 0 {
        '0'
    } else if d == 1 {
        '1'
    } else if d == 2 {
        '2'
    } else if d == 3 {
        '3'
    } else if d == 4 {
        '4'
    } else if d == 5 {
        '5'
    } else if d == 6 {
        '6'
    } else if d == 7 {
        '7'
    } else if d == 8 {
        '8'
    } else if d == 9 {
        '9'
    } else if d == 10 {
        'a'
    } else if d == 11 {
        'b'
    } else if d == 12 {
        'c'
    } else if d == 13 {
        'd'
    } else if d == 14 {
        'e'
    } else {
        'f'
    }
}

/// The rendering of a byte sequence: two hexadecimal digits for each byte,
/// and one space between neighbours.
pub open spec fn hex_text(v: Seq<u8>) -> Seq<char>
    decreases v.len(),
{
    if v.len() == 0 {
        Seq::empty()
    } else if v.len() == 1 {
        seq![hex_digit(v[0] / 16), hex_digit(v[0] % 16)]
    } else {
        hex_text(v.drop_last()) + seq![' ', hex_digit(v.last() / 16), hex_digit(v.last() % 16)]
    }
}

fn digit_char(d: u8) -> (c: char)
    requires
        d < 16,
    ensures
        c == hex_digit(d),
{
    match d {
        0 => '0',
        1 => '1',
        2 => '2',
        3 => '3',
        4 => '4',
        5 => '5',
        6 => '6',
        7 => '7',
        8 => '8',
        9 => '9',
        10 => 'a',
        11 => 'b',
        12 => 'c',
        13 => 'd',
        14 => 'e',
        _ => 'f',
    }
}

/// `String::push` appends the given character to the end of the string.
pub assume_specification[ String::push ](s: &mut String, ch: char)
    ensures
        final(s)@ == old(s)@.push(ch),
;

/// Renders bytes as hexadecimal text: two lower-case digits for each byte and
/// a single space between neighbouring bytes.
pub fn bytes2hex(v: &Vec<u8>) -> (result: String)
    ensures
        result@ == hex_text(v@),
{
    let mut result: String = String::new();
    let mut x: usize = 0;
    while x < v.len()
        invariant
            x <= v.len(),
            result@ == hex_text(v@.take(x as int)),
        decreases v.len() - x,
    {
        proof {
            assert(v@.take(x + 1).drop_last() =~= v@.take(x as int));
        }
        if x > 0 {
            result.push(' ');
        }
        result.push(digit_char(v[x] / 16));
        result.push(digit_char(v[x] % 16));
        proof {
            assert(result@ =~= hex_text(v@.take(x + 1)));
        }
        x += 1;
    }
    proof {
        assert(v@.take(v.len() as int) =~= v@);
    }
    result
}

/// Tells whether two byte strings are the same, byte for byte.
pub fn same_bytes(a: &Vec<u8>, b: &Vec<u8>) -> (same: bool)
    ensures
        same == (a@ == b@),
{
    if a.len() != b.len() {
        return false;
    }
    let mut x: usize = 0;
    while x < a.len()
        invariant
            x <= a@.len(),
            a@.len() == b@.len(),
            forall|i: int| 0 <= i < x ==> a@[i] == b@[i],
        decreases a@.len() - x,
    {
        if a[x] != b[x] {
            return false;
        }
        x += 1;
    }
    proof {
        assert(a@ =~= b@);
    }
    true
}

/// Copies the bytes of `src` from `from` up to, not including, `to`.
pub fn copy_range(src: &Vec<u8>, from: usize, to: usize) -> (out: Vec<u8>)
    requires
        from <= to <= src@.len(),
    ensures
        out@ == src@.subrange(from as int, to as int),
{
    let mut out: Vec<u8> = Vec::new();
    let mut x: usize = from;
    while x < to
        invariant
            from <= x <= to <= src@.len(),
            out@ == src@.subrange(from as int, x as int),
        decreases to - x,
    {
        out.push(src[x]);
        proof {
            assert(out@ =~= src@.subrange(from as int, x + 1));
        }
        x += 1;
    }
    out
}

/// Takes the eight bytes of `src` that start at `from`.
pub fn take_eight(src: &Vec<u8>, from: usize) -> (out: [u8; 8])
    requires
        from + 8 <= src@.len(),
    ensures
        out@ == src@.subrange(from as int, from + 8),
{
    let len: usize = src.len();
    assert(from + 8 <= len);
    let out: [u8; 8] = [
        src[from],
        src[from + 1],
        src[from + 2],
        src[from + 3],
        src[from + 4],
        src[from + 5],
        src[from + 6],
        src[from + 7],
    ];
    proof {
        assert(out@ =~= src@.subrange(from as int, from + 8));
    }
    out
}

/// Tells whether two groups of eight bytes are the same.
pub fn same_eight(a: &[u8; 8], b: &[u8; 8]) -> (same: bool)
    ensures
        same == (a@ == b@),
{
    let same: bool = a[0] == b[0] && a[1] == b[1] && a[2] == b[2] && a[3] == b[3] && a[4] == b[4]
        && a[5] == b[5] && a[6] == b[6] && a[7] == b[7];
    proof {
        if same {
            assert(a@ =~= b@);
        }
    }
    same
}

} // verus!
