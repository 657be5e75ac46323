//! Byte-string helpers shared by the protocol components.

use rand::Rng;
use vstd::prelude::*;

verus! {

/// The byte strings of an optional byte vector, for stating contracts about
/// fallible operations.
pub open spec fn opt_bytes(o: Option<Vec<u8>>) -> Option<Seq<u8>> {
    match o {
        Some(v) => Some(v@),
        None => None,
    }
}

/// The byte strings held by a list of byte vectors.
pub open spec fn bytes_views(s: Seq<Vec<u8>>) -> Seq<Seq<u8>> {
    s.map_values(|v: Vec<u8>| v@)
}

/// A fresh copy of a byte string.
pub fn clone_bytes(x: &[u8]) -> (r: Vec<u8>)
    ensures
        r@ == x@,
{
    let mut r: Vec<u8> = Vec::new();
    let mut i: usize = 0;
    while i < x.len()
        invariant
            i <= x@.len(),
            r@ == x@.take(i as int),
        decreases x@.len() - i,
    {
        r.push(x[i]);
        i += 1;
    }
    proof {
        assert(x@.take(x@.len() as int) =~= x@);
    }
    r
}

/// The concatenation of two byte strings.
pub fn concat_bytes(a: &[u8], b: &[u8]) -> (r: Vec<u8>)
    ensures
        r@ == a@ + b@,
{
    let mut r = clone_bytes(a);
    let mut i: usize = 0;
    while i < b.len()
        invariant
            i <= b@.len(),
            r@ == a@ + b@.take(i as int),
        decreases b@.len() - i,
    {
        proof {
            assert(a@ + b@.take(i + 1) =~= (a@ + b@.take(i as int)).push(b@[i as int]));
        }
        r.push(b[i]);
        i += 1;
    }
    proof {
        assert(a@ + b@.take(b@.len() as int) =~= a@ + b@);
    }
    r
}

/// A fresh copy of a list of byte strings.
pub fn clone_bytes_list(x: &Vec<Vec<u8>>) -> (r: Vec<Vec<u8>>)
    ensures
        bytes_views(r@) == bytes_views(x@),
{
    let mut r: Vec<Vec<u8>> = Vec::new();
    let mut i: usize = 0;
    while i < x.len()
        invariant
            i <= x@.len(),
            r@.len() == i,
            forall|j: int| 0 <= j < i ==> r@[j]@ == x@[j]@,
        decreases x@.len() - i,
    {
        r.push(clone_bytes(&x[i]));
        i += 1;
    }
    proof {
        assert(bytes_views(r@) =~= bytes_views(x@));
    }
    r
}

/// The bytes of `x` from position `from` (inclusive) to `to` (exclusive).
pub fn sub_bytes(x: &[u8], from: usize, to: usize) -> (r: Vec<u8>)
    requires
        from <= to <= x@.len(),
    ensures
        r@ == x@.subrange(from as int, to as int),
{
    let mut r: Vec<u8> = Vec::new();
    let mut i: usize = from;
    while i < to
        invariant
            from <= i <= to <= x@.len(),
            r@.len() == i - from,
            forall|j: int| 0 <= j < i - from ==> r@[j] == x@[from + j],
        decreases to - i,
    {
        r.push(x[i]);
        i += 1;
    }
    proof {
        assert(r@ =~= x@.subrange(from as int, to as int));
    }
    r
}

/// Relies on `String::push`: appends the character to the end of the
/// string.
pub assume_specification[ String::push ](s: &mut String, c: char)
    ensures
        final(s)@ == old(s)@.push(c),
;

/// The lowercase hexadecimal digit for a value below sixteen.
pub open spec fn hex_digit_char(d: int) -> char {
    if d == 0 {
        '0'
    } else if d == 1 {
        '1'
    } else if d == 2 {
        '2'
    } else if d == 3 {
        '3'
    } else if d == 4 {
        '4'
    } else if d == 5 {
        '5'
    } else if d == 6 {
        '6'
    } else if d == 7 {
        '7'
    } else if d == 8 {
        '8'
    } else if d == 9 {
        '9'
    } else if d == 10 {
        'a'
    } else if d == 11 {
        'b'
    } else if d == 12 {
        'c'
    } else if d == 13 {
        'd'
    } else if d == 14 {
        'e'
    } else {
        'f'
    }
}

/// The lowercase hexadecimal spelling of a byte string: two digits per
/// byte, high digit first.
pub open spec fn hex_of(bs: Seq<u8>) -> Seq<char> {
    Seq::new(
        2 * bs.len(),
        |i: int|
            if i % 2 == 0 {
                hex_digit_char(bs[i / 2] as int / 16)
            } else {
                hex_digit_char(bs[i / 2] as int % 16)
            },
    )
}

fn hex_digit(d: u8) -> (c: char)
    requires
        d < 16,
    ensures
        c == hex_digit_char(d as int),
{
    match d {
        0 => '0',
        1 => '1',
        2 => '2',
        3 => '3',
        4 => '4',
        5 => '5',
        6 => '6',
        7 => '7',
        8 => '8',
        9 => '9',
        10 => 'a',
        11 => 'b',
        12 => 'c',
        13 => 'd',
        14 => 'e',
        _ => 'f',
    }
}

/// The lowercase hexadecimal spelling of `arr`.
pub fn to_hex(arr: &Vec<u8>) -> (s: String)
    ensures
        s@ == hex_of(arr@),
{
    let mut s = String::new();
    let mut i: usize = 0;
    while i < arr.len()
        invariant
            i <= arr@.len(),
            s@.len() == 2 * i,
            forall|t: int| 0 <= t < 2 * i ==> s@[t] == hex_of(arr@)[t],
        decreases arr@.len() - i,
    {
        s.push(hex_digit(arr[i] / 16));
        s.push(hex_digit(arr[i] % 16));
        i += 1;
    }
    proof {
        assert(s@ =~= hex_of(arr@));
    }
    s
}

/// Relies on `rand::thread_rng` and `Rng::try_fill`: fills the buffer with
/// bytes from the operating system's entropy source, keeping its length.
/// The one panic left inside is on an operating-system entropy failure, an
/// environmental fault no input can bring about.
#[verifier::external_body]
pub fn get_random_key32() -> (r: Vec<u8>)
    ensures
        r@.len() == 32,
{
    let mut x = vec![0u8; 32];
    rand::thread_rng().try_fill(&mut x[..]).expect("Error while generating random number!");
    x
}

/// Relies on `rand::thread_rng` and `Rng::try_fill`: fills the buffer with
/// bytes from the operating system's entropy source, keeping its length.
/// The one panic left inside is on an operating-system entropy failure, an
/// environmental fault no input can bring about.
#[verifier::external_body]
pub fn get_random_key88() -> (r: Vec<u8>)
    ensures
        r@.len() == 88,
{
    let mut x = vec![0u8; 88];
    rand::thread_rng().try_fill(&mut x[..]).expect("Error while generating random number!");
    x
}

/// Relies on `rand::thread_rng` and `Rng::try_fill`: fills the buffer with
/// bytes from the operating system's entropy source, keeping its length.
/// The one panic left inside is on an operating-system entropy failure, an
/// environmental fault no input can bring about.
#[verifier::external_body]
pub fn get_nonce() -> (r: Vec<u8>)
    ensures
        r@.len() == 12,
{
    let mut x = vec![0u8; 12];
    rand::thread_rng().try_fill(&mut x[..]).expect("Error while generating random number!");
    x
}

/// Bytewise exclusive-or of the common prefix of `x` and `y`.
pub open spec fn xor_bytes(x: Seq<u8>, y: Seq<u8>) -> Seq<u8> {
    Seq::new(
        if x.len() <= y.len() {
            x.len()
        } else {
            y.len()
        },
        |i: int| x[i] ^ y[i],
    )
}

/// Bytewise exclusive-or; the result is as long as the shorter input.
pub fn xor(x: &[u8], y: &[u8]) -> (z: Vec<u8>)
    ensures
        z@ == xor_bytes(x@, y@),
{
    let n: usize = if x.len() <= y.len() {
        x.len()
    } else {
        y.len()
    };
    let mut z: Vec<u8> = Vec::new();
    let mut i: usize = 0;
    while i < n
        invariant
            n <= x@.len(),
            n <= y@.len(),
            i <= n,
            z@.len() == i,
            forall|j: int| 0 <= j < i ==> z@[j] == (x@[j] ^ y@[j]),
        decreases n - i,
    {
        z.push(x[i] ^ y[i]);
        i += 1;
    }
    proof {
        assert(z@ =~= xor_bytes(x@, y@));
    }
    z
}

/// True exactly when `v1` and `v2` hold the same bytes in the same order.
pub fn check_equal(v1: &[u8], v2: &[u8]) -> (r: bool)
    ensures
        r == (v1@ == v2@),
{
    if v1.len() != v2.len() {
        proof {
            assert(v1@.len() != v2@.len());
        }
        return false;
    }
    let n: usize = v1.len();
    let mut i: usize = 0;
    while i < n
        invariant
            n == v1@.len(),
            n == v2@.len(),
            i <= n,
            forall|j: int| 0 <= j < i ==> v1@[j] == v2@[j],
        decreases n - i,
    {
        if v1[i] != v2[i] {
            return false;
        }
        i += 1;
    }
    proof {
        assert(v1@ =~= v2@);
    }
    true
}

} // verus!
