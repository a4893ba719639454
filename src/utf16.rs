use vstd::prelude::*;

verus! {

/// The UTF-16 code units of one character: itself below 0x10000, else a
/// surrogate pair.
pub open spec fn char_units(c: char) -> Seq<u16> {
    let v = c as int;
    if v < 0x10000 {
        seq![v as u16]
    } else {
        let w = v - 0x10000;
        seq![(0xD800 + w / 0x400) as u16, (0xDC00 + w % 0x400) as u16]
    }
}

/// The UTF-16 encoding of a character sequence.
pub open spec fn utf16_of(s: Seq<char>) -> Seq<u16>
    decreases s.len(),
{
    if s.len() == 0 {
        seq![]
    } else {
        utf16_of(s.drop_last()) + char_units(s.last())
    }
}

/// The UTF-16 encoding of a character sequence, closed by one zero unit.
pub open spec fn utf16z_of(s: Seq<char>) -> Seq<u16> {
    utf16_of(s).push(0u16)
}

/// The bytes of a sequence of code units, each unit low byte first.
pub open spec fn le_bytes_of(u: Seq<u16>) -> Seq<u8> {
    Seq::new(
        2 * u.len(),
        |i: int|
            if i % 2 == 0 {
                (u[i / 2] % 256) as u8
            } else {
                (u[i / 2] / 256) as u8
            },
    )
}

proof fn lemma_utf16_of_prefix(s: Seq<char>, i: int)
    requires
        0 <= i < s.len(),
    ensures
        utf16_of(s.take(i + 1)) == utf16_of(s.take(i)) + char_units(s[i]),
{
    assert(s.take(i + 1).drop_last() =~= s.take(i));
}

/// Encodes the text as UTF-16.
pub fn utf16_units(s: &str) -> (r: Vec<u16>)
    ensures
        r@ == utf16_of(s@),
{
    let n = s.unicode_len();
    let mut r: Vec<u16> = Vec::new();
    let mut i: usize = 0;
    while i < n
        invariant
            n == s@.len(),
            i <= n,
            r@ == utf16_of(s@.take(i as int)),
        decreases n - i,
    {
        let c = s.get_char(i);
        let v = c as u32;
        proof {
            lemma_utf16_of_prefix(s@, i as int);
        }
        if v < 0x10000 {
            r.push(v as u16);
        } else {
            let w = v - 0x10000;
            r.push((0xD800 + w / 0x400) as u16);
            r.push((0xDC00 + w % 0x400) as u16);
        }
        i = i + 1;
    }
    assert(s@.take(n as int) =~= s@);
    r
}

/// Encodes the text as UTF-16 and appends one zero unit.
pub fn utf16z_units(s: &str) -> (r: Vec<u16>)
    ensures
        r@ == utf16z_of(s@),
{
    let mut r = utf16_units(s);
    r.push(0u16);
    r
}

/// Lays the code units out as bytes, each unit low byte first.
pub fn le_bytes(u: &Vec<u16>) -> (r: Vec<u8>)
    ensures
        r@ == le_bytes_of(u@),
{
    let mut r: Vec<u8> = Vec::new();
    let mut i: usize = 0;
    while i < u.len()
        invariant
            i <= u@.len(),
            r@.len() == 2 * i,
            forall|j: int| 0 <= j < 2 * i ==> #[trigger] r@[j] == le_bytes_of(u@)[j],
        decreases u.len() - i,
    {
        let x = u[i];
        r.push((x % 256) as u8);
        r.push((x / 256) as u8);
        i = i + 1;
    }
    assert(r@ =~= le_bytes_of(u@));
    r
}

/// The UTF-16 encoding of the text with its terminating zero unit, as bytes
/// in the order they stand in memory.
pub fn utf16z_le_bytes(s: &str) -> (r: Vec<u8>)
    ensures
        r@ == le_bytes_of(utf16z_of(s@)),
        r@.len() == 2 * (utf16_of(s@).len() + 1),
{
    let u = utf16z_units(s);
    le_bytes(&u)
}

} // verus!
