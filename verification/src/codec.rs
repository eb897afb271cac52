use vstd::prelude::*;

use crate::error::GpioError;

verus! {

/// The decimal ASCII representation of `n`: its digits, most significant
/// first, with no sign, no leading zeros (except for `n == 0` itself) and
/// no terminator.  This is the payload format the export and unexport
/// entry points accept.
pub open spec fn dec_rep(n: nat) -> Seq<u8>
    decreases n,
{
    if n < 10 {
        seq![(0x30 + n) as u8]
    } else {
        dec_rep(n / 10).push((0x30 + n % 10) as u8)
    }
}

/// Appends the decimal ASCII representation of `n` to `out`.
pub fn push_decimal(n: u32, out: &mut Vec<u8>)
    ensures
        final(out)@ == old(out)@ + dec_rep(n as nat),
    decreases n,
{
    if n < 10 {
        out.push(0x30 + (n as u8));
        proof {
            assert(out@ =~= old(out)@ + dec_rep(n as nat));
        }
    } else {
        push_decimal(n / 10, out);
        out.push(0x30 + ((n % 10) as u8));
        proof {
            assert(out@ =~= old(out)@ + dec_rep(n as nat));
        }
    }
}

/// The decimal ASCII representation of `n` as a fresh byte vector.
pub fn decimal_bytes(n: u32) -> (r: Vec<u8>)
    ensures
        r@ == dec_rep(n as nat),
{
    let mut out: Vec<u8> = Vec::new();
    push_decimal(n, &mut out);
    proof {
        assert(out@ =~= dec_rep(n as nat));
    }
    out
}

/// Appends all of `tail` to `out`.
pub fn append_bytes(out: &mut Vec<u8>, tail: &Vec<u8>)
    ensures
        final(out)@ == old(out)@ + tail@,
{
    proof {
        assert(out@ =~= old(out)@ + tail@.subrange(0, 0));
    }
    let mut i: usize = 0;
    while i < tail.len()
        invariant
            i <= tail@.len(),
            out@ == old(out)@ + tail@.subrange(0, i as int),
        decreases tail@.len() - i,
    {
        out.push(tail[i]);
        i += 1;
        proof {
            assert(out@ =~= old(out)@ + tail@.subrange(0, i as int));
        }
    }
    proof {
        assert(tail@.subrange(0, tail@.len() as int) =~= tail@);
    }
}

/// A fresh byte vector holding the same bytes as `src`.
pub fn copy_bytes(src: &Vec<u8>) -> (r: Vec<u8>)
    ensures
        r@ == src@,
{
    let mut out: Vec<u8> = Vec::new();
    append_bytes(&mut out, src);
    proof {
        assert(out@ =~= src@);
    }
    out
}

/// Whether two byte vectors hold the same bytes.
pub fn bytes_eq(a: &Vec<u8>, b: &Vec<u8>) -> (r: bool)
    ensures
        r == (a@ == b@),
{
    if a.len() != b.len() {
        return false;
    }
    let mut i: usize = 0;
    while i < a.len()
        invariant
            i <= a@.len(),
            a@.len() == b@.len(),
            forall|j: int| 0 <= j < i ==> a@[j] == b@[j],
        decreases a@.len() - i,
    {
        if a[i] != b[i] {
            return false;
        }
        i += 1;
    }
    proof {
        assert(a@ =~= b@);
    }
    true
}

/// The name of the export entry point, `export`.
pub open spec fn export_path_spec() -> Seq<u8> {
    seq![('e' as u8), ('x' as u8), ('p' as u8), ('o' as u8), ('r' as u8), ('t' as u8)]
}

/// The name of the unexport entry point, `unexport`.
pub open spec fn unexport_path_spec() -> Seq<u8> {
    seq![('u' as u8), ('n' as u8), ('e' as u8), ('x' as u8), ('p' as u8), ('o' as u8), ('r' as u8), ('t' as u8)]
}

/// The `gpio` prefix of every per-line directory name.
pub open spec fn gpio_prefix_spec() -> Seq<u8> {
    seq![('g' as u8), ('p' as u8), ('i' as u8), ('o' as u8)]
}

/// The `/direction` tail of a per-line direction entry point.
pub open spec fn direction_suffix_spec() -> Seq<u8> {
    seq![('/' as u8), ('d' as u8), ('i' as u8), ('r' as u8), ('e' as u8), ('c' as u8), ('t' as u8), ('i' as u8), ('o' as u8), ('n' as u8)]
}

/// The `/value` tail of a per-line value entry point.
pub open spec fn value_suffix_spec() -> Seq<u8> {
    seq![('/' as u8), ('v' as u8), ('a' as u8), ('l' as u8), ('u' as u8), ('e' as u8)]
}

/// The direction entry point of the line whose decimal digits are
/// `digits`: `gpio<digits>/direction`.
pub open spec fn direction_path_for(digits: Seq<u8>) -> Seq<u8> {
    gpio_prefix_spec() + digits + direction_suffix_spec()
}

/// The value entry point of the line whose decimal digits are `digits`:
/// `gpio<digits>/value`.
pub open spec fn value_path_for(digits: Seq<u8>) -> Seq<u8> {
    gpio_prefix_spec() + digits + value_suffix_spec()
}

/// Builds the name of the export entry point.
pub fn export_path() -> (r: Vec<u8>)
    ensures
        r@ == export_path_spec(),
{
    let mut v: Vec<u8> = Vec::new();
    v.push(('e' as u8));
    v.push(('x' as u8));
    v.push(('p' as u8));
    v.push(('o' as u8));
    v.push(('r' as u8));
    v.push(('t' as u8));
    proof {
        assert(v@ =~= export_path_spec());
    }
    v
}

/// Builds the name of the unexport entry point.
pub fn unexport_path() -> (r: Vec<u8>)
    ensures
        r@ == unexport_path_spec(),
{
    let mut v: Vec<u8> = Vec::new();
    v.push(('u' as u8));
    v.push(('n' as u8));
    v.push(('e' as u8));
    v.push(('x' as u8));
    v.push(('p' as u8));
    v.push(('o' as u8));
    v.push(('r' as u8));
    v.push(('t' as u8));
    proof {
        assert(v@ =~= unexport_path_spec());
    }
    v
}

/// Builds `gpio<digits>/direction`.
pub fn direction_path_of(digits: &Vec<u8>) -> (r: Vec<u8>)
    ensures
        r@ == direction_path_for(digits@),
{
    let mut v: Vec<u8> = Vec::new();
    v.push(('g' as u8));
    v.push(('p' as u8));
    v.push(('i' as u8));
    v.push(('o' as u8));
    proof {
        assert(v@ =~= gpio_prefix_spec());
    }
    append_bytes(&mut v, digits);
    v.push(('/' as u8));
    v.push(('d' as u8));
    v.push(('i' as u8));
    v.push(('r' as u8));
    v.push(('e' as u8));
    v.push(('c' as u8));
    v.push(('t' as u8));
    v.push(('i' as u8));
    v.push(('o' as u8));
    v.push(('n' as u8));
    proof {
        assert(v@ =~= direction_path_for(digits@));
    }
    v
}

/// Builds `gpio<digits>/value`.
pub fn value_path_of(digits: &Vec<u8>) -> (r: Vec<u8>)
    ensures
        r@ == value_path_for(digits@),
{
    let mut v: Vec<u8> = Vec::new();
    v.push(('g' as u8));
    v.push(('p' as u8));
    v.push(('i' as u8));
    v.push(('o' as u8));
    proof {
        assert(v@ =~= gpio_prefix_spec());
    }
    append_bytes(&mut v, digits);
    v.push(('/' as u8));
    v.push(('v' as u8));
    v.push(('a' as u8));
    v.push(('l' as u8));
    v.push(('u' as u8));
    v.push(('e' as u8));
    proof {
        assert(v@ =~= value_path_for(digits@));
    }
    v
}

/// A decimal representation holds at least one digit.
pub proof fn lemma_dec_rep_len(n: nat)
    ensures
        dec_rep(n).len() >= 1,
    decreases n,
{
    if n >= 10 {
        lemma_dec_rep_len(n / 10);
    }
}

/// The per-line entry points are distinct from the export and unexport
/// sinks: their names are strictly longer.
pub proof fn lemma_line_paths_distinct(digits: Seq<u8>)
    requires
        digits.len() >= 1,
    ensures
        direction_path_for(digits) != export_path_spec(),
        direction_path_for(digits) != unexport_path_spec(),
        value_path_for(digits) != export_path_spec(),
        value_path_for(digits) != unexport_path_spec(),
{
    assert(direction_path_for(digits).len() == 14 + digits.len());
    assert(value_path_for(digits).len() == 10 + digits.len());
    assert(export_path_spec().len() == 6);
    assert(unexport_path_spec().len() == 8);
}

/// What a one-byte read from an input line's value entry point means:
/// ASCII `1` is high, ASCII `0` is low, and anything else — another byte,
/// or fewer than one byte available — is malformed.
pub open spec fn parse_value_spec(n_read: usize, byte: u8) -> Result<bool, GpioError> {
    if n_read == 1 && byte == ('1' as u8) {
        Ok(true)
    } else if n_read == 1 && byte == ('0' as u8) {
        Ok(false)
    } else {
        Err(GpioError::Malformed)
    }
}

/// Interprets a one-byte read from a value entry point: `n_read` bytes
/// were available and the first of them was `byte`.
pub fn parse_value(n_read: usize, byte: u8) -> (r: Result<bool, GpioError>)
    ensures
        r == parse_value_spec(n_read, byte),
{
    if n_read == 1 && byte == ('1' as u8) {
        Ok(true)
    } else if n_read == 1 && byte == ('0' as u8) {
        Ok(false)
    } else {
        Err(GpioError::Malformed)
    }
}

/// The direction a line is bound to immediately after export.
#[derive(Clone, Copy, Debug, PartialEq, Eq, Structural)]
pub enum Direction {
    /// The line is read through its value entry point.
    In,
    /// The line is driven through its value entry point.
    Out,
}

/// The ASCII token the direction entry point accepts: `in` or `out`.
pub open spec fn direction_token_spec(d: Direction) -> Seq<u8> {
    match d {
        Direction::In => seq![('i' as u8), ('n' as u8)],
        Direction::Out => seq![('o' as u8), ('u' as u8), ('t' as u8)],
    }
}

/// Builds the ASCII token for `d`.
pub fn direction_token(d: Direction) -> (r: Vec<u8>)
    ensures
        r@ == direction_token_spec(d),
{
    let mut v: Vec<u8> = Vec::new();
    match d {
        Direction::In => {
            v.push(('i' as u8));
            v.push(('n' as u8));
        }
        Direction::Out => {
            v.push(('o' as u8));
            v.push(('u' as u8));
            v.push(('t' as u8));
        }
    }
    proof {
        assert(v@ =~= direction_token_spec(d));
    }
    v
}

} // verus!
