use vstd::prelude::*;
use vstd::utf8::encode_utf8;
use vstd::string::StringSliceAdditionalSpecFns;

verus! {

/// The decimal digits of a number, in ASCII, without leading zeros (as `to_string` writes it).
pub open spec fn decimal_text(n: nat) -> Seq<u8>
    decreases n,
{
    if n < 10 {
        seq![(48 + n) as u8]
    } else {
        decimal_text(n / 10) + seq![(48 + n % 10) as u8]
    }
}

/// The decimal text of a number.
pub fn u64_text(n: u64) -> (r: Vec<u8>)
    ensures
        r@ == decimal_text(n as nat),
    decreases n,
{
    if n < 10 {
        let mut v: Vec<u8> = Vec::new();
        v.push((48 + n) as u8);
        proof {
            assert(v@ =~= seq![(48 + n) as u8]);
        }
        v
    } else {
        let mut v = u64_text(n / 10);
        v.push((48 + n % 10) as u8);
        v
    }
}

/// The replacement of every occurrence of `key` in `s` by `val`, scanning from the left; an
/// empty key leaves `s` unchanged.
pub open spec fn replace_all(s: Seq<u8>, key: Seq<u8>, val: Seq<u8>) -> Seq<u8>
    decreases s.len(),
{
    if key.len() == 0 || s.len() < key.len() {
        s
    } else if s.subrange(0, key.len() as int) == key {
        val + replace_all(s.subrange(key.len() as int, s.len() as int), key, val)
    } else {
        seq![s[0]] + replace_all(s.subrange(1, s.len() as int), key, val)
    }
}

/// The decimal text of a number is made of digits only.
pub proof fn lemma_decimal_text_digits(n: nat)
    ensures
        decimal_text(n).len() >= 1,
        forall|i: int| 0 <= i < decimal_text(n).len() ==> 48 <= #[trigger] decimal_text(n)[i] <= 57,
    decreases n,
{
    if n >= 10 {
        lemma_decimal_text_digits(n / 10);
        let a = decimal_text(n / 10);
        let b = seq![(48 + n % 10) as u8];
        assert forall|i: int| 0 <= i < (a + b).len() implies 48 <= #[trigger] (a + b)[i] <= 57 by {
            if i < a.len() {
                assert((a + b)[i] == a[i]);
            } else {
                assert((a + b)[i] == b[i - a.len()]);
            }
        }
    }
}

/// A key is replaced in a text that is only that key by the value alone.
pub proof fn lemma_replace_whole_key(key: Seq<u8>, val: Seq<u8>)
    requires
        key.len() > 0,
    ensures
        replace_all(key, key, val) == val,
{
    assert(key.subrange(0, key.len() as int) =~= key);
    assert(key.subrange(key.len() as int, key.len() as int) =~= Seq::<u8>::empty());
    assert(replace_all(Seq::<u8>::empty(), key, val) == Seq::<u8>::empty());
    assert(val + Seq::<u8>::empty() =~= val);
}

/// A text of digits holds no key that starts with something else than a digit: replacing the
/// key leaves it as it is.
pub proof fn lemma_replace_absent_in_digits(s: Seq<u8>, key: Seq<u8>, val: Seq<u8>)
    requires
        key.len() > 0,
        !(48 <= key[0] <= 57),
        forall|i: int| 0 <= i < s.len() ==> 48 <= #[trigger] s[i] <= 57,
    ensures
        replace_all(s, key, val) == s,
    decreases s.len(),
{
    if key.len() == 0 || s.len() < key.len() {
    } else {
        assert(s.subrange(0, key.len() as int)[0] == s[0]);
        assert(s.subrange(0, key.len() as int) != key);
        let rest = s.subrange(1, s.len() as int);
        assert forall|i: int| 0 <= i < rest.len() implies 48 <= #[trigger] rest[i] <= 57 by {
            assert(rest[i] == s[i + 1]);
        }
        lemma_replace_absent_in_digits(rest, key, val);
        assert(seq![s[0]] + rest =~= s);
    }
}

/// The key occurs in `s` at position `i`.
fn occurs_at(s: &Vec<u8>, i: usize, key: &[u8]) -> (r: bool)
    requires
        i + key@.len() <= s.len(),
    ensures
        r == (s@.subrange(i as int, i + key@.len()) == key@),
{
    let mut j: usize = 0;
    while j < key.len()
        invariant
            i + key@.len() <= s.len(),
            j <= key@.len(),
            forall|k: int| 0 <= k < j ==> s@[i + k] == key@[k],
        decreases key@.len() - j,
    {
        if s[i + j] != key[j] {
            proof {
                assert(s@.subrange(i as int, i + key@.len())[j as int] != key@[j as int]);
            }
            return false;
        }
        j = j + 1;
    }
    proof {
        assert(s@.subrange(i as int, i + key@.len()) =~= key@);
    }
    true
}

/// Replaces every occurrence of `key` in `s` by `val`.
pub fn replace(s: &Vec<u8>, key: &[u8], val: &Vec<u8>) -> (r: Vec<u8>)
    ensures
        r@ == replace_all(s@, key@, val@),
{
    let mut out: Vec<u8> = Vec::new();
    let mut i: usize = 0;
    if key.len() == 0 {
        proof {
            assert(replace_all(s@, key@, val@) == s@);
        }
        let mut k: usize = 0;
        while k < s.len()
            invariant
                k <= s.len(),
                out@ =~= s@.subrange(0, k as int),
            decreases s.len() - k,
        {
            out.push(s[k]);
            k = k + 1;
        }
        proof {
            assert(s@.subrange(0, s.len() as int) =~= s@);
        }
        return out;
    }
    proof {
        assert(s@.subrange(0, s.len() as int) =~= s@);
    }
    while i < s.len()
        invariant
            key@.len() > 0,
            i <= s.len(),
            out@ + replace_all(s@.subrange(i as int, s.len() as int), key@, val@) == replace_all(
                s@,
                key@,
                val@,
            ),
        decreases s.len() - i,
    {
        let rest = Ghost(s@.subrange(i as int, s.len() as int));
        if key.len() <= s.len() - i && occurs_at(s, i, key) {
            proof {
                assert(rest@.subrange(0, key@.len() as int) =~= s@.subrange(
                    i as int,
                    i + key@.len(),
                ));
                assert(rest@.subrange(key@.len() as int, rest@.len() as int) =~= s@.subrange(
                    i + key@.len(),
                    s.len() as int,
                ));
                assert(replace_all(rest@, key@, val@) == val@ + replace_all(
                    s@.subrange(i + key@.len(), s.len() as int),
                    key@,
                    val@,
                ));
            }
            let mut k: usize = 0;
            let ghost out0 = out@;
            while k < val.len()
                invariant
                    k <= val.len(),
                    out@ =~= out0 + val@.subrange(0, k as int),
                decreases val.len() - k,
            {
                out.push(val[k]);
                k = k + 1;
            }
            proof {
                assert(val@.subrange(0, val.len() as int) =~= val@);
                assert(out@ + replace_all(s@.subrange(i + key@.len(), s.len() as int), key@, val@)
                    =~= out0 + (val@ + replace_all(
                    s@.subrange(i + key@.len(), s.len() as int),
                    key@,
                    val@,
                )));
            }
            i = i + key.len();
        } else {
            proof {
                if i + key@.len() <= s.len() {
                    assert(rest@.subrange(0, key@.len() as int) =~= s@.subrange(
                        i as int,
                        i + key@.len(),
                    ));
                }
                assert(rest@.subrange(1, rest@.len() as int) =~= s@.subrange(
                    i + 1,
                    s.len() as int,
                ));
                assert(replace_all(rest@, key@, val@) == seq![s@[i as int]] + replace_all(
                    s@.subrange(i + 1, s.len() as int),
                    key@,
                    val@,
                ));
            }
            let ghost out0 = out@;
            out.push(s[i]);
            proof {
                assert(out@ + replace_all(s@.subrange(i + 1, s.len() as int), key@, val@)
                    =~= out0 + (seq![s@[i as int]] + replace_all(
                    s@.subrange(i + 1, s.len() as int),
                    key@,
                    val@,
                )));
            }
            i = i + 1;
        }
    }
    proof {
        assert(s@.subrange(i as int, s.len() as int) =~= Seq::<u8>::empty());
        assert(replace_all(Seq::<u8>::empty(), key@, val@) == Seq::<u8>::empty());
        assert(out@ + Seq::<u8>::empty() =~= out@);
    }
    out
}

/// The eight bytes of a number, most significant first.
pub open spec fn be_bytes(n: u64) -> Seq<u8> {
    seq![
        (n / 0x100_0000_0000_0000) as u8,
        (n / 0x1_0000_0000_0000 % 256) as u8,
        (n / 0x100_0000_0000 % 256) as u8,
        (n / 0x1_0000_0000 % 256) as u8,
        (n / 0x100_0000 % 256) as u8,
        (n / 0x1_0000 % 256) as u8,
        (n / 0x100 % 256) as u8,
        (n % 256) as u8,
    ]
}

/// The number that bytes stand for, most significant first.
pub open spec fn be_value(s: Seq<u8>) -> nat
    decreases s.len(),
{
    if s.len() == 0 {
        0
    } else {
        be_value(s.drop_last()) * 256 + s.last() as nat
    }
}

/// The eight bytes of a number stand for that number, most significant first: `be_bytes` is
/// the big-endian encoding, and no other number has the same bytes.
pub proof fn lemma_be_bytes_value(n: u64)
    ensures
        be_bytes(n).len() == 8,
        be_value(be_bytes(n)) == n,
{
    let b = be_bytes(n);
    let b0 = (n / 0x100_0000_0000_0000) as u8;
    let b1 = (n / 0x1_0000_0000_0000 % 256) as u8;
    let b2 = (n / 0x100_0000_0000 % 256) as u8;
    let b3 = (n / 0x1_0000_0000 % 256) as u8;
    let b4 = (n / 0x100_0000 % 256) as u8;
    let b5 = (n / 0x1_0000 % 256) as u8;
    let b6 = (n / 0x100 % 256) as u8;
    let b7 = (n % 256) as u8;
    assert(((((((n / 0x100_0000_0000_0000 * 256 + n / 0x1_0000_0000_0000 % 256) * 256 + n / 0x100_0000_0000 % 256)
        * 256 + n / 0x1_0000_0000 % 256) * 256 + n / 0x100_0000 % 256) * 256 + n / 0x1_0000 % 256) * 256 + n / 0x100
        % 256) * 256 + n % 256 == n) by (bit_vector);
    assert(b0 as int == n / 0x100_0000_0000_0000);
    assert(b.drop_last().drop_last().drop_last().drop_last().drop_last().drop_last().drop_last().drop_last()
        =~= Seq::<u8>::empty());
    reveal_with_fuel(be_value, 9);
    assert(b.drop_last() =~= seq![b0, b1, b2, b3, b4, b5, b6]);
    assert(b.drop_last().drop_last() =~= seq![b0, b1, b2, b3, b4, b5]);
    assert(b.drop_last().drop_last().drop_last() =~= seq![b0, b1, b2, b3, b4]);
    assert(b.drop_last().drop_last().drop_last().drop_last() =~= seq![b0, b1, b2, b3]);
    assert(b.drop_last().drop_last().drop_last().drop_last().drop_last() =~= seq![b0, b1, b2]);
    assert(b.drop_last().drop_last().drop_last().drop_last().drop_last().drop_last() =~= seq![b0, b1]);
    assert(b.drop_last().drop_last().drop_last().drop_last().drop_last().drop_last().drop_last() =~= seq![b0]);
}

/// The eight bytes of a number, most significant first (`u64::to_be_bytes`).
pub fn u64_be_bytes(n: u64) -> (r: Vec<u8>)
    ensures
        r@ == be_bytes(n),
{
    let mut v: Vec<u8> = Vec::new();
    v.push((n / 0x100_0000_0000_0000) as u8);
    v.push((n / 0x1_0000_0000_0000 % 256) as u8);
    v.push((n / 0x100_0000_0000 % 256) as u8);
    v.push((n / 0x1_0000_0000 % 256) as u8);
    v.push((n / 0x100_0000 % 256) as u8);
    v.push((n / 0x1_0000 % 256) as u8);
    v.push((n / 0x100 % 256) as u8);
    v.push((n % 256) as u8);
    proof {
        assert(v@ =~= be_bytes(n));
    }
    v
}

/// The bytes of a text (`str::as_bytes`, copied).
pub fn text_bytes(s: &str) -> (r: Vec<u8>)
    ensures
        r@ == s.spec_bytes(),
{
    vstd::slice::slice_to_vec(s.as_bytes())
}

/// The bytes of a string: its UTF-8 encoding.
pub fn string_bytes(s: &String) -> (r: Vec<u8>)
    ensures
        r@ == encode_utf8(s@),
{
    text_bytes(s.as_str())
}

/// The four bytes of a number, most significant first.
pub open spec fn be_bytes_u32(n: u32) -> Seq<u8> {
    seq![
        (n / 0x100_0000) as u8,
        (n / 0x1_0000 % 256) as u8,
        (n / 0x100 % 256) as u8,
        (n % 256) as u8,
    ]
}

/// The four bytes of a number, most significant first (`u32::to_be_bytes`).
pub fn u32_be_bytes(n: u32) -> (r: Vec<u8>)
    ensures
        r@ == be_bytes_u32(n),
{
    let mut v: Vec<u8> = Vec::new();
    v.push((n / 0x100_0000) as u8);
    v.push((n / 0x1_0000 % 256) as u8);
    v.push((n / 0x100 % 256) as u8);
    v.push((n % 256) as u8);
    proof {
        assert(v@ =~= be_bytes_u32(n));
    }
    v
}

} // verus!
