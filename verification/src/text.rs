//! Text measured the way a `String` measures itself: in bytes of its UTF-8
//! encoding.

use vstd::prelude::*;
use vstd::utf8::{char_is_scalar, encode_scalar, encode_utf8};

verus! {

/// The number of bytes that the UTF-8 encoding of `c` takes.
pub open spec fn char_width(c: char) -> nat {
    if (c as u32) < 0x80 {
        1
    } else if (c as u32) < 0x800 {
        2
    } else if (c as u32) < 0x10000 {
        3
    } else {
        4
    }
}

/// The length in bytes of the UTF-8 encoding of `s`.
pub open spec fn byte_width(s: Seq<char>) -> nat
    decreases s.len(),
{
    if s.len() == 0 {
        0
    } else {
        byte_width(s.drop_last()) + char_width(s.last())
    }
}

/// Every character of `s` is ASCII.
pub open spec fn all_ascii(s: Seq<char>) -> bool {
    forall|i: int| 0 <= i < s.len() ==> (#[trigger] s[i] as u32) < 0x80
}

/// `n` spaces.
pub open spec fn spaces(n: nat) -> Seq<char> {
    Seq::new(n, |i: int| ' ')
}

/// `s` followed by spaces until its encoding is `width` bytes long (unchanged
/// when it is already at least that long).
pub open spec fn pad_to_width(s: Seq<char>, width: nat) -> Seq<char> {
    if byte_width(s) < width {
        s + spaces((width - byte_width(s)) as nat)
    } else {
        s
    }
}

/// A prefix never takes more bytes than the whole.
pub proof fn lemma_byte_width_prefix(s: Seq<char>, i: int)
    requires
        0 <= i <= s.len(),
    ensures
        byte_width(s.take(i)) <= byte_width(s),
    decreases s.len(),
{
    if i < s.len() {
        assert(s.take(i) =~= s.drop_last().take(i));
        lemma_byte_width_prefix(s.drop_last(), i);
    } else {
        assert(s.take(i) =~= s);
    }
}

/// A string takes at least one byte per character, and exactly one per
/// character when it is all ASCII.
pub proof fn lemma_byte_width_bounds(s: Seq<char>)
    ensures
        byte_width(s) >= s.len(),
        byte_width(s) <= 4 * s.len(),
        all_ascii(s) ==> byte_width(s) == s.len(),
        byte_width(s) == s.len() ==> all_ascii(s),
    decreases s.len(),
{
    if s.len() > 0 {
        let t = s.drop_last();
        lemma_byte_width_bounds(t);
        if all_ascii(s) {
            assert(all_ascii(t)) by {
                assert forall|i: int| 0 <= i < t.len() implies (#[trigger] t[i] as u32) < 0x80 by {
                    assert(t[i] == s[i]);
                }
            }
            assert(s[s.len() - 1] as u32 == s.last() as u32);
        }
        if byte_width(s) == s.len() {
            assert forall|i: int| 0 <= i < s.len() implies (#[trigger] s[i] as u32) < 0x80 by {
                if i < s.len() - 1 {
                    assert(t[i] == s[i]);
                }
            }
        }
    }
}

/// Appending characters adds their widths.
pub proof fn lemma_byte_width_append(a: Seq<char>, b: Seq<char>)
    ensures
        byte_width(a + b) == byte_width(a) + byte_width(b),
    decreases b.len(),
{
    if b.len() > 0 {
        assert((a + b).drop_last() =~= a + b.drop_last());
        lemma_byte_width_append(a, b.drop_last());
    } else {
        assert(a + b =~= a);
    }
}

/// Spaces take one byte each.
pub proof fn lemma_spaces_width(n: nat)
    ensures
        byte_width(spaces(n)) == n,
        all_ascii(spaces(n)),
    decreases n,
{
    if n > 0 {
        assert(spaces(n).drop_last() =~= spaces((n - 1) as nat));
        lemma_spaces_width((n - 1) as nat);
    }
}

/// Padding reaches the requested width, or keeps a longer text as it is.
pub proof fn lemma_pad_width(s: Seq<char>, width: nat)
    ensures
        byte_width(pad_to_width(s, width)) == if byte_width(s) < width {
            width
        } else {
            byte_width(s)
        },
{
    if byte_width(s) < width {
        let n = (width - byte_width(s)) as nat;
        lemma_byte_width_append(s, spaces(n));
        lemma_spaces_width(n);
    }
}

/// A character's width is the length of its UTF-8 encoding.
pub proof fn lemma_char_width_is_encoded_length(c: char)
    ensures
        char_width(c) == encode_scalar(c as u32).len(),
{
    char_is_scalar(c);
}

/// The width of a text splits into its first character and the rest.
pub proof fn lemma_byte_width_first(s: Seq<char>)
    requires
        s.len() > 0,
    ensures
        byte_width(s) == char_width(s[0]) + byte_width(s.drop_first()),
    decreases s.len(),
{
    if s.len() > 1 {
        lemma_byte_width_first(s.drop_last());
        assert(s.drop_last().drop_first() =~= s.drop_first().drop_last());
        assert(s.drop_first().last() == s.last());
        assert(s.drop_last()[0] == s[0]);
        assert(byte_width(s.drop_first()) == byte_width(s.drop_first().drop_last())
            + char_width(s.drop_first().last()));
        assert(byte_width(s) == byte_width(s.drop_last()) + char_width(s.last()));
    } else {
        assert(s.drop_first().len() == 0);
        assert(s.drop_last().len() == 0);
        assert(byte_width(s.drop_first()) == 0);
        assert(byte_width(s.drop_last()) == 0);
        assert(s.last() == s[0]);
        assert(byte_width(s) == byte_width(s.drop_last()) + char_width(s.last()));
    }
}

/// The width of a text is the length of its UTF-8 encoding, which is what a
/// `String` reports as its length.
pub proof fn lemma_byte_width_is_encoded_length(s: Seq<char>)
    ensures
        byte_width(s) == encode_utf8(s).len(),
    decreases s.len(),
{
    if s.len() > 0 {
        lemma_byte_width_first(s);
        lemma_char_width_is_encoded_length(s[0]);
        lemma_byte_width_is_encoded_length(s.drop_first());
    }
}

/// Padding gives a text whose UTF-8 encoding is `width` bytes long, or keeps
/// a text already that long; only spaces are added.
pub proof fn lemma_pad_reaches_encoded_width(s: Seq<char>, width: nat)
    ensures
        encode_utf8(pad_to_width(s, width)).len() == if encode_utf8(s).len() < width {
            width
        } else {
            encode_utf8(s).len()
        },
        pad_to_width(s, width).take(s.len() as int) == s,
        forall|i: int|
            s.len() <= i < pad_to_width(s, width).len() ==> #[trigger] pad_to_width(s, width)[i]
                == ' ',
{
    lemma_byte_width_is_encoded_length(s);
    lemma_pad_width(s, width);
    lemma_byte_width_is_encoded_length(pad_to_width(s, width));
    assert(pad_to_width(s, width).take(s.len() as int) =~= s);
}

/// The length in bytes of the UTF-8 encoding of `s`.
pub fn utf8_len(s: &Vec<char>) -> (n: usize)
    requires
        byte_width(s@) <= usize::MAX,
    ensures
        n == byte_width(s@),
        n == encode_utf8(s@).len(),
{
    proof {
        lemma_byte_width_is_encoded_length(s@);
    }
    let mut n: usize = 0;
    let mut i: usize = 0;
    while i < s.len()
        invariant
            i <= s.len(),
            n == byte_width(s@.take(i as int)),
            byte_width(s@) <= usize::MAX,
        decreases s.len() - i,
    {
        proof {
            assert(s@.take(i + 1).drop_last() =~= s@.take(i as int));
            lemma_byte_width_prefix(s@, i + 1);
        }
        let c = s[i];
        let w: usize = if (c as u32) < 0x80 {
            1
        } else if (c as u32) < 0x800 {
            2
        } else if (c as u32) < 0x10000 {
            3
        } else {
            4
        };
        n = n + w;
        i = i + 1;
    }
    assert(s@.take(i as int) =~= s@);
    n
}

/// A copy of `s` followed by spaces until its encoding is `width` bytes long.
pub fn pad_chars(s: &Vec<char>, width: usize) -> (out: Vec<char>)
    requires
        byte_width(s@) <= usize::MAX,
    ensures
        out@ == pad_to_width(s@, width as nat),
        encode_utf8(s@).len() < width ==> out@ == s@ + spaces((width - encode_utf8(s@).len()) as nat),
        encode_utf8(s@).len() >= width ==> out@ == s@,
        encode_utf8(out@).len() == if encode_utf8(s@).len() < width {
            width as nat
        } else {
            encode_utf8(s@).len()
        },
{
    proof {
        lemma_byte_width_is_encoded_length(s@);
        lemma_pad_width(s@, width as nat);
        lemma_byte_width_is_encoded_length(pad_to_width(s@, width as nat));
    }
    let have = utf8_len(s);
    let mut out: Vec<char> = Vec::new();
    let mut i: usize = 0;
    while i < s.len()
        invariant
            i <= s.len(),
            out@ == s@.take(i as int),
        decreases s.len() - i,
    {
        out.push(s[i]);
        i = i + 1;
    }
    assert(out@ =~= s@);
    if have < width {
        let extra: usize = width - have;
        let mut k: usize = 0;
        while k < extra
            invariant
                k <= extra,
                out@ == s@ + spaces(k as nat),
            decreases extra - k,
        {
            out.push(' ');
            k = k + 1;
            assert(out@ =~= s@ + spaces(k as nat));
        }
    }
    out
}

/// `a` followed by `b`.
pub fn joined(a: &Vec<char>, b: &Vec<char>) -> (out: Vec<char>)
    ensures
        out@ == a@ + b@,
{
    let mut out: Vec<char> = Vec::new();
    let mut i: usize = 0;
    while i < a.len()
        invariant
            i <= a.len(),
            out@ == a@.take(i as int),
        decreases a.len() - i,
    {
        out.push(a[i]);
        i = i + 1;
    }
    assert(a@.take(i as int) =~= a@);
    assert(out@ =~= a@ + b@.take(0));
    let mut j: usize = 0;
    while j < b.len()
        invariant
            j <= b.len(),
            i == a.len(),
            out@ == a@ + b@.take(j as int),
        decreases b.len() - j,
    {
        out.push(b[j]);
        j = j + 1;
        assert(out@ =~= a@ + b@.take(j as int));
    }
    assert(b@.take(j as int) =~= b@);
    out
}

/// The characters of `s` as a `String`.
#[verifier::external_body]
pub(crate) fn chars_to_string(s: &Vec<char>) -> (out: String)
    ensures
        out@ == s@,
{
    s.iter().collect()
}

} // verus!
