//! Splitting a long string into width-limited fragments.

use vstd::prelude::*;

verus! {

/// Columns kept free beside each wrapped fragment.
pub const WRAP_MARGIN: u16 = 3;

/// The most characters in one fragment of a string wrapped to `width`.
pub open spec fn fragment_len(width: u16) -> int {
    if width > WRAP_MARGIN {
        width - WRAP_MARGIN
    } else {
        1
    }
}

/// The character sequences held by a sequence of strings.
pub open spec fn texts(v: Seq<String>) -> Seq<Seq<char>> {
    v.map_values(|x: String| x@)
}

/// The fragments concatenated in order.
pub open spec fn joined(fs: Seq<Seq<char>>) -> Seq<char>
    decreases fs.len(),
{
    if fs.len() == 0 {
        Seq::empty()
    } else {
        fs[0] + joined(fs.drop_first())
    }
}

/// `s` cut into pieces of `k` characters, the last one holding what is left.
pub open spec fn pieces(s: Seq<char>, k: int) -> Seq<Seq<char>>
    decreases s.len(),
{
    if s.len() <= k || k <= 0 {
        seq![s]
    } else {
        seq![s.take(k)] + pieces(s.skip(k), k)
    }
}

/// The fragments in which `s` is drawn in a column `width` wide: `s` whole
/// when it is shorter than the column, else pieces of `fragment_len(width)`.
pub open spec fn wrapped(s: Seq<char>, width: u16) -> Seq<Seq<char>> {
    if s.len() < width {
        seq![s]
    } else {
        pieces(s, fragment_len(width))
    }
}

proof fn lemma_pieces_step(s: Seq<char>, k: int, pos: int)
    requires
        k >= 1,
        0 <= pos,
        pos + k < s.len(),
    ensures
        pieces(s.skip(pos), k) == seq![s.subrange(pos, pos + k)] + pieces(s.skip(pos + k), k),
{
    assert(s.skip(pos).take(k) =~= s.subrange(pos, pos + k));
    assert(s.skip(pos).skip(k) =~= s.skip(pos + k));
}

/// Splits `s` into the fragments in which it is drawn in a column `width` wide.
pub fn wrap(s: &str, width: u16) -> (r: Vec<String>)
    ensures
        texts(r@) == wrapped(s@, width),
{
    let n = s.unicode_len();
    let k: usize = if width > WRAP_MARGIN { (width - WRAP_MARGIN) as usize } else { 1 };
    let mut r: Vec<String> = Vec::new();
    if n < width as usize {
        r.push(String::from_str(s));
        assert(texts(r@) =~= seq![s@]);
        return r;
    }
    let mut pos: usize = 0;
    assert(s@.skip(0) =~= s@);
    while n - pos > k
        invariant
            n == s@.len(),
            pos <= n,
            k == fragment_len(width),
            k >= 1,
            texts(r@) + pieces(s@.skip(pos as int), k as int) == pieces(s@, k as int),
        decreases n - pos,
    {
        proof {
            lemma_pieces_step(s@, k as int, pos as int);
        }
        let piece = String::from_str(s.substring_char(pos, pos + k));
        let ghost before = texts(r@);
        r.push(piece);
        assert(texts(r@) =~= before.push(s@.subrange(pos as int, pos + k)));
        pos = pos + k;
        assert(texts(r@) + pieces(s@.skip(pos as int), k as int) =~= before + (seq![
            s@.subrange(pos - k, pos as int),
        ] + pieces(s@.skip(pos as int), k as int)));
    }
    let ghost before = texts(r@);
    r.push(String::from_str(s.substring_char(pos, n)));
    assert(s@.subrange(pos as int, n as int) =~= s@.skip(pos as int));
    assert(texts(r@) =~= before + pieces(s@.skip(pos as int), k as int));
    r
}

proof fn lemma_pieces_rejoin(s: Seq<char>, k: int)
    requires
        k >= 1,
    ensures
        joined(pieces(s, k)) == s,
        forall|j: int| 0 <= j < pieces(s, k).len() ==> (#[trigger] pieces(s, k)[j]).len() <= k,
    decreases s.len(),
{
    if s.len() <= k {
        assert(seq![s].drop_first() =~= Seq::<Seq<char>>::empty());
        assert(joined(Seq::<Seq<char>>::empty()) == Seq::<char>::empty());
        assert(s + Seq::<char>::empty() =~= s);
        assert(joined(seq![s]) == s);
    } else {
        lemma_pieces_rejoin(s.skip(k), k);
        let fs = seq![s.take(k)] + pieces(s.skip(k), k);
        assert(fs.drop_first() =~= pieces(s.skip(k), k));
        assert(s.take(k) + s.skip(k) =~= s);
        assert(joined(fs) == fs[0] + joined(fs.drop_first()));
        assert forall|j: int| 0 <= j < fs.len() implies (#[trigger] fs[j]).len() <= k by {
            if j > 0 {
                assert(fs[j] == pieces(s.skip(k), k)[j - 1]);
            }
        }
    }
}

/// Wrapping never loses, adds or reorders a character: the fragments joined in
/// order are the string itself. There is always at least one fragment, and
/// when the string is not shorter than the column no fragment is longer than
/// `fragment_len(width)`.
pub proof fn lemma_wrap_rejoins(s: Seq<char>, width: u16)
    ensures
        joined(wrapped(s, width)) == s,
        wrapped(s, width).len() >= 1,
        s.len() >= width ==> forall|j: int|
            0 <= j < wrapped(s, width).len() ==> (#[trigger] wrapped(s, width)[j]).len() <= fragment_len(width),
{
    if s.len() < width {
        assert(seq![s].drop_first() =~= Seq::<Seq<char>>::empty());
        assert(joined(Seq::<Seq<char>>::empty()) == Seq::<char>::empty());
        assert(s + Seq::<char>::empty() =~= s);
        assert(joined(seq![s]) == s);
    } else {
        lemma_pieces_rejoin(s, fragment_len(width));
        reveal_with_fuel(pieces, 1);
    }
}

} // verus!
