//! Text helpers: character extraction, lexicographic order, substring
//! search, audio-file extension matching, and case folding.

use vstd::prelude::*;

verus! {

/// The characters of `s` as a vector, in order.
pub fn chars_of(s: &str) -> (v: Vec<char>)
    ensures
        v@ == s@,
{
    let mut v: Vec<char> = Vec::new();
    for c in it: s.chars()
        invariant
            it.seq() == s@,
            v@ == it.seq().take(it.index() as int),
    {
        proof {
            assert(it.seq().take(it.index() + 1)
                =~= it.seq().take(it.index() as int).push(it.seq()[it.index() as int]));
        }
        v.push(c);
    }
    proof {
        assert(v@ =~= s@);
    }
    v
}

/// Rebuilds a string from its characters.
pub fn string_of_chars(v: &Vec<char>) -> (s: String)
    ensures
        s@ == v@,
{
    let mut s = String::new();
    let mut i: usize = 0;
    while i < v.len()
        invariant
            i <= v@.len(),
            s@ == v@.take(i as int),
        decreases v@.len() - i,
    {
        push_char(&mut s, v[i]);
        proof {
            assert(v@.take(i + 1) =~= v@.take(i as int).push(v@[i as int]));
        }
        i += 1;
    }
    proof {
        assert(v@.take(v@.len() as int) =~= v@);
    }
    s
}

/// Relies on String::push: appends exactly the one character.
#[verifier::external_body]
pub fn push_char(s: &mut String, c: char)
    ensures
        final(s)@ == old(s)@.push(c),
{
    s.push(c);
}

/// The lowercase equivalent of a text, as str::to_lowercase computes it.
pub uninterp spec fn lower_of(s: Seq<char>) -> Seq<char>;

/// Relies on str::to_lowercase: the lowercase equivalent of the text, a
/// function of the characters alone; empty exactly for the empty text.
#[verifier::external_body]
pub fn lowercase(s: &str) -> (r: String)
    ensures
        r@ == lower_of(s@),
        s@.len() == 0 <==> r@.len() == 0,
{
    s.to_lowercase()
}

/// Lexicographic order on character sequences, by code point.
pub open spec fn lex_le(a: Seq<char>, b: Seq<char>) -> bool
    decreases a.len(),
{
    if a.len() == 0 {
        true
    } else if b.len() == 0 {
        false
    } else if (a[0] as u32) < (b[0] as u32) {
        true
    } else if (a[0] as u32) > (b[0] as u32) {
        false
    } else {
        lex_le(a.drop_first(), b.drop_first())
    }
}

/// Strict part of `lex_le`.
pub open spec fn lex_lt(a: Seq<char>, b: Seq<char>) -> bool {
    lex_le(a, b) && a != b
}

/// Characters with the same code point are the same character.
proof fn lemma_char_eq(c1: char, c2: char)
    requires
        c1 as u32 == c2 as u32,
    ensures
        c1 == c2,
{
    vstd::utf8::char_u32_cast(c1, c1 as u32);
    vstd::utf8::char_u32_cast(c2, c1 as u32);
}

/// `lex_le` holds of every text and itself.
pub proof fn lemma_lex_le_reflexive(a: Seq<char>)
    ensures
        lex_le(a, a),
    decreases a.len(),
{
    if a.len() != 0 {
        lemma_lex_le_reflexive(a.drop_first());
    }
}

/// `lex_le` relates every pair of texts one way or the other.
pub proof fn lemma_lex_le_total(a: Seq<char>, b: Seq<char>)
    ensures
        lex_le(a, b) || lex_le(b, a),
    decreases a.len(),
{
    if a.len() != 0 && b.len() != 0 && (a[0] as u32) == (b[0] as u32) {
        lemma_lex_le_total(a.drop_first(), b.drop_first());
    }
}

/// `lex_le` both ways only for equal texts.
pub proof fn lemma_lex_le_antisymmetric(a: Seq<char>, b: Seq<char>)
    requires
        lex_le(a, b),
        lex_le(b, a),
    ensures
        a == b,
    decreases a.len(),
{
    if a.len() == 0 {
        assert(b.len() == 0);
        assert(a =~= b);
    } else {
        assert(b.len() != 0);
        assert((a[0] as u32) == (b[0] as u32));
        lemma_char_eq(a[0], b[0]);
        lemma_lex_le_antisymmetric(a.drop_first(), b.drop_first());
        assert(a =~= b) by {
            assert(a.drop_first() =~= b.drop_first());
            assert(a.len() == b.len());
            assert(forall|i: int| 1 <= i < a.len() ==> a[i] == a.drop_first()[i - 1]);
            assert(forall|i: int| 1 <= i < b.len() ==> b[i] == b.drop_first()[i - 1]);
        }
    }
}

/// `lex_le` is transitive.
pub proof fn lemma_lex_le_transitive(a: Seq<char>, b: Seq<char>, c: Seq<char>)
    requires
        lex_le(a, b),
        lex_le(b, c),
    ensures
        lex_le(a, c),
    decreases a.len(),
{
    if a.len() != 0 {
        assert(b.len() != 0);
        assert(c.len() != 0);
        if (a[0] as u32) == (b[0] as u32) && (b[0] as u32) == (c[0] as u32) {
            lemma_lex_le_transitive(a.drop_first(), b.drop_first(), c.drop_first());
        }
    }
}

/// Dropping an equal prefix does not change the order of two texts.
proof fn lemma_lex_le_common_prefix(a: Seq<char>, b: Seq<char>, i: int)
    requires
        0 <= i <= a.len(),
        i <= b.len(),
        forall|j: int| 0 <= j < i ==> a[j] == b[j],
    ensures
        lex_le(a, b) == lex_le(a.skip(i), b.skip(i)),
    decreases i,
{
    if i == 0 {
        assert(a.skip(0) =~= a);
        assert(b.skip(0) =~= b);
    } else {
        assert(a.len() != 0 && b.len() != 0);
        assert(a[0] == b[0]);
        assert(lex_le(a, b) == lex_le(a.drop_first(), b.drop_first()));
        assert(a.drop_first() =~= a.skip(1));
        assert(b.drop_first() =~= b.skip(1));
        lemma_lex_le_common_prefix(a.skip(1), b.skip(1), i - 1);
        assert(a.skip(1).skip(i - 1) =~= a.skip(i));
        assert(b.skip(1).skip(i - 1) =~= b.skip(i));
    }
}

/// Decides `lex_le` on two character vectors.
pub fn chars_le(a: &Vec<char>, b: &Vec<char>) -> (r: bool)
    ensures
        r == lex_le(a@, b@),
{
    let mut i: usize = 0;
    while i < a.len() && i < b.len()
        invariant
            i <= a@.len(),
            i <= b@.len(),
            forall|j: int| 0 <= j < i ==> a@[j] == b@[j],
        decreases a@.len() - i,
    {
        let ca = a[i];
        let cb = b[i];
        if (ca as u32) < (cb as u32) {
            proof {
                lemma_lex_le_common_prefix(a@, b@, i as int);
                assert(a@.skip(i as int)[0] == ca);
                assert(b@.skip(i as int)[0] == cb);
            }
            return true;
        }
        if (ca as u32) > (cb as u32) {
            proof {
                lemma_lex_le_common_prefix(a@, b@, i as int);
                assert(a@.skip(i as int)[0] == ca);
                assert(b@.skip(i as int)[0] == cb);
            }
            return false;
        }
        proof {
            lemma_char_eq(ca, cb);
        }
        i += 1;
    }
    proof {
        lemma_lex_le_common_prefix(a@, b@, i as int);
        if i == a@.len() {
            assert(a@.skip(i as int).len() == 0);
        } else {
            assert(b@.skip(i as int).len() == 0);
            assert(a@.skip(i as int).len() != 0);
        }
    }
    a.len() <= b.len()
}

/// Whether two character vectors hold the same text.
pub fn chars_eq(a: &Vec<char>, b: &Vec<char>) -> (r: bool)
    ensures
        r == (a@ == b@),
{
    if a.len() != b.len() {
        return false;
    }
    let mut i: usize = 0;
    while i < a.len()
        invariant
            a@.len() == b@.len(),
            i <= a@.len(),
            forall|j: int| 0 <= j < i ==> a@[j] == b@[j],
        decreases a@.len() - i,
    {
        if a[i] != b[i] {
            return false;
        }
        i += 1;
    }
    proof {
        assert(a@ =~= b@);
    }
    true
}

/// Whether `needle` occurs contiguously inside `hay`.
pub open spec fn contains_text(hay: Seq<char>, needle: Seq<char>) -> bool {
    exists|k: int|
        0 <= k && k + needle.len() <= hay.len() && #[trigger] hay.subrange(k, k + needle.len())
            == needle
}

/// Decides `contains_text` on two character vectors.
pub fn chars_contain(hay: &Vec<char>, needle: &Vec<char>) -> (r: bool)
    ensures
        r == contains_text(hay@, needle@),
{
    if needle.len() > hay.len() {
        return false;
    }
    let hlen = hay.len();
    let nlen = needle.len();
    let bound = hlen - nlen;
    let mut k: usize = 0;
    while k <= bound
        invariant
            hay@.len() == hlen,
            needle@.len() == nlen,
            nlen <= hlen,
            bound == hlen - nlen,
            k <= bound + 1,
            forall|j: int|
                0 <= j < k ==> #[trigger] hay@.subrange(j, j + needle@.len()) != needle@,
        decreases bound + 1 - k,
    {
        let mut m: usize = 0;
        let mut matches_here = true;
        while m < nlen
            invariant
                hay@.len() == hlen,
                needle@.len() == nlen,
                k + nlen <= hlen,
                m <= nlen,
                matches_here ==> forall|j: int| 0 <= j < m ==> hay@[k + j] == needle@[j],
                !matches_here ==> hay@.subrange(k as int, k + needle@.len()) != needle@,
            decreases nlen - m,
        {
            if hay[k + m] != needle[m] {
                proof {
                    assert(hay@.subrange(k as int, k + needle@.len())[m as int] == hay@[k + m]);
                }
                matches_here = false;
                m = nlen;
            } else {
                m += 1;
            }
        }
        if matches_here {
            proof {
                assert(hay@.subrange(k as int, k + needle@.len()) =~= needle@);
            }
            return true;
        }
        proof {
            if needle@.len() == 0 {
                assert(hay@.subrange(k as int, k as int) =~= needle@);
            }
        }
        k += 1;
    }
    proof {
        assert forall|j: int| 0 <= j && j + needle@.len() <= hay@.len() implies #[trigger] hay@.subrange(
            j,
            j + needle@.len(),
        ) != needle@ by {
            assert(j < k);
        }
    }
    false
}

/// Index of the last occurrence of `c` in `s`, or -1 when absent.
pub open spec fn last_index_of(s: Seq<char>, c: char) -> int
    decreases s.len(),
{
    if s.len() == 0 {
        -1
    } else if s[s.len() - 1] == c {
        s.len() - 1
    } else {
        last_index_of(s.drop_last(), c)
    }
}

/// What `last_index_of` means: the position it names holds `c`, and nothing
/// after it does; -1 means `c` is absent.
pub proof fn lemma_last_index_of(s: Seq<char>, c: char)
    ensures
        -1 <= last_index_of(s, c) < s.len(),
        last_index_of(s, c) == -1 ==> forall|i: int| 0 <= i < s.len() ==> s[i] != c,
        last_index_of(s, c) >= 0 ==> s[last_index_of(s, c)] == c,
        forall|i: int| last_index_of(s, c) < i < s.len() ==> s[i] != c,
    decreases s.len(),
{
    if s.len() != 0 && s[s.len() - 1] != c {
        lemma_last_index_of(s.drop_last(), c);
        assert(forall|i: int| 0 <= i < s.len() - 1 ==> s[i] == s.drop_last()[i]);
    }
}

/// Position of the last occurrence of `c` in `v`, if any.
pub fn find_last(v: &Vec<char>, c: char) -> (r: Option<usize>)
    ensures
        r matches Some(i) ==> i < v@.len() && last_index_of(v@, c) == i,
        r is None ==> last_index_of(v@, c) == -1,
{
    let mut j = v.len();
    while j > 0
        invariant
            j <= v@.len(),
            forall|i: int| j <= i < v@.len() ==> v@[i] != c,
        decreases j,
    {
        j -= 1;
        if v[j] == c {
            proof {
                lemma_last_index_of(v@, c);
                let d = last_index_of(v@, c);
                assert(d == j) by {
                    if d > j {
                        assert(v@[d] != c);
                    }
                    if d < j {
                        assert(v@[j as int] != c);
                    }
                }
            }
            return Some(j);
        }
    }
    proof {
        lemma_last_index_of(v@, c);
        let d = last_index_of(v@, c);
        if d >= 0 {
            assert(v@[d] != c);
        }
    }
    None
}

/// Whether a path (with `/` separators) names a file whose extension
/// matches the supported audio formats, case-sensitively: the file name
/// has a dot that is neither its first character nor preceded only by the
/// last separator, and the text after the last dot reads mp3 or flac.
pub open spec fn is_supported_audio_path(p: Seq<char>) -> bool {
    let ls = last_index_of(p, '/');
    let ld = last_index_of(p, '.');
    ld > ls + 1 && (p.skip(ld + 1) == "mp3"@ || p.skip(ld + 1) == "flac"@)
}

/// Decides `is_supported_audio_path`.
pub fn has_supported_extension(path: &str) -> (r: bool)
    ensures
        r == is_supported_audio_path(path@),
{
    let v = chars_of(path);
    let ld = match find_last(&v, '.') {
        Some(d) => d,
        None => {
            proof {
                lemma_last_index_of(path@, '/');
            }
            return false;
        },
    };
    let n = v.len();
    let slash_bound_ok = match find_last(&v, '/') {
        Some(s) => {
            proof {
                assert(s < n);
            }
            ld > s + 1
        },
        None => ld > 0,
    };
    if !slash_bound_ok {
        return false;
    }
    let ext_len = v.len() - (ld + 1);
    proof {
        reveal_strlit("mp3");
        reveal_strlit("flac");
        assert(path@.skip(ld + 1).len() == ext_len);
    }
    if ext_len == 3 {
        let r = v[ld + 1] == 'm' && v[ld + 2] == 'p' && v[ld + 3] == '3';
        proof {
            if r {
                assert(path@.skip(ld + 1) =~= "mp3"@);
            } else {
                assert(path@.skip(ld + 1)[0] == v@[ld + 1]);
                assert(path@.skip(ld + 1)[1] == v@[ld + 2]);
                assert(path@.skip(ld + 1)[2] == v@[ld + 3]);
            }
            assert(path@.skip(ld + 1) != "flac"@);
        }
        r
    } else if ext_len == 4 {
        let r = v[ld + 1] == 'f' && v[ld + 2] == 'l' && v[ld + 3] == 'a' && v[ld + 4] == 'c';
        proof {
            if r {
                assert(path@.skip(ld + 1) =~= "flac"@);
            } else {
                assert(path@.skip(ld + 1)[0] == v@[ld + 1]);
                assert(path@.skip(ld + 1)[1] == v@[ld + 2]);
                assert(path@.skip(ld + 1)[2] == v@[ld + 3]);
                assert(path@.skip(ld + 1)[3] == v@[ld + 4]);
            }
            assert(path@.skip(ld + 1) != "mp3"@);
        }
        r
    } else {
        proof {
            assert(path@.skip(ld + 1) != "mp3"@);
            assert(path@.skip(ld + 1) != "flac"@);
        }
        false
    }
}

} // verus!
