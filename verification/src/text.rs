use vstd::prelude::*;
use vstd::string::StrSliceExecFns;

verus! {

// ---------------------------------------------------------------------------
// Character maps
// ---------------------------------------------------------------------------
/// ASCII lowercasing of a single character: the letters 'A' through 'Z'
/// map to 'a' through 'z'; every other character, letters outside
/// ASCII included, is kept as it is.
pub open spec fn lower_char(c: char) -> char {
    if c == 'A' {
        'a'
    } else if c == 'B' {
        'b'
    } else if c == 'C' {
        'c'
    } else if c == 'D' {
        'd'
    } else if c == 'E' {
        'e'
    } else if c == 'F' {
        'f'
    } else if c == 'G' {
        'g'
    } else if c == 'H' {
        'h'
    } else if c == 'I' {
        'i'
    } else if c == 'J' {
        'j'
    } else if c == 'K' {
        'k'
    } else if c == 'L' {
        'l'
    } else if c == 'M' {
        'm'
    } else if c == 'N' {
        'n'
    } else if c == 'O' {
        'o'
    } else if c == 'P' {
        'p'
    } else if c == 'Q' {
        'q'
    } else if c == 'R' {
        'r'
    } else if c == 'S' {
        's'
    } else if c == 'T' {
        't'
    } else if c == 'U' {
        'u'
    } else if c == 'V' {
        'v'
    } else if c == 'W' {
        'w'
    } else if c == 'X' {
        'x'
    } else if c == 'Y' {
        'y'
    } else if c == 'Z' {
        'z'
    } else {
        c
    }
}

/// A space becomes a hyphen; every other character is unchanged.
pub open spec fn hyphen_char(c: char) -> char {
    if c == ' ' {
        '-'
    } else {
        c
    }
}

/// A slash becomes a colon; every other character is unchanged.
pub open spec fn colon_char(c: char) -> char {
    if c == '/' {
        ':'
    } else {
        c
    }
}

/// The string with every character ASCII-lowercased; characters
/// outside ASCII are kept as they are.
pub open spec fn lowered(s: Seq<char>) -> Seq<char> {
    s.map_values(|c: char| lower_char(c))
}

/// The string with every space replaced by a hyphen.
pub open spec fn hyphenated(s: Seq<char>) -> Seq<char> {
    s.map_values(|c: char| hyphen_char(c))
}

/// The string with every slash replaced by a colon.
pub open spec fn colonized(s: Seq<char>) -> Seq<char> {
    s.map_values(|c: char| colon_char(c))
}

fn lower_char_exec(c: char) -> (r: char)
    ensures
        r == lower_char(c),
{
    match c {
        'A' => 'a',
        'B' => 'b',
        'C' => 'c',
        'D' => 'd',
        'E' => 'e',
        'F' => 'f',
        'G' => 'g',
        'H' => 'h',
        'I' => 'i',
        'J' => 'j',
        'K' => 'k',
        'L' => 'l',
        'M' => 'm',
        'N' => 'n',
        'O' => 'o',
        'P' => 'p',
        'Q' => 'q',
        'R' => 'r',
        'S' => 's',
        'T' => 't',
        'U' => 'u',
        'V' => 'v',
        'W' => 'w',
        'X' => 'x',
        'Y' => 'y',
        'Z' => 'z',
        _ => c,
    }
}

// ---------------------------------------------------------------------------
// Building strings
// ---------------------------------------------------------------------------
/// Relies on std's `String::push`: it appends the given character to the
/// end of the string.
pub assume_specification[ String::push ](s: &mut String, c: char)
    ensures
        final(s)@ == old(s)@.push(c),
;

/// The characters of a string, as a vector.
pub fn str_to_chars(s: &str) -> (v: Vec<char>)
    ensures
        v@ == s@,
{
    let n = s.unicode_len();
    let mut v: Vec<char> = Vec::new();
    let mut i: usize = 0;
    while i < n
        invariant
            i <= n,
            n == s@.len(),
            v@ == s@.take(i as int),
        decreases n - i,
    {
        let c = s.get_char(i);
        v.push(c);
        i = i + 1;
        proof {
            assert(v@ =~= s@.take(i as int));
        }
    }
    proof {
        assert(s@.take(n as int) =~= s@);
    }
    v
}

/// The string made of the given characters.
pub fn chars_to_string(v: &Vec<char>) -> (s: String)
    ensures
        s@ == v@,
{
    let mut s = String::new();
    let mut i: usize = 0;
    while i < v.len()
        invariant
            i <= v.len(),
            s@ == v@.take(i as int),
        decreases v.len() - i,
    {
        s.push(v[i]);
        i = i + 1;
        proof {
            assert(s@ =~= v@.take(i as int));
        }
    }
    proof {
        assert(v@.take(v@.len() as int) =~= v@);
    }
    s
}

/// Character-for-character string equality.
pub fn str_eq(a: &str, b: &str) -> (r: bool)
    ensures
        r == (a@ == b@),
{
    let an = a.unicode_len();
    let bn = b.unicode_len();
    if an != bn {
        return false;
    }
    let mut i: usize = 0;
    while i < an
        invariant
            i <= an,
            an == a@.len(),
            an == b@.len(),
            forall|j: int| 0 <= j < i ==> a@[j] == b@[j],
        decreases an - i,
    {
        if a.get_char(i) != b.get_char(i) {
            return false;
        }
        i = i + 1;
    }
    proof {
        assert(a@ =~= b@);
    }
    true
}

// ---------------------------------------------------------------------------
// Character-map application
// ---------------------------------------------------------------------------
/// The string with every character ASCII-lowercased; characters
/// outside ASCII are kept as they are.
pub fn lowercase(s: &str) -> (r: String)
    ensures
        r@ == lowered(s@),
{
    let n = s.unicode_len();
    let mut r = String::new();
    let mut i: usize = 0;
    while i < n
        invariant
            i <= n,
            n == s@.len(),
            r@ == lowered(s@.take(i as int)),
        decreases n - i,
    {
        let c = lower_char_exec(s.get_char(i));
        r.push(c);
        i = i + 1;
        proof {
            assert(r@ =~= lowered(s@.take(i as int)));
        }
    }
    proof {
        assert(s@.take(n as int) =~= s@);
    }
    r
}

/// The string with every space replaced by a hyphen.
pub fn hyphenate(s: &str) -> (r: String)
    ensures
        r@ == hyphenated(s@),
{
    let n = s.unicode_len();
    let mut r = String::new();
    let mut i: usize = 0;
    while i < n
        invariant
            i <= n,
            n == s@.len(),
            r@ == hyphenated(s@.take(i as int)),
        decreases n - i,
    {
        let c = s.get_char(i);
        let d = if c == ' ' {
            '-'
        } else {
            c
        };
        r.push(d);
        i = i + 1;
        proof {
            assert(r@ =~= hyphenated(s@.take(i as int)));
        }
    }
    proof {
        assert(s@.take(n as int) =~= s@);
    }
    r
}

/// The string with every slash replaced by a colon.
pub fn colonize(s: &str) -> (r: String)
    ensures
        r@ == colonized(s@),
{
    let n = s.unicode_len();
    let mut r = String::new();
    let mut i: usize = 0;
    while i < n
        invariant
            i <= n,
            n == s@.len(),
            r@ == colonized(s@.take(i as int)),
        decreases n - i,
    {
        let c = s.get_char(i);
        let d = if c == '/' {
            ':'
        } else {
            c
        };
        r.push(d);
        i = i + 1;
        proof {
            assert(r@ =~= colonized(s@.take(i as int)));
        }
    }
    proof {
        assert(s@.take(n as int) =~= s@);
    }
    r
}

/// The normalized form of a page identifier: ASCII-lowercased, with
/// spaces replaced by hyphens, so that a multi-word name becomes its
/// hyphen-joined form.
pub open spec fn normalized(s: Seq<char>) -> Seq<char> {
    hyphenated(lowered(s))
}

/// Normalizing a page identifier is idempotent: normalizing an
/// already-normalized identifier is a no-op.
pub proof fn lemma_normalized_idempotent(s: Seq<char>)
    ensures
        normalized(normalized(s)) == normalized(s),
{
    assert forall|i: int| 0 <= i < s.len() implies hyphen_char(
        lower_char(hyphen_char(lower_char(s[i]))),
    ) == hyphen_char(lower_char(s[i])) by {
        let c = s[i];
        assert(lower_char(c) != 'A' && lower_char(c) != 'Z');
    }
    assert(normalized(normalized(s)) =~= normalized(s));
}

// ---------------------------------------------------------------------------
// Splitting at separators
// ---------------------------------------------------------------------------
/// Concatenation keeps a character out: a string built from two
/// strings that do not contain it does not contain it either.
pub proof fn lemma_concat_keeps_out(a: Seq<char>, b: Seq<char>, c: char)
    requires
        !a.contains(c),
        !b.contains(c),
    ensures
        !(a + b).contains(c),
{
    assert forall|i: int| 0 <= i < (a + b).len() implies (a + b)[i] != c by {
        if i < a.len() {
            assert((a + b)[i] == a[i]);
        } else {
            assert((a + b)[i] == b[i - a.len()]);
        }
    }
}

/// A string of the shape `a` + separator + `b`, where `a` does not
/// contain the separator, determines `a` and `b`: the separator's
/// first occurrence ends `a`.
pub proof fn lemma_split_at_sep(
    a1: Seq<char>,
    b1: Seq<char>,
    a2: Seq<char>,
    b2: Seq<char>,
    sep: char,
)
    requires
        !a1.contains(sep),
        !a2.contains(sep),
        a1 + seq![sep] + b1 == a2 + seq![sep] + b2,
    ensures
        a1 == a2,
        b1 == b2,
{
    let s = a1 + seq![sep] + b1;
    assert((a1 + seq![sep] + b1).len() == a1.len() + 1 + b1.len());
    assert((a2 + seq![sep] + b2).len() == a2.len() + 1 + b2.len());
    if a1.len() < a2.len() {
        assert(s[a1.len() as int] == sep);
        assert(s[a1.len() as int] == a2[a1.len() as int]);
        assert(a2.contains(sep));
    }
    if a2.len() < a1.len() {
        assert(s[a2.len() as int] == sep);
        assert(s[a2.len() as int] == a1[a2.len() as int]);
        assert(a1.contains(sep));
    }
    assert(a1.len() == a2.len());
    assert(a1 =~= a2) by {
        assert forall|i: int| 0 <= i < a1.len() implies a1[i] == a2[i] by {
            assert(s[i] == a1[i]);
            assert(s[i] == a2[i]);
        }
    }
    assert(b1 =~= b2) by {
        assert(b1.len() == b2.len());
        assert forall|i: int| 0 <= i < b1.len() implies b1[i] == b2[i] by {
            assert(s[a1.len() + 1 + i] == b1[i]);
            assert(s[a2.len() + 1 + i] == b2[i]);
        }
    }
}

/// Equal strings with the same prefix have the same remainder.
pub proof fn lemma_cancel_prefix(x: Seq<char>, y1: Seq<char>, y2: Seq<char>)
    requires
        x + y1 == x + y2,
    ensures
        y1 == y2,
{
    assert(y1 =~= y2) by {
        assert((x + y1).len() == x.len() + y1.len());
        assert((x + y2).len() == x.len() + y2.len());
        assert forall|i: int| 0 <= i < y1.len() implies y1[i] == y2[i] by {
            assert((x + y1)[x.len() + i] == y1[i]);
            assert((x + y2)[x.len() + i] == y2[i]);
        }
    }
}

// ---------------------------------------------------------------------------
// Replacing substrings
// ---------------------------------------------------------------------------
/// The string with every occurrence of `needle`, found scanning left to
/// right without overlap, replaced by `repl`.
pub open spec fn replaced(s: Seq<char>, needle: Seq<char>, repl: Seq<char>) -> Seq<char>
    decreases s.len(),
{
    if s.len() == 0 {
        s
    } else if needle.len() > 0 && needle.len() <= s.len() && s.take(needle.len() as int)
        == needle {
        repl + replaced(s.skip(needle.len() as int), needle, repl)
    } else {
        s.take(1) + replaced(s.skip(1), needle, repl)
    }
}

/// Whether `needle` occurs in `h` starting at position `i`.
fn match_at(h: &Vec<char>, needle: &Vec<char>, i: usize) -> (r: bool)
    requires
        i + needle@.len() <= h@.len(),
    ensures
        r == (h@.subrange(i as int, i as int + needle@.len()) == needle@),
{
    let hl: usize = h.len();
    let mut j: usize = 0;
    while j < needle.len()
        invariant
            j <= needle@.len(),
            i + needle@.len() <= h@.len(),
            hl == h@.len(),
            forall|k: int| 0 <= k < j ==> h@[i + k] == needle@[k],
        decreases needle@.len() - j,
    {
        if h[i + j] != needle[j] {
            proof {
                assert(h@.subrange(i as int, i as int + needle@.len())[j as int] == h@[i + j]);
            }
            return false;
        }
        j = j + 1;
    }
    proof {
        assert(h@.subrange(i as int, i as int + needle@.len()) =~= needle@);
    }
    true
}

/// Replaces every occurrence of `needle` in `s` by `repl`, scanning
/// left to right without overlap.
pub fn replace_all(s: &str, needle: &str, repl: &str) -> (r: String)
    requires
        needle@.len() > 0,
    ensures
        r@ == replaced(s@, needle@, repl@),
{
    let h = str_to_chars(s);
    let n = str_to_chars(needle);
    let rep = str_to_chars(repl);
    let mut out: Vec<char> = Vec::new();
    let mut i: usize = 0;
    proof {
        assert(h@.skip(0) =~= h@);
        assert(out@ + replaced(h@, n@, rep@) =~= replaced(h@, n@, rep@));
    }
    while i < h.len()
        invariant
            i <= h@.len(),
            h@ == s@,
            n@ == needle@,
            rep@ == repl@,
            n@.len() > 0,
            out@ + replaced(h@.skip(i as int), n@, rep@) == replaced(h@, n@, rep@),
        decreases h@.len() - i,
    {
        proof {
            assert(h@.skip(i as int).len() > 0);
        }
        if n.len() <= h.len() - i && match_at(&h, &n, i) {
            let ghost out0 = out@;
            let mut j: usize = 0;
            while j < rep.len()
                invariant
                    j <= rep@.len(),
                    out@ == out0 + rep@.take(j as int),
                decreases rep@.len() - j,
            {
                out.push(rep[j]);
                j = j + 1;
                proof {
                    assert(out@ =~= out0 + rep@.take(j as int));
                }
            }
            proof {
                assert(out@ =~= out0 + rep@);
                assert(h@.skip(i as int).take(n@.len() as int) =~= h@.subrange(
                    i as int,
                    i as int + n@.len(),
                ));
                assert(h@.skip(i as int).skip(n@.len() as int) =~= h@.skip(
                    i as int + n@.len(),
                ));
                assert(replaced(h@.skip(i as int), n@, rep@) == rep@ + replaced(
                    h@.skip(i as int + n@.len()),
                    n@,
                    rep@,
                ));
                assert(out0 + rep@ + replaced(h@.skip(i as int + n@.len()), n@, rep@) =~= out0
                    + (rep@ + replaced(h@.skip(i as int + n@.len()), n@, rep@)));
            }
            i = i + n.len();
        } else {
            proof {
                let t = h@.skip(i as int);
                if i + n@.len() <= h@.len() {
                    assert(t.take(n@.len() as int) =~= h@.subrange(
                        i as int,
                        i as int + n@.len(),
                    ));
                    assert(t.take(n@.len() as int) != n@);
                } else {
                    assert(n@.len() > t.len());
                }
                assert(replaced(t, n@, rep@) == t.take(1) + replaced(t.skip(1), n@, rep@));
                assert(t.take(1) =~= seq![h@[i as int]]);
                assert(t.skip(1) =~= h@.skip(i as int + 1));
            }
            let ghost out0 = out@;
            out.push(h[i]);
            proof {
                assert(out@ =~= out0 + seq![h@[i as int]]);
                assert(out0 + seq![h@[i as int]] + replaced(h@.skip(i as int + 1), n@, rep@)
                    =~= out0 + (seq![h@[i as int]] + replaced(h@.skip(i as int + 1), n@, rep@)));
            }
            i = i + 1;
        }
    }
    proof {
        assert(h@.skip(h@.len() as int) =~= Seq::<char>::empty());
        assert(out@ + replaced(h@.skip(h@.len() as int), n@, rep@) =~= out@);
    }
    chars_to_string(&out)
}

// ---------------------------------------------------------------------------
// Joining words
// ---------------------------------------------------------------------------
/// The words joined with single hyphens between them.
pub open spec fn joined(words: Seq<Seq<char>>) -> Seq<char>
    decreases words.len(),
{
    if words.len() == 0 {
        Seq::empty()
    } else if words.len() == 1 {
        words[0]
    } else {
        words[0] + seq!['-'] + joined(words.skip(1))
    }
}

proof fn lemma_joined_snoc(u: Seq<Seq<char>>, x: Seq<char>)
    ensures
        u.len() == 0 ==> joined(u.push(x)) == x,
        u.len() > 0 ==> joined(u.push(x)) == joined(u) + seq!['-'] + x,
    decreases u.len(),
{
    if u.len() == 0 {
        assert(joined(u.push(x)) == u.push(x)[0]);
        assert(u.push(x)[0] == x);
    } else {
        lemma_joined_snoc(u.skip(1), x);
        assert(u.push(x).skip(1) =~= u.skip(1).push(x));
        assert(u.push(x).len() > 1);
        assert(joined(u.push(x)) == u.push(x)[0] + seq!['-'] + joined(u.push(x).skip(1)));
        assert(u.push(x)[0] == u[0]);
        if u.len() == 1 {
            assert(joined(u.skip(1).push(x)) == x);
            assert(joined(u) == u[0]);
        } else {
            assert(joined(u.skip(1).push(x)) == joined(u.skip(1)) + seq!['-'] + x);
            assert(joined(u) == u[0] + seq!['-'] + joined(u.skip(1)));
            assert(joined(u.push(x)) =~= joined(u) + seq!['-'] + x);
        }
    }
}

/// Joins the words with single hyphens between them.
pub fn join_hyphen(words: &Vec<String>) -> (r: String)
    ensures
        r@ == joined(words.deep_view()),
{
    let mut r = String::new();
    let mut i: usize = 0;
    while i < words.len()
        invariant
            i <= words@.len(),
            words.deep_view().len() == words@.len(),
            r@ == joined(words.deep_view().take(i as int)),
        decreases words@.len() - i,
    {
        if i > 0 {
            r.push('-');
        }
        let w: &String = &words[i];
        r.append(w.as_str());
        proof {
            let dv = words.deep_view();
            assert(dv[i as int] == words@[i as int]@);
            assert(dv.take(i as int).push(dv[i as int]) =~= dv.take(i + 1));
            lemma_joined_snoc(dv.take(i as int), dv[i as int]);
        }
        i = i + 1;
    }
    proof {
        assert(words.deep_view().take(words@.len() as int) =~= words.deep_view());
    }
    r
}

} // verus!
