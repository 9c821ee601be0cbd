//! Text helpers: label normalization and the few string operations of std
//! that the rest of the library builds on.

use vstd::prelude::*;
use vstd::string::*;

verus! {

/// What `str::to_lowercase` returns for a string: Unicode lowercase mapping,
/// a function of the characters alone.
pub uninterp spec fn lower_of(s: Seq<char>) -> Seq<char>;

/// What `str::trim` returns for a string: the string without leading and
/// trailing Unicode white space.
pub uninterp spec fn trimmed_of(s: Seq<char>) -> Seq<char>;

/// Relies on `str::to_lowercase`: the result is the lowercase mapping of the
/// characters.
#[verifier::external_body]
pub(crate) fn lowercase(s: &str) -> (r: String)
    ensures
        r@ == lower_of(s@),
{
    s.to_lowercase()
}

/// Relies on `str::trim`: the result depends on the characters alone.
#[verifier::external_body]
pub(crate) fn trim(s: &str) -> (r: String)
    ensures
        r@ == trimmed_of(s@),
{
    s.trim().to_string()
}

/// Relies on `String::push`: appends one character at the end.
#[verifier::external_body]
pub(crate) fn push_char(s: &mut String, c: char)
    ensures
        final(s)@ == old(s)@.push(c),
{
    s.push(c)
}

/// ASCII punctuation, as Python's `string.punctuation` lists it.
pub open spec fn is_ascii_punct(c: char) -> bool {
    let u = c as u32;
    (33 <= u && u <= 47) || (58 <= u && u <= 64) || (91 <= u && u <= 96) || (123 <= u && u <= 126)
}

/// ASCII white space, as Python's `string.whitespace` lists it.
pub open spec fn is_ascii_space(c: char) -> bool {
    let u = c as u32;
    u == 32 || (9 <= u && u <= 13)
}

/// A character that label normalization drops.
pub open spec fn is_label_noise(c: char) -> bool {
    is_ascii_punct(c) || is_ascii_space(c)
}

/// The characters of `s` that are not label noise, in order.
pub open spec fn strip_noise(s: Seq<char>) -> Seq<char>
    decreases s.len(),
{
    if s.len() == 0 {
        s
    } else if is_label_noise(s.last()) {
        strip_noise(s.drop_last())
    } else {
        strip_noise(s.drop_last()).push(s.last())
    }
}

/// The normalized form of a project-URL label.
pub open spec fn normalized(s: Seq<char>) -> Seq<char> {
    lower_of(strip_noise(s))
}

fn is_noise_char(c: char) -> (r: bool)
    ensures
        r == is_label_noise(c),
{
    let u = c as u32;
    (33 <= u && u <= 47) || (58 <= u && u <= 64) || (91 <= u && u <= 96) || (123 <= u && u
        <= 126) || u == 32 || (9 <= u && u <= 13)
}

/// Normalizes a project-URL label: drops ASCII punctuation and white space,
/// then lowercases what is left.
pub fn normalize_url(url: &str) -> (r: String)
    ensures
        r@ == normalized(url@),
{
    let n = url.unicode_len();
    let mut kept = String::new();
    let mut i: usize = 0;
    while i < n
        invariant
            n == url@.len(),
            i <= n,
            kept@ == strip_noise(url@.subrange(0, i as int)),
        decreases n - i,
    {
        let c = url.get_char(i);
        proof {
            let next = url@.subrange(0, i + 1);
            assert(next.drop_last() =~= url@.subrange(0, i as int));
            assert(next.last() == c);
        }
        if !is_noise_char(c) {
            push_char(&mut kept, c);
        }
        i = i + 1;
    }
    assert(url@.subrange(0, n as int) =~= url@);
    lowercase(kept.as_str())
}

/// Whether two strings hold the same characters.
pub fn same_text(a: &str, b: &str) -> (r: bool)
    ensures
        r == (a@ == b@),
{
    let n = a.unicode_len();
    let m = b.unicode_len();
    if n != m {
        return false;
    }
    let mut i: usize = 0;
    while i < n
        invariant
            n == a@.len(),
            m == b@.len(),
            n == m,
            i <= n,
            forall|j: int| 0 <= j < i ==> a@[j] == b@[j],
        decreases n - i,
    {
        if a.get_char(i) != b.get_char(i) {
            return false;
        }
        i = i + 1;
    }
    assert(a@ =~= b@);
    true
}


/// Dropping noise from a concatenation drops it from each part.
pub proof fn lemma_strip_noise_concat(a: Seq<char>, b: Seq<char>)
    ensures
        strip_noise(a + b) == strip_noise(a) + strip_noise(b),
    decreases b.len(),
{
    if b.len() == 0 {
        assert(a + b =~= a);
        assert(strip_noise(b) =~= Seq::<char>::empty());
        assert(strip_noise(a) + strip_noise(b) =~= strip_noise(a));
    } else {
        assert((a + b).drop_last() =~= a + b.drop_last());
        assert((a + b).last() == b.last());
        lemma_strip_noise_concat(a, b.drop_last());
        if !is_label_noise(b.last()) {
            assert(strip_noise(a) + strip_noise(b.drop_last()).push(b.last()) =~= (strip_noise(a)
                + strip_noise(b.drop_last())).push(b.last()));
        }
    }
}

/// What is left after dropping noise holds no noise.
pub proof fn lemma_strip_noise_clean(s: Seq<char>)
    ensures
        forall|i: int| 0 <= i < strip_noise(s).len() ==> !is_label_noise(#[trigger] strip_noise(s)[i]),
    decreases s.len(),
{
    if s.len() > 0 {
        lemma_strip_noise_clean(s.drop_last());
        let p = strip_noise(s.drop_last());
        if !is_label_noise(s.last()) {
            assert forall|i: int| 0 <= i < p.push(s.last()).len() implies !is_label_noise(
                #[trigger] p.push(s.last())[i],
            ) by {
                if i < p.len() {
                    assert(p.push(s.last())[i] == p[i]);
                }
            }
        }
    }
}

/// A string without noise is left as it is.
pub proof fn lemma_strip_noise_keeps_clean(s: Seq<char>)
    requires
        forall|i: int| 0 <= i < s.len() ==> !is_label_noise(#[trigger] s[i]),
    ensures
        strip_noise(s) == s,
    decreases s.len(),
{
    if s.len() > 0 {
        lemma_strip_noise_keeps_clean(s.drop_last());
        assert(s.drop_last().push(s.last()) =~= s);
    }
}

/// Dropping punctuation and white space from a label is idempotent.
pub proof fn law_strip_noise_idempotent(s: Seq<char>)
    ensures
        strip_noise(strip_noise(s)) == strip_noise(s),
{
    lemma_strip_noise_clean(s);
    lemma_strip_noise_keeps_clean(strip_noise(s));
}

/// Label normalization is insensitive to punctuation and white space: putting
/// such a character anywhere into a label leaves its normalized form unchanged.
pub proof fn law_normalize_ignores_noise(s: Seq<char>, i: int, c: char)
    requires
        0 <= i <= s.len(),
        is_label_noise(c),
    ensures
        normalized(s.insert(i, c)) == normalized(s),
{
    let a = s.subrange(0, i);
    let b = s.subrange(i, s.len() as int);
    assert(s.insert(i, c) =~= (a + seq![c]) + b);
    assert(s =~= a + b);
    lemma_strip_noise_concat(a + seq![c], b);
    lemma_strip_noise_concat(a, seq![c]);
    lemma_strip_noise_concat(a, b);
    assert(seq![c].drop_last() =~= Seq::<char>::empty());
    assert(seq![c].last() == c);
    assert(strip_noise(seq![c]) == strip_noise(Seq::<char>::empty()));
    assert(strip_noise(seq![c]) =~= Seq::<char>::empty());
    assert(strip_noise(a) + strip_noise(seq![c]) =~= strip_noise(a));
}

} // verus!
