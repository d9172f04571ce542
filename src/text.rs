//! Small string operations on characters.
use vstd::prelude::*;

verus! {

/// What `str::to_lowercase` returns for a text that is not all ASCII.
pub uninterp spec fn unicode_lower_of(s: Seq<char>) -> Seq<char>;

/// An ASCII letter in lowercase; any other character as it is.
pub open spec fn ascii_lower(c: char) -> char {
    if 'A' <= c && c <= 'Z' {
        (((c as u32) + 32) as u8) as char
    } else {
        c
    }
}

pub open spec fn is_ascii_text(s: Seq<char>) -> bool {
    forall|i: int| 0 <= i < s.len() ==> (#[trigger] s[i] as u32) < 128
}

/// The lowercase form of a text: for ASCII text, each letter in lowercase.
pub open spec fn lower_of(s: Seq<char>) -> Seq<char> {
    if is_ascii_text(s) {
        Seq::new(s.len(), |i: int| ascii_lower(s[i]))
    } else {
        unicode_lower_of(s)
    }
}

/// Unicode's White_Space property, which `char::is_whitespace` tests: tab to
/// carriage return, space, next line, no-break space, ogham space mark, the
/// spaces from en quad to hair space, line and paragraph separators, narrow
/// no-break space, medium mathematical space and ideographic space.
pub open spec fn is_whitespace(c: char) -> bool {
    let u = c as u32;
    ||| 0x9 <= u <= 0xD
    ||| u == 0x20
    ||| u == 0x85
    ||| u == 0xA0
    ||| u == 0x1680
    ||| 0x2000 <= u <= 0x200A
    ||| u == 0x2028
    ||| u == 0x2029
    ||| u == 0x202F
    ||| u == 0x205F
    ||| u == 0x3000
}

/// The text without its leading whitespace.
pub open spec fn trim_start_of(s: Seq<char>) -> Seq<char>
    decreases s.len(),
{
    if s.len() > 0 && is_whitespace(s[0]) {
        trim_start_of(s.subrange(1, s.len() as int))
    } else {
        s
    }
}

/// The text without its trailing whitespace.
pub open spec fn trim_end_of(s: Seq<char>) -> Seq<char>
    decreases s.len(),
{
    if s.len() > 0 && is_whitespace(s.last()) {
        trim_end_of(s.drop_last())
    } else {
        s
    }
}

/// The text without leading and trailing whitespace.
pub open spec fn trim_of(s: Seq<char>) -> Seq<char> {
    trim_end_of(trim_start_of(s))
}

/// Relies on str::to_lowercase: each character's lowercase mapping, which for
/// ASCII lowers the letters and keeps the rest.
#[verifier::external_body]
pub(crate) fn lowercase(s: &str) -> (r: String)
    ensures
        r@ == lower_of(s@),
        !is_ascii_text(s@) ==> r@ == unicode_lower_of(s@),
{
    s.to_lowercase()
}

/// Relies on str::trim: the text without the leading and trailing characters
/// for which `char::is_whitespace` holds.
#[verifier::external_body]
pub(crate) fn trim(s: &str) -> (r: &str)
    ensures
        r@ == trim_of(s@),
{
    s.trim()
}

/// Relies on str::trim_start: the text without the leading characters for
/// which `char::is_whitespace` holds.
#[verifier::external_body]
pub(crate) fn trim_start(s: &str) -> (r: &str)
    ensures
        r@ == trim_start_of(s@),
{
    s.trim_start()
}

/// `prefix` is the start of `s`.
pub open spec fn has_prefix(s: Seq<char>, prefix: Seq<char>) -> bool {
    prefix.len() <= s.len() && s.subrange(0, prefix.len() as int) == prefix
}

pub fn starts_with(s: &str, prefix: &str) -> (r: bool)
    ensures
        r == has_prefix(s@, prefix@),
{
    let n = prefix.unicode_len();
    if n > s.unicode_len() {
        return false;
    }
    let mut i: usize = 0;
    while i < n
        invariant
            n == prefix@.len(),
            n <= s@.len(),
            i <= n,
            forall|j: int| 0 <= j < i ==> s@[j] == prefix@[j],
        decreases n - i,
    {
        if s.get_char(i) != prefix.get_char(i) {
            assert(s@.subrange(0, n as int)[i as int] != prefix@[i as int]);
            return false;
        }
        i = i + 1;
    }
    assert(s@.subrange(0, n as int) =~= prefix@);
    true
}

/// `s` without `prefix` where it starts with it.
pub fn strip_prefix<'a>(s: &'a str, prefix: &str) -> (r: Option<&'a str>)
    ensures
        r is Some == has_prefix(s@, prefix@),
        r is Some ==> r->0@ == s@.subrange(prefix@.len() as int, s@.len() as int),
{
    if starts_with(s, prefix) {
        let n = prefix.unicode_len();
        let m = s.unicode_len();
        Some(s.substring_char(n, m))
    } else {
        None
    }
}

/// The text without its trailing `c` characters.
pub open spec fn trim_end_char(s: Seq<char>, c: char) -> Seq<char>
    decreases s.len(),
{
    if s.len() > 0 && s.last() == c {
        trim_end_char(s.drop_last(), c)
    } else {
        s
    }
}

/// `s` without its trailing `/` characters.
pub fn trim_end_slashes(s: &str) -> (r: String)
    ensures
        r@ == trim_end_char(s@, '/'),
{
    let mut n = s.unicode_len();
    assert(s@.subrange(0, n as int) =~= s@);
    while n > 0 && s.get_char(n - 1) == '/'
        invariant
            n <= s@.len(),
            trim_end_char(s@.subrange(0, n as int), '/') == trim_end_char(s@, '/'),
        decreases n,
    {
        assert(s@.subrange(0, n as int).drop_last() =~= s@.subrange(0, n - 1));
        n = n - 1;
    }
    String::from_str(s.substring_char(0, n))
}

/// The order of texts by their characters, as `String`'s `Ord` orders them
/// (UTF-8 keeps the order of code points): a proper prefix comes first.
pub open spec fn text_lt(a: Seq<char>, b: Seq<char>) -> bool
    decreases a.len(),
{
    if a.len() == 0 {
        b.len() > 0
    } else if b.len() == 0 {
        false
    } else if a[0] != b[0] {
        (a[0] as u32) < (b[0] as u32)
    } else {
        text_lt(a.drop_first(), b.drop_first())
    }
}

pub fn str_lt(a: &str, b: &str) -> (r: bool)
    ensures
        r == text_lt(a@, b@),
{
    let n = a.unicode_len();
    let m = b.unicode_len();
    assert(a@.subrange(0, n as int) =~= a@);
    assert(b@.subrange(0, m as int) =~= b@);
    let mut i: usize = 0;
    while i < n && i < m && a.get_char(i) == b.get_char(i)
        invariant
            n == a@.len(),
            m == b@.len(),
            i <= n,
            i <= m,
            text_lt(a@, b@) == text_lt(a@.subrange(i as int, n as int), b@.subrange(i as int, m as int)),
        decreases n - i,
    {
        assert(a@.subrange(i as int, n as int).drop_first() =~= a@.subrange(i as int + 1, n as int));
        assert(b@.subrange(i as int, m as int).drop_first() =~= b@.subrange(i as int + 1, m as int));
        i = i + 1;
    }
    if i == n {
        i < m
    } else if i == m {
        false
    } else {
        (a.get_char(i) as u32) < (b.get_char(i) as u32)
    }
}

pub open spec fn texts_view(v: Seq<String>) -> Seq<Seq<char>> {
    Seq::new(v.len(), |i: int| v[i]@)
}

/// A sorted list with `k` put before the first element that does not come before it.
pub open spec fn insert_sorted(s: Seq<Seq<char>>, k: Seq<char>) -> Seq<Seq<char>>
    decreases s.len(),
{
    if s.len() == 0 {
        seq![k]
    } else if text_lt(s[0], k) {
        seq![s[0]] + insert_sorted(s.drop_first(), k)
    } else {
        seq![k] + s
    }
}

/// The texts in ascending order (insertion sort).
pub open spec fn sorted_texts(ks: Seq<Seq<char>>) -> Seq<Seq<char>>
    decreases ks.len(),
{
    if ks.len() == 0 {
        Seq::empty()
    } else {
        insert_sorted(sorted_texts(ks.drop_last()), ks.last())
    }
}

fn insert_text(v: Vec<String>, k: String) -> (r: Vec<String>)
    ensures
        texts_view(r@) == insert_sorted(texts_view(v@), k@),
{
    let ghost sv = texts_view(v@);
    let mut out: Vec<String> = Vec::new();
    assert(texts_view(out@) =~= sv.subrange(0, 0));
    assert(sv.subrange(0, sv.len() as int) =~= sv);
    assert(sv.subrange(0, 0) + insert_sorted(sv.subrange(0, sv.len() as int), k@) =~= insert_sorted(sv, k@));
    let mut i: usize = 0;
    while i < v.len() && str_lt(v[i].as_str(), k.as_str())
        invariant
            sv == texts_view(v@),
            i <= v@.len(),
            texts_view(out@) == sv.subrange(0, i as int),
            insert_sorted(sv, k@) == sv.subrange(0, i as int) + insert_sorted(sv.subrange(i as int, sv.len() as int), k@),
        decreases v@.len() - i,
    {
        let ghost rest = sv.subrange(i as int, sv.len() as int);
        assert(rest.drop_first() =~= sv.subrange(i as int + 1, sv.len() as int));
        assert(sv.subrange(0, i as int) + (seq![sv[i as int]] + insert_sorted(rest.drop_first(), k@))
            =~= sv.subrange(0, i as int + 1) + insert_sorted(rest.drop_first(), k@));
        let ghost before = out@;
        out.push(v[i].clone());
        assert(texts_view(out@) =~= texts_view(before).push(v@[i as int]@));
        assert(sv.subrange(0, i as int).push(sv[i as int]) =~= sv.subrange(0, i as int + 1));
        i = i + 1;
    }
    let ghost j = i;
    proof {
        let rest = sv.subrange(j as int, sv.len() as int);
        if j < sv.len() {
            assert(rest[0] == sv[j as int]);
        }
        assert(insert_sorted(rest, k@) =~= seq![k@] + rest);
    }
    let ghost before = out@;
    out.push(k);
    assert(texts_view(out@) =~= texts_view(before).push(k@));
    while i < v.len()
        invariant
            sv == texts_view(v@),
            j <= i <= v@.len(),
            insert_sorted(sv, k@) == sv.subrange(0, j as int) + (seq![k@] + sv.subrange(j as int, sv.len() as int)),
            texts_view(out@) == sv.subrange(0, j as int).push(k@) + sv.subrange(j as int, i as int),
        decreases v@.len() - i,
    {
        let ghost b = out@;
        out.push(v[i].clone());
        assert(texts_view(out@) =~= texts_view(b).push(v@[i as int]@));
        assert(sv.subrange(0, j as int).push(k@) + sv.subrange(j as int, i as int + 1)
            =~= (sv.subrange(0, j as int).push(k@) + sv.subrange(j as int, i as int)).push(sv[i as int]));
        i = i + 1;
    }
    proof {
        let rest = sv.subrange(j as int, sv.len() as int);
        assert(sv.subrange(0, j as int).push(k@) + sv.subrange(j as int, sv.len() as int)
            =~= sv.subrange(0, j as int) + (seq![k@] + rest));
    }
    out
}

/// The texts sorted in ascending order.
pub fn sort_texts(ks: &Vec<String>) -> (r: Vec<String>)
    ensures
        texts_view(r@) == sorted_texts(texts_view(ks@)),
{
    let ghost kv = texts_view(ks@);
    let mut out: Vec<String> = Vec::new();
    assert(kv.subrange(0, 0) =~= Seq::<Seq<char>>::empty());
    assert(sorted_texts(kv.subrange(0, 0)) == Seq::<Seq<char>>::empty());
    assert(texts_view(out@) =~= Seq::<Seq<char>>::empty());
    let mut i: usize = 0;
    while i < ks.len()
        invariant
            kv == texts_view(ks@),
            i <= ks@.len(),
            texts_view(out@) == sorted_texts(kv.subrange(0, i as int)),
        decreases ks@.len() - i,
    {
        assert(kv.subrange(0, i as int + 1).drop_last() =~= kv.subrange(0, i as int));
        out = insert_text(out, ks[i].clone());
        i = i + 1;
    }
    assert(kv.subrange(0, ks@.len() as int) =~= kv);
    out
}

} // verus!
