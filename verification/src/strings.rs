//! Character-level helpers: suffix tests, file stems, lexicographic order,
//! joining path components into URL fragments, and base-URL normalization.

use crate::util::SitePath;
use vstd::prelude::*;

verus! {

broadcast use vstd::seq_lib::group_seq_lib_default, vstd::seq::group_seq_axioms;

/// Relies on std's String::push: appends exactly one character.
#[verifier::external_body]
pub fn push_char(s: &mut String, c: char)
    ensures
        final(s)@ == old(s)@.push(c),
{
    s.push(c);
}

/// Whether `suf` is a suffix of `s`.
pub open spec fn spec_ends_with(s: Seq<char>, suf: Seq<char>) -> bool {
    suf.len() <= s.len() && s.skip(s.len() - suf.len()) == suf
}

/// Whether `s` ends with `suf`, compared character by character.
pub fn ends_with(s: &str, suf: &str) -> (r: bool)
    ensures
        r == spec_ends_with(s@, suf@),
{
    let sl = s.unicode_len();
    let tl = suf.unicode_len();
    if tl > sl {
        return false;
    }
    let off = sl - tl;
    for i in 0..tl
        invariant
            sl == s@.len(),
            tl == suf@.len(),
            off == sl - tl,
            forall|j: int| 0 <= j < i ==> s@[off + j] == suf@[j],
    {
        if s.get_char(off + i) != suf.get_char(i) {
            assert(s@.skip(off as int)[i as int] != suf@[i as int]);
            return false;
        }
    }
    assert(s@.skip(off as int) =~= suf@);
    true
}

/// Whether two strings hold the same characters.
pub fn str_eq(a: &str, b: &str) -> (r: bool)
    ensures
        r == (a@ == b@),
{
    let al = a.unicode_len();
    let bl = b.unicode_len();
    if al != bl {
        return false;
    }
    for i in 0..al
        invariant
            al == a@.len(),
            bl == b@.len(),
            al == bl,
            forall|j: int| 0 <= j < i ==> a@[j] == b@[j],
    {
        if a.get_char(i) != b.get_char(i) {
            return false;
        }
    }
    assert(a@ =~= b@);
    true
}

/// The position of the last `.` in `name`, or `-1` when it has none.
pub open spec fn spec_last_dot(name: Seq<char>) -> int
    decreases name.len(),
{
    if name.len() == 0 {
        -1
    } else if name.last() == '.' {
        name.len() - 1
    } else {
        spec_last_dot(name.drop_last())
    }
}

/// The stem of a file name: everything before the last `.`, except that a
/// name without a `.`, or whose only `.` leads it, is its own stem.
pub open spec fn spec_file_stem(name: Seq<char>) -> Seq<char> {
    let d = spec_last_dot(name);
    if d <= 0 {
        name
    } else {
        name.take(d)
    }
}

/// The stem of a file name, as `spec_file_stem` describes it.
pub fn file_stem(name: &str) -> (r: String)
    ensures
        r@ == spec_file_stem(name@),
{
    let n = name.unicode_len();
    let mut j = n;
    assert(name@.take(n as int) =~= name@);
    while j > 0
        invariant
            n == name@.len(),
            j <= n,
            spec_last_dot(name@) == spec_last_dot(name@.take(j as int)),
        decreases j,
    {
        if name.get_char(j - 1) == '.' {
            assert(name@.take(j as int).last() == '.');
            let d = j - 1;
            assert(spec_last_dot(name@) == j - 1);
            if d == 0 {
                return String::from_str(name);
            }
            let stem = name.substring_char(0, d);
            assert(stem@ =~= name@.take(d as int));
            return String::from_str(stem);
        }
        assert(name@.take(j as int).last() != '.');
        assert(name@.take(j as int).drop_last() =~= name@.take(j - 1 as int));
        j = j - 1;
    }
    assert(name@.take(0) =~= Seq::<char>::empty());
    assert(spec_last_dot(name@) == -1);
    String::from_str(name)
}

/// Lexicographic order on character sequences, by code point; a proper
/// prefix comes before any extension of it. This is the order in which
/// std compares `String`s whose characters it holds as UTF-8 bytes.
pub open spec fn spec_lex_le(a: Seq<char>, b: Seq<char>) -> bool
    decreases a.len(),
{
    if a.len() == 0 {
        true
    } else if b.len() == 0 {
        false
    } else if a[0] != b[0] {
        (a[0] as int) < (b[0] as int)
    } else {
        spec_lex_le(a.drop_first(), b.drop_first())
    }
}

/// Whether `a` comes no later than `b` in lexicographic order.
pub fn lex_le(a: &str, b: &str) -> (r: bool)
    ensures
        r == spec_lex_le(a@, b@),
{
    let al = a.unicode_len();
    let bl = b.unicode_len();
    let mut i: usize = 0;
    assert(a@.skip(0) =~= a@);
    assert(b@.skip(0) =~= b@);
    loop
        invariant
            al == a@.len(),
            bl == b@.len(),
            i <= al,
            i <= bl,
            spec_lex_le(a@, b@) == spec_lex_le(a@.skip(i as int), b@.skip(i as int)),
        decreases al - i,
    {
        if i == al {
            return true;
        }
        if i == bl {
            return false;
        }
        let ca = a.get_char(i);
        let cb = b.get_char(i);
        if ca != cb {
            assert(a@.skip(i as int)[0] == ca && b@.skip(i as int)[0] == cb);
            return ca < cb;
        }
        assert(a@.skip(i as int).drop_first() =~= a@.skip(i + 1 as int));
        assert(b@.skip(i as int).drop_first() =~= b@.skip(i + 1 as int));
        i = i + 1;
    }
}

/// Law: lexicographic order is total — of any two strings, one comes no
/// later than the other.
pub proof fn lemma_lex_le_total(a: Seq<char>, b: Seq<char>)
    ensures
        spec_lex_le(a, b) || spec_lex_le(b, a),
    decreases a.len(),
{
    if a.len() == 0 {
    } else if b.len() == 0 {
    } else if a[0] != b[0] {
    } else {
        lemma_lex_le_total(a.drop_first(), b.drop_first());
    }
}

/// Law: lexicographic order is transitive.
pub proof fn lemma_lex_le_trans(a: Seq<char>, b: Seq<char>, c: Seq<char>)
    requires
        spec_lex_le(a, b),
        spec_lex_le(b, c),
    ensures
        spec_lex_le(a, c),
    decreases a.len(),
{
    if a.len() == 0 {
    } else {
        assert(b.len() > 0);
        assert(c.len() > 0);
        if a[0] == b[0] && b[0] == c[0] {
            lemma_lex_le_trans(a.drop_first(), b.drop_first(), c.drop_first());
        } else {
            assert((a[0] as int) <= (b[0] as int));
            assert((b[0] as int) <= (c[0] as int));
            assert((a[0] as int) < (c[0] as int));
        }
    }
}

/// Path components joined with `/` between them: the text of a relative
/// path, with no leading or trailing separator.
pub open spec fn spec_join_rel(comps: Seq<Seq<char>>) -> Seq<char>
    decreases comps.len(),
{
    if comps.len() == 0 {
        Seq::empty()
    } else if comps.len() == 1 {
        comps[0]
    } else {
        spec_join_rel(comps.drop_last()) + seq!['/'] + comps.last()
    }
}

/// The text of a relative path: its components joined with `/`.
pub fn join_rel(path: &SitePath) -> (r: String)
    ensures
        r@ == spec_join_rel(path@),
{
    let mut out = String::new();
    let n = path.components.len();
    for i in 0..n
        invariant
            n == path@.len(),
            n == path.components.len(),
            out@ == spec_join_rel(path@.take(i as int)),
    {
        if i > 0 {
            push_char(&mut out, '/');
        }
        out.append(path.components[i].as_str());
        assert(path@.take(i + 1 as int).drop_last() =~= path@.take(i as int));
        assert(out@ =~= spec_join_rel(path@.take(i + 1 as int)));
    }
    assert(path@.take(n as int) =~= path@);
    out
}

/// `s` with every leading `/` removed.
pub open spec fn spec_trim_lead(s: Seq<char>) -> Seq<char>
    decreases s.len(),
{
    if s.len() > 0 && s[0] == '/' {
        spec_trim_lead(s.drop_first())
    } else {
        s
    }
}

/// `s` with every trailing `/` removed.
pub open spec fn spec_trim_trail(s: Seq<char>) -> Seq<char>
    decreases s.len(),
{
    if s.len() > 0 && s.last() == '/' {
        spec_trim_trail(s.drop_last())
    } else {
        s
    }
}

/// The base URL that a configured value yields: an absent or empty value
/// gives the bare `/`; any other value is stripped of leading and trailing
/// `/` characters and re-wrapped between them.
pub open spec fn spec_normalize_base_url(arg: Option<Seq<char>>) -> Seq<char> {
    match arg {
        Option::None => seq!['/'],
        Option::Some(s) => {
            if s.len() == 0 {
                seq!['/']
            } else {
                seq!['/'] + spec_trim_trail(spec_trim_lead(s)) + seq!['/']
            }
        },
    }
}

/// `s` with leading and trailing `/` characters removed.
fn trim_slashes(s: &str) -> (r: String)
    ensures
        r@ == spec_trim_trail(spec_trim_lead(s@)),
{
    let n = s.unicode_len();
    let mut i: usize = 0;
    assert(s@.skip(0) =~= s@);
    while i < n && s.get_char(i) == '/'
        invariant
            n == s@.len(),
            i <= n,
            spec_trim_lead(s@) == spec_trim_lead(s@.skip(i as int)),
        decreases n - i,
    {
        assert(s@.skip(i as int)[0] == '/');
        assert(s@.skip(i as int).drop_first() =~= s@.skip(i + 1 as int));
        i = i + 1;
    }
    if i == n {
        assert(s@.skip(i as int) =~= Seq::<char>::empty());
        return String::new();
    }
    assert(s@.skip(i as int)[0] != '/');
    assert(spec_trim_lead(s@) == s@.skip(i as int));
    let mut j = n;
    assert(s@.skip(i as int).take(j - i) =~= s@.skip(i as int));
    while j > i + 1 && s.get_char(j - 1) == '/'
        invariant
            n == s@.len(),
            i < j <= n,
            s@[i as int] != '/',
            spec_trim_trail(s@.skip(i as int)) == spec_trim_trail(
                s@.skip(i as int).take(j - i),
            ),
        decreases j,
    {
        assert(s@.skip(i as int).take(j - i).last() == s@[j - 1]);
        assert(s@.skip(i as int).take(j - i).drop_last() =~= s@.skip(i as int).take(
            j - 1 - i,
        ));
        j = j - 1;
    }
    let body = s.substring_char(i, j);
    assert(body@ =~= s@.skip(i as int).take(j - i));
    if !(j > i + 1) {
        assert(s@.skip(i as int).take(j - i).last() == s@[i as int]);
        assert(spec_trim_trail(s@.skip(i as int).take(j - i)) == s@.skip(i as int).take(
            j - i,
        ));
    } else {
        assert(s@.skip(i as int).take(j - i).last() == s@[j - 1]);
        assert(spec_trim_trail(s@.skip(i as int).take(j - i)) == s@.skip(i as int).take(
            j - i,
        ));
    }
    String::from_str(body)
}

/// Normalizes a configured base URL as `spec_normalize_base_url` describes:
/// absent or empty gives `/`; anything else is wrapped as `/BASE/` with its
/// own leading and trailing `/` characters stripped first.
pub fn normalize_base_url(arg: Option<&String>) -> (r: String)
    ensures
        r@ == spec_normalize_base_url(
            match arg {
                Option::None => Option::None,
                Option::Some(s) => Option::Some(s@),
            },
        ),
        r@.len() >= 1,
        r@[0] == '/',
        r@.last() == '/',
{
    match arg {
        Option::None => {
            let mut out = String::new();
            push_char(&mut out, '/');
            out
        },
        Option::Some(s) => {
            if s.as_str().unicode_len() == 0 {
                let mut out = String::new();
                push_char(&mut out, '/');
                out
            } else {
                let trimmed = trim_slashes(s.as_str());
                let mut out = String::new();
                push_char(&mut out, '/');
                out.append(trimmed.as_str());
                push_char(&mut out, '/');
                assert(out@ =~= seq!['/'] + spec_trim_trail(spec_trim_lead(s@))
                    + seq!['/']);
                out
            }
        },
    }
}

} // verus!
