use vstd::prelude::*;

verus! {

/// `s` with every trailing `'/'` removed.
pub open spec fn trim_end_slashes(s: Seq<char>) -> Seq<char>
    decreases s.len(),
{
    if s.len() > 0 && s.last() == '/' {
        trim_end_slashes(s.drop_last())
    } else {
        s
    }
}

/// `s` with every leading `'/'` removed.
pub open spec fn trim_start_slashes(s: Seq<char>) -> Seq<char>
    decreases s.len(),
{
    if s.len() > 0 && s[0] == '/' {
        trim_start_slashes(s.drop_first())
    } else {
        s
    }
}

/// What follows `prefix` in `s`, when `s` starts with it.
pub open spec fn strip_prefix_spec(s: Seq<char>, prefix: Seq<char>) -> Option<Seq<char>> {
    if prefix.is_prefix_of(s) {
        Some(s.skip(prefix.len() as int))
    } else {
        None
    }
}

/// Compares two strings by their characters.
pub fn str_eq(a: &str, b: &str) -> (r: bool)
    ensures
        r == (a@ == b@),
{
    let x = a.to_owned();
    let y = b.to_owned();
    x == y
}

/// Returns `s` without its trailing `'/'` characters.
pub fn trim_end_slash(s: &str) -> (r: String)
    ensures
        r@ == trim_end_slashes(s@),
{
    let n = s.unicode_len();
    let mut j: usize = n;
    assert(s@.subrange(0, n as int) =~= s@);
    while j > 0 && s.get_char(j - 1) == '/'
        invariant
            n == s@.len(),
            j <= n,
            trim_end_slashes(s@) == trim_end_slashes(s@.subrange(0, j as int)),
        decreases j,
    {
        assert(s@.subrange(0, j as int).drop_last() =~= s@.subrange(0, j - 1));
        j = j - 1;
    }
    let out = s.substring_char(0, j);
    String::from_str(out)
}

/// Returns `s` without its leading `'/'` characters.
pub fn trim_start_slash(s: &str) -> (r: String)
    ensures
        r@ == trim_start_slashes(s@),
{
    let n = s.unicode_len();
    let mut i: usize = 0;
    assert(s@.subrange(0, n as int) =~= s@);
    while i < n && s.get_char(i) == '/'
        invariant
            n == s@.len(),
            i <= n,
            trim_start_slashes(s@) == trim_start_slashes(s@.subrange(i as int, n as int)),
        decreases n - i,
    {
        assert(s@.subrange(i as int, n as int).drop_first() =~= s@.subrange(i + 1, n as int));
        i = i + 1;
    }
    let out = s.substring_char(i, n);
    String::from_str(out)
}

/// Returns what follows `prefix` in `s`, or `None` when `s` does not start with it.
pub fn strip_prefix(s: &str, prefix: &str) -> (r: Option<String>)
    ensures
        r matches Some(rest) ==> strip_prefix_spec(s@, prefix@) == Some(rest@),
        r is None ==> strip_prefix_spec(s@, prefix@) is None,
{
    let n = s.unicode_len();
    let m = prefix.unicode_len();
    if m > n {
        return None;
    }
    let head = s.substring_char(0, m);
    if str_eq(head, prefix) {
        assert(prefix@.is_prefix_of(s@)) by {
            assert(s@.subrange(0, m as int) =~= prefix@);
        }
        let rest = s.substring_char(m, n);
        assert(s@.skip(m as int) =~= s@.subrange(m as int, n as int));
        Some(String::from_str(rest))
    } else {
        proof {
            if prefix@.is_prefix_of(s@) {
                assert(s@.subrange(0, m as int) =~= prefix@);
            }
        }
        None
    }
}

/// Whether `s` starts with `prefix`.
pub fn starts_with(s: &str, prefix: &str) -> (r: bool)
    ensures
        r == prefix@.is_prefix_of(s@),
{
    strip_prefix(s, prefix).is_some()
}

/// The concatenation of two strings.
pub fn concat2(a: &str, b: &str) -> (r: String)
    ensures
        r@ == a@ + b@,
{
    let mut out = String::from_str(a);
    out.append(b);
    out
}

/// The concatenation of three strings.
pub fn concat3(a: &str, b: &str, c: &str) -> (r: String)
    ensures
        r@ == a@ + b@ + c@,
{
    let mut out = String::from_str(a);
    out.append(b);
    out.append(c);
    out
}

/// Removing trailing slashes twice is removing them once.
pub proof fn lemma_trim_end_idempotent(s: Seq<char>)
    ensures
        trim_end_slashes(trim_end_slashes(s)) == trim_end_slashes(s),
        trim_end_slashes(s).len() == 0 || trim_end_slashes(s).last() != '/',
    decreases s.len(),
{
    if s.len() > 0 && s.last() == '/' {
        lemma_trim_end_idempotent(s.drop_last());
    }
}

/// Appending a slash does not change what trimming trailing slashes gives.
pub proof fn lemma_trim_end_absorbs_slash(s: Seq<char>)
    ensures
        trim_end_slashes(s.push('/')) == trim_end_slashes(s),
{
    assert(s.push('/').drop_last() =~= s);
}

} // verus!
