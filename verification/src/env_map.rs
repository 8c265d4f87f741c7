use vstd::prelude::*;

use crate::error::{err_of, ok_view, CliError, ErrorView};
use crate::text::str_eq;

verus! {

/// The map that a list of `(name, value)` pairs describes: a later pair
/// replaces an earlier one with the same name.
pub open spec fn pairs_view(s: Seq<(String, String)>) -> Map<Seq<char>, Seq<char>>
    decreases s.len(),
{
    if s.len() == 0 {
        Map::empty()
    } else {
        pairs_view(s.drop_last()).insert(s.last().0@, s.last().1@)
    }
}

/// `base` with the pairs of `pairs` written over it in order.
pub open spec fn overlay(
    base: Map<Seq<char>, Seq<char>>,
    pairs: Seq<(String, String)>,
) -> Map<Seq<char>, Seq<char>>
    decreases pairs.len(),
{
    if pairs.len() == 0 {
        base
    } else {
        overlay(base, pairs.drop_last()).insert(pairs.last().0@, pairs.last().1@)
    }
}

/// The index of the last pair named `key`, or -1 when there is none.
pub open spec fn last_index_of(s: Seq<(String, String)>, key: Seq<char>) -> int
    decreases s.len(),
{
    if s.len() == 0 {
        -1
    } else if s.last().0@ == key {
        s.len() - 1
    } else {
        last_index_of(s.drop_last(), key)
    }
}

/// The value of `key` in `env`, if it has one.
pub open spec fn env_lookup(env: Map<Seq<char>, Seq<char>>, key: Seq<char>) -> Option<Seq<char>> {
    if env.contains_key(key) {
        Some(env[key])
    } else {
        None
    }
}

/// The value of `key` in `env`, or `default` when it has none.
pub open spec fn env_or_spec(env: Map<Seq<char>, Seq<char>>, key: Seq<char>, default: Seq<char>) -> Seq<char> {
    match env_lookup(env, key) {
        Some(v) => v,
        None => default,
    }
}

/// What `required` gives: the value of `key`, or the error naming it.
pub open spec fn required_spec(env: Map<Seq<char>, Seq<char>>, key: Seq<char>) -> Result<Seq<char>, ErrorView> {
    match env_lookup(env, key) {
        Some(v) => Ok(v),
        None => Err(ErrorView::Missing { key }),
    }
}

/// The characters of an optional string.
pub open spec fn opt_str_view(o: Option<&str>) -> Option<Seq<char>> {
    match o {
        Some(s) => Some(s@),
        None => None,
    }
}

/// The characters of an optional owned string.
pub open spec fn opt_string_view(o: Option<String>) -> Option<Seq<char>> {
    match o {
        Some(s) => Some(s@),
        None => None,
    }
}

/// A named value is found at the last pair that carries its name.
pub proof fn lemma_pairs_view_lookup(s: Seq<(String, String)>, key: Seq<char>)
    ensures
        -1 <= last_index_of(s, key) < s.len(),
        pairs_view(s).contains_key(key) <==> last_index_of(s, key) >= 0,
        last_index_of(s, key) >= 0 ==> s[last_index_of(s, key)].0@ == key
            && pairs_view(s)[key] == s[last_index_of(s, key)].1@,
    decreases s.len(),
{
    if s.len() > 0 {
        lemma_pairs_view_lookup(s.drop_last(), key);
    }
}

/// Writing pairs after a list is overlaying them on the list's map.
pub proof fn lemma_pairs_view_append(a: Seq<(String, String)>, b: Seq<(String, String)>)
    ensures
        pairs_view(a + b) == overlay(pairs_view(a), b),
    decreases b.len(),
{
    if b.len() == 0 {
        assert(a + b =~= a);
    } else {
        lemma_pairs_view_append(a, b.drop_last());
        assert((a + b).drop_last() =~= a + b.drop_last());
        assert((a + b).last() == b.last());
    }
}

/// An immutable-by-default snapshot of environment variables: names mapped
/// to values, where a later assignment of a name replaces an earlier one.
pub struct EnvMap {
    entries: Vec<(String, String)>,
}

impl View for EnvMap {
    type V = Map<Seq<char>, Seq<char>>;

    closed spec fn view(&self) -> Map<Seq<char>, Seq<char>> {
        pairs_view(self.entries@)
    }
}

impl EnvMap {
    /// An environment with no variables.
    pub fn new() -> (r: EnvMap)
        ensures
            r@ == Map::<Seq<char>, Seq<char>>::empty(),
    {
        EnvMap { entries: Vec::new() }
    }

    /// The environment that the pairs describe, later pairs winning.
    pub fn from_pairs(pairs: Vec<(String, String)>) -> (r: EnvMap)
        ensures
            r@ == pairs_view(pairs@),
    {
        EnvMap { entries: pairs }
    }

    /// Sets `key` to `value`.
    pub fn insert(&mut self, key: String, value: String)
        ensures
            final(self)@ == old(self)@.insert(key@, value@),
    {
        let ghost before = self.entries@;
        self.entries.push((key, value));
        assert(self.entries@.drop_last() =~= before);
    }

    /// The value of `key`, if the environment has one.
    pub fn get(&self, key: &str) -> (r: Option<&String>)
        ensures
            r matches Some(v) ==> self@.contains_key(key@) && self@[key@] == v@,
            r is None ==> !self@.contains_key(key@),
    {
        let ghost s = self.entries@;
        let mut i: usize = self.entries.len();
        assert(s.subrange(0, i as int) =~= s);
        while i > 0
            invariant
                s == self.entries@,
                i <= s.len(),
                last_index_of(s, key@) == last_index_of(s.subrange(0, i as int), key@),
            decreases i,
        {
            let ghost pre = s.subrange(0, i as int);
            assert(pre.drop_last() =~= s.subrange(0, i - 1));
            if str_eq(self.entries[i - 1].0.as_str(), key) {
                proof {
                    lemma_pairs_view_lookup(s, key@);
                }
                return Some(&self.entries[i - 1].1);
            }
            i = i - 1;
        }
        proof {
            lemma_pairs_view_lookup(s, key@);
        }
        None
    }
}

/// The value of `key` in `env` as a string slice.
pub fn env_value<'a>(env: &'a EnvMap, key: &str) -> (r: Option<&'a str>)
    ensures
        opt_str_view(r) == env_lookup(env@, key@),
{
    match env.get(key) {
        Some(v) => Some(v.as_str()),
        None => None,
    }
}

/// The value of `key`, or `default` when the environment has none.
pub fn env_or(env: &EnvMap, key: &str, default: &str) -> (r: String)
    ensures
        r@ == env_or_spec(env@, key@, default@),
{
    match env_value(env, key) {
        Some(v) => String::from_str(v),
        None => String::from_str(default),
    }
}

/// The value of `key`; a missing value is the error `missing {key}`.
pub fn required(env: &EnvMap, key: &str) -> (r: Result<String, CliError>)
    ensures
        ok_view(r) == required_spec(env@, key@).ok(),
        err_of(r) == match required_spec(env@, key@) {
            Ok(_) => None,
            Err(e) => Some(e),
        },
{
    match env_value(env, key) {
        Some(v) => Ok(String::from_str(v)),
        None => Err(CliError::Missing { key: String::from_str(key) }),
    }
}

/// What the command-line parser reported: the command word, the options it
/// did not know, the errors it met, and the environment variables that the
/// given flags set, in the order the flags came.
pub struct ParsedFlags {
    pub command: String,
    pub unknown_options: Vec<String>,
    pub errors: Vec<String>,
    pub provided_flags: Vec<(String, String)>,
}

/// The environment `initial` with the variables set by command-line flags
/// written over it; later flags win over earlier ones.
pub fn get_env_map(initial: EnvMap, provided_flags: Vec<(String, String)>) -> (r: EnvMap)
    ensures
        r@ == overlay(initial@, provided_flags@),
{
    let mut entries = initial.entries;
    let ghost a = entries@;
    let mut provided = provided_flags;
    let ghost b = provided@;
    entries.append(&mut provided);
    proof {
        lemma_pairs_view_append(a, b);
    }
    EnvMap { entries }
}

/// Accepts what the command-line parser reported when it found no unknown
/// option and no error, giving the command and the merged environment.
pub fn apply_cli_flags(parsed: ParsedFlags, initial: EnvMap) -> (r: Result<(String, EnvMap), CliError>)
    ensures
        parsed.unknown_options@.len() == 0 && parsed.errors@.len() == 0 ==> (r matches Ok(
            (command, env),
        ) && command@ == parsed.command@ && env@ == overlay(initial@, parsed.provided_flags@)),
        parsed.unknown_options@.len() != 0 || parsed.errors@.len() != 0 ==> r == Err::<
            (String, EnvMap),
            CliError,
        >(CliError::InvalidArguments { unknown: parsed.unknown_options, errors: parsed.errors }),
{
    if !parsed.unknown_options.is_empty() || !parsed.errors.is_empty() {
        return Err(CliError::InvalidArguments {
            unknown: parsed.unknown_options,
            errors: parsed.errors,
        });
    }
    let command = parsed.command;
    Ok((command, get_env_map(initial, parsed.provided_flags)))
}

/// Flags override the base environment exactly where they set a name: a
/// name that some flag sets takes the value of the last such flag, and every
/// other name keeps its base value.
pub proof fn law_flags_override_base(
    base: Map<Seq<char>, Seq<char>>,
    flags: Seq<(String, String)>,
    key: Seq<char>,
)
    ensures
        last_index_of(flags, key) >= 0 ==> overlay(base, flags).contains_key(key)
            && overlay(base, flags)[key] == flags[last_index_of(flags, key)].1@,
        last_index_of(flags, key) < 0 ==> env_lookup(overlay(base, flags), key) == env_lookup(
            base,
            key,
        ),
    decreases flags.len(),
{
    if flags.len() > 0 {
        let p = flags.drop_last();
        law_flags_override_base(base, p, key);
        lemma_pairs_view_lookup(p, key);
        if last_index_of(p, key) >= 0 {
            assert(flags[last_index_of(p, key)] == p[last_index_of(p, key)]);
        }
    }
}

} // verus!
