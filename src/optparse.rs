//! The option parser behind the resolver: getopts, seen through a model of
//! plain values.
use vstd::prelude::*;

verus! {

/// One declared option: short name, long name, description, value hint, and
/// whether it takes a value.
pub type OptDecl = (Seq<char>, Seq<char>, Seq<char>, Seq<char>, bool);

/// What one parse matched: for each option name (short and long), the values
/// it was given in order (`None` where it was given without a value).
pub type MatchedValues = Map<Seq<char>, Seq<Option<Seq<char>>>>;

#[verifier::external_type_specification]
#[verifier::external_body]
pub struct ExOptions(getopts::Options);

#[verifier::external_type_specification]
#[verifier::external_body]
pub struct ExMatches(getopts::Matches);

#[verifier::external_type_specification]
#[verifier::external_body]
pub struct ExFail(getopts::Fail);

#[verifier::external_type_specification]
#[verifier::external_body]
pub struct ExParseIntError(std::num::ParseIntError);

/// The options declared on a getopts table, in order of declaration.
pub uninterp spec fn declared_options(o: getopts::Options) -> Seq<OptDecl>;

/// The values that a getopts match holds, by option name.
pub uninterp spec fn matched_values(m: getopts::Matches) -> MatchedValues;

/// The free (positional) arguments that a getopts match holds, in order.
pub uninterp spec fn matched_free(m: getopts::Matches) -> Seq<Seq<char>>;

/// What getopts makes of `tokens` under the option table `table`: `None` where
/// it refuses them, else the matched values and the free arguments.
pub uninterp spec fn getopts_outcome(table: Seq<OptDecl>, tokens: Seq<Seq<char>>) -> Option<
    (MatchedValues, Seq<Seq<char>>),
>;

/// The table keeps getopts' default parsing style (floating free arguments)
/// and its default of long names written with `--`, and every option on it is
/// optional and takes either a value or none (as `optflag` and `optopt` make
/// them), which is all that a declared option records.
pub uninterp spec fn default_style(o: getopts::Options) -> bool;

/// The usage text that getopts renders for `table` under the banner `brief`.
pub uninterp spec fn usage_text(table: Seq<OptDecl>, brief: Seq<char>) -> Seq<char>;

/// Every short and long name of the options in `table`.
pub open spec fn option_names(table: Seq<OptDecl>) -> Set<Seq<char>> {
    Set::new(|n: Seq<char>| exists|i: int| 0 <= i < table.len() && ((#[trigger] table[i]).0 == n || table[i].1 == n))
}

/// The views of a list of tokens.
pub open spec fn token_views(tokens: Seq<String>) -> Seq<Seq<char>> {
    tokens.map_values(|t: String| t@)
}

/// A name getopts accepts: a single ASCII character.
pub open spec fn valid_short(s: Seq<char>) -> bool {
    s.len() == 1 && (s[0] as u32) < 128
}

/// The first value given to option `name`, if it was given one.
pub open spec fn first_value(vals: MatchedValues, name: Seq<char>) -> Option<Seq<char>> {
    if vals[name].len() > 0 {
        vals[name][0]
    } else {
        None
    }
}

/// Relies on getopts::Options::new: a table with no options declared.
#[verifier::external_body]
pub(crate) fn new_table() -> (r: getopts::Options)
    ensures
        declared_options(r) == Seq::<OptDecl>::empty(),
        default_style(r),
{
    getopts::Options::new()
}

/// Relies on getopts::Options::optflag: appends an option without a value; it
/// panics unless the short name is one byte and the long one longer than a byte.
#[verifier::external_body]
pub(crate) fn add_flag(o: &mut getopts::Options, short: &str, long: &str, desc: &str)
    requires
        valid_short(short@),
        long@.len() >= 2,
    ensures
        declared_options(*final(o)) == declared_options(*old(o)).push(
            (short@, long@, desc@, Seq::<char>::empty(), false),
        ),
        default_style(*final(o)) == default_style(*old(o)),
{
    o.optflag(short, long, desc);
}

/// Relies on getopts::Options::optopt: appends an option that takes a value,
/// under the same conditions on its names as `optflag`.
#[verifier::external_body]
pub(crate) fn add_valued(o: &mut getopts::Options, short: &str, long: &str, desc: &str, hint: &str)
    requires
        valid_short(short@),
        long@.len() >= 2,
    ensures
        declared_options(*final(o)) == declared_options(*old(o)).push(
            (short@, long@, desc@, hint@, true),
        ),
        default_style(*final(o)) == default_style(*old(o)),
{
    o.optopt(short, long, desc, hint);
}

/// Relies on getopts::Options::parse: with the default parsing style the
/// outcome depends on the declared options and the tokens alone; a match
/// answers for every short and long name declared, and an option's short name
/// shares its entry with its long name unless an earlier option took that
/// short name.
#[verifier::external_body]
pub(crate) fn parse_tokens(o: &getopts::Options, tokens: &[String]) -> (r: Result<
    getopts::Matches,
    getopts::Fail,
>)
    requires
        default_style(*o),
    ensures
        match getopts_outcome(declared_options(*o), token_views(tokens@)) {
            None => r is Err,
            Some(res) => r matches Ok(m) && matched_values(m) == res.0 && matched_free(m) == res.1,
        },
        r matches Ok(m) ==> matched_values(m).dom() == option_names(declared_options(*o)),
        r matches Ok(m) ==> forall|i: int|
            0 <= i < declared_options(*o).len() && (forall|j: int|
                0 <= j < i ==> declared_options(*o)[j].0 != declared_options(*o)[i].0)
                ==> matched_values(m)[(#[trigger] declared_options(*o)[i]).0] == matched_values(
                m,
            )[declared_options(*o)[i].1],
{
    o.parse(tokens)
}

/// Relies on getopts::Options::usage: the rendered option table under `brief`,
/// which with the default style depends on the declared options alone.
#[verifier::external_body]
pub(crate) fn render_usage(o: &getopts::Options, brief: &str) -> (r: String)
    requires
        default_style(*o),
    ensures
        r@ == usage_text(declared_options(*o), brief@),
{
    o.usage(brief)
}

/// Relies on getopts::Matches::opt_present: whether the option was given at
/// least once; it panics on a name that was not declared.
#[verifier::external_body]
pub(crate) fn is_present(m: &getopts::Matches, name: &str) -> (r: bool)
    requires
        matched_values(*m).dom().contains(name@),
    ensures
        r == (matched_values(*m)[name@].len() > 0),
{
    m.opt_present(name)
}

/// Relies on getopts::Matches::opt_str: the first value given to the option.
#[verifier::external_body]
pub(crate) fn value_of(m: &getopts::Matches, name: &str) -> (r: Option<String>)
    requires
        matched_values(*m).dom().contains(name@),
    ensures
        match r {
            Some(s) => first_value(matched_values(*m), name@) == Some(s@),
            None => first_value(matched_values(*m), name@) is None,
        },
{
    m.opt_str(name)
}

/// Relies on the `free` field of getopts::Matches: the positional arguments.
#[verifier::external_body]
pub(crate) fn free_args(m: &getopts::Matches) -> (r: &Vec<String>)
    ensures
        token_views(r@) == matched_free(*m),
{
    &m.free
}

/// `s` is a non-empty run of ASCII decimal digits.
pub open spec fn all_digits(s: Seq<char>) -> bool {
    s.len() > 0 && forall|i: int| 0 <= i < s.len() ==> 48 <= (#[trigger] s[i] as u32) <= 57
}

/// The number that a run of decimal digits spells.
pub open spec fn digits_value(s: Seq<char>) -> nat
    decreases s.len(),
{
    if s.len() == 0 {
        0
    } else {
        digits_value(s.drop_last()) * 10 + (s.last() as u32 - 48) as nat
    }
}

/// `s` read as a `u64` the way std's `FromStr` documents it: an optional `+`,
/// then decimal digits, with a value in range; nothing else is accepted.
pub open spec fn u64_text(s: Seq<char>) -> Option<u64> {
    let body = if s.len() > 0 && s[0] == '+' {
        s.drop_first()
    } else {
        s
    };
    if all_digits(body) && digits_value(body) <= u64::MAX {
        Some(digits_value(body) as u64)
    } else {
        None
    }
}

/// `s` read as an `i32` the way std's `FromStr` documents it: an optional `+`
/// or `-`, then decimal digits, with a value in range.
pub open spec fn i32_text(s: Seq<char>) -> Option<i32> {
    if s.len() > 0 && s[0] == '-' {
        let body = s.drop_first();
        if all_digits(body) && digits_value(body) <= 0x8000_0000 {
            Some((-digits_value(body)) as i32)
        } else {
            None
        }
    } else {
        let body = if s.len() > 0 && s[0] == '+' {
            s.drop_first()
        } else {
            s
        };
        if all_digits(body) && digits_value(body) <= i32::MAX {
            Some(digits_value(body) as i32)
        } else {
            None
        }
    }
}

/// Relies on getopts::Matches::opt_get::<u64>: the first value given to the
/// option, read by u64's `FromStr`; `Ok(None)` where the option has no value.
#[verifier::external_body]
pub(crate) fn u64_value_of(m: &getopts::Matches, name: &str) -> (r: Result<
    Option<u64>,
    std::num::ParseIntError,
>)
    requires
        matched_values(*m).dom().contains(name@),
    ensures
        match first_value(matched_values(*m), name@) {
            None => r == Ok::<Option<u64>, std::num::ParseIntError>(None),
            Some(s) => match u64_text(s) {
                Some(n) => r == Ok::<Option<u64>, std::num::ParseIntError>(Some(n)),
                None => r is Err,
            },
        },
{
    m.opt_get::<u64>(name)
}

/// Relies on getopts::Matches::opt_get::<i32>: the first value given to the
/// option, read by i32's `FromStr`; `Ok(None)` where the option has no value.
#[verifier::external_body]
pub(crate) fn i32_value_of(m: &getopts::Matches, name: &str) -> (r: Result<
    Option<i32>,
    std::num::ParseIntError,
>)
    requires
        matched_values(*m).dom().contains(name@),
    ensures
        match first_value(matched_values(*m), name@) {
            None => r == Ok::<Option<i32>, std::num::ParseIntError>(None),
            Some(s) => match i32_text(s) {
                Some(n) => r == Ok::<Option<i32>, std::num::ParseIntError>(Some(n)),
                None => r is Err,
            },
        },
{
    m.opt_get::<i32>(name)
}

} // verus!
