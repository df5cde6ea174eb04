//! The option resolver: from argument tokens to a sparse configuration record.
use crate::optparse::{
    add_flag, add_valued, declared_options, default_style, first_value, free_args, getopts_outcome, i32_value_of, i32_text,
    is_present, matched_free, matched_values, new_table, option_names, parse_tokens,
    render_usage, token_views, u64_text, u64_value_of, usage_text, value_of, MatchedValues,
    OptDecl,
};
use vstd::prelude::*;

verus! {

/// The program's name, as the usage banner shows it.
pub const PROGRAM_NAME: &'static str = "weather";

/// The program's version, as the version request echoes it.
pub const PROGRAM_VERSION: &'static str = "0.1.0";

/// An index into the external, ordered list of location providers.
pub type LocationProvider = i32;

/// A temperature unit.
#[derive(Clone, Copy, Debug, PartialEq, Eq, Structural)]
pub enum Units {
    Celsius,
    Fahrenheit,
}

/// The resolved configuration: every field is either given or unspecified.
#[derive(Debug)]
pub struct Config {
    pub units: Option<Units>,
    pub connect_timeout: Option<u64>,
    pub timeout: Option<u64>,
    pub query: Option<String>,
    pub location_provider: Option<LocationProvider>,
    pub full_info: Option<bool>,
    pub silent: Option<bool>,
    pub version: Option<String>,
    pub help: Option<String>,
}

/// The one way the resolver fails: the tokens do not fit the option table.
#[derive(Debug)]
pub enum ArgsError {
    GetOpts(getopts::Fail),
}

/// The option resolver.
pub struct Args(Config);

pub type ArgsResult = Result<Config, ArgsError>;

/// The declared option table, in the order the usage text lists it.
pub open spec fn option_table() -> Seq<OptDecl> {
    seq![
        ("m"@, "metric"@, "Weather in metric units (compatibility)"@, Seq::<char>::empty(), false),
        ("i"@, "imperial"@, "Weather in imperial units (compatibility)"@, Seq::<char>::empty(), false),
        ("u"@, "unit"@, "Unit of measurement"@, "[C]elsius or [F]ahrenheit"@, true),
        ("c"@, "connect-timeout"@, "Connect timeout (in seconds)"@, "5"@, true),
        ("t"@, "timeout"@, "Timeout (in seconds)"@, "30"@, true),
        ("p"@, "location-provider"@, "Location provider"@, "0 to 3"@, true),
        ("f"@, "full-info"@, "Full weather information"@, Seq::<char>::empty(), false),
        ("s"@, "silent"@, "Silent mode"@, Seq::<char>::empty(), false),
        ("v"@, "version"@, "Print program version"@, Seq::<char>::empty(), false),
        ("h"@, "help"@, "Print this help menu"@, Seq::<char>::empty(), false),
    ]
}

/// The first line of the usage text.
pub open spec fn usage_banner() -> Seq<char> {
    "Usage: "@ + PROGRAM_NAME@ + " [options] [city name[,state code][,country code]]"@
}

/// Option `name` was given at least once.
pub open spec fn present(vals: MatchedValues, name: Seq<char>) -> bool {
    vals[name].len() > 0
}

/// `a` and `b` are the same character up to ASCII case.
pub open spec fn same_ignoring_ascii_case(a: char, b: char) -> bool {
    a == b || (65 <= (a as u32) <= 90 && (a as u32) + 32 == (b as u32)) || (65 <= (b as u32)
        <= 90 && (b as u32) + 32 == (a as u32))
}

/// `a` and `b` are the same text up to ASCII case.
pub open spec fn eq_ignoring_ascii_case(a: Seq<char>, b: Seq<char>) -> bool {
    a.len() == b.len() && forall|i: int|
        0 <= i < a.len() ==> same_ignoring_ascii_case(#[trigger] a[i], b[i])
}

/// Unit precedence: metric, then imperial, then an explicit C or F in any case.
pub open spec fn resolved_units(vals: MatchedValues) -> Option<Units> {
    if present(vals, "m"@) {
        Some(Units::Celsius)
    } else if present(vals, "i"@) {
        Some(Units::Fahrenheit)
    } else {
        let u = match first_value(vals, "u"@) {
            Some(s) => s,
            None => Seq::<char>::empty(),
        };
        if eq_ignoring_ascii_case(u, "C"@) {
            Some(Units::Celsius)
        } else if eq_ignoring_ascii_case(u, "F"@) {
            Some(Units::Fahrenheit)
        } else {
            None
        }
    }
}

/// A count of seconds: unspecified where absent or not a valid count.
pub open spec fn resolved_seconds(vals: MatchedValues, name: Seq<char>) -> Option<u64> {
    match first_value(vals, name) {
        Some(s) => u64_text(s),
        None => None,
    }
}

/// The provider index: unspecified where absent or not a valid integer.
pub open spec fn resolved_provider(vals: MatchedValues) -> Option<LocationProvider> {
    match first_value(vals, "p"@) {
        Some(s) => i32_text(s),
        None => None,
    }
}

/// A flag: given as true where present, else unspecified (never false).
pub open spec fn resolved_flag(vals: MatchedValues, name: Seq<char>) -> Option<bool> {
    if present(vals, name) {
        Some(true)
    } else {
        None
    }
}

/// The query: the first positional token, verbatim.
pub open spec fn resolved_query(free: Seq<Seq<char>>) -> Option<Seq<char>> {
    if free.len() > 0 {
        Some(free[0])
    } else {
        None
    }
}

/// The version text, where asked for.
pub open spec fn resolved_version(vals: MatchedValues) -> Option<Seq<char>> {
    if present(vals, "v"@) {
        Some(PROGRAM_VERSION@)
    } else {
        None
    }
}

/// The usage text rendered from the option table, where asked for.
pub open spec fn resolved_help(vals: MatchedValues) -> Option<Seq<char>> {
    if present(vals, "h"@) {
        Some(usage_text(option_table(), usage_banner()))
    } else {
        None
    }
}

/// The view of an optional string.
pub open spec fn text_view(o: Option<String>) -> Option<Seq<char>> {
    match o {
        Some(s) => Some(s@),
        None => None,
    }
}

/// `o` is the record resolved from the matched values and positional tokens.
pub open spec fn resolves_to(o: Config, vals: MatchedValues, free: Seq<Seq<char>>) -> bool {
    &&& o.units == resolved_units(vals)
    &&& o.connect_timeout == resolved_seconds(vals, "c"@)
    &&& o.timeout == resolved_seconds(vals, "t"@)
    &&& text_view(o.query) == resolved_query(free)
    &&& o.location_provider == resolved_provider(vals)
    &&& o.full_info == resolved_flag(vals, "f"@)
    &&& o.silent == resolved_flag(vals, "s"@)
    &&& text_view(o.version) == resolved_version(vals)
    &&& text_view(o.help) == resolved_help(vals)
}

/// A match against the option table answers for each of its names.
pub open spec fn answers_table(m: getopts::Matches) -> bool {
    matched_values(m).dom() == option_names(option_table())
}

/// The names that the resolver asks about are all in the option table.
proof fn lemma_table_names()
    ensures
        option_names(option_table()).contains("m"@),
        option_names(option_table()).contains("i"@),
        option_names(option_table()).contains("u"@),
        option_names(option_table()).contains("c"@),
        option_names(option_table()).contains("t"@),
        option_names(option_table()).contains("p"@),
        option_names(option_table()).contains("f"@),
        option_names(option_table()).contains("s"@),
        option_names(option_table()).contains("v"@),
        option_names(option_table()).contains("h"@),
{
    let t = option_table();
    assert(t[0].0 == "m"@);
    assert(t[1].0 == "i"@);
    assert(t[2].0 == "u"@);
    assert(t[3].0 == "c"@);
    assert(t[4].0 == "t"@);
    assert(t[5].0 == "p"@);
    assert(t[6].0 == "f"@);
    assert(t[7].0 == "s"@);
    assert(t[8].0 == "v"@);
    assert(t[9].0 == "h"@);
}

/// Whether two texts are equal up to ASCII case.
fn ascii_case_eq(a: &str, b: &str) -> (r: bool)
    ensures
        r == eq_ignoring_ascii_case(a@, b@),
{
    let n = a.unicode_len();
    if n != b.unicode_len() {
        return false;
    }
    let mut i: usize = 0;
    while i < n
        invariant
            n == a@.len() == b@.len(),
            i <= n,
            forall|k: int| 0 <= k < i ==> same_ignoring_ascii_case(#[trigger] a@[k], b@[k]),
        decreases n - i,
    {
        let x = a.get_char(i);
        let y = b.get_char(i);
        let same = x == y || ('A' <= x && x <= 'Z' && (x as u32) + 32 == (y as u32)) || (
        'A' <= y && y <= 'Z' && (y as u32) + 32 == (x as u32));
        if !same {
            return false;
        }
        i = i + 1;
    }
    true
}

impl Args {
    /// The getopts table that declares every option.
    pub fn new() -> (r: getopts::Options)
        ensures
            declared_options(r) == option_table(),
            default_style(r),
    {
        proof {
            reveal_strlit("m");
            reveal_strlit("metric");
            reveal_strlit("i");
            reveal_strlit("imperial");
            reveal_strlit("u");
            reveal_strlit("unit");
            reveal_strlit("c");
            reveal_strlit("connect-timeout");
            reveal_strlit("t");
            reveal_strlit("timeout");
            reveal_strlit("p");
            reveal_strlit("location-provider");
            reveal_strlit("f");
            reveal_strlit("full-info");
            reveal_strlit("s");
            reveal_strlit("silent");
            reveal_strlit("v");
            reveal_strlit("version");
            reveal_strlit("h");
            reveal_strlit("help");
        }
        let mut opts = new_table();
        add_flag(&mut opts, "m", "metric", "Weather in metric units (compatibility)");
        add_flag(&mut opts, "i", "imperial", "Weather in imperial units (compatibility)");
        add_valued(&mut opts, "u", "unit", "Unit of measurement", "[C]elsius or [F]ahrenheit");
        add_valued(&mut opts, "c", "connect-timeout", "Connect timeout (in seconds)", "5");
        add_valued(&mut opts, "t", "timeout", "Timeout (in seconds)", "30");
        add_valued(&mut opts, "p", "location-provider", "Location provider", "0 to 3");
        add_flag(&mut opts, "f", "full-info", "Full weather information");
        add_flag(&mut opts, "s", "silent", "Silent mode");
        add_flag(&mut opts, "v", "version", "Print program version");
        add_flag(&mut opts, "h", "help", "Print this help menu");
        assert(declared_options(opts) =~= option_table());
        opts
    }

    fn parse_units(matches: &getopts::Matches) -> (r: Option<Units>)
        requires
            answers_table(*matches),
        ensures
            r == resolved_units(matched_values(*matches)),
    {
        proof {
            lemma_table_names();
        }
        if is_present(matches, "m") {
            Some(Units::Celsius)
        } else if is_present(matches, "i") {
            Some(Units::Fahrenheit)
        } else {
            let units = match value_of(matches, "u") {
                Some(s) => s,
                None => String::new(),
            };
            if ascii_case_eq(units.as_str(), "C") {
                Some(Units::Celsius)
            } else if ascii_case_eq(units.as_str(), "F") {
                Some(Units::Fahrenheit)
            } else {
                None
            }
        }
    }

    fn parse_connect_timeout(matches: &getopts::Matches) -> (r: Option<u64>)
        requires
            answers_table(*matches),
        ensures
            r == resolved_seconds(matched_values(*matches), "c"@),
    {
        proof {
            lemma_table_names();
        }
        match u64_value_of(matches, "c") {
            Ok(v) => v,
            Err(_) => None,
        }
    }

    fn parse_timeout(matches: &getopts::Matches) -> (r: Option<u64>)
        requires
            answers_table(*matches),
        ensures
            r == resolved_seconds(matched_values(*matches), "t"@),
    {
        proof {
            lemma_table_names();
        }
        match u64_value_of(matches, "t") {
            Ok(v) => v,
            Err(_) => None,
        }
    }

    fn parse_query(matches: &getopts::Matches) -> (r: Option<String>)
        ensures
            text_view(r) == resolved_query(matched_free(*matches)),
    {
        let free = free_args(matches);
        if free.len() == 0 {
            None
        } else {
            assert(free@[0]@ == token_views(free@)[0]);
            Some(free[0].clone())
        }
    }

    fn parse_location_provider(matches: &getopts::Matches) -> (r: Option<LocationProvider>)
        requires
            answers_table(*matches),
        ensures
            r == resolved_provider(matched_values(*matches)),
    {
        proof {
            lemma_table_names();
        }
        match i32_value_of(matches, "p") {
            Ok(v) => v,
            Err(_) => None,
        }
    }

    fn parse_full_info(matches: &getopts::Matches) -> (r: Option<bool>)
        requires
            answers_table(*matches),
        ensures
            r == resolved_flag(matched_values(*matches), "f"@),
    {
        proof {
            lemma_table_names();
        }
        if is_present(matches, "f") {
            Some(true)
        } else {
            None
        }
    }

    fn parse_silent(matches: &getopts::Matches) -> (r: Option<bool>)
        requires
            answers_table(*matches),
        ensures
            r == resolved_flag(matched_values(*matches), "s"@),
    {
        proof {
            lemma_table_names();
        }
        if is_present(matches, "s") {
            Some(true)
        } else {
            None
        }
    }

    fn parse_version(matches: &getopts::Matches) -> (r: Option<String>)
        requires
            answers_table(*matches),
        ensures
            text_view(r) == resolved_version(matched_values(*matches)),
    {
        proof {
            lemma_table_names();
        }
        if is_present(matches, "v") {
            Some(PROGRAM_VERSION.to_owned())
        } else {
            None
        }
    }

    fn parse_help(opts: &getopts::Options, matches: &getopts::Matches) -> (r: Option<String>)
        requires
            declared_options(*opts) == option_table(),
            default_style(*opts),
            answers_table(*matches),
        ensures
            text_view(r) == resolved_help(matched_values(*matches)),
    {
        proof {
            lemma_table_names();
        }
        if is_present(matches, "h") {
            let mut brief = String::from_str("Usage: ");
            brief.append(PROGRAM_NAME);
            brief.append(" [options] [city name[,state code][,country code]]");
            Some(render_usage(opts, brief.as_str()))
        } else {
            None
        }
    }

    /// Resolves a getopts match against the option table into the record.
    pub fn resolve(opts: &getopts::Options, matches: &getopts::Matches) -> (r: Config)
        requires
            declared_options(*opts) == option_table(),
            default_style(*opts),
            answers_table(*matches),
        ensures
            resolves_to(r, matched_values(*matches), matched_free(*matches)),
    {
        Config {
            units: Self::parse_units(matches),
            connect_timeout: Self::parse_connect_timeout(matches),
            timeout: Self::parse_timeout(matches),
            query: Self::parse_query(matches),
            location_provider: Self::parse_location_provider(matches),
            full_info: Self::parse_full_info(matches),
            silent: Self::parse_silent(matches),
            version: Self::parse_version(matches),
            help: Self::parse_help(opts, matches),
        }
    }

    /// Resolves argument tokens (the program name excluded) into the record;
    /// fails exactly where getopts refuses the tokens.
    pub fn parse(args: &[String]) -> (r: ArgsResult)
        ensures
            match getopts_outcome(option_table(), token_views(args@)) {
                None => r is Err,
                Some(res) => r matches Ok(o) && resolves_to(o, res.0, res.1),
            },
    {
        let opts = Self::new();
        match parse_tokens(&opts, args) {
            Ok(matches) => Ok(Self::resolve(&opts, &matches)),
            Err(f) => Err(ArgsError::GetOpts(f)),
        }
    }
}

/// Metric beats imperial: a record resolved from a match holding both the
/// metric and the imperial flag, in any order, has the unit Celsius.
pub proof fn lemma_metric_beats_imperial(o: Config, vals: MatchedValues, free: Seq<Seq<char>>)
    requires
        resolves_to(o, vals, free),
        present(vals, "m"@),
        present(vals, "i"@),
    ensures
        o.units == Some(Units::Celsius),
{
}

/// Imperial beats an explicit unit: with the imperial flag and an explicit
/// unit `C`, and without the metric flag, the unit is Fahrenheit.
pub proof fn lemma_imperial_beats_explicit_unit(
    o: Config,
    vals: MatchedValues,
    free: Seq<Seq<char>>,
)
    requires
        resolves_to(o, vals, free),
        !present(vals, "m"@),
        present(vals, "i"@),
        first_value(vals, "u"@) == Some("C"@),
    ensures
        o.units == Some(Units::Fahrenheit),
{
}

/// The explicit unit ignores case: matches that differ only in an explicit
/// unit of `c` against `C` resolve to the same unit.
pub proof fn lemma_unit_ignores_case(a: MatchedValues, b: MatchedValues)
    requires
        present(a, "m"@) == present(b, "m"@),
        present(a, "i"@) == present(b, "i"@),
        first_value(a, "u"@) == Some("c"@),
        first_value(b, "u"@) == Some("C"@),
    ensures
        resolved_units(a) == resolved_units(b),
{
    reveal_strlit("c");
    reveal_strlit("C");
    reveal_strlit("F");
    assert(eq_ignoring_ascii_case("c"@, "C"@));
    assert(eq_ignoring_ascii_case("C"@, "C"@));
    assert(!same_ignoring_ascii_case("c"@[0], "F"@[0]));
    assert(!eq_ignoring_ascii_case("c"@, "F"@));
    assert(!eq_ignoring_ascii_case("C"@, "F"@));
}

/// Without any unit flag the unit is unspecified.
pub proof fn lemma_no_unit_flag(o: Config, vals: MatchedValues, free: Seq<Seq<char>>)
    requires
        resolves_to(o, vals, free),
        !present(vals, "m"@),
        !present(vals, "i"@),
        !present(vals, "u"@),
    ensures
        o.units is None,
{
    reveal_strlit("C");
    reveal_strlit("F");
}

/// The query is the first positional token, verbatim, and unspecified only
/// where there is none.
pub proof fn lemma_query_verbatim(o: Config, vals: MatchedValues, free: Seq<Seq<char>>)
    requires
        resolves_to(o, vals, free),
    ensures
        free.len() > 0 ==> text_view(o.query) == Some(free[0]),
        free.len() == 0 ==> o.query is None,
{
}

/// The full-info and silent flags are true exactly where given, and never
/// false: absent, they are unspecified.
pub proof fn lemma_flags_never_false(o: Config, vals: MatchedValues, free: Seq<Seq<char>>)
    requires
        resolves_to(o, vals, free),
    ensures
        o.full_info != Some(false),
        o.silent != Some(false),
        o.full_info == Some(true) <==> present(vals, "f"@),
        o.silent == Some(true) <==> present(vals, "s"@),
        o.full_info is None <==> !present(vals, "f"@),
        o.silent is None <==> !present(vals, "s"@),
{
}

/// The help text is the usage rendered from the declared option table alone:
/// every record that asks for help, whatever else it holds, carries exactly
/// those bytes, and a record that does not ask carries none.
pub proof fn lemma_help_from_table(
    o1: Config,
    v1: MatchedValues,
    f1: Seq<Seq<char>>,
    o2: Config,
    v2: MatchedValues,
    f2: Seq<Seq<char>>,
)
    requires
        resolves_to(o1, v1, f1),
        resolves_to(o2, v2, f2),
    ensures
        present(v1, "h"@) ==> text_view(o1.help) == Some(usage_text(option_table(), usage_banner())),
        !present(v1, "h"@) ==> o1.help is None,
        present(v1, "h"@) && present(v2, "h"@) ==> text_view(o1.help) == text_view(o2.help),
{
}

/// A connect timeout that is not a valid count of seconds is unspecified.
pub proof fn lemma_malformed_timeout_unspecified(o: Config, vals: MatchedValues, free: Seq<Seq<char>>)
    requires
        resolves_to(o, vals, free),
        first_value(vals, "c"@) matches Some(s) && u64_text(s) is None,
    ensures
        o.connect_timeout is None,
{
}

} // verus!
