//! The settings of a run: command-line flags, environment and defaults.

use vstd::prelude::*;
use crate::text::chars_of;
use crate::text::join_texts;
use crate::text::joined;
use crate::text::texts;

verus! {

/// The model where neither a flag nor the environment names one.
pub const DEFAULT_MODEL: &'static str = "gpt-4o";

/// The number of searches to plan at first, where none is given.
pub const DEFAULT_SEARCH_COUNT: u32 = 5;

/// The most rounds of reasoning, where no limit is given.
pub const DEFAULT_MAX_ITERATIONS: u32 = 10;

/// The most searches in all, where no limit is given.
pub const DEFAULT_MAX_SEARCHES: u32 = 15;

/// What the command line gave.
#[derive(Clone, Debug, PartialEq)]
pub struct Cli {
    /// The research query, one word per argument.
    pub query: Vec<String>,
    pub model: Option<String>,
    pub search_count: Option<u32>,
    pub max_iterations: Option<u32>,
    pub max_searches: Option<u32>,
    /// Ask for confirmation before the research proper starts.
    pub no_auto: bool,
    /// Report progress as one JSON object per line.
    pub json: bool,
    /// Report only the final result and errors.
    pub quiet: bool,
}

/// What the environment gave, each variable as it was found.
#[derive(Clone, Debug, PartialEq)]
pub struct Environment {
    pub model: Option<String>,
    pub search_count: Option<String>,
    pub max_iterations: Option<String>,
    pub max_searches: Option<String>,
}

/// The settings handed to the worker with the request.
#[derive(Debug, PartialEq)]
pub struct RequestConfig {
    pub model: String,
    pub search_count: u32,
    pub max_iterations: u32,
    pub max_searches: u32,
    pub auto_decide: bool,
}

/// The value of a [`RequestConfig`].
pub ghost struct RequestConfigView {
    pub model: Seq<char>,
    pub search_count: u32,
    pub max_iterations: u32,
    pub max_searches: u32,
    pub auto_decide: bool,
}

impl View for RequestConfig {
    type V = RequestConfigView;

    open spec fn view(&self) -> RequestConfigView {
        RequestConfigView {
            model: self.model@,
            search_count: self.search_count,
            max_iterations: self.max_iterations,
            max_searches: self.max_searches,
            auto_decide: self.auto_decide,
        }
    }
}

impl Clone for RequestConfig {
    fn clone(&self) -> (r: Self)
        ensures
            r@ == self@,
    {
        RequestConfig {
            model: self.model.clone(),
            search_count: self.search_count,
            max_iterations: self.max_iterations,
            max_searches: self.max_searches,
            auto_decide: self.auto_decide,
        }
    }
}

/// The number that a run of decimal digits stands for.
pub open spec fn digits_value(s: Seq<char>) -> nat
    decreases s.len(),
{
    if s.len() == 0 {
        0
    } else {
        (digits_value(s.drop_last()) * 10 + (s.last() as nat - 48)) as nat
    }
}

/// Whether every character is a decimal digit.
pub open spec fn all_digits(s: Seq<char>) -> bool {
    forall|i: int| 0 <= i < s.len() ==> '0' <= #[trigger] s[i] <= '9'
}

/// The number that a text stands for as a `u32`: an optional `+`, then one or
/// more decimal digits whose value fits.
pub open spec fn parsed_u32(s: Seq<char>) -> Option<u32> {
    let digits = if s.len() > 0 && s[0] == '+' {
        s.skip(1)
    } else {
        s
    };
    if digits.len() > 0 && all_digits(digits) && digits_value(digits) <= u32::MAX {
        Some(digits_value(digits) as u32)
    } else {
        None
    }
}

/// A longer run of digits stands for no smaller number.
proof fn lemma_digits_value_grows(s: Seq<char>, k: int)
    requires
        0 <= k <= s.len(),
        all_digits(s),
    ensures
        digits_value(s.take(k)) <= digits_value(s),
    decreases s.len() - k,
{
    if k < s.len() {
        let longer = s.take(k + 1);
        assert(longer.drop_last() =~= s.take(k));
        assert(longer.last() == s[k]);
        assert(digits_value(s.take(k)) <= digits_value(longer)) by (nonlinear_arith)
            requires
                digits_value(longer) == digits_value(s.take(k)) * 10 + (s[k] as nat - 48),
                s[k] as nat >= 48,
        ;
        lemma_digits_value_grows(s, k + 1);
    } else {
        assert(s.take(k) =~= s);
    }
}

/// Reads a `u32` as `str::parse` does: an optional `+` sign followed by
/// decimal digits only; nothing for an empty text, for any other character
/// and for a value that does not fit.
pub fn parse_u32(text: &str) -> (r: Option<u32>)
    ensures
        r == parsed_u32(text@),
{
    let chars = chars_of(text);
    let start: usize = if chars.len() > 0 && chars[0] == '+' {
        1
    } else {
        0
    };
    let ghost digits = chars@.skip(start as int);
    assert(digits =~= if text@.len() > 0 && text@[0] == '+' {
        text@.skip(1)
    } else {
        text@
    });
    if start >= chars.len() {
        return None;
    }
    let mut value: u64 = 0;
    let mut i: usize = start;
    while i < chars.len()
        invariant
            start <= i <= chars.len(),
            digits == chars@.skip(start as int),
            digits == if text@.len() > 0 && text@[0] == '+' {
                text@.skip(1)
            } else {
                text@
            },
            digits.len() == chars.len() - start > 0,
            all_digits(digits.take(i - start)),
            value == digits_value(digits.take(i - start)),
            value <= u32::MAX,
        decreases chars.len() - i,
    {
        let c = chars[i];
        assert(digits[i - start] == c);
        if !('0' <= c && c <= '9') {
            return None;
        }
        let ghost longer = digits.take(i - start + 1);
        assert(longer.drop_last() =~= digits.take(i - start));
        assert(longer.last() == c);
        value = value * 10 + (c as u64 - 48);
        assert(all_digits(longer)) by {
            assert forall|k: int| 0 <= k < longer.len() implies '0' <= #[trigger] longer[k]
                <= '9' by {
                if k < longer.len() - 1 {
                    assert(longer[k] == digits.take(i - start)[k]);
                }
            }
        }
        if value > u32::MAX as u64 {
            proof {
                if all_digits(digits) {
                    lemma_digits_value_grows(digits, i - start + 1);
                }
            }
            return None;
        }
        i += 1;
    }
    assert(digits.take(chars.len() - start) =~= digits);
    Some(value as u32)
}

/// A number setting: the flag where given, else the variable where it holds a
/// number, else the default.
pub open spec fn number_setting(flag: Option<u32>, variable: Option<String>, default: u32) -> u32 {
    match flag {
        Some(n) => n,
        None => match variable {
            Some(text) => match parsed_u32(text@) {
                Some(n) => n,
                None => default,
            },
            None => default,
        },
    }
}

/// The model setting: the flag where given, else the variable, else the default.
pub open spec fn model_setting(flag: Option<String>, variable: Option<String>) -> Seq<char> {
    match flag {
        Some(m) => m@,
        None => match variable {
            Some(m) => m@,
            None => DEFAULT_MODEL@,
        },
    }
}

fn resolve_number(flag: Option<u32>, variable: &Option<String>, default: u32) -> (n: u32)
    ensures
        n == number_setting(flag, *variable, default),
{
    match flag {
        Some(n) => n,
        None => match variable {
            Some(text) => match parse_u32(text.as_str()) {
                Some(n) => n,
                None => default,
            },
            None => default,
        },
    }
}

/// Merges flags, environment and defaults into the settings of a run. A flag
/// wins over the environment, and the environment over the default.
pub fn load_config(cli: &Cli, env: &Environment) -> (config: RequestConfig)
    ensures
        config.model@ == model_setting(cli.model, env.model),
        config.search_count == number_setting(
            cli.search_count,
            env.search_count,
            DEFAULT_SEARCH_COUNT,
        ),
        config.max_iterations == number_setting(
            cli.max_iterations,
            env.max_iterations,
            DEFAULT_MAX_ITERATIONS,
        ),
        config.max_searches == number_setting(
            cli.max_searches,
            env.max_searches,
            DEFAULT_MAX_SEARCHES,
        ),
        config.auto_decide == !cli.no_auto,
{
    let model = match &cli.model {
        Some(m) => m.clone(),
        None => match &env.model {
            Some(m) => m.clone(),
            None => String::from_str(DEFAULT_MODEL),
        },
    };
    RequestConfig {
        model,
        search_count: resolve_number(cli.search_count, &env.search_count, DEFAULT_SEARCH_COUNT),
        max_iterations: resolve_number(
            cli.max_iterations,
            &env.max_iterations,
            DEFAULT_MAX_ITERATIONS,
        ),
        max_searches: resolve_number(cli.max_searches, &env.max_searches, DEFAULT_MAX_SEARCHES),
        auto_decide: !cli.no_auto,
    }
}

impl Cli {
    /// Whether the run is a single query on the console rather than an
    /// interactive session: any of the two output flags, or a query.
    pub fn single_query(&self) -> (r: bool)
        ensures
            r == (self.json || self.quiet || self.query@.len() > 0),
    {
        self.json || self.quiet || self.query.len() > 0
    }

    /// The query as one text, its words joined by single spaces.
    pub fn query_text(&self) -> (r: String)
        ensures
            r@ == joined(texts(self.query@), " "@),
    {
        join_texts(&self.query, " ")
    }
}

/// The query of a single-query run: the words of the command line joined by
/// single spaces, or nothing where that leaves no query, in which case no run
/// is started.
pub fn single_query_text(cli: &Cli) -> (r: Option<String>)
    ensures
        r is None <==> joined(texts(cli.query@), " "@).len() == 0,
        r matches Some(query) ==> query@ == joined(texts(cli.query@), " "@),
{
    let query = cli.query_text();
    if query.as_str().is_empty() {
        None
    } else {
        Some(query)
    }
}

} // verus!
