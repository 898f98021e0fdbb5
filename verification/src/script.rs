use vstd::prelude::*;
use rand::seq::SliceRandom;
use rand::Rng;
use std::fmt::Write;
use crate::urn::Urn;

verus! {

/// A JSON number as `serde_json` holds it: a non-negative integer, a negative
/// integer, or a float (kept as its IEEE-754 bits).
#[derive(PartialEq, Eq, Structural, Clone, Copy)]
pub enum JsonNumber {
    PosInt(u64),
    NegInt(i64),
    Float(u64),
}

/// A JSON value.
pub enum JsonValue {
    Null,
    Bool(bool),
    Number(JsonNumber),
    String(String),
    Array(Vec<JsonValue>),
    Object(Vec<(String, JsonValue)>),
}

/// Why a script function refused its arguments.
#[derive(PartialEq, Eq, Structural, Clone, Copy, Debug)]
pub enum ArgError {
    /// `expected a string`
    ExpectedString,
    /// `expected a usize`
    ExpectedUnsigned,
    /// `expected an array`
    ExpectedArray,
    /// `invalid args`
    InvalidArgs,
    /// `today only supports a string`
    TodayNeedsString,
    /// `get only supports a string`
    GetNeedsString,
    /// `fetch only supports a string`
    FetchNeedsString,
    /// `llm only supports a string`
    LlmNeedsString,
    /// The date format could not be written.
    InvalidDateFormat,
    /// `query failed`: the selector matched nothing, or is not a selector.
    QueryFailed,
    /// The HTML text is too long for the parser.
    HtmlTooLong,
    /// The sections argument is not a list of sections.
    InvalidSections,
}

/// The string a JSON value holds, if it is one.
pub open spec fn spec_as_string(v: JsonValue) -> Option<Seq<char>> {
    match v {
        JsonValue::String(s) => Some(s@),
        _ => None,
    }
}

/// The unsigned integer a JSON value holds, if it is a number that fits `u64`.
pub open spec fn spec_as_u64(v: JsonValue) -> Option<u64> {
    match v {
        JsonValue::Number(JsonNumber::PosInt(n)) => Some(n),
        _ => None,
    }
}

/// A string argument, else `expected a string`.
pub fn as_string(value: &JsonValue) -> (r: Result<String, ArgError>)
    ensures
        match spec_as_string(*value) {
            Some(s) => r matches Ok(t) && t@ == s,
            None => r == Err::<String, ArgError>(ArgError::ExpectedString),
        },
{
    match value {
        JsonValue::String(s) => Ok(s.clone()),
        _ => Err(ArgError::ExpectedString),
    }
}

/// An unsigned integer argument, else `expected a usize`.
pub fn as_u64(value: &JsonValue) -> (r: Result<u64, ArgError>)
    ensures
        match spec_as_u64(*value) {
            Some(n) => r == Ok::<u64, ArgError>(n),
            None => r == Err::<u64, ArgError>(ArgError::ExpectedUnsigned),
        },
{
    match value {
        JsonValue::Number(JsonNumber::PosInt(n)) => Ok(*n),
        _ => Err(ArgError::ExpectedUnsigned),
    }
}

/// An array argument, else `expected an array`.
pub fn as_array(value: &JsonValue) -> (r: Result<&Vec<JsonValue>, ArgError>)
    ensures
        match *value {
            JsonValue::Array(a) => r matches Ok(b) && *b == a,
            _ => r == Err::<&Vec<JsonValue>, ArgError>(ArgError::ExpectedArray),
        },
{
    match value {
        JsonValue::Array(a) => Ok(a),
        _ => Err(ArgError::ExpectedArray),
    }
}

/// The placeholder implementations behind the first script functions.
pub struct Imports;

impl Imports {
    /// Resolving a URN is not implemented yet: the URN text itself is returned.
    pub fn get(&self, urn: Urn) -> (r: String)
        ensures
            r@ == urn.0@,
    {
        urn.0
    }

    /// Fetching is not implemented yet: the URL itself is returned.
    pub fn fetch(&self, url: String) -> (r: String)
        ensures
            r@ == url@,
    {
        url
    }

    /// The current local date in the `strftime` format given; `None` where
    /// the formatter refuses to write it (a malformed format), where the
    /// string conversion would panic. What the conversions write depends on
    /// the clock; a format without them is written as its literal text.
    pub fn today(&self, format: String) -> (r: Option<String>)
        ensures
            (r is Some && r->0@ == strftime_literal(format@)->0) || strftime_literal(format@) is None,
            r is Some == strftime_valid(format@),
            strftime_simple(format@) ==> r is Some,
    {
        local_now_formatted(format.as_str())
    }

    /// Asking a language model is not implemented yet: the answer is `llm`.
    pub fn llm(&self, prompt: String) -> (r: String)
        ensures
            r@ == "llm"@,
    {
        "llm".to_owned()
    }
}

/// The one string argument of a function that takes exactly one string.
pub open spec fn single_string(args: Seq<JsonValue>) -> Option<Seq<char>> {
    if args.len() == 1 {
        spec_as_string(args[0])
    } else {
        None
    }
}

fn only_string(args: &Vec<JsonValue>, refusal: ArgError) -> (r: Result<String, ArgError>)
    ensures
        match single_string(args@) {
            Some(s) => r matches Ok(t) && t@ == s,
            None => r == Err::<String, ArgError>(refusal),
        },
{
    if args.len() == 1 {
        match &args[0] {
            JsonValue::String(s) => Ok(s.clone()),
            _ => Err(refusal),
        }
    } else {
        Err(refusal)
    }
}

/// `get(urn)`: exactly one string, answered by [`Imports::get`].
pub fn import_get(args: &Vec<JsonValue>) -> (r: Result<JsonValue, ArgError>)
    ensures
        match single_string(args@) {
            Some(s) => r matches Ok(JsonValue::String(t)) && t@ == s,
            None => r == Err::<JsonValue, ArgError>(ArgError::GetNeedsString),
        },
{
    let urn = only_string(args, ArgError::GetNeedsString)?;
    Ok(JsonValue::String(Imports.get(Urn(urn))))
}

/// `fetch(url)`: exactly one string, answered by [`Imports::fetch`].
pub fn import_fetch(args: &Vec<JsonValue>) -> (r: Result<JsonValue, ArgError>)
    ensures
        match single_string(args@) {
            Some(s) => r matches Ok(JsonValue::String(t)) && t@ == s,
            None => r == Err::<JsonValue, ArgError>(ArgError::FetchNeedsString),
        },
{
    let url = only_string(args, ArgError::FetchNeedsString)?;
    Ok(JsonValue::String(Imports.fetch(url)))
}

/// `llm(prompt)`: exactly one string, answered by [`Imports::llm`].
pub fn import_llm(args: &Vec<JsonValue>) -> (r: Result<JsonValue, ArgError>)
    ensures
        match single_string(args@) {
            Some(_) => r matches Ok(JsonValue::String(t)) && t@ == "llm"@,
            None => r == Err::<JsonValue, ArgError>(ArgError::LlmNeedsString),
        },
{
    let prompt = only_string(args, ArgError::LlmNeedsString)?;
    Ok(JsonValue::String(Imports.llm(prompt)))
}

/// `today(format)` as the first script functions take it: exactly one
/// string, answered by [`Imports::today`]; a format the formatter refuses to
/// write is refused.
pub fn import_today(args: &Vec<JsonValue>) -> (r: Result<JsonValue, ArgError>)
    ensures
        single_string(args@) is None ==> r == Err::<JsonValue, ArgError>(ArgError::TodayNeedsString),
        single_string(args@) is Some ==> (r matches Ok(JsonValue::String(_)) || r == Err::<JsonValue, ArgError>(
            ArgError::InvalidDateFormat,
        )),
        single_string(args@) is Some && strftime_literal(single_string(args@)->0) is Some ==> (r matches Ok(
            JsonValue::String(t),
        ) && t@ == strftime_literal(single_string(args@)->0)->0),
        single_string(args@) is Some ==> (r is Ok <==> strftime_valid(single_string(args@)->0)),
        single_string(args@) is Some && strftime_simple(single_string(args@)->0) ==> r is Ok,
{
    let format = only_string(args, ArgError::TodayNeedsString)?;
    match Imports.today(format) {
        Some(t) => Ok(JsonValue::String(t)),
        None => Err(ArgError::InvalidDateFormat),
    }
}

/// The text a `strftime` format writes when it holds no conversion that
/// reads the clock: `%%` writes `%`, `%n` a line feed, `%t` a tab, and every
/// other character itself. `None` when the format holds any other `%`
/// sequence (a conversion, a padded one, or a lone `%` at the end).
pub open spec fn strftime_literal(f: Seq<char>) -> Option<Seq<char>>
    decreases f.len(),
{
    if f.len() == 0 {
        Some(Seq::empty())
    } else if f[0] == '%' {
        if f.len() >= 2 && (f[1] == '%' || f[1] == 'n' || f[1] == 't') {
            let c = if f[1] == '%' {
                '%'
            } else if f[1] == 'n' {
                '\n'
            } else {
                '\t'
            };
            match strftime_literal(f.skip(2)) {
                Some(rest) => Some(seq![c] + rest),
                None => None,
            }
        } else {
            None
        }
    } else {
        match strftime_literal(f.skip(1)) {
            Some(rest) => Some(seq![f[0]] + rest),
            None => None,
        }
    }
}

/// `chrono` accepts `format` as a `strftime` format: its `StrftimeItems`
/// yield no error item. A local date and time carries every field the
/// conversions read, so writing one in an accepted format never fails.
pub uninterp spec fn strftime_valid(format: Seq<char>) -> bool;

/// The one-character conversions `chrono` accepts after `%`, with no padding
/// modifier: `%A %B %C %D %F %G %H %I %M %P %R %S %T %U %V %W %X %Y %Z %a
/// %b %h %c %d %e %f %g %j %k %l %m %n %p %q %r %s %t %u %v %w %x %y %z %+ %%`.
pub open spec fn simple_conversion(c: char) -> bool {
    ||| c == 'A' || c == 'B' || c == 'C' || c == 'D' || c == 'F' || c == 'G' || c == 'H' || c == 'I'
    ||| c == 'M' || c == 'P' || c == 'R' || c == 'S' || c == 'T' || c == 'U' || c == 'V' || c == 'W'
    ||| c == 'X' || c == 'Y' || c == 'Z' || c == 'a' || c == 'b' || c == 'h' || c == 'c' || c == 'd'
    ||| c == 'e' || c == 'f' || c == 'g' || c == 'j' || c == 'k' || c == 'l' || c == 'm' || c == 'n'
    ||| c == 'p' || c == 'q' || c == 'r' || c == 's' || c == 't' || c == 'u' || c == 'v' || c == 'w'
    ||| c == 'x' || c == 'y' || c == 'z' || c == '+' || c == '%'
}

/// A format made of plain characters and one-character conversions only:
/// every `%` is followed by a [`simple_conversion`].
pub open spec fn strftime_simple(f: Seq<char>) -> bool
    decreases f.len(),
{
    if f.len() == 0 {
        true
    } else if f[0] == '%' {
        f.len() >= 2 && simple_conversion(f[1]) && strftime_simple(f.skip(2))
    } else {
        strftime_simple(f.skip(1))
    }
}

/// `chrono::Local::now().format(format)` written into a string; `None` when
/// the formatter reports an error (which `to_string` would turn into a panic).
/// Whether it succeeds depends on the format alone (named by
/// [`strftime_valid`]); a format of plain characters and one-character
/// conversions always succeeds. What the conversions write depends on the
/// clock and is not stated; a format without conversions is written as its
/// literal text, as chrono's `StrftimeItems` reads it (literal and space
/// items are written verbatim, `%%`, `%n` and `%t` as `%`, line feed and tab).
#[verifier::external_body]
fn local_now_formatted(format: &str) -> (r: Option<String>)
    ensures
        (r is Some && r->0@ == strftime_literal(format@)->0) || strftime_literal(format@) is None,
        r is Some == strftime_valid(format@),
        strftime_simple(format@) ==> r is Some,
{
    let mut out = String::new();
    match write!(out, "{}", chrono::Local::now().format(format)) {
        Ok(()) => Some(out),
        Err(_) => None,
    }
}

/// `today(format)`: the current local date in the given `strftime` format.
/// The first argument must be a string; a format the formatter cannot write
/// is refused.
pub fn today(evaluated: &Vec<JsonValue>) -> (r: Result<String, ArgError>)
    requires
        evaluated@.len() >= 1,
    ensures
        spec_as_string(evaluated@[0]) is None ==> r == Err::<String, ArgError>(ArgError::ExpectedString),
        spec_as_string(evaluated@[0]) is Some ==> (r is Ok || r == Err::<String, ArgError>(
            ArgError::InvalidDateFormat,
        )),
        spec_as_string(evaluated@[0]) is Some && strftime_literal(spec_as_string(evaluated@[0])->0) is Some ==> (
        r matches Ok(t) && t@ == strftime_literal(spec_as_string(evaluated@[0])->0)->0),
        spec_as_string(evaluated@[0]) is Some ==> (r is Ok <==> strftime_valid(spec_as_string(evaluated@[0])->0)),
        spec_as_string(evaluated@[0]) is Some && strftime_simple(spec_as_string(evaluated@[0])->0) ==> r is Ok,
{
    let format = as_string(&evaluated[0])?;
    match local_now_formatted(format.as_str()) {
        Some(t) => Ok(t),
        None => Err(ArgError::InvalidDateFormat),
    }
}

/// The id argument of the functions that look one record up
/// (`get_podcast`, `get_episode`, `get_comment`, `get_script`,
/// `get_podcast_mails`): the first argument, a string.
pub fn id_argument(evaluated: &Vec<JsonValue>) -> (r: Result<String, ArgError>)
    requires
        evaluated@.len() >= 1,
    ensures
        match spec_as_string(evaluated@[0]) {
            Some(s) => r matches Ok(t) && t@ == s,
            None => r == Err::<String, ArgError>(ArgError::ExpectedString),
        },
{
    as_string(&evaluated[0])
}

/// The first `n` arguments, each a string; the first one that is not refuses them all.
pub open spec fn strings_prefix(args: Seq<JsonValue>, n: int) -> Option<Seq<Seq<char>>>
    decreases n,
{
    if n <= 0 {
        Some(Seq::empty())
    } else {
        match (strings_prefix(args, n - 1), spec_as_string(args[n - 1])) {
            (Some(ss), Some(s)) => Some(ss.push(s)),
            _ => None,
        }
    }
}

/// Once an argument is refused, every longer prefix is refused too; an
/// accepted prefix of `n` arguments has `n` strings.
proof fn lemma_strings_prefix(args: Seq<JsonValue>, m: int, n: int)
    requires
        0 <= m <= n,
    ensures
        strings_prefix(args, m) is None ==> strings_prefix(args, n) is None,
        strings_prefix(args, n) matches Some(ss) ==> ss.len() == n,
    decreases n,
{
    if n > 0 {
        if m < n {
            lemma_strings_prefix(args, m, n - 1);
        }
        lemma_strings_prefix(args, n - 1, n - 1);
    }
}

/// Reading the first `n` arguments as strings, in order, stays within the
/// arguments: there are `n` of them, or one of those there is not a string
/// (the reading stops at the first that is not).
pub open spec fn reads_in_bounds(args: Seq<JsonValue>, n: int) -> bool {
    args.len() >= n || strings_prefix(args, args.len() as int) is None
}

/// `r` is the string `expected` names, or the refusal when it names none.
pub open spec fn string_result(r: Result<String, ArgError>, expected: Option<Seq<char>>, refusal: ArgError) -> bool {
    match expected {
        Some(s) => r matches Ok(t) && t@ == s,
        None => r == Err::<String, ArgError>(refusal),
    }
}

/// The first `n` arguments as strings, read in order; the first that is not
/// a string refuses them all with `expected a string`.
pub fn leading_strings(evaluated: &Vec<JsonValue>, n: usize) -> (r: Result<Vec<String>, ArgError>)
    requires
        reads_in_bounds(evaluated@, n as int),
    ensures
        match strings_prefix(evaluated@, n as int) {
            Some(ss) => r matches Ok(v) && v@.len() == n && v@.map_values(|s: String| s@) == ss,
            None => r == Err::<Vec<String>, ArgError>(ArgError::ExpectedString),
        },
{
    let mut out: Vec<String> = Vec::new();
    let mut i: usize = 0;
    while i < n
        invariant
            i <= n,
            reads_in_bounds(evaluated@, n as int),
            out@.len() == i,
            strings_prefix(evaluated@, i as int) == Some(out@.map_values(|s: String| s@)),
        decreases n - i,
    {
        if i >= evaluated.len() {
            proof {
                lemma_strings_prefix(evaluated@, evaluated@.len() as int, i as int);
            }
        }
        match as_string(&evaluated[i]) {
            Ok(s) => {
                let ghost before = out@;
                out.push(s);
                proof {
                    assert(out@.map_values(|s: String| s@) =~= before.map_values(|s: String| s@).push(s@));
                }
            },
            Err(e) => {
                proof {
                    lemma_strings_prefix(evaluated@, i + 1, n as int);
                }
                return Err(e);
            },
        }
        i += 1;
    }
    Ok(out)
}

/// `str::replace`: every non-overlapping occurrence of `pat`, leftmost first,
/// replaced by `to`. An empty pattern matches before every character and at the end.
pub open spec fn replaced(s: Seq<char>, pat: Seq<char>, to: Seq<char>) -> Seq<char>
    decreases s.len(),
{
    if pat.len() == 0 {
        if s.len() == 0 {
            to
        } else {
            to + seq![s[0]] + replaced(s.drop_first(), pat, to)
        }
    } else if s.len() < pat.len() {
        s
    } else if s.take(pat.len() as int) == pat {
        to + replaced(s.skip(pat.len() as int), pat, to)
    } else {
        seq![s[0]] + replaced(s.drop_first(), pat, to)
    }
}

/// Whether `pat` occurs in `v` at position `k`.
fn occurs_at(v: &Vec<char>, pat: &Vec<char>, k: usize) -> (b: bool)
    requires
        k <= v.len(),
    ensures
        b == (k + pat.len() <= v.len() && v@.subrange(k as int, k + pat.len()) == pat@),
{
    if pat.len() > v.len() - k {
        return false;
    }
    let mut m: usize = 0;
    while m < pat.len()
        invariant
            m <= pat.len(),
            k + pat.len() <= v.len(),
            forall|q: int| 0 <= q < m ==> v@[k + q] == pat@[q],
        decreases pat.len() - m,
    {
        if v[k + m] != pat[m] {
            assert(v@.subrange(k as int, k + pat.len())[m as int] != pat@[m as int]);
            return false;
        }
        m += 1;
    }
    assert(v@.subrange(k as int, k + pat.len()) =~= pat@);
    true
}

/// `text.replace(pat, to)`.
pub fn replace(text: &str, pat: &str, to: &str) -> (out: String)
    ensures
        out@ == replaced(text@, pat@, to@),
{
    let v = crate::text::chars_of(text);
    let p = crate::text::chars_of(pat);
    let mut out = String::new();
    let mut k: usize = 0;
    proof {
        assert(v@.skip(0) =~= v@);
    }
    while k < v.len()
        invariant
            k <= v.len(),
            v@ == text@,
            p@ == pat@,
            out@ + replaced(v@.skip(k as int), p@, to@) == replaced(text@, pat@, to@),
        decreases v.len() - k,
    {
        let ghost rest = v@.skip(k as int);
        if p.len() == 0 {
            out.append(to);
            crate::text::push_char(&mut out, v[k]);
            proof {
                assert(rest.drop_first() =~= v@.skip(k + 1));
                assert(rest[0] == v@[k as int]);
            }
            k += 1;
        } else if occurs_at(&v, &p, k) {
            out.append(to);
            proof {
                assert(rest.take(p@.len() as int) =~= v@.subrange(k as int, k + p@.len()));
                assert(rest.skip(p@.len() as int) =~= v@.skip(k + p@.len()));
            }
            k += p.len();
        } else {
            crate::text::push_char(&mut out, v[k]);
            proof {
                if rest.len() >= p@.len() {
                    assert(rest.take(p@.len() as int) =~= v@.subrange(k as int, k + p@.len()));
                }
                assert(rest.drop_first() =~= v@.skip(k + 1));
                assert(rest[0] == v@[k as int]);
            }
            k += 1;
        }
    }
    if p.len() == 0 {
        out.append(to);
    }
    proof {
        assert(v@.skip(k as int) =~= Seq::<char>::empty());
    }
    out
}

/// Replacing a pattern that does not occur leaves the text as it is.
pub proof fn law_replace_absent_pattern(s: Seq<char>, pat: Seq<char>, to: Seq<char>)
    requires
        pat.len() > 0,
        forall|k: int| 0 <= k <= s.len() - pat.len() ==> #[trigger] s.subrange(k, k + pat.len()) != pat,
    ensures
        replaced(s, pat, to) == s,
    decreases s.len(),
{
    if s.len() >= pat.len() {
        let z: int = 0;
        assert(s.subrange(z, z + pat.len()) != pat);
        assert(s.take(pat.len() as int) =~= s.subrange(z, z + pat.len()));
        let t = s.drop_first();
        assert forall|k: int| 0 <= k <= t.len() - pat.len() implies #[trigger] t.subrange(k, k + pat.len()) != pat by {
            assert(t.subrange(k, k + pat.len()) =~= s.subrange(k + 1, k + 1 + pat.len()));
        }
        law_replace_absent_pattern(t, pat, to);
        assert(seq![s[0]] + t =~= s);
    }
}

/// The arguments of `replace(text, pattern, with)`.
pub fn replace_call(evaluated: &Vec<JsonValue>) -> (r: Result<String, ArgError>)
    requires
        reads_in_bounds(evaluated@, 3),
    ensures
        match strings_prefix(evaluated@, 3) {
            Some(ss) => r matches Ok(t) && t@ == replaced(ss[0], ss[1], ss[2]),
            None => r == Err::<String, ArgError>(ArgError::ExpectedString),
        },
{
    let ss = leading_strings(evaluated, 3)?;
    proof {
        assert(ss@.map_values(|s: String| s@)[0] == ss@[0]@);
        assert(ss@.map_values(|s: String| s@)[1] == ss@[1]@);
        assert(ss@.map_values(|s: String| s@)[2] == ss@[2]@);
    }
    Ok(replace(ss[0].as_str(), ss[1].as_str(), ss[2].as_str()))
}

/// `rand::thread_rng().gen_range(min..max)`: a random number with
/// `min <= r < max`, as rand documents (it panics on an empty range, which
/// `requires` rules out).
#[verifier::external_body]
fn random_in_range(min: u64, max: u64) -> (r: u64)
    requires
        min < max,
    ensures
        min <= r < max,
{
    rand::thread_rng().gen_range(min..max)
}

/// `rand(min, max)`: a random integer in `min..max`. Both arguments must be
/// non-negative integers; an empty range is not accepted.
pub fn rand_call(evaluated: &Vec<JsonValue>) -> (r: Result<u64, ArgError>)
    requires
        evaluated@.len() >= 2 || (evaluated@.len() == 1 && spec_as_u64(evaluated@[0]) is None),
        spec_as_u64(evaluated@[0]) matches Some(a) && spec_as_u64(evaluated@[1]) matches Some(b) ==> a < b,
    ensures
        spec_as_u64(evaluated@[0]) is None ==> r == Err::<u64, ArgError>(ArgError::ExpectedUnsigned),
        spec_as_u64(evaluated@[0]) is Some && spec_as_u64(evaluated@[1]) is None ==> r == Err::<u64, ArgError>(
            ArgError::ExpectedUnsigned,
        ),
        spec_as_u64(evaluated@[0]) matches Some(a) && spec_as_u64(evaluated@[1]) matches Some(b) ==> r matches Ok(
            n,
        ) && a <= n < b,
{
    let min = as_u64(&evaluated[0])?;
    let max = as_u64(&evaluated[1])?;
    Ok(random_in_range(min, max))
}

/// `items.choose(&mut rand::thread_rng())`: one of the items at random, or
/// `None` for no items, as rand documents.
#[verifier::external_body]
fn choose_item(items: &Vec<JsonValue>) -> (r: Option<&JsonValue>)
    ensures
        r is Some == (items@.len() > 0),
        r matches Some(x) ==> items@.contains(*x),
{
    items.choose(&mut rand::thread_rng())
}

/// `choice(array)`: one element of a non-empty array at random.
pub fn choice_call(evaluated: &Vec<JsonValue>) -> (r: Result<&JsonValue, ArgError>)
    requires
        evaluated@.len() >= 1,
        evaluated@[0] matches JsonValue::Array(a) ==> a@.len() > 0,
    ensures
        match evaluated@[0] {
            JsonValue::Array(a) => r matches Ok(x) && a@.contains(*x),
            _ => r == Err::<&JsonValue, ArgError>(ArgError::ExpectedArray),
        },
{
    let arr = as_array(&evaluated[0])?;
    match choose_item(arr) {
        Some(x) => Ok(x),
        None => Err(ArgError::ExpectedArray),
    }
}

/// The template and bound values of `eval(template, values)`: exactly a
/// template and an object, else `invalid args`.
pub fn eval_arguments(args: &Vec<JsonValue>) -> (r: Result<(&JsonValue, &Vec<(String, JsonValue)>), ArgError>)
    ensures
        (args@.len() == 2 && args@[1] is Object) ==> (r matches Ok((t, vs)) && *t == args@[0] && args@[1]
            == JsonValue::Object(*vs)),
        !(args@.len() == 2 && args@[1] is Object) ==> r == Err::<(&JsonValue, &Vec<(String, JsonValue)>), ArgError>(
            ArgError::InvalidArgs,
        ),
{
    if args.len() == 2 {
        match &args[1] {
            JsonValue::Object(values) => Ok((&args[0], values)),
            _ => Err(ArgError::InvalidArgs),
        }
    } else {
        Err(ArgError::InvalidArgs)
    }
}

/// The URL of `fetch(url)` as the first script functions take it: exactly one
/// string, else `invalid args`.
pub fn fetch_url_argument(args: &Vec<JsonValue>) -> (r: Result<String, ArgError>)
    ensures
        match single_string(args@) {
            Some(s) => r matches Ok(t) && t@ == s,
            None => r == Err::<String, ArgError>(ArgError::InvalidArgs),
        },
{
    only_string(args, ArgError::InvalidArgs)
}

/// What the first element that `selector` selects in `html` holds, as
/// `tl` parses the page: its inner HTML; `None` when the selector does not
/// parse or selects nothing.
pub uninterp spec fn first_inner_html(html: Seq<char>, selector: Seq<char>) -> Option<Seq<char>>;

/// `tl::parse(html)`, then the inner HTML of the first element that
/// `dom.query_selector(selector)` yields. `Err` only when `tl` refuses the
/// input, which it does for more than `u32::MAX` bytes (so at least a quarter
/// of that many characters).
#[verifier::external_body]
fn query_inner_html(html: &str, selector: &str) -> (r: Result<Option<String>, ()>)
    ensures
        match r {
            Ok(Some(s)) => first_inner_html(html@, selector@) == Some(s@),
            Ok(None) => first_inner_html(html@, selector@) is None,
            Err(_) => 4 * html@.len() > u32::MAX,
        },
{
    let dom = tl::parse(html, tl::ParserOptions::default()).map_err(|_| ())?;
    let parser = dom.parser();
    let node = match dom.query_selector(selector) {
        Some(mut found) => match found.next() {
            Some(handle) => handle.get(parser),
            None => None,
        },
        None => None,
    };
    Ok(node.map(|n| n.inner_html(parser).to_string()))
}

/// `hq(html, selector)`: the inner HTML of the first element the selector
/// picks in the page; `query failed` when it picks none.
pub fn hq_call(evaluated: &Vec<JsonValue>) -> (r: Result<String, ArgError>)
    requires
        reads_in_bounds(evaluated@, 2),
    ensures
        match strings_prefix(evaluated@, 2) {
            None => r == Err::<String, ArgError>(ArgError::ExpectedString),
            Some(ss) => (r == Err::<String, ArgError>(ArgError::HtmlTooLong) && 4 * ss[0].len() > u32::MAX)
                || match first_inner_html(ss[0], ss[1]) {
                Some(inner) => r matches Ok(t) && t@ == inner,
                None => r == Err::<String, ArgError>(ArgError::QueryFailed),
            },
        },
{
    let ss = leading_strings(evaluated, 2)?;
    proof {
        assert(ss@.map_values(|s: String| s@)[0] == ss@[0]@);
        assert(ss@.map_values(|s: String| s@)[1] == ss@[1]@);
    }
    match query_inner_html(ss[0].as_str(), ss[1].as_str()) {
        Ok(Some(inner)) => Ok(inner),
        Ok(None) => Err(ArgError::QueryFailed),
        Err(()) => Err(ArgError::HtmlTooLong),
    }
}

/// The value and the query of `jq(value, query)`: the first evaluated
/// argument as it is, and the second, a string.
pub fn jq_arguments(evaluated: &Vec<JsonValue>) -> (r: Result<(&JsonValue, String), ArgError>)
    requires
        evaluated@.len() >= 2,
    ensures
        match spec_as_string(evaluated@[1]) {
            Some(q) => r matches Ok((v, t)) && *v == evaluated@[0] && t@ == q,
            None => r == Err::<(&JsonValue, String), ArgError>(ArgError::ExpectedString),
        },
{
    let query = as_string(&evaluated[1])?;
    Ok((&evaluated[0], query))
}

} // verus!
