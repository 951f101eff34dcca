//! The output formatter: one materialized variable set, rendered as
//! shell-assignment text in one of three dialects or as one line of JSON.
//!
//! Each shell dialect has its own escape set and escape prefix; escaping
//! walks the value once and prefixes exactly the characters of the set.

use vstd::prelude::*;

use crate::strutil::push_char;
use crate::strutil::str_eq;

verus! {

/// The four output variants.
#[derive(Clone, Copy, Debug, PartialEq, Eq, Structural)]
pub enum OutputFormat {
    Bash { export: bool },
    Fish { export: bool },
    Powershell { export: bool },
    Json,
}

/// The format that a format name selects: `json`, `fish` and `powershell`
/// are recognized, anything else (a name present or absent) falls back to
/// the Bash dialect.
pub open spec fn spec_output_format(format: Option<Seq<char>>, export: bool) -> OutputFormat {
    match format {
        Some(f) => {
            if f == "json"@ {
                OutputFormat::Json
            } else if f == "fish"@ {
                OutputFormat::Fish { export }
            } else if f == "powershell"@ {
                OutputFormat::Powershell { export }
            } else {
                OutputFormat::Bash { export }
            }
        },
        None => OutputFormat::Bash { export },
    }
}

/// Selects the output format for a format name and the export toggle.
pub fn get_output_format(format: Option<&str>, export: bool) -> (r: OutputFormat)
    ensures
        r == spec_output_format(format.deep_view(), export),
{
    match format {
        Some(f) => {
            if str_eq(f, "json") {
                OutputFormat::Json
            } else if str_eq(f, "fish") {
                OutputFormat::Fish { export }
            } else if str_eq(f, "powershell") {
                OutputFormat::Powershell { export }
            } else {
                OutputFormat::Bash { export }
            }
        },
        None => OutputFormat::Bash { export },
    }
}

/// One character under the Bash/Fish escape rule: backslash and double quote
/// are prefixed with a backslash.
pub open spec fn spec_shell_escaped_char(c: char) -> Seq<char> {
    if c == '\\' || c == '"' {
        seq!['\\', c]
    } else {
        seq![c]
    }
}

/// A value under the Bash/Fish escape rule, one pass over its characters.
pub open spec fn spec_shell_escape(s: Seq<char>) -> Seq<char>
    decreases s.len(),
{
    if s.len() == 0 {
        Seq::empty()
    } else {
        spec_shell_escape(s.drop_last()) + spec_shell_escaped_char(s.last())
    }
}

/// One character under the Powershell escape rule: null, carriage return,
/// line feed, tab, backtick and double quote are prefixed with a backtick.
pub open spec fn spec_powershell_escaped_char(c: char) -> Seq<char> {
    if c == '\0' || c == '\r' || c == '\n' || c == '\t' || c == '`' || c == '"' {
        seq!['`', c]
    } else {
        seq![c]
    }
}

/// A value under the Powershell escape rule, one pass over its characters.
pub open spec fn spec_powershell_escape(s: Seq<char>) -> Seq<char>
    decreases s.len(),
{
    if s.len() == 0 {
        Seq::empty()
    } else {
        spec_powershell_escape(s.drop_last()) + spec_powershell_escaped_char(s.last())
    }
}

/// Escapes a value for the Bash and Fish dialects.
#[verifier::loop_isolation(false)]
pub fn shell_esc(v: &str) -> (r: String)
    ensures
        r@ == spec_shell_escape(v@),
{
    let n = v.unicode_len();
    let mut out = String::new();
    let mut i: usize = 0;
    proof {
        assert(v@.take(0) =~= Seq::<char>::empty());
    }
    while i < n
        invariant
            i <= n == v@.len(),
            out@ == spec_shell_escape(v@.take(i as int)),
        decreases n - i,
    {
        let c = v.get_char(i);
        if c == '\\' || c == '"' {
            push_char(&mut out, '\\');
        }
        push_char(&mut out, c);
        proof {
            assert(v@.take(i as int + 1).drop_last() =~= v@.take(i as int));
            assert(out@ =~= spec_shell_escape(v@.take(i as int)) + spec_shell_escaped_char(
                v@[i as int],
            ));
        }
        i += 1;
    }
    proof {
        assert(v@.take(n as int) =~= v@);
    }
    out
}

/// Escapes a value for the Powershell dialect.
#[verifier::loop_isolation(false)]
pub fn powershell_esc(v: &str) -> (r: String)
    ensures
        r@ == spec_powershell_escape(v@),
{
    let n = v.unicode_len();
    let mut out = String::new();
    let mut i: usize = 0;
    proof {
        assert(v@.take(0) =~= Seq::<char>::empty());
    }
    while i < n
        invariant
            i <= n == v@.len(),
            out@ == spec_powershell_escape(v@.take(i as int)),
        decreases n - i,
    {
        let c = v.get_char(i);
        if c == '\0' || c == '\r' || c == '\n' || c == '\t' || c == '`' || c == '"' {
            push_char(&mut out, '`');
        }
        push_char(&mut out, c);
        proof {
            assert(v@.take(i as int + 1).drop_last() =~= v@.take(i as int));
            assert(out@ =~= spec_powershell_escape(v@.take(i as int)) + spec_powershell_escaped_char(
                v@[i as int],
            ));
        }
        i += 1;
    }
    proof {
        assert(v@.take(n as int) =~= v@);
    }
    out
}

/// One rendered assignment line: the dialect's statement form around the
/// variable name and the escaped, double-quoted value. (The JSON variant
/// renders no single line; it is left out by the callers' preconditions.)
pub open spec fn spec_print_var(k: Seq<char>, v: Seq<char>, f: OutputFormat) -> Seq<char> {
    match f {
        OutputFormat::Bash { export } => (if export {
            "export "@
        } else {
            Seq::empty()
        }) + k + "=\""@ + spec_shell_escape(v) + "\""@,
        OutputFormat::Fish { export } => (if export {
            "set -x"@
        } else {
            "set"@
        }) + " "@ + k + " \""@ + spec_shell_escape(v) + "\""@,
        OutputFormat::Powershell { export } => "$"@ + (if export {
            "env:"@
        } else {
            Seq::empty()
        }) + k + " = \""@ + spec_powershell_escape(v) + "\""@,
        OutputFormat::Json => Seq::empty(),
    }
}

/// Renders one variable as one assignment line of the chosen shell dialect.
pub fn print_var(k: &str, v: &str, output_format: OutputFormat) -> (r: String)
    requires
        !(output_format matches OutputFormat::Json),
    ensures
        r@ == spec_print_var(k@, v@, output_format),
{
    match output_format {
        OutputFormat::Bash { export } => {
            let mut out: String = if export {
                "export ".to_owned()
            } else {
                String::new()
            };
            out.append(k);
            out.append("=\"");
            let escaped = shell_esc(v);
            out.append(escaped.as_str());
            out.append("\"");
            proof {
                assert(out@ =~= spec_print_var(k@, v@, output_format));
            }
            out
        },
        OutputFormat::Fish { export } => {
            let mut out: String = if export {
                "set -x".to_owned()
            } else {
                "set".to_owned()
            };
            out.append(" ");
            out.append(k);
            out.append(" \"");
            let escaped = shell_esc(v);
            out.append(escaped.as_str());
            out.append("\"");
            proof {
                assert(out@ =~= spec_print_var(k@, v@, output_format));
            }
            out
        },
        OutputFormat::Powershell { export } => {
            let mut out: String = "$".to_owned();
            if export {
                out.append("env:");
            }
            out.append(k);
            out.append(" = \"");
            let escaped = powershell_esc(v);
            out.append(escaped.as_str());
            out.append("\"");
            proof {
                assert(out@ =~= spec_print_var(k@, v@, output_format));
            }
            out
        },
        OutputFormat::Json => {
            proof {
                assert(false);
            }
            String::new()
        },
    }
}

/// All variables rendered, one line per variable, in the set's order.
pub open spec fn spec_print_vars(
    vars: Seq<(Seq<char>, Seq<char>)>,
    f: OutputFormat,
) -> Seq<Seq<char>> {
    vars.map_values(|p: (Seq<char>, Seq<char>)| spec_print_var(p.0, p.1, f))
}

/// Renders every variable of the set as one line of the chosen dialect.
#[verifier::loop_isolation(false)]
pub fn print_vars(vars: &Vec<(String, String)>, output_format: OutputFormat) -> (r: Vec<String>)
    requires
        !(output_format matches OutputFormat::Json),
    ensures
        r.deep_view() == spec_print_vars(vars.deep_view(), output_format),
{
    let ghost expect = spec_print_vars(vars.deep_view(), output_format);
    let mut r: Vec<String> = Vec::new();
    let n = vars.len();
    let mut i: usize = 0;
    proof {
        assert(r.deep_view() =~= expect.take(0));
    }
    while i < n
        invariant
            i <= n == vars.len(),
            r.deep_view() == expect.take(i as int),
        decreases n - i,
    {
        let ghost before = r.deep_view();
        let line = print_var(vars[i].0.as_str(), vars[i].1.as_str(), output_format);
        r.push(line);
        proof {
            let d = r.deep_view();
            assert forall|k: int| 0 <= k < d.len() implies d[k] == expect.take(i as int + 1)[k] by {
                if k < i as int {
                    assert(d[k] == before[k]);
                } else {
                    assert(d[k] == r@[k]@);
                    assert(expect[k] == spec_print_var(
                        vars.deep_view()[k].0,
                        vars.deep_view()[k].1,
                        output_format,
                    ));
                    assert(vars.deep_view()[k] == (vars@[k].0@, vars@[k].1@));
                }
            }
            assert(d =~= expect.take(i as int + 1));
        }
        i += 1;
    }
    proof {
        assert(expect.take(n as int) =~= expect);
    }
    r
}

/// The one line of JSON that the encoder yields for an object built from the
/// given key/value pairs (keys sorted, the last value of a repeated key
/// winning); a function of the pairs alone.
pub uninterp spec fn json_object_text_of(pairs: Seq<(Seq<char>, Seq<char>)>) -> Seq<char>;

/// Relies on `serde_json::to_string` over `serde_json::Value::Object`: the
/// encoder yields one line of JSON determined by the pairs alone, and on an
/// object with string keys and string values it cannot fail (its
/// documentation reserves failure for failing serializers and for maps with
/// non-string keys).
#[verifier::external_body]
fn encode_json_pairs(pairs: &Vec<(String, String)>) -> (r: Option<String>)
    ensures
        r is Some,
        r matches Some(s) ==> s@ == json_object_text_of(pairs.deep_view()),
{
    let map: serde_json::Map<String, serde_json::Value> = pairs.iter().map(
        |(k, v)| (k.clone(), serde_json::Value::String(v.clone())),
    ).collect();
    serde_json::to_string(&serde_json::Value::Object(map)).ok()
}

/// Renders the variable set as one line of JSON.
pub fn print_vars_json(vars: &Vec<(String, String)>) -> (r: String)
    ensures
        r@ == json_object_text_of(vars.deep_view()),
{
    let encoded = encode_json_pairs(vars);
    encoded.unwrap()
}

} // verus!
