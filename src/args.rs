use vstd::prelude::*;

use crate::errors::RunError;
use crate::text::{
    decimal_digits, decimal_string, is_prefix, lemma_views_prefix_step, lemma_views_push,
    starts_with_str, str_equals, views,
};

verus! {

/// `arg` is `flag` itself or its `flag=value` form.
pub open spec fn conflicts_with(arg: Seq<char>, flag: Seq<char>) -> bool {
    arg == flag || is_prefix(flag.push('='), arg)
}

/// `arg` would take over one of the client's output controls: write-out,
/// header dump, body output, silence, in short or long form.
pub open spec fn is_disallowed(arg: Seq<char>) -> bool {
    conflicts_with(arg, "-w"@) || conflicts_with(arg, "-D"@) || conflicts_with(arg, "-o"@)
        || conflicts_with(arg, "-s"@) || conflicts_with(arg, "--write-out"@)
        || conflicts_with(arg, "--dump-header"@) || conflicts_with(arg, "--output"@)
        || conflicts_with(arg, "--silent"@)
}

/// Whether `arg` is `flag` or `flag=...`.
pub fn arg_conflicts(arg: &str, flag: &str) -> (r: bool)
    ensures
        r == conflicts_with(arg@, flag@),
{
    let n = arg.unicode_len();
    let m = flag.unicode_len();
    if !starts_with_str(arg, flag) {
        assert(!is_prefix(flag@.push('='), arg@)) by {
            if is_prefix(flag@.push('='), arg@) {
                assert(arg@.subrange(0, m as int) =~= arg@.subrange(0, m + 1).subrange(0, m as int));
                assert(flag@.push('=').subrange(0, m as int) =~= flag@);
            }
        }
        assert(arg@ != flag@) by {
            if arg@ == flag@ {
                assert(arg@.subrange(0, m as int) =~= flag@);
            }
        }
        return false;
    }
    if n == m {
        assert(arg@ =~= arg@.subrange(0, m as int));
        return true;
    }
    let r = arg.get_char(m) == '=';
    assert(r ==> arg@.subrange(0, m + 1) =~= flag@.push('='));
    assert(is_prefix(flag@.push('='), arg@) ==> arg@.subrange(0, m + 1)[m as int] == '=');
    r
}

/// Whether `arg` is one of the passthrough arguments that are refused.
pub fn is_disallowed_arg(arg: &str) -> (r: bool)
    ensures
        r == is_disallowed(arg@),
{
    arg_conflicts(arg, "-w") || arg_conflicts(arg, "-D") || arg_conflicts(arg, "-o")
        || arg_conflicts(arg, "-s") || arg_conflicts(arg, "--write-out")
        || arg_conflicts(arg, "--dump-header") || arg_conflicts(arg, "--output")
        || arg_conflicts(arg, "--silent")
}

/// Refuses the passthrough arguments if any of them is disallowed, naming
/// the first such one.
pub fn validate_extra_args(extra_args: &[String]) -> (r: Result<(), RunError>)
    ensures
        r is Ok <==> forall|i: int| 0 <= i < extra_args@.len() ==> !is_disallowed(
            #[trigger] extra_args@[i]@,
        ),
        r matches Err(e) ==> (e matches RunError::DisallowedFlag { position } && position
            < extra_args@.len() && is_disallowed(extra_args@[position as int]@) && forall|i: int|
            0 <= i < position ==> !is_disallowed(#[trigger] extra_args@[i]@)),
{
    let mut i: usize = 0;
    while i < extra_args.len()
        invariant
            i <= extra_args@.len(),
            forall|j: int| 0 <= j < i ==> !is_disallowed(#[trigger] extra_args@[j]@),
        decreases extra_args@.len() - i,
    {
        if is_disallowed_arg(extra_args[i].as_str()) {
            return Err(RunError::DisallowedFlag { position: i });
        }
        i = i + 1;
    }
    Ok(())
}

/// The client's write-out template: the metrics as one single-line JSON
/// object, with a substitution token for each field.
pub const WRITE_OUT_FORMAT: &'static str = "{\"time_namelookup\": %{time_namelookup}, \
\"time_connect\": %{time_connect}, \
\"time_appconnect\": %{time_appconnect}, \
\"time_pretransfer\": %{time_pretransfer}, \
\"time_redirect\": %{time_redirect}, \
\"time_starttransfer\": %{time_starttransfer}, \
\"time_total\": %{time_total}, \
\"speed_download\": %{speed_download}, \
\"speed_upload\": %{speed_upload}, \
\"remote_ip\": \"%{remote_ip}\", \
\"remote_port\": %{remote_port}, \
\"local_ip\": \"%{local_ip}\", \
\"local_port\": %{local_port}}";

/// The arguments the client is run with: the write-out template, the header
/// and body files, silent but showing errors, the time bound, then the
/// passthrough arguments and the URL.
pub open spec fn client_args_of(
    header_path: Seq<char>,
    body_path: Seq<char>,
    timeout_secs: nat,
    extra_args: Seq<Seq<char>>,
    url: Seq<char>,
) -> Seq<Seq<char>> {
    seq![
        "-w"@,
        WRITE_OUT_FORMAT@,
        "-D"@,
        header_path,
        "-o"@,
        body_path,
        "-sS"@,
        "--max-time"@,
        decimal_digits(timeout_secs),
    ] + extra_args + seq![url]
}

/// Builds the client's argument list (the program itself not included).
pub fn client_args(
    header_path: &str,
    body_path: &str,
    timeout_secs: u64,
    extra_args: &[String],
    url: &str,
) -> (r: Vec<String>)
    ensures
        views(r@) == client_args_of(
            header_path@,
            body_path@,
            timeout_secs as nat,
            views(extra_args@),
            url@,
        ),
{
    let mut r: Vec<String> = Vec::new();
    r.push(String::from_str("-w"));
    r.push(String::from_str(WRITE_OUT_FORMAT));
    r.push(String::from_str("-D"));
    r.push(String::from_str(header_path));
    r.push(String::from_str("-o"));
    r.push(String::from_str(body_path));
    r.push(String::from_str("-sS"));
    r.push(String::from_str("--max-time"));
    r.push(decimal_string(timeout_secs));
    let ghost head = views(r@);
    let mut i: usize = 0;
    while i < extra_args.len()
        invariant
            i <= extra_args@.len(),
            views(r@) == head + views(extra_args@).subrange(0, i as int),
        decreases extra_args@.len() - i,
    {
        let ghost prev = r@;
        r.push(extra_args[i].clone());
        proof {
            lemma_views_push(prev, extra_args@[i as int]);
            lemma_views_prefix_step(extra_args@, i as int);
        }
        i = i + 1;
        assert(views(r@) =~= head + views(extra_args@).subrange(0, i as int));
    }
    let ghost prev = r@;
    r.push(String::from_str(url));
    proof {
        lemma_views_push(prev, r@.last());
    }
    assert(views(extra_args@).subrange(0, i as int) =~= views(extra_args@));
    assert(views(r@) =~= client_args_of(
        header_path@,
        body_path@,
        timeout_secs as nat,
        views(extra_args@),
        url@,
    ));
    r
}

/// What the command line asks for.
#[derive(Clone, Debug, PartialEq, Eq)]
pub enum Invocation {
    /// Print the usage text and stop.
    Help,
    /// Fetch `url`, handing `extra_args` on to the client.
    Run { url: String, extra_args: Vec<String> },
}

/// The command line asks for help: no URL, or `--help` / `-h` in its place.
pub open spec fn wants_help(args: Seq<Seq<char>>) -> bool {
    args.len() < 2 || args[1] == "--help"@ || args[1] == "-h"@
}

/// Reads the command line (`args[0]` is the program name).
pub fn parse_command_line(args: &[String]) -> (r: Invocation)
    ensures
        wants_help(views(args@)) ==> r == Invocation::Help,
        !wants_help(views(args@)) ==> (r matches Invocation::Run { url, extra_args } && url@
            == args@[1]@ && views(extra_args@) == views(args@).subrange(2, args@.len() as int)),
{
    if args.len() < 2 {
        return Invocation::Help;
    }
    if str_equals(args[1].as_str(), "--help") || str_equals(args[1].as_str(), "-h") {
        return Invocation::Help;
    }
    let url = args[1].clone();
    let mut extra_args: Vec<String> = Vec::new();
    let mut i: usize = 2;
    while i < args.len()
        invariant
            2 <= i <= args@.len(),
            views(extra_args@) == views(args@).subrange(2, i as int),
        decreases args@.len() - i,
    {
        let ghost prev = extra_args@;
        extra_args.push(args[i].clone());
        proof {
            lemma_views_push(prev, args@[i as int]);
            lemma_views_prefix_step(args@, i as int);
        }
        i = i + 1;
        assert(views(extra_args@) =~= views(args@).subrange(2, i as int));
    }
    Invocation::Run { url, extra_args }
}

/// The usage text.
pub const USAGE: &'static str = "
Usage: httpstat URL [CURL_OPTIONS]
Options:
  -h, --help      Show this help
  --version       Show version

Env Options:
  HTTPSTAT_SHOW_BODY=true       Show response body
  HTTPSTAT_SHOW_IP=false        Disable IP info
  HTTPSTAT_SHOW_SPEED=true      Show speed
  HTTPSTAT_SAVE_BODY=false      Don't save body
  HTTPSTAT_CURL_BIN=/my/curl    Use custom curl
  HTTPSTAT_DEBUG=true           Enable debug log
  HTTPSTAT_TIMEOUT=10           Seconds allowed for the whole request
  HTTPSTAT_METRICS_ONLY=true    Print only the metrics, as JSON
";

} // verus!
