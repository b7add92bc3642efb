use vstd::prelude::*;

use crate::config::Config;
use crate::text::{decimal_digits, decimal_string, views};

verus! {

/// Which parts of the report are printed after a successful request.
#[derive(Clone, Copy, Debug, PartialEq, Eq, Structural)]
pub struct RenderPlan {
    pub connection: bool,
    pub headers: bool,
    pub body: bool,
    pub chart: bool,
    pub speed: bool,
    pub metrics_json: bool,
}

/// The metrics-only mode prints the metrics as JSON and nothing else;
/// otherwise headers, body and chart always appear and the connection and
/// speed lines follow their settings.
pub open spec fn render_plan_of(c: Config) -> RenderPlan {
    if c.metrics_only {
        RenderPlan {
            connection: false,
            headers: false,
            body: false,
            chart: false,
            speed: false,
            metrics_json: true,
        }
    } else {
        RenderPlan {
            connection: c.show_ip,
            headers: true,
            body: true,
            chart: true,
            speed: c.show_speed,
            metrics_json: false,
        }
    }
}

/// Decides which parts of the report are printed.
pub fn render_plan(config: &Config) -> (r: RenderPlan)
    ensures
        r == render_plan_of(*config),
{
    if config.metrics_only {
        RenderPlan {
            connection: false,
            headers: false,
            body: false,
            chart: false,
            speed: false,
            metrics_json: true,
        }
    } else {
        RenderPlan {
            connection: config.show_ip,
            headers: true,
            body: true,
            chart: true,
            speed: config.show_speed,
            metrics_json: false,
        }
    }
}

/// What is done with the response body once the client has written it.
#[derive(Clone, Copy, Debug, PartialEq, Eq, Structural)]
pub enum BodyAction {
    /// Print (the start of) the body.
    Print,
    /// Tell the user where the body file was left.
    ReportPath,
    /// Neither.
    Nothing,
}

/// The body's fate: what is shown, and whether the file is removed.
#[derive(Clone, Copy, Debug, PartialEq, Eq, Structural)]
pub struct BodyPlan {
    pub action: BodyAction,
    pub delete_file: bool,
}

/// Printing the body wins over reporting its path; the file is removed
/// whenever it is not to be kept.
pub open spec fn body_plan_of(show_body: bool, save_body: bool) -> BodyPlan {
    BodyPlan {
        action: if show_body {
            BodyAction::Print
        } else if save_body {
            BodyAction::ReportPath
        } else {
            BodyAction::Nothing
        },
        delete_file: !save_body,
    }
}

/// Decides what happens to the body file.
pub fn body_plan(show_body: bool, save_body: bool) -> (r: BodyPlan)
    ensures
        r == body_plan_of(show_body, save_body),
        !show_body && !save_body ==> r.action == BodyAction::Nothing && r.delete_file,
{
    let action = if show_body {
        BodyAction::Print
    } else if save_body {
        BodyAction::ReportPath
    } else {
        BodyAction::Nothing
    };
    BodyPlan { action, delete_file: !save_body }
}

/// How many bytes of the body are printed at most.
pub const BODY_PREVIEW_LIMIT: usize = 1024;

/// The printed part of a body, and whether anything was cut off.
#[derive(Clone, Debug, PartialEq, Eq)]
pub struct BodyPreview {
    pub shown: Vec<u8>,
    pub truncated: bool,
}

/// The first `BODY_PREVIEW_LIMIT` bytes of the body; the cut is made by
/// bytes, not by characters.
pub fn body_preview(body: &[u8]) -> (r: BodyPreview)
    ensures
        r.truncated == (body@.len() > BODY_PREVIEW_LIMIT),
        r.shown@ == (if r.truncated {
            body@.subrange(0, BODY_PREVIEW_LIMIT as int)
        } else {
            body@
        }),
{
    let n = if body.len() > BODY_PREVIEW_LIMIT {
        BODY_PREVIEW_LIMIT
    } else {
        body.len()
    };
    let mut shown: Vec<u8> = Vec::new();
    let mut i: usize = 0;
    while i < n
        invariant
            n <= body@.len(),
            i <= n,
            shown@ == body@.subrange(0, i as int),
        decreases n - i,
    {
        shown.push(body[i]);
        i = i + 1;
        assert(shown@ =~= body@.subrange(0, i as int));
    }
    assert(body@.len() <= BODY_PREVIEW_LIMIT ==> body@.subrange(0, n as int) =~= body@);
    BodyPreview { shown, truncated: body.len() > BODY_PREVIEW_LIMIT }
}

/// One line of the response headers, as it is shown.
#[derive(Clone, Debug, PartialEq, Eq)]
pub enum HeaderLine {
    /// A `name: value` line, split after its first colon; `name` keeps the
    /// colon.
    Field { name: String, value: String },
    /// A line without a colon, such as the status line.
    Plain { text: String },
}

/// `s` holds a colon.
pub open spec fn has_colon(s: Seq<char>) -> bool {
    exists|i: int| 0 <= i < s.len() && s[i] == ':'
}

/// Splits a header line after its first colon.
pub fn split_header_line(line: &str) -> (r: HeaderLine)
    ensures
        !has_colon(line@) ==> (r matches HeaderLine::Plain { text } && text@ == line@),
        has_colon(line@) ==> (r matches HeaderLine::Field { name, value } && name@ + value@
            == line@ && name@.len() > 0 && name@.last() == ':' && forall|j: int|
            0 <= j < name@.len() - 1 ==> #[trigger] name@[j] != ':'),
{
    let n = line.unicode_len();
    let mut i: usize = 0;
    while i < n
        invariant
            n == line@.len(),
            i <= n,
            forall|j: int| 0 <= j < i ==> line@[j] != ':',
        decreases n - i,
    {
        if line.get_char(i) == ':' {
            let name = line.substring_char(0, i + 1);
            let value = line.substring_char(i + 1, n);
            assert(name@ + value@ =~= line@);
            return HeaderLine::Field { name: String::from_str(name), value: String::from_str(value) };
        }
        i = i + 1;
    }
    HeaderLine::Plain { text: String::from_str(line) }
}

/// The pieces of `s` between newlines, as `split('\n')` gives them: one more
/// than there are newlines.
pub open spec fn newline_pieces(s: Seq<char>) -> Seq<Seq<char>>
    decreases s.len(),
{
    if s.len() == 0 {
        seq![Seq::<char>::empty()]
    } else if s.last() == '\n' {
        newline_pieces(s.drop_last()).push(Seq::<char>::empty())
    } else {
        let p = newline_pieces(s.drop_last());
        p.update(p.len() - 1, p.last().push(s.last()))
    }
}

/// A line ended by a newline loses a carriage return before it.
pub open spec fn strip_cr(piece: Seq<char>) -> Seq<char> {
    if piece.len() > 0 && piece.last() == '\r' {
        piece.drop_last()
    } else {
        piece
    }
}

/// The lines of a text: split at `\n` or `\r\n`; the last line needs no
/// ending, and an ending at the very end starts no further line.
pub open spec fn lines_of(s: Seq<char>) -> Seq<Seq<char>> {
    let p = newline_pieces(s);
    let ended = p.drop_last().map_values(|x: Seq<char>| strip_cr(x));
    if p.last().len() == 0 {
        ended
    } else {
        ended.push(p.last())
    }
}

/// Splits a text into its lines.
pub fn text_lines(text: &str) -> (r: Vec<String>)
    ensures
        views(r@) == lines_of(text@),
{
    let n = text.unicode_len();
    let mut r: Vec<String> = Vec::new();
    let mut start: usize = 0;
    let mut i: usize = 0;
    let ghost mut done: Seq<Seq<char>> = Seq::empty();
    assert(text@.subrange(0, 0) =~= Seq::<char>::empty());
    while i < n
        invariant
            n == text@.len(),
            start <= i <= n,
            newline_pieces(text@.subrange(0, i as int)) == done.push(
                text@.subrange(start as int, i as int),
            ),
            views(r@) == done.map_values(|x: Seq<char>| strip_cr(x)),
        decreases n - i,
    {
        let ghost pre = text@.subrange(0, i as int);
        let ghost post = text@.subrange(0, i + 1);
        assert(post.drop_last() =~= pre);
        let c = text.get_char(i);
        assert(post.last() == c);
        if c == '\n' {
            let piece = text.substring_char(start, i);
            let line = if i > start && text.get_char(i - 1) == '\r' {
                text.substring_char(start, i - 1)
            } else {
                piece
            };
            assert(line@ == strip_cr(piece@)) by {
                if i > start && text@[i - 1] == '\r' {
                    assert(line@ =~= piece@.drop_last());
                }
            }
            let ghost prev = r@;
            r.push(String::from_str(line));
            proof {
                crate::text::lemma_views_push(prev, r@.last());
                done = done.push(piece@);
                assert(views(r@) =~= done.map_values(|x: Seq<char>| strip_cr(x)));
            }
            start = i + 1;
            i = i + 1;
            assert(text@.subrange(start as int, i as int) =~= Seq::<char>::empty());
            assert(newline_pieces(post) =~= done.push(text@.subrange(start as int, i as int)));
        } else {
            i = i + 1;
            proof {
                let p = newline_pieces(pre);
                assert(p.last() == text@.subrange(start as int, i - 1));
                assert(text@.subrange(start as int, i as int) =~= p.last().push(c));
                assert(newline_pieces(post) =~= done.push(text@.subrange(start as int, i as int)));
            }
        }
    }
    assert(text@.subrange(0, n as int) =~= text@);
    let ghost p = newline_pieces(text@);
    assert(p.drop_last() =~= done);
    if start < n {
        let ghost prev = r@;
        r.push(String::from_str(text.substring_char(start, n)));
        proof {
            crate::text::lemma_views_push(prev, r@.last());
            assert(views(r@) =~= lines_of(text@));
        }
    } else {
        assert(views(r@) =~= lines_of(text@));
    }
    r
}

/// The separator between the local and the remote address.
pub const CONNECTION_ARROW: &'static str = "  \u{21c4}  ";

/// `ip:port`.
pub open spec fn endpoint_of(ip: Seq<char>, port: u16) -> Seq<char> {
    ip + ":"@ + decimal_digits(port as nat)
}

/// The connection line: local endpoint, arrow, remote endpoint.
pub fn connection_info(local_ip: &str, local_port: u16, remote_ip: &str, remote_port: u16) -> (r:
    String)
    ensures
        r@ == endpoint_of(local_ip@, local_port) + CONNECTION_ARROW@ + endpoint_of(
            remote_ip@,
            remote_port,
        ),
{
    let mut r = String::from_str(local_ip);
    r.append(":");
    r.append(decimal_string(local_port as u64).as_str());
    r.append(CONNECTION_ARROW);
    r.append(remote_ip);
    r.append(":");
    r.append(decimal_string(remote_port as u64).as_str());
    assert(r@ =~= endpoint_of(local_ip@, local_port) + CONNECTION_ARROW@ + endpoint_of(
        remote_ip@,
        remote_port,
    ));
    r
}

} // verus!
