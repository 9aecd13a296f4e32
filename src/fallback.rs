//! The one-shot path: a single-use worker per request, whose output is read
//! line by line and reduced to a task result.
use vstd::prelude::*;

use crate::event::event_tag;
use crate::extract::{brace_span, extract_json_from_output};
use crate::json::{compact, json_compact, opt_view};
use crate::wire::{decode_task_result, task_result_of, TaskResult, TaskResultView};

verus! {

/// The command-line arguments of a one-shot worker, after the interpreter:
/// the script, `--json` and the instruction, then `--context` and the compact
/// JSON context when there is one.
pub open spec fn oneshot_args_of(
    script: Seq<char>,
    instruction: Seq<char>,
    context: Option<Seq<char>>,
) -> Seq<Seq<char>> {
    let base = seq![script, "--json"@, instruction];
    match context {
        Some(c) => base + seq!["--context"@, c],
        None => base,
    }
}

/// The context as a one-shot worker gets it: written compactly, and left out
/// when it is not JSON.
pub open spec fn oneshot_context(context: Option<Seq<char>>) -> Option<Seq<char>> {
    match context {
        Some(c) => json_compact(c),
        None => None,
    }
}

pub fn oneshot_args(script: &str, instruction: &str, context: &Option<String>) -> (r: Vec<String>)
    ensures
        r@.map_values(|s: String| s@) == oneshot_args_of(
            script@,
            instruction@,
            oneshot_context(opt_view(*context)),
        ),
{
    let mut args: Vec<String> = Vec::new();
    args.push(String::from_str(script));
    args.push(String::from_str("--json"));
    args.push(String::from_str(instruction));
    let ctx = match context {
        Some(c) => compact(c.as_str()),
        None => None,
    };
    match ctx {
        Some(c) => {
            args.push(String::from_str("--context"));
            args.push(c);
        },
        None => {},
    }
    proof {
        assert(args@.map_values(|s: String| s@) =~= oneshot_args_of(
            script@,
            instruction@,
            oneshot_context(opt_view(*context)),
        ));
    }
    args
}

/// The lines joined with newlines between them.
pub open spec fn joined(lines: Seq<Seq<char>>) -> Seq<char>
    decreases lines.len(),
{
    if lines.len() == 0 {
        Seq::empty()
    } else if lines.len() == 1 {
        lines[0]
    } else {
        joined(lines.drop_last()) + "\n"@ + lines.last()
    }
}

/// Why the one-shot path gave no result.
pub enum FallbackError {
    /// The process could not be spawned or its output captured.
    Spawn(String),
    /// Reading the process's output failed.
    ReadFailed(String),
    /// The whole output holds no `{` ... `}` span; it is kept here.
    NoJson(String),
    /// The span found in the output is no task result; the output is kept here.
    BadJson(String),
}

/// The output of a one-shot run read so far.
pub struct OneshotRun {
    lines: Vec<String>,
    last: Option<TaskResult>,
}

pub struct OneshotView {
    pub lines: Seq<Seq<char>>,
    pub last: Option<TaskResultView>,
}

impl View for OneshotRun {
    type V = OneshotView;

    closed spec fn view(&self) -> OneshotView {
        OneshotView {
            lines: self.lines@.map_values(|s: String| s@),
            last: match self.last {
                Some(t) => Some(t@),
                None => None,
            },
        }
    }
}

/// What a one-shot run whose output was `v` returns: the last line that is a
/// task result by itself; failing that, the `{` ... `}` span of the whole
/// output, when it is one.
pub open spec fn oneshot_outcome(v: OneshotView) -> Result<TaskResultView, FallbackErrorKind> {
    match v.last {
        Some(t) => Ok(t),
        None => match brace_span(joined(v.lines)) {
            None => Err(FallbackErrorKind::NoJson),
            Some(span) => match task_result_of(span) {
                Some(t) => Ok(t),
                None => Err(FallbackErrorKind::BadJson),
            },
        },
    }
}

pub enum FallbackErrorKind {
    NoJson,
    BadJson,
}

impl OneshotRun {
    pub fn new() -> (r: Self)
        ensures
            r@.lines == Seq::<Seq<char>>::empty(),
            r@.last.is_none(),
    {
        let r = OneshotRun { lines: Vec::new(), last: None };
        proof {
            assert(r@.lines =~= Seq::<Seq<char>>::empty());
        }
        r
    }

    /// Takes one line of output. Returns the line when it is an event with a
    /// `type`, for the caller to forward as progress; a line that is a task
    /// result by itself becomes the candidate result.
    pub fn on_line(&mut self, line: String) -> (fwd: Option<String>)
        ensures
            final(self)@.lines == old(self)@.lines.push(line@),
            final(self)@.last == match task_result_of(line@) {
                Some(t) => Some(t),
                None => old(self)@.last,
            },
            match fwd {
                Some(f) => event_tag(line@) is Some && f@ == line@,
                None => event_tag(line@) is None,
            },
    {
        let fwd = match crate::json::str_member(line.as_str(), "type") {
            Some(t) => if t.as_str().unicode_len() > 0 {
                Some(line.clone())
            } else {
                None
            },
            None => None,
        };
        match decode_task_result(line.as_str()) {
            Some(t) => {
                self.last = Some(t);
            },
            None => {},
        }
        let ghost old_lines = self.lines@;
        self.lines.push(line);
        proof {
            assert(self@.lines =~= old_lines.map_values(|s: String| s@).push(line@));
        }
        fwd
    }

    /// The lines joined with newlines, as the whole output.
    fn output(&self) -> (r: String)
        ensures
            r@ == joined(self@.lines),
    {
        let ghost lv = self@.lines;
        let mut out = String::new();
        let mut i: usize = 0;
        while i < self.lines.len()
            invariant
                lv == self@.lines,
                i <= lv.len(),
                out@ == joined(lv.take(i as int)),
            decreases lv.len() - i,
        {
            if i > 0 {
                out.append("\n");
            }
            out.append(self.lines[i].as_str());
            proof {
                assert(lv.take(i + 1).drop_last() =~= lv.take(i as int));
                if i == 0 {
                    assert(lv.take(0) =~= Seq::<Seq<char>>::empty());
                }
            }
            i = i + 1;
        }
        proof {
            assert(lv.take(lv.len() as int) =~= lv);
        }
        out
    }

    /// The result of the run, once its output has ended.
    pub fn finish(self) -> (r: Result<TaskResult, FallbackError>)
        ensures
            match (r, oneshot_outcome(self@)) {
                (Ok(t), Ok(tv)) => t@ == tv,
                (Err(FallbackError::NoJson(o)), Err(FallbackErrorKind::NoJson)) => o@ == joined(self@.lines),
                (Err(FallbackError::BadJson(o)), Err(FallbackErrorKind::BadJson)) => o@ == joined(self@.lines),
                _ => false,
            },
    {
        let output = self.output();
        match self.last {
            Some(t) => Ok(t),
            None => match extract_json_from_output(output.as_str()) {
                Err(_) => Err(FallbackError::NoJson(output)),
                Ok(span) => match decode_task_result(span.as_str()) {
                    Some(t) => Ok(t),
                    None => Err(FallbackError::BadJson(output)),
                },
            },
        }
    }
}

} // verus!
