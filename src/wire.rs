//! The task result and the host's commands in their JSON wire form.
use vstd::prelude::*;

use crate::json::{
    array_member, bool_member, json_array_member, json_bool_member, json_member_text,
    json_quoted, json_str_member, member_text, opt_view, quote, compact, json_compact, one_line,
    lemma_quoted_one_line, lemma_one_line_concat, str_member, texts_view,
};
use crate::text::same_text;

verus! {

/// One executed step. Both parts are opaque JSON, kept as their compact text.
pub struct StepResult {
    pub step: String,
    pub result: Option<String>,
}

/// The terminal outcome of one task.
pub struct TaskResult {
    pub success: bool,
    pub message: String,
    pub steps: Vec<StepResult>,
    pub user_instruction: String,
}

pub struct StepResultView {
    pub step: Seq<char>,
    pub result: Option<Seq<char>>,
}

pub struct TaskResultView {
    pub success: bool,
    pub message: Seq<char>,
    pub steps: Seq<StepResultView>,
    pub user_instruction: Seq<char>,
}

impl View for StepResult {
    type V = StepResultView;

    open spec fn view(&self) -> StepResultView {
        StepResultView {
            step: self.step@,
            result: match self.result {
                Some(r) => Some(r@),
                None => None,
            },
        }
    }
}

impl View for TaskResult {
    type V = TaskResultView;

    open spec fn view(&self) -> TaskResultView {
        TaskResultView {
            success: self.success,
            message: self.message@,
            steps: self.steps@.map_values(|s: StepResult| s@),
            user_instruction: self.user_instruction@,
        }
    }
}

/// A member that is absent or `null` carries no value.
pub open spec fn non_null(o: Option<Seq<char>>) -> Option<Seq<char>> {
    match o {
        Some(t) => if t == "null"@ {
            None
        } else {
            Some(t)
        },
        None => None,
    }
}

/// The step that the JSON object `item` describes: `step` is required,
/// `result` may be absent or `null`.
pub open spec fn step_of(item: Seq<char>) -> Option<StepResultView> {
    match json_member_text(item, "step"@) {
        Some(st) => Some(StepResultView { step: st, result: non_null(json_member_text(item, "result"@)) }),
        None => None,
    }
}

/// The steps that `items` describe, when each of them describes one.
pub open spec fn steps_of(items: Seq<Seq<char>>) -> Option<Seq<StepResultView>> {
    if forall|i: int| 0 <= i < items.len() ==> (#[trigger] step_of(items[i])) is Some {
        Some(items.map_values(|it: Seq<char>| step_of(it)->0))
    } else {
        None
    }
}

/// The task result that the JSON object `text` describes, if any.
pub open spec fn task_result_of(text: Seq<char>) -> Option<TaskResultView> {
    match (
        json_bool_member(text, "success"@),
        json_str_member(text, "message"@),
        json_array_member(text, "steps"@),
        json_str_member(text, "user_instruction"@),
    ) {
        (Some(success), Some(message), Some(items), Some(user_instruction)) => match steps_of(items) {
            Some(steps) => Some(TaskResultView { success, message, steps, user_instruction }),
            None => None,
        },
        _ => None,
    }
}

pub open spec fn step_text(s: StepResultView) -> Seq<char> {
    "{\"step\":"@ + s.step + ",\"result\":"@ + match s.result {
        Some(r) => r,
        None => "null"@,
    } + "}"@
}

/// The steps, as JSON objects separated by commas.
pub open spec fn steps_text(steps: Seq<StepResultView>) -> Seq<char>
    decreases steps.len(),
{
    if steps.len() == 0 {
        Seq::empty()
    } else if steps.len() == 1 {
        step_text(steps[0])
    } else {
        steps_text(steps.drop_last()) + ","@ + step_text(steps.last())
    }
}

/// The wire form of a task result, one JSON object.
pub open spec fn task_result_text(t: TaskResultView) -> Seq<char> {
    "{\"success\":"@ + (if t.success {
        "true"@
    } else {
        "false"@
    }) + ",\"message\":"@ + json_quoted(t.message) + ",\"steps\":["@ + steps_text(t.steps)
        + "],\"user_instruction\":"@ + json_quoted(t.user_instruction) + "}"@
}

/// The command that asks the worker to execute `instruction`, without its
/// line feed. The context is compact JSON text; without one the member is
/// `null`.
pub open spec fn execute_command_body(
    id: Seq<char>,
    instruction: Seq<char>,
    context: Option<Seq<char>>,
) -> Seq<char> {
    "{\"cmd\":\"execute\",\"id\":"@ + json_quoted(id) + ",\"instruction\":"@ + json_quoted(
        instruction,
    ) + ",\"context\":"@ + match context {
        Some(c) => c,
        None => "null"@,
    } + "}"@
}

/// The line that asks the worker to execute `instruction`, line feed included.
pub open spec fn execute_command_text(
    id: Seq<char>,
    instruction: Seq<char>,
    context: Option<Seq<char>>,
) -> Seq<char> {
    execute_command_body(id, instruction, context) + "\n"@
}

/// The context as it goes into a command: compact JSON text, or `None`
/// inside when there is no context. `None` outside when the context is not JSON.
pub open spec fn compact_context(context: Option<Seq<char>>) -> Option<Option<Seq<char>>> {
    match context {
        None => Some(None),
        Some(c) => match json_compact(c) {
            Some(t) => Some(Some(t)),
            None => None,
        },
    }
}

fn decode_step(item: &str) -> (r: Option<StepResult>)
    ensures
        match r {
            Some(s) => step_of(item@) == Some(s@),
            None => step_of(item@).is_none(),
        },
{
    let step = match member_text(item, "step") {
        Some(st) => st,
        None => {
            return None;
        },
    };
    let result = match member_text(item, "result") {
        Some(t) => if same_text(t.as_str(), "null") {
            None
        } else {
            Some(t)
        },
        None => None,
    };
    Some(StepResult { step, result })
}

/// Reads a task result from its JSON text. `None` when a required member is
/// missing or of the wrong kind, or a step lacks its `step` member.
pub fn decode_task_result(text: &str) -> (r: Option<TaskResult>)
    ensures
        match r {
            Some(t) => task_result_of(text@) == Some(t@),
            None => task_result_of(text@).is_none(),
        },
{
    let success = bool_member(text, "success");
    let message = str_member(text, "message");
    let items = array_member(text, "steps");
    let user_instruction = str_member(text, "user_instruction");
    match (success, message, items, user_instruction) {
        (Some(success), Some(message), Some(items), Some(user_instruction)) => {
            let ghost iv = texts_view(items@);
            let mut steps: Vec<StepResult> = Vec::new();
            let mut i: usize = 0;
            while i < items.len()
                invariant
                    iv == texts_view(items@),
                    json_bool_member(text@, "success"@) == Some(success),
                    json_array_member(text@, "steps"@) == Some(iv),
                    i <= items@.len(),
                    steps@.len() == i,
                    forall|j: int| 0 <= j < i ==> step_of(#[trigger] iv[j]) == Some(steps@[j]@),
                decreases items@.len() - i,
            {
                match decode_step(items[i].as_str()) {
                    Some(s) => {
                        steps.push(s);
                    },
                    None => {
                        proof {
                            assert(step_of(iv[i as int]).is_none());
                        }
                        return None;
                    },
                }
                i = i + 1;
            }
            let r = TaskResult { success, message, steps, user_instruction };
            proof {
                assert(r@.steps =~= iv.map_values(|it: Seq<char>| step_of(it)->0));
            }
            Some(r)
        },
        _ => None,
    }
}

fn append_step(out: &mut String, s: &StepResult)
    ensures
        final(out)@ == old(out)@ + step_text(s@),
{
    out.append("{\"step\":");
    out.append(s.step.as_str());
    out.append(",\"result\":");
    match &s.result {
        Some(r) => out.append(r.as_str()),
        None => out.append("null"),
    }
    out.append("}");
}

/// Writes a task result in its wire form.
pub fn encode_task_result(t: &TaskResult) -> (r: String)
    ensures
        r@ == task_result_text(t@),
{
    let mut out = String::from_str("{\"success\":");
    if t.success {
        out.append("true");
    } else {
        out.append("false");
    }
    out.append(",\"message\":");
    out.append(quote(t.message.as_str()).as_str());
    out.append(",\"steps\":[");
    let ghost head = out@;
    let ghost sv = t@.steps;
    let mut i: usize = 0;
    while i < t.steps.len()
        invariant
            sv == t@.steps,
            i <= sv.len(),
            out@ == head + steps_text(sv.take(i as int)),
        decreases sv.len() - i,
    {
        if i > 0 {
            out.append(",");
        }
        append_step(&mut out, &t.steps[i]);
        proof {
            assert(sv.take(i + 1).drop_last() =~= sv.take(i as int));
            if i == 0 {
                assert(sv.take(0) =~= Seq::<StepResultView>::empty());
            }
        }
        i = i + 1;
    }
    proof {
        assert(sv.take(sv.len() as int) =~= sv);
    }
    out.append("],\"user_instruction\":");
    out.append(quote(t.user_instruction.as_str()).as_str());
    out.append("}");
    out
}

/// The line that asks the worker to execute `instruction` as request `id`,
/// with the optional JSON `context` written compactly. The line holds no line
/// feed but its last character. `None` when the context is not JSON.
pub fn encode_execute_command(id: &str, instruction: &str, context: &Option<String>) -> (r: Option<
    String,
>)
    ensures
        match (r, compact_context(opt_view(*context))) {
            (Some(line), Some(ctx)) => {
                &&& line@ == execute_command_text(id@, instruction@, ctx)
                &&& one_line(line@.drop_last())
                &&& line@.last() == '\n'
            },
            (None, None) => true,
            _ => false,
        },
{
    let ctx: Option<String> = match context {
        Some(c) => match compact(c.as_str()) {
            Some(t) => Some(t),
            None => {
                return None;
            },
        },
        None => None,
    };
    let mut out = String::from_str("{\"cmd\":\"execute\",\"id\":");
    out.append(quote(id).as_str());
    out.append(",\"instruction\":");
    out.append(quote(instruction).as_str());
    out.append(",\"context\":");
    match &ctx {
        Some(c) => out.append(c.as_str()),
        None => out.append("null"),
    }
    out.append("}");
    let ghost body = out@;
    out.append("\n");
    proof {
        reveal_strlit("{\"cmd\":\"execute\",\"id\":");
        reveal_strlit(",\"instruction\":");
        reveal_strlit(",\"context\":");
        reveal_strlit("null");
        reveal_strlit("}");
        reveal_strlit("\n");
        lemma_quoted_one_line(id@);
        lemma_quoted_one_line(instruction@);
        let ctx_text = match ctx {
            Some(c) => c@,
            None => "null"@,
        };
        assert(one_line("{\"cmd\":\"execute\",\"id\":"@));
        assert(one_line(",\"instruction\":"@));
        assert(one_line(",\"context\":"@));
        assert(one_line("}"@));
        assert(one_line(ctx_text));
        let a = "{\"cmd\":\"execute\",\"id\":"@ + json_quoted(id@);
        lemma_one_line_concat("{\"cmd\":\"execute\",\"id\":"@, json_quoted(id@));
        let b = a + ",\"instruction\":"@;
        lemma_one_line_concat(a, ",\"instruction\":"@);
        let c = b + json_quoted(instruction@);
        lemma_one_line_concat(b, json_quoted(instruction@));
        let d = c + ",\"context\":"@;
        lemma_one_line_concat(c, ",\"context\":"@);
        let e = d + ctx_text;
        lemma_one_line_concat(d, ctx_text);
        lemma_one_line_concat(e, "}"@);
        assert(out@.drop_last() =~= body);
    }
    Some(out)
}

/// The decimal digit `d`, for `d` below ten.
pub open spec fn digit_text(d: nat) -> Seq<char> {
    if d == 0 {
        "0"@
    } else if d == 1 {
        "1"@
    } else if d == 2 {
        "2"@
    } else if d == 3 {
        "3"@
    } else if d == 4 {
        "4"@
    } else if d == 5 {
        "5"@
    } else if d == 6 {
        "6"@
    } else if d == 7 {
        "7"@
    } else if d == 8 {
        "8"@
    } else {
        "9"@
    }
}

/// `n` in decimal, without leading zeros.
pub open spec fn decimal(n: nat) -> Seq<char>
    decreases n,
{
    if n < 10 {
        digit_text(n)
    } else {
        decimal(n / 10) + digit_text(n % 10)
    }
}

fn digit_str(d: u64) -> (r: &'static str)
    requires
        d < 10,
    ensures
        r@ == digit_text(d as nat),
{
    if d == 0 {
        "0"
    } else if d == 1 {
        "1"
    } else if d == 2 {
        "2"
    } else if d == 3 {
        "3"
    } else if d == 4 {
        "4"
    } else if d == 5 {
        "5"
    } else if d == 6 {
        "6"
    } else if d == 7 {
        "7"
    } else if d == 8 {
        "8"
    } else {
        "9"
    }
}

fn append_decimal(out: &mut String, n: u64)
    ensures
        final(out)@ == old(out)@ + decimal(n as nat),
    decreases n,
{
    if n >= 10 {
        append_decimal(out, n / 10);
    }
    out.append(digit_str(n % 10));
    proof {
        if n >= 10 {
            assert(decimal(n as nat) == decimal((n / 10) as nat) + digit_text((n % 10) as nat));
        }
    }
}

/// The identifier of a request made at `millis` milliseconds since the epoch.
pub fn request_id(millis: u64) -> (r: String)
    ensures
        r@ == "task_"@ + decimal(millis as nat),
{
    let mut out = String::from_str("task_");
    append_decimal(&mut out, millis);
    out
}

} // verus!
