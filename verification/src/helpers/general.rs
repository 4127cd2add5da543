//! The code block of a completion, the prompt of a task, and the protocol of
//! one task call with its single retry.

use crate::ai_functions::AiFunction;
use crate::models::general::llm::{reply_view, CompletionError, CompletionErrorView};
use vstd::prelude::*;
use vstd::string::StrSliceExecFns;
use vstd::string::StringExecFns;

verus! {

/// The characters of `text`, in order.
pub fn text_chars(text: &str) -> (chars: Vec<char>)
    ensures
        chars@ == text@,
{
    let mut chars: Vec<char> = Vec::new();
    for c in it: text.chars()
        invariant
            it.seq() == text@,
            chars@ == text@.take(it.index()),
    {
        chars.push(c);
    }
    chars
}

/// Whether a fence, three backticks in a row, starts at `at`.
pub open spec fn fence_at(text: Seq<char>, at: int) -> bool {
    &&& 0 <= at
    &&& at + 3 <= text.len()
    &&& text[at] == '`'
    &&& text[at + 1] == '`'
    &&& text[at + 2] == '`'
}

/// Whether `at` is where the first fence at or after `from` starts.
pub open spec fn first_fence_at(text: Seq<char>, from: int, at: int) -> bool {
    &&& from <= at
    &&& fence_at(text, at)
    &&& forall|j: int| from <= j < at ==> !fence_at(text, j)
}

/// Whether no fence starts at or after `from`.
pub open spec fn no_fence_from(text: Seq<char>, from: int) -> bool {
    forall|j: int| from <= j ==> !fence_at(text, j)
}

/// Where the first fence at or after `from` starts, if there is one.
pub open spec fn first_fence(text: Seq<char>, from: int) -> Option<int> {
    if exists|at: int| first_fence_at(text, from, at) {
        Some(choose|at: int| first_fence_at(text, from, at))
    } else {
        None
    }
}

/// `block` without its first four characters, the language tag; nothing
/// where it has fewer.
pub open spec fn without_tag(block: Seq<char>) -> Seq<char> {
    if block.len() >= 4 {
        block.subrange(4, block.len() as int)
    } else {
        Seq::empty()
    }
}

/// The code block of a completion: what stands between the first fence and
/// the next one after it, without the language tag. `None` where the text
/// has no such pair of fences.
pub open spec fn code_block(text: Seq<char>) -> Option<Seq<char>> {
    match first_fence(text, 0) {
        None => None,
        Some(open) => match first_fence(text, open + 3) {
            None => None,
            Some(close) => Some(without_tag(text.subrange(open + 3, close))),
        },
    }
}

/// The first fence at or after `from` is unique, so `first_fence` names it.
pub proof fn lemma_first_fence(text: Seq<char>, from: int, at: int)
    requires
        first_fence_at(text, from, at),
    ensures
        first_fence(text, from) == Some(at),
{
}

/// Without a fence at or after `from`, `first_fence` finds none.
pub proof fn lemma_no_fence(text: Seq<char>, from: int)
    requires
        no_fence_from(text, from),
    ensures
        first_fence(text, from) is None,
{
}

/// Finds the first fence of `chars` at or after `from`.
fn find_fence(chars: &Vec<char>, from: usize) -> (found: Option<usize>)
    ensures
        match found {
            Some(at) => first_fence_at(chars@, from as int, at as int),
            None => no_fence_from(chars@, from as int),
        },
{
    let n = chars.len();
    if n < 3 || from > n - 3 {
        return None;
    }
    let mut i: usize = from;
    while i <= n - 3
        invariant
            n == chars.len(),
            n >= 3,
            from <= i <= n - 2,
            forall|j: int| from <= j < i ==> !fence_at(chars@, j),
        decreases n - i,
    {
        if chars[i] == '`' && chars[i + 1] == '`' && chars[i + 2] == '`' {
            return Some(i);
        }
        i += 1;
    }
    None
}

/// Takes the code block out of a completion's text: what stands between the
/// first fence and the next, without its first four characters. `None` where
/// the text holds fewer than two fences.
pub fn extract_code_block(input: String) -> (block: Option<String>)
    ensures
        block.deep_view() == code_block(input@),
{
    let text = input.as_str();
    let chars = text_chars(text);
    let open = match find_fence(&chars, 0) {
        Some(at) => at,
        None => {
            proof {
                lemma_no_fence(input@, 0);
            }
            return None;
        },
    };
    proof {
        lemma_first_fence(input@, 0, open as int);
    }
    assert(open + 3 <= chars.len());
    let close = match find_fence(&chars, open + 3) {
        Some(at) => at,
        None => {
            proof {
                lemma_no_fence(input@, open + 3);
            }
            return None;
        },
    };
    proof {
        lemma_first_fence(input@, open + 3, close as int);
    }
    let code = if close - open >= 7 {
        text.substring_char(open + 7, close)
    } else {
        text.substring_char(close, close)
    };
    Some(code.to_owned())
}

/// A text in which fences start at two places and nowhere else, the second
/// clear of the first, yields what stands between them, without the first
/// four characters.
pub proof fn lemma_code_block_of_two_fences(text: Seq<char>, open: int, close: int)
    requires
        open + 3 <= close,
        forall|j: int| fence_at(text, j) <==> (j == open || j == close),
    ensures
        code_block(text) == Some(without_tag(text.subrange(open + 3, close))),
{
    assert(fence_at(text, open));
    lemma_first_fence(text, 0, open);
    lemma_first_fence(text, open + 3, close);
}

/// A text in which a fence starts at one place at most yields no code block:
/// never a part of the text.
pub proof fn lemma_code_block_needs_two_fences(text: Seq<char>)
    requires
        forall|i: int, j: int| fence_at(text, i) && fence_at(text, j) ==> i == j,
    ensures
        code_block(text) is None,
{
    if exists|at: int| first_fence_at(text, 0, at) {
        let open = choose|at: int| first_fence_at(text, 0, at);
        lemma_first_fence(text, 0, open);
        lemma_no_fence(text, open + 3);
    }
}

/// The prompt that asks the completion service to act as `task_text`, the
/// text of a task function, applied to `input`.
pub open spec fn extended_prompt(task_text: Seq<char>, input: Seq<char>) -> Seq<char> {
    "FUNCTION: "@ + task_text + "\nINSTRUCTION: You are a function printer. You ONLY print the results of functions. Nothing else. No commentary. Here is the input to the function: "@
        + input + ". Print out what the function will return."@
}

/// Wraps `func_input` in the text of the task function `ai_func`, which is
/// what `ai_func` returns on it.
pub fn extend_ai_function<F: Fn(&str) -> &'static str>(ai_func: F, func_input: &str) -> (prompt:
    String)
    requires
        ai_func.requires((func_input,)),
    ensures
        exists|task_text: &'static str|
            ai_func.ensures((func_input,), task_text) && prompt@ == extended_prompt(
                task_text@,
                func_input@,
            ),
{
    let ai_function_str = ai_func(func_input);
    let mut prompt = String::from_str("FUNCTION: ");
    prompt.append(ai_function_str);
    prompt.append(
        "\nINSTRUCTION: You are a function printer. You ONLY print the results of functions. Nothing else. No commentary. Here is the input to the function: ",
    );
    prompt.append(func_input);
    prompt.append(". Print out what the function will return.");
    prompt
}

/// Where a task call stands: at the first call, which sends the wrapped
/// prompt; at the second, which sends the bare context; or at its end.
#[derive(Debug, Clone, Copy, PartialEq, Eq, Structural)]
pub enum TaskStage {
    Primary,
    Fallback,
    Done,
}

/// One task asked of the completion service: the decisions between its
/// calls. The driver sends each prompt and hands back what came of it.
#[derive(Debug)]
pub struct AiTask {
    msg_context: String,
    stage: TaskStage,
    answer: String,
}

/// An `AiTask` as plain values.
pub struct AiTaskView {
    pub msg_context: Seq<char>,
    pub stage: TaskStage,
    pub answer: Seq<char>,
}

impl View for AiTask {
    type V = AiTaskView;

    closed spec fn view(&self) -> AiTaskView {
        AiTaskView { msg_context: self.msg_context@, stage: self.stage, answer: self.answer@ }
    }
}

/// What the driver of a task does next.
#[derive(Debug, Clone, PartialEq, Eq)]
pub enum TaskStep {
    /// Send this prompt and come back with the outcome.
    Send(String),
    /// The task has ended with this text.
    Finish(String),
}

/// A `TaskStep` as plain values.
pub enum TaskStepView {
    Send(Seq<char>),
    Finish(Seq<char>),
}

impl View for TaskStep {
    type V = TaskStepView;

    open spec fn view(&self) -> TaskStepView {
        match self {
            TaskStep::Send(prompt) => TaskStepView::Send(prompt@),
            TaskStep::Finish(text) => TaskStepView::Finish(text@),
        }
    }
}

/// The text that stands for a completion when both calls have failed.
pub open spec fn service_unavailable() -> Seq<char> {
    "AI service unavailable"@
}

/// A task that has ended with `answer`.
pub open spec fn task_ended(task: AiTaskView, answer: Seq<char>) -> AiTaskView {
    AiTaskView { stage: TaskStage::Done, answer, ..task }
}

/// The task as it starts on `msg_context`.
pub open spec fn task_begun(msg_context: Seq<char>) -> AiTaskView {
    AiTaskView { msg_context, stage: TaskStage::Primary, answer: Seq::empty() }
}

/// One decision of a task: from where it stands and the outcome of the call
/// just made, to where it stands next and what to do.
pub open spec fn task_step(task: AiTaskView, reply: Result<Seq<char>, CompletionErrorView>) -> (
    AiTaskView,
    TaskStepView,
) {
    match task.stage {
        TaskStage::Primary => match reply {
            Ok(text) => (task_ended(task, text), TaskStepView::Finish(text)),
            Err(_) => (
                AiTaskView { stage: TaskStage::Fallback, ..task },
                TaskStepView::Send(task.msg_context),
            ),
        },
        TaskStage::Fallback => match reply {
            Ok(text) => (task_ended(task, text), TaskStepView::Finish(text)),
            Err(_) => (
                task_ended(task, service_unavailable()),
                TaskStepView::Finish(service_unavailable()),
            ),
        },
        TaskStage::Done => (task, TaskStepView::Finish(task.answer)),
    }
}

/// What a task comes to, given the outcome of its first call and the outcome
/// that a second call would have.
pub open spec fn task_answer(
    primary: Result<Seq<char>, CompletionErrorView>,
    fallback: Result<Seq<char>, CompletionErrorView>,
) -> Seq<char> {
    match primary {
        Ok(text) => text,
        Err(_) => match fallback {
            Ok(text) => text,
            Err(_) => service_unavailable(),
        },
    }
}

impl AiTask {
    /// Starts the task `function_pass` on `msg_context`. The prompt to send
    /// first is the context wrapped in the task function's text.
    pub fn begin(msg_context: String, function_pass: AiFunction) -> (started: (AiTask, String))
        ensures
            started.0@ == task_begun(msg_context@),
            started.1@ == extended_prompt(function_pass.spec_text(), msg_context@),
    {
        let prompt = function_pass.prompt(msg_context.as_str());
        (AiTask { msg_context, stage: TaskStage::Primary, answer: String::new() }, prompt)
    }

    /// Takes the outcome of the call just made and decides: a first call
    /// that failed is followed by one call with the bare context; any
    /// success ends the task with its text; a second failure ends it with
    /// the text that says the service is unavailable.
    pub fn resume(&mut self, reply: Result<String, CompletionError>) -> (step: TaskStep)
        ensures
            (final(self)@, step@) == task_step(old(self)@, reply_view(reply)),
    {
        match self.stage {
            TaskStage::Primary => match reply {
                Ok(text) => {
                    self.stage = TaskStage::Done;
                    self.answer = text.clone();
                    TaskStep::Finish(text)
                },
                Err(_) => {
                    self.stage = TaskStage::Fallback;
                    TaskStep::Send(self.msg_context.clone())
                },
            },
            TaskStage::Fallback => {
                let text = match reply {
                    Ok(text) => text,
                    Err(_) => String::from_str("AI service unavailable"),
                };
                self.stage = TaskStage::Done;
                self.answer = text.clone();
                TaskStep::Finish(text)
            },
            TaskStage::Done => TaskStep::Finish(self.answer.clone()),
        }
    }

    /// Where the task stands.
    pub fn stage(&self) -> (stage: TaskStage)
        ensures
            stage == self@.stage,
    {
        self.stage
    }
}

/// The bare context goes out as a second prompt if and only if the first
/// call failed, and a first call that succeeded ends the task with its own
/// text.
pub proof fn lemma_fallback_iff_primary_failed(
    msg_context: Seq<char>,
    primary: Result<Seq<char>, CompletionErrorView>,
)
    ensures
        task_step(task_begun(msg_context), primary).1 is Send <==> primary is Err,
        primary is Err ==> task_step(task_begun(msg_context), primary).1 == TaskStepView::Send(
            msg_context,
        ),
        primary matches Ok(text) ==> task_step(task_begun(msg_context), primary) == (
            task_ended(task_begun(msg_context), text),
            TaskStepView::Finish(text),
        ),
{
}

/// Of the first calls that succeed or fail in transport, those that fail
/// are the ones followed by the bare context as a second prompt. This says
/// nothing of a first call that fails in another way; the law before this
/// one does.
pub proof fn lemma_transport_failure_is_retried(
    msg_context: Seq<char>,
    primary: Result<Seq<char>, CompletionErrorView>,
)
    requires
        primary matches Err(error) ==> error is Transport,
    ensures
        task_step(task_begun(msg_context), primary).1 == TaskStepView::Send(msg_context) <==> (
        primary matches Err(error) && error is Transport),
{
}

/// A task that has ended sends nothing more, whatever it is handed: of the
/// two calls, one at most gives the task its text.
pub proof fn lemma_ended_task_stays(task: AiTaskView, reply: Result<Seq<char>, CompletionErrorView>)
    requires
        task.stage == TaskStage::Done,
    ensures
        task_step(task, reply) == (task, TaskStepView::Finish(task.answer)),
{
}

/// A whole task: it ends after one call or two, with the text of the first
/// call that succeeded, and with the text that says the service is
/// unavailable where neither did.
pub proof fn lemma_task_run(
    msg_context: Seq<char>,
    primary: Result<Seq<char>, CompletionErrorView>,
    fallback: Result<Seq<char>, CompletionErrorView>,
)
    ensures
        ({
            let (second, first) = task_step(task_begun(msg_context), primary);
            let (last, then) = task_step(second, fallback);
            &&& primary is Ok ==> first == TaskStepView::Finish(task_answer(primary, fallback))
                && second.stage == TaskStage::Done
            &&& primary is Err ==> then == TaskStepView::Finish(task_answer(primary, fallback))
                && last.stage == TaskStage::Done
            &&& last.answer == task_answer(primary, fallback)
        }),
{
}

} // verus!
