//! The course of a scenario: which operation is next, and what an answer to it means.

use crate::operations::script_of;
use crate::operations::Action;
use crate::operations::Operation;
use crate::operations::Step;
use crate::operations::StepModel;
use crate::query::check_items;
use crate::query::complaint_about;
use vstd::prelude::*;

verus! {

/// How an operation ended.
#[derive(Debug, Clone, Copy, PartialEq, Eq, Structural)]
pub enum Reply {
    /// It succeeded, or what was waited for has come.
    Done,
    /// It was refused.
    Refused,
    /// It was a query, and gave so many items.
    Items(usize),
}

/// Whether an action is a wait.
pub open spec fn is_wait(action: Action) -> bool {
    action is AwaitIndex || action is AwaitNoIndex
}

/// Whether `reply` is an answer to `action`.
pub open spec fn answers(action: Action, reply: Reply) -> bool {
    match reply {
        Reply::Done => !(action is Query),
        Reply::Refused => !is_wait(action),
        Reply::Items(_) => action is Query,
    }
}

/// What is wrong with `reply` as an answer to `step`.
pub open spec fn complaint(step: StepModel, reply: Reply) -> Option<Seq<char>> {
    match reply {
        Reply::Done => None,
        Reply::Refused => step.failure,
        Reply::Items(count) => complaint_about(step.action->limit as nat, count as nat),
    }
}

/// Whether it is known what to say of every step that is refused.
pub open spec fn is_playable(script: Seq<StepModel>) -> bool {
    forall|i: int|
        0 <= i < script.len() ==> (is_wait((#[trigger] script[i]).action) || script[i].failure is Some)
}

/// How far a scenario has come.
#[verifier::ext_equal]
pub struct RunModel {
    pub script: Seq<StepModel>,
    /// How many steps have been taken.
    pub taken: nat,
    /// What was wrong with the answer to the step that was to be taken next.
    pub complaint: Option<Seq<char>>,
}

impl RunModel {
    /// A scenario of which no step has been taken.
    pub open spec fn fresh(script: Seq<StepModel>) -> RunModel {
        RunModel { script, taken: 0, complaint: None }
    }

    /// Whether there is a step to take.
    pub open spec fn goes_on(self) -> bool {
        self.complaint is None && self.taken < self.script.len()
    }

    /// Whether every step has been taken.
    pub open spec fn passed(self) -> bool {
        self.complaint is None && self.taken >= self.script.len()
    }

    /// How far the scenario has come when the next step has been answered by `reply`.
    pub open spec fn after(self, reply: Reply) -> RunModel {
        match complaint(self.script[self.taken as int], reply) {
            None => RunModel { taken: self.taken + 1, ..self },
            Some(text) => RunModel { complaint: Some(text), ..self },
        }
    }
}

/// How far a scenario has come when its steps have been answered by `replies`.
pub open spec fn played(run: RunModel, replies: Seq<Reply>) -> RunModel
    decreases replies.len(),
{
    if replies.len() == 0 {
        run
    } else {
        played(run, replies.drop_last()).after(replies.last())
    }
}

/// Whether each of `replies` answers a step that was to be taken.
pub open spec fn is_course(run: RunModel, replies: Seq<Reply>) -> bool
    decreases replies.len(),
{
    replies.len() == 0 || {
        let before = played(run, replies.drop_last());
        &&& is_course(run, replies.drop_last())
        &&& before.goes_on()
        &&& answers(before.script[before.taken as int].action, replies.last())
    }
}

/// Whether there is nothing wrong with the first `count` replies.
pub open spec fn accepted(script: Seq<StepModel>, replies: Seq<Reply>, count: int) -> bool {
    forall|i: int| 0 <= i < count ==> complaint(script[i], #[trigger] replies[i]) is None
}

/// The steps are taken in their order, each once. The complaint is about the last reply, and
/// those before it were accepted.
pub proof fn lemma_course(script: Seq<StepModel>, replies: Seq<Reply>)
    requires
        is_course(RunModel::fresh(script), replies),
    ensures
        ({
            let run = played(RunModel::fresh(script), replies);
            &&& run.script == script
            &&& replies.len() <= script.len()
            &&& match run.complaint {
                None => run.taken == replies.len() && accepted(
                    script,
                    replies,
                    replies.len() as int,
                ),
                Some(_) => {
                    &&& run.taken + 1 == replies.len()
                    &&& accepted(script, replies, replies.len() - 1)
                    &&& run.complaint == complaint(script[replies.len() - 1], replies.last())
                },
            }
        }),
    decreases replies.len(),
{
    if replies.len() > 0 {
        let before = replies.drop_last();
        lemma_course(script, before);
        assert forall|i: int| 0 <= i < before.len() implies complaint(
            script[i],
            #[trigger] replies[i],
        ) is None by {
            assert(replies[i] == before[i]);
        }
    }
}

/// A scenario passes exactly if every one of its steps was answered, and every answer accepted.
pub proof fn lemma_passes_when_all_is_accepted(script: Seq<StepModel>, replies: Seq<Reply>)
    requires
        is_course(RunModel::fresh(script), replies),
    ensures
        played(RunModel::fresh(script), replies).passed() <==> {
            &&& replies.len() == script.len()
            &&& accepted(script, replies, replies.len() as int)
        },
{
    lemma_course(script, replies);
}

/// No step is taken after a complaint.
pub proof fn lemma_stops_at_first_complaint(
    script: Seq<StepModel>,
    replies: Seq<Reply>,
    more: Seq<Reply>,
)
    requires
        is_course(RunModel::fresh(script), replies),
        played(RunModel::fresh(script), replies).complaint is Some,
        more.len() > 0,
    ensures
        !is_course(RunModel::fresh(script), replies + more),
    decreases more.len(),
{
    let all = replies + more;
    assert(all.drop_last() =~= replies + more.drop_last());
    if more.len() > 1 {
        lemma_stops_at_first_complaint(script, replies, more.drop_last());
    } else {
        assert(all.drop_last() =~= replies);
    }
}

/// A scenario that is being played.
#[derive(Debug)]
pub struct Run {
    steps: Vec<Step>,
    taken: usize,
    complaint: Option<String>,
}

impl View for Run {
    type V = RunModel;

    closed spec fn view(&self) -> RunModel {
        RunModel {
            script: script_of(self.steps@),
            taken: self.taken as nat,
            complaint: match self.complaint {
                Some(text) => Some(text@),
                None => None,
            },
        }
    }
}

impl Run {
    /// Whether the run is one that can be played.
    pub open spec fn wf(self) -> bool {
        &&& is_playable(self@.script)
        &&& self@.taken <= self@.script.len()
        &&& self@.complaint is Some ==> self@.taken < self@.script.len()
    }

    /// Starts a scenario.
    pub fn new(steps: Vec<Step>) -> (run: Self)
        requires
            is_playable(script_of(steps@)),
        ensures
            run.wf(),
            run@ == RunModel::fresh(script_of(steps@)),
    {
        Run { steps, taken: 0, complaint: None }
    }

    /// The step to take, as long as the scenario goes on.
    pub fn next(&self) -> (step: Option<&Step>)
        requires
            self.wf(),
        ensures
            match step {
                Some(s) => self@.goes_on() && s@ == self@.script[self@.taken as int],
                None => !self@.goes_on(),
            },
    {
        if self.complaint.is_none() && self.taken < self.steps.len() {
            assert(script_of(self.steps@)[self.taken as int] == self.steps@[self.taken as int]@);
            Some(&self.steps[self.taken])
        } else {
            None
        }
    }

    /// Records how the step that was to be taken ended.
    pub fn record(&mut self, reply: Reply)
        requires
            old(self).wf(),
            old(self)@.goes_on(),
            answers(old(self)@.script[old(self)@.taken as int].action, reply),
        ensures
            final(self).wf(),
            final(self)@ == old(self)@.after(reply),
            reply == Reply::Done ==> final(self)@.complaint is None && final(self)@.taken
                == old(self)@.taken + 1,
            reply == Reply::Refused ==> final(self)@.complaint is Some && final(self)@.complaint
                == old(self)@.script[old(self)@.taken as int].failure,
            reply matches Reply::Items(count) ==> (final(self)@.complaint is None <==> 1 <= count
                <= old(self)@.script[old(self)@.taken as int].action->limit),
    {
        let step: &Step = &self.steps[self.taken];
        assert(step@ == self@.script[self@.taken as int]);
        let complaint: Option<String> = match reply {
            Reply::Done => None,
            Reply::Refused => step.failure.clone(),
            Reply::Items(count) => match &step.operation {
                Operation::Query { limit, .. } => check_items(*limit, count),
                _ => None,
            },
        };
        if complaint.is_none() {
            assert(self.taken < self.steps.len());
            self.taken = self.taken + 1;
        } else {
            self.complaint = complaint;
        }
    }

    /// Whether every step has been taken.
    pub fn passed(&self) -> (passed: bool)
        requires
            self.wf(),
        ensures
            passed == self@.passed(),
    {
        self.complaint.is_none() && self.taken >= self.steps.len()
    }

    /// What was wrong, if anything was.
    pub fn complaint(&self) -> (text: Option<&str>)
        ensures
            match text {
                Some(t) => self@.complaint == Some(t@),
                None => self@.complaint is None,
            },
    {
        match &self.complaint {
            Some(text) => Some(text.as_str()),
            None => None,
        }
    }
}

/// A run goes on until it has taken every step or there is a complaint, and passes when it has
/// taken every step without one.
pub proof fn lemma_run_ends(run: RunModel)
    ensures
        run.goes_on() <==> run.complaint is None && run.taken < run.script.len(),
        run.passed() <==> run.complaint is None && run.taken >= run.script.len(),
{
}

/// A run starts at its first step, without a complaint.
pub proof fn lemma_run_starts(script: Seq<StepModel>)
    ensures
        RunModel::fresh(script).script == script,
        RunModel::fresh(script).taken == 0,
        RunModel::fresh(script).complaint is None,
{
}

/// Items come back from queries alone, queries bring nothing else, and waits are not refused.
pub proof fn lemma_replies_fit_actions(action: Action, count: usize)
    ensures
        answers(action, Reply::Items(count)) <==> action is Query,
        answers(action, Reply::Done) <==> !(action is Query),
        answers(action, Reply::Refused) <==> !(action is AwaitIndex) && !(action is AwaitNoIndex),
{
}

/// A step that succeeds is followed by the next.
pub proof fn lemma_success_goes_on(run: RunModel)
    requires
        run.complaint is None,
        run.taken < run.script.len(),
    ensures
        run.after(Reply::Done).taken == run.taken + 1,
        run.after(Reply::Done).complaint is None,
        run.after(Reply::Done).script == run.script,
{
}

/// A step that is refused ends the run: it says what should have succeeded, and takes no further
/// step.
pub proof fn lemma_refusal_ends_run(run: RunModel, failure: Seq<char>)
    requires
        run.complaint is None,
        run.taken < run.script.len(),
        run.script[run.taken as int].failure == Some(failure),
    ensures
        run.after(Reply::Refused).complaint == Some(failure),
        run.after(Reply::Refused).taken == run.taken,
        run.after(Reply::Refused).script == run.script,
        !run.after(Reply::Refused).goes_on(),
        !run.after(Reply::Refused).passed(),
{
}

/// A query is followed by the next step exactly if it brings an item, and not more of them than
/// were asked for; otherwise it ends the run.
pub proof fn lemma_query_respects_limit(run: RunModel, limit: nat, count: usize)
    requires
        run.complaint is None,
        run.taken < run.script.len(),
        run.script[run.taken as int].action matches Action::Query { limit: l, .. } && l == limit,
    ensures
        run.after(Reply::Items(count)).script == run.script,
        run.after(Reply::Items(count)).complaint == complaint_about(limit, count as nat),
        1 <= count <= limit ==> {
            &&& run.after(Reply::Items(count)).complaint is None
            &&& run.after(Reply::Items(count)).taken == run.taken + 1
        },
        !(1 <= count <= limit) ==> {
            &&& run.after(Reply::Items(count)).complaint is Some
            &&& run.after(Reply::Items(count)).taken == run.taken
            &&& !run.after(Reply::Items(count)).goes_on()
            &&& !run.after(Reply::Items(count)).passed()
        },
{
}

/// A run that passed was refused nothing, and every query in it brought an item and respected its
/// limit.
pub proof fn lemma_passed_run_was_never_refused(
    script: Seq<StepModel>,
    replies: Seq<Reply>,
    i: int,
)
    requires
        forall|j: int|
            #![trigger script[j]]
            0 <= j < script.len() ==> script[j].failure is Some || script[j].action is AwaitIndex
                || script[j].action is AwaitNoIndex,
        is_course(RunModel::fresh(script), replies),
        played(RunModel::fresh(script), replies).passed(),
        0 <= i < script.len(),
    ensures
        replies.len() == script.len(),
        match script[i].action {
            Action::Query { limit, .. } => replies[i] matches Reply::Items(count) && 1 <= count
                <= limit,
            _ => replies[i] == Reply::Done,
        },
{
    lemma_passes_when_all_is_accepted(script, replies);
    lemma_replies_answer(script, replies, i);
    assert(complaint(script[i], replies[i]) is None);
}

/// Each reply of a course answers the step in its place.
proof fn lemma_replies_answer(script: Seq<StepModel>, replies: Seq<Reply>, i: int)
    requires
        is_course(RunModel::fresh(script), replies),
        0 <= i < replies.len(),
    ensures
        answers(script[i].action, replies[i]),
    decreases replies.len(),
{
    let before = replies.drop_last();
    lemma_course(script, before);
    if i < before.len() {
        lemma_replies_answer(script, before, i);
        assert(replies[i] == before[i]);
    }
}

} // verus!
