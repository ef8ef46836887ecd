use vstd::prelude::*;
use crate::command::{command_kind, kind_at, kind_at_index, Command, CommandKind};
use crate::elicit::{
    answer_ok, answers_ok, command_matches, elicit, next_prompt, prompt_count, shapes, Answer,
    ElicitError, Prompt, Shape,
};
use crate::text::{is_amount, parse_u32, parse_u64};

verus! {

/// State of an interactive session.
#[derive(Debug)]
pub enum Session {
    /// Waiting for the operator to agree to go on at all.
    AwaitingConsent,
    /// Showing the menu of command kinds.
    SelectingCommand,
    /// Asking the prompts of `kind`; `answers` are those given so far.
    Eliciting { kind: CommandKind, answers: Vec<Answer> },
    /// A command was built and is to be shown.
    Displaying(Command),
    /// An elicitation failed and the failure is to be shown.
    Failed(ElicitError),
    /// Asking whether to choose another command.
    AwaitingContinuation,
    /// The session ended normally.
    Exited,
    /// The session ended on a termination signal.
    Interrupted,
}

/// What happened since the last step.
#[derive(Debug)]
pub enum Event {
    /// Answer to the opening question.
    Consent(bool),
    /// Position chosen in the menu.
    Selected(usize),
    /// Answer to the current prompt.
    Answered(Answer),
    /// The command or failure on display was shown.
    Shown,
    /// Answer to the question whether to go on.
    Continue(bool),
    /// A termination signal arrived.
    Interrupt,
}

/// What the session waits for in its current state.
#[derive(Debug)]
pub enum Request {
    /// Ask whether to go on to the menu at all.
    AskConsent,
    /// Show the menu and read a selection.
    ShowMenu,
    /// Issue this prompt and read its answer.
    Ask(Prompt),
    /// Show the command that was built, with every field, absent ones included.
    Show,
    /// Tell the operator why the elicitation failed.
    Report(ElicitError),
    /// Ask whether to choose another command.
    AskContinue,
    /// Nothing more: the session has ended.
    Stop,
}

/// Every answer so far is acceptable and more prompts remain.
pub open spec fn eliciting_ok(k: CommandKind, ans: Seq<Answer>) -> bool {
    &&& ans.len() < prompt_count(k, ans)
    &&& forall|i: int| 0 <= i < ans.len() ==> answer_ok(#[trigger] shapes(k)[i], ans[i])
}

impl Session {
    /// Well-formedness: an elicitation in progress is consistent with its kind.
    pub open spec fn wf(&self) -> bool {
        match self {
            Session::Eliciting { kind, answers } => eliciting_ok(*kind, answers@),
            _ => true,
        }
    }

    pub open spec fn is_terminal(&self) -> bool {
        self is Exited || self is Interrupted
    }

    /// The state a session starts in.
    pub fn new() -> (r: Session)
        ensures
            r is AwaitingConsent,
            r.wf(),
    {
        Session::AwaitingConsent
    }

    /// Whether the session has ended.
    pub fn is_finished(&self) -> (r: bool)
        ensures
            r == self.is_terminal(),
    {
        match self {
            Session::Exited | Session::Interrupted => true,
            _ => false,
        }
    }
}

/// What the session waits for in state `s`.
pub fn request(s: &Session) -> (r: Request)
    requires
        s.wf(),
    ensures
        s is AwaitingConsent <==> r is AskConsent,
        s is SelectingCommand <==> r is ShowMenu,
        s is Eliciting <==> r is Ask,
        s matches Session::Eliciting { kind, answers } ==> r->Ask_0.shape == shapes(
            *kind,
        )[answers@.len() as int],
        s is Displaying <==> r is Show,
        s matches Session::Failed(e) ==> r == Request::Report(*e),
        s is Failed <==> r is Report,
        s is AwaitingContinuation <==> r is AskContinue,
        s.is_terminal() <==> r is Stop,
{
    match s {
        Session::AwaitingConsent => Request::AskConsent,
        Session::SelectingCommand => Request::ShowMenu,
        Session::Eliciting { kind, answers } => match next_prompt(*kind, answers) {
            Some(p) => Request::Ask(p),
            None => Request::Stop,
        },
        Session::Displaying(_) => Request::Show,
        Session::Failed(e) => Request::Report(*e),
        Session::AwaitingContinuation => Request::AskContinue,
        Session::Exited | Session::Interrupted => Request::Stop,
    }
}

/// Checks one answer against the shape of its prompt.
pub fn check_answer(shape: Shape, a: &Answer) -> (r: Result<(), ElicitError>)
    ensures
        r is Ok <==> answer_ok(shape, *a),
{
    match (shape, a) {
        (Shape::Flag, Answer::Flag(_)) => Ok(()),
        (_, Answer::Flag(_)) | (Shape::Flag, Answer::Text(_)) => Err(ElicitError::AnswersMismatch),
        (Shape::Text, Answer::Text(s)) => {
            if s.as_str().is_empty() {
                Err(ElicitError::EmptyField)
            } else {
                Ok(())
            }
        },
        (Shape::U64, Answer::Text(s)) => match parse_u64(s.as_str()) {
            Some(_) => Ok(()),
            None => Err(ElicitError::NotANumber),
        },
        (Shape::U32, Answer::Text(s)) => match parse_u32(s.as_str()) {
            Some(_) => Ok(()),
            None => Err(ElicitError::NotANumber),
        },
        (Shape::Amount, Answer::Text(s)) => {
            if is_amount(s.as_str()) {
                Ok(())
            } else {
                Err(ElicitError::NotAnAmount)
            }
        },
        (_, Answer::Text(_)) => Ok(()),
    }
}

/// Moves an elicitation on: asks the next prompt, or builds the command once all are answered.
fn advance(kind: CommandKind, answers: Vec<Answer>) -> (r: Session)
    requires
        forall|i: int|
            0 <= i < answers@.len() ==> answer_ok(#[trigger] shapes(kind)[i], answers@[i]),
        answers@.len() <= prompt_count(kind, answers@),
    ensures
        r.wf(),
        answers@.len() < prompt_count(kind, answers@) ==> r == (Session::Eliciting {
            kind,
            answers,
        }),
        answers@.len() == prompt_count(kind, answers@) ==> r is Displaying && command_kind(
            r->Displaying_0,
        ) == kind && command_matches(r->Displaying_0, answers@),
{
    match next_prompt(kind, &answers) {
        Some(_) => Session::Eliciting { kind, answers },
        None => {
            assert(answers_ok(kind, answers@));
            match elicit(kind, &answers) {
                Ok(c) => Session::Displaying(c),
                Err(e) => Session::Failed(e),
            }
        },
    }
}

/// One transition of the session.
///
/// A termination signal ends the session from any state, and an ended session
/// stays ended. A rejected answer yields no command: the failure is reported and
/// the session goes back to the menu.
pub fn step(s: Session, e: Event) -> (r: Session)
    requires
        s.wf(),
    ensures
        r.wf(),
        e is Interrupt ==> r is Interrupted,
        s is Interrupted ==> r is Interrupted,
        s is Exited && !(e is Interrupt) ==> r is Exited,
        s is AwaitingConsent ==> match e {
            Event::Consent(true) => r is SelectingCommand,
            Event::Consent(false) => r is Exited,
            Event::Interrupt => true,
            _ => r is AwaitingConsent,
        },
        s is SelectingCommand ==> match e {
            Event::Selected(i) => match kind_at_index(i as nat) {
                Some(k) => if prompt_count(k, seq![]) > 0 {
                    r matches Session::Eliciting { kind, answers } && kind == k && answers@.len() == 0
                } else {
                    r is Displaying && command_kind(r->Displaying_0) == k
                },
                None => r is SelectingCommand,
            },
            Event::Interrupt => true,
            _ => r is SelectingCommand,
        },
        s matches Session::Eliciting { kind, answers } ==> match e {
            Event::Answered(a) => if !answer_ok(shapes(kind)[answers@.len() as int], a) {
                r is Failed
            } else if answers@.len() + 1 < prompt_count(kind, answers@.push(a)) {
                r matches Session::Eliciting { kind: k2, answers: a2 } && k2 == kind && a2@
                    == answers@.push(a)
            } else {
                r is Displaying && command_kind(r->Displaying_0) == kind && answers_ok(
                    kind,
                    answers@.push(a),
                ) && command_matches(r->Displaying_0, answers@.push(a))
            },
            Event::Interrupt => true,
            _ => r is Eliciting,
        },
        s is Displaying ==> match e {
            Event::Shown => r is AwaitingContinuation,
            Event::Interrupt => true,
            _ => r is Displaying,
        },
        s is Failed ==> match e {
            Event::Shown => r is SelectingCommand,
            Event::Interrupt => true,
            _ => r is Failed,
        },
        s is AwaitingContinuation ==> match e {
            Event::Continue(true) => r is SelectingCommand,
            Event::Continue(false) => r is Exited,
            Event::Interrupt => true,
            _ => r is AwaitingContinuation,
        },
{
    if let Event::Interrupt = e {
        return Session::Interrupted;
    }
    match s {
        Session::AwaitingConsent => match e {
            Event::Consent(true) => Session::SelectingCommand,
            Event::Consent(false) => Session::Exited,
            _ => Session::AwaitingConsent,
        },
        Session::SelectingCommand => match e {
            Event::Selected(i) => match kind_at(i) {
                Some(k) => {
                    let answers: Vec<Answer> = Vec::new();
                    assert(answers@ =~= seq![]);
                    advance(k, answers)
                },
                None => Session::SelectingCommand,
            },
            _ => Session::SelectingCommand,
        },
        Session::Eliciting { kind, answers } => match e {
            Event::Answered(a) => {
                let ghost old_answers = answers@;
                let shape = match next_prompt(kind, &answers) {
                    Some(p) => p.shape,
                    None => {
                        return Session::Failed(ElicitError::AnswersMismatch);
                    },
                };
                match check_answer(shape, &a) {
                    Err(err) => Session::Failed(err),
                    Ok(()) => {
                        let mut answers = answers;
                        answers.push(a);
                        proof {
                            assert forall|i: int| 0 <= i < answers@.len() implies answer_ok(
                                #[trigger] shapes(kind)[i],
                                answers@[i],
                            ) by {
                                if i < old_answers.len() {
                                    assert(answers@[i] == old_answers[i]);
                                }
                            }
                            if kind == CommandKind::KeyPair && old_answers.len() > 0 {
                                assert(answers@[0] == old_answers[0]);
                            }
                        }
                        advance(kind, answers)
                    },
                }
            },
            _ => Session::Eliciting { kind, answers },
        },
        Session::Displaying(c) => match e {
            Event::Shown => Session::AwaitingContinuation,
            _ => Session::Displaying(c),
        },
        Session::Failed(err) => match e {
            Event::Shown => Session::SelectingCommand,
            _ => Session::Failed(err),
        },
        Session::AwaitingContinuation => match e {
            Event::Continue(true) => Session::SelectingCommand,
            Event::Continue(false) => Session::Exited,
            _ => Session::AwaitingContinuation,
        },
        Session::Exited => Session::Exited,
        Session::Interrupted => Session::Interrupted,
    }
}

} // verus!
