//! A run, one decision at a time.
//!
//! The library decides and the caller acts: each `Turn` tells the caller what
//! to do next, and hands it the value to come back with once that is done.

use crate::error::{Failure, RunError};
use crate::json::{json_reading, render_body};
use crate::lines::{
    placeholder_line, placeholder_text, refusal_line, refusal_text, response_line, response_text,
};
use crate::plan::{
    lemma_plan_around_row, lookups, plan, plan_steps, row_steps, step_views, Step, StepView,
};
use crate::records::{
    data_rows, failure_view, read_rows, reading_failure, row_texts, sound_rows, RowReading, Rows,
};
use crate::request::{lookup_request, request_for, Request, RequestView};
use crate::status::{is_success_code, status_text, Status};
use crate::tokens::{is_space, lemma_no_words_iff_blank, split_words};
use vstd::prelude::*;

verus! {

/// A run between two steps.
#[derive(Debug)]
pub struct Session {
    api_key: String,
    steps: Vec<Step>,
    cursor: usize,
    closing: Option<RunError>,
}

/// What a `Session` stands for.
pub struct SessionView {
    /// The key sent along with every request.
    pub api_key: Seq<char>,
    /// The steps that are still to be done, in order.
    pub steps: Seq<StepView>,
    /// The failure that ends the run once the steps are done, if one does.
    pub closing: Option<Failure>,
}

impl View for Session {
    type V = SessionView;

    closed spec fn view(&self) -> SessionView {
        SessionView {
            api_key: self.api_key@,
            steps: step_views(self.steps@).skip(self.cursor as int),
            closing: failure_view(self.closing),
        }
    }
}

/// A run that has sent the request for a token and waits for its reply.
#[derive(Debug)]
pub struct AwaitingStatus {
    token: String,
    rest: Session,
}

/// A run that was told of a reply that announces success and waits for the
/// reply's body.
#[derive(Debug)]
pub struct AwaitingBody {
    token: String,
    rest: Session,
}

/// What a run that waits stands for.
pub struct WaitView {
    /// The token that was asked for.
    pub token: Seq<char>,
    /// The run as it goes on behind this token.
    pub rest: SessionView,
}

impl View for AwaitingStatus {
    type V = WaitView;

    closed spec fn view(&self) -> WaitView {
        WaitView { token: self.token@, rest: self.rest@ }
    }
}

impl View for AwaitingBody {
    type V = WaitView;

    closed spec fn view(&self) -> WaitView {
        WaitView { token: self.token@, rest: self.rest@ }
    }
}

/// What the caller is to do next.
#[derive(Debug)]
pub enum Turn {
    /// Show the line on standard output, then go on with the session.
    Print(String, Session),
    /// Send the request, then tell what came of it.
    Send(Request, AwaitingStatus),
    /// Read the body of the reply, then hand it over.
    Read(AwaitingBody),
    /// Stop: the run went through.
    Done,
    /// Stop: the run failed.
    Failed(RunError),
}

/// A `Turn` by the views of what it holds.
pub enum TurnView {
    Print(Seq<char>, SessionView),
    Send(RequestView, WaitView),
    Read(WaitView),
    Done,
    Failed(Failure),
}

impl View for Turn {
    type V = TurnView;

    open spec fn view(&self) -> TurnView {
        match self {
            Turn::Print(line, session) => TurnView::Print(line@, session@),
            Turn::Send(request, waiting) => TurnView::Send(request@, waiting@),
            Turn::Read(waiting) => TurnView::Read(waiting@),
            Turn::Done => TurnView::Done,
            Turn::Failed(e) => TurnView::Failed(e@),
        }
    }
}

/// The run over what a reader yields: the steps of the rows before the first
/// malformed one, and behind them the failure that this row raises.
pub open spec fn session_over(api_key: Seq<char>, items: Seq<RowReading>) -> SessionView {
    SessionView { api_key, steps: plan(sound_rows(items)), closing: reading_failure(items) }
}

/// What is next in a run. With no step left the run ends, in the failure that
/// closes it or else well. A placeholder step shows its line. A lookup sends
/// the request for its token.
pub open spec fn next_turn(s: SessionView) -> TurnView {
    if s.steps.len() == 0 {
        match s.closing {
            Some(failure) => TurnView::Failed(failure),
            None => TurnView::Done,
        }
    } else {
        let rest = SessionView { api_key: s.api_key, steps: s.steps.drop_first(), closing: s.closing };
        match s.steps[0] {
            StepView::NoNinthEntry => TurnView::Print(placeholder_text(), rest),
            StepView::Lookup(token) => TurnView::Send(
                request_for(s.api_key, token),
                WaitView { token, rest },
            ),
        }
    }
}

/// What follows a reply's status: a status that announces success has the
/// body read; any other is shown, and the run goes on.
pub open spec fn after_status(w: WaitView, code: u16) -> TurnView {
    if is_success_code(code) {
        TurnView::Read(w)
    } else {
        TurnView::Print(refusal_text(w.token, status_text(code)), w.rest)
    }
}

/// What follows a reply's body, given how it reads as JSON: a document is
/// shown in its pretty form, and the run goes on; anything else ends the run.
pub open spec fn after_body(w: WaitView, reading: Result<Seq<char>, Seq<char>>) -> TurnView {
    match reading {
        Ok(pretty) => TurnView::Print(response_text(w.token, pretty), w.rest),
        Err(detail) => TurnView::Failed(Failure::Body(detail)),
    }
}

/// What follows a request or a reply that was lost on the way: the run ends.
pub open spec fn after_loss(detail: Seq<char>) -> TurnView {
    TurnView::Failed(Failure::Transport(detail))
}

/// The run over a text that has no row behind its header ends at once and
/// well: it shows nothing and asks for nothing.
pub proof fn lemma_run_without_rows(api_key: Seq<char>, items: Seq<RowReading>)
    requires
        items.len() == 0,
    ensures
        next_turn(session_over(api_key, items)) == TurnView::Done,
{
}

/// The run that has the steps for `rows` before it.
pub open spec fn session_at(
    api_key: Seq<char>,
    rows: Seq<Seq<Seq<char>>>,
    closing: Option<Failure>,
) -> SessionView {
    SessionView { api_key, steps: plan(rows), closing }
}

/// The steps for a row and the rows behind it start with the steps for the
/// row.
proof fn lemma_plan_starts_with_row(fields: Seq<Seq<char>>, after: Seq<Seq<Seq<char>>>)
    ensures
        plan(seq![fields] + after) == row_steps(fields) + plan(after),
{
    let none = Seq::<Seq<Seq<char>>>::empty();
    lemma_plan_around_row(none, fields, after);
    assert(none.push(fields) =~= seq![fields]);
    assert(plan(none) + row_steps(fields) =~= row_steps(fields));
}

/// At a row of fewer than nine fields the run shows the placeholder, that
/// line exactly, and goes on with the row behind it.
pub proof fn lemma_short_row_turn(
    api_key: Seq<char>,
    fields: Seq<Seq<char>>,
    after: Seq<Seq<Seq<char>>>,
    closing: Option<Failure>,
)
    requires
        fields.len() < 9,
    ensures
        next_turn(session_at(api_key, seq![fields] + after, closing)) == TurnView::Print(
            placeholder_text(),
            session_at(api_key, after, closing),
        ),
{
    lemma_plan_starts_with_row(fields, after);
    assert((row_steps(fields) + plan(after)).drop_first() =~= plan(after));
}

/// At a row whose ninth field holds separators only, or nothing, the run
/// does what it does at the row behind it: nothing is shown or asked for on
/// account of that row.
pub proof fn lemma_blank_row_turn(
    api_key: Seq<char>,
    fields: Seq<Seq<char>>,
    after: Seq<Seq<Seq<char>>>,
    closing: Option<Failure>,
)
    requires
        fields.len() >= 9,
        forall|k: int| 0 <= k < fields[8].len() ==> is_space(#[trigger] fields[8][k]),
    ensures
        session_at(api_key, seq![fields] + after, closing) == session_at(api_key, after, closing),
{
    lemma_plan_starts_with_row(fields, after);
    lemma_no_words_iff_blank(fields[8]);
    assert(row_steps(fields) + plan(after) =~= plan(after));
}

/// At a row whose ninth field holds a token the run asks for the first token
/// of the field; what is left are the lookups of the field's other tokens, in
/// their order, and then the rows behind.
pub proof fn lemma_token_row_turn(
    api_key: Seq<char>,
    fields: Seq<Seq<char>>,
    after: Seq<Seq<Seq<char>>>,
    closing: Option<Failure>,
)
    requires
        fields.len() >= 9,
        split_words(fields[8]).len() > 0,
    ensures
        next_turn(session_at(api_key, seq![fields] + after, closing)) == TurnView::Send(
            request_for(api_key, split_words(fields[8])[0]),
            WaitView {
                token: split_words(fields[8])[0],
                rest: SessionView {
                    api_key,
                    steps: lookups(split_words(fields[8]).drop_first()) + plan(after),
                    closing,
                },
            },
        ),
{
    lemma_plan_starts_with_row(fields, after);
    let words = split_words(fields[8]);
    assert((lookups(words) + plan(after)).drop_first() =~= lookups(words.drop_first()) + plan(
        after,
    ));
}

impl Session {
    #[verifier::type_invariant]
    spec fn cursor_in_steps(self) -> bool {
        self.cursor <= self.steps.len()
    }

    /// The run over rows that were read already.
    pub fn new(api_key: String, rows: Rows) -> (session: Session)
        ensures
            session@ == (SessionView {
                api_key: api_key@,
                steps: plan(row_texts(rows.rows@)),
                closing: failure_view(rows.failure),
            }),
    {
        let steps = plan_steps(&rows.rows);
        assert(step_views(steps@).skip(0) =~= step_views(steps@));
        Session { api_key, steps, cursor: 0, closing: rows.failure }
    }

    /// The run over the CSV text `data`, whose first row is a header.
    pub fn open(api_key: String, data: &[u8]) -> (session: Session)
        ensures
            session@ == session_over(api_key@, data_rows(data@)),
    {
        Session::new(api_key, read_rows(data))
    }

    /// Decides what is next.
    pub fn advance(self) -> (turn: Turn)
        ensures
            turn@ == next_turn(self@),
    {
        proof {
            use_type_invariant(&self);
        }
        let Session { api_key, steps, cursor, closing } = self;
        if cursor >= steps.len() {
            return match closing {
                Some(failure) => Turn::Failed(failure),
                None => Turn::Done,
            };
        }
        let ghost left = step_views(steps@).skip(cursor as int);
        assert(left[0] == steps[cursor as int]@);
        assert(left.drop_first() =~= step_views(steps@).skip(cursor + 1));
        let token = match &steps[cursor] {
            Step::NoNinthEntry => None,
            Step::Lookup(token) => Some(token.clone()),
        };
        match token {
            None => {
                let rest = Session { api_key, steps, cursor: cursor + 1, closing };
                Turn::Print(placeholder_line(), rest)
            },
            Some(token) => {
                let request = lookup_request(api_key.as_str(), token.as_str());
                let rest = Session { api_key, steps, cursor: cursor + 1, closing };
                Turn::Send(request, AwaitingStatus { token, rest })
            },
        }
    }
}

impl AwaitingStatus {
    /// The request was answered with `status`.
    pub fn answered(self, status: Status) -> (turn: Turn)
        ensures
            turn@ == after_status(self@, status@),
    {
        if status.is_success() {
            Turn::Read(AwaitingBody { token: self.token, rest: self.rest })
        } else {
            let shown = status.text();
            Turn::Print(refusal_line(self.token.as_str(), shown.as_str()), self.rest)
        }
    }

    /// The request could not be sent, or no reply came; `detail` says why.
    pub fn lost(self, detail: String) -> (turn: Turn)
        ensures
            turn@ == after_loss(detail@),
    {
        Turn::Failed(RunError::Transport(detail))
    }
}

impl AwaitingBody {
    /// The reply's body is `body`.
    pub fn body(self, body: &[u8]) -> (turn: Turn)
        ensures
            turn@ == after_body(self@, json_reading(body@)),
    {
        match render_body(body) {
            Ok(pretty) => Turn::Print(response_line(self.token.as_str(), pretty.as_str()), self.rest),
            Err(failure) => Turn::Failed(failure),
        }
    }

    /// The body could not be read; `detail` says why.
    pub fn lost(self, detail: String) -> (turn: Turn)
        ensures
            turn@ == after_loss(detail@),
    {
        Turn::Failed(RunError::Transport(detail))
    }
}

} // verus!
