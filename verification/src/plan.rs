//! What a run does with the rows it has read.

use crate::records::row_texts;
use crate::tokens::{is_space, lemma_no_words_iff_blank, split_whitespace, split_words, texts};
use vstd::prelude::*;

verus! {

/// One thing that a run does for a row.
#[derive(Debug)]
pub enum Step {
    /// Say that the row has no ninth field.
    NoNinthEntry,
    /// Ask for the hash that this token is taken to be.
    Lookup(String),
}

/// A `Step` with its token as a sequence of characters.
pub enum StepView {
    NoNinthEntry,
    Lookup(Seq<char>),
}

impl View for Step {
    type V = StepView;

    open spec fn view(&self) -> StepView {
        match self {
            Step::NoNinthEntry => StepView::NoNinthEntry,
            Step::Lookup(token) => StepView::Lookup(token@),
        }
    }
}

/// The index of the field that holds the hashes: the ninth.
pub const HASH_COLUMN: usize = 8;

/// The views of the steps of `steps`, in order.
pub open spec fn step_views(steps: Seq<Step>) -> Seq<StepView> {
    Seq::new(steps.len(), |i: int| steps[i]@)
}

/// One lookup for each of `tokens`, in order.
pub open spec fn lookups(tokens: Seq<Seq<char>>) -> Seq<StepView> {
    Seq::new(tokens.len(), |i: int| StepView::Lookup(tokens[i]))
}

/// What is done for a row: a row of fewer than nine fields gets the
/// placeholder, any other one lookup for each token of its ninth field.
pub open spec fn row_steps(fields: Seq<Seq<char>>) -> Seq<StepView> {
    if fields.len() <= HASH_COLUMN {
        seq![StepView::NoNinthEntry]
    } else {
        lookups(split_words(fields[HASH_COLUMN as int]))
    }
}

/// What is done for `rows`: the steps of each row, row after row.
pub open spec fn plan(rows: Seq<Seq<Seq<char>>>) -> Seq<StepView>
    decreases rows.len(),
{
    if rows.len() == 0 {
        Seq::empty()
    } else {
        plan(rows.drop_last()) + row_steps(rows.last())
    }
}

/// The steps for rows that follow other rows are the steps for the first
/// rows, followed by the steps for the others.
pub proof fn lemma_plan_concat(first: Seq<Seq<Seq<char>>>, others: Seq<Seq<Seq<char>>>)
    ensures
        plan(first + others) == plan(first) + plan(others),
    decreases others.len(),
{
    if others.len() == 0 {
        assert(first + others =~= first);
        assert(plan(first) + plan(others) =~= plan(first));
    } else {
        let all = first + others;
        assert(all.drop_last() =~= first + others.drop_last());
        assert(all.last() == others.last());
        lemma_plan_concat(first, others.drop_last());
        assert(plan(first) + plan(others.drop_last()) + row_steps(others.last()) =~= plan(first) + (
        plan(others.drop_last()) + row_steps(others.last())));
    }
}

/// Wherever a row stands among others, its steps stand between the steps for
/// the rows before it and the steps for the rows behind it.
pub proof fn lemma_plan_around_row(
    before: Seq<Seq<Seq<char>>>,
    fields: Seq<Seq<char>>,
    after: Seq<Seq<Seq<char>>>,
)
    ensures
        plan(before.push(fields) + after) == plan(before) + row_steps(fields) + plan(after),
{
    lemma_plan_concat(before.push(fields), after);
    assert(before.push(fields).drop_last() =~= before);
}

/// A row of fewer than nine fields gets the placeholder and nothing else,
/// and the rows around it get what they would get without it.
pub proof fn lemma_short_row(
    before: Seq<Seq<Seq<char>>>,
    fields: Seq<Seq<char>>,
    after: Seq<Seq<Seq<char>>>,
)
    requires
        fields.len() < 9,
    ensures
        plan(before.push(fields) + after) == plan(before) + seq![StepView::NoNinthEntry] + plan(
            after,
        ),
{
    lemma_plan_around_row(before, fields, after);
}

/// A row whose ninth field holds separators only, or nothing, gets no step
/// at all: no token is cut from it and none is looked up.
pub proof fn lemma_blank_ninth_field(
    before: Seq<Seq<Seq<char>>>,
    fields: Seq<Seq<char>>,
    after: Seq<Seq<Seq<char>>>,
)
    requires
        fields.len() >= 9,
        forall|k: int| 0 <= k < fields[8].len() ==> is_space(#[trigger] fields[8][k]),
    ensures
        split_words(fields[8]).len() == 0,
        plan(before.push(fields) + after) == plan(before) + plan(after),
{
    lemma_plan_around_row(before, fields, after);
    lemma_no_words_iff_blank(fields[8]);
    assert(row_steps(fields) =~= Seq::<StepView>::empty());
    assert(plan(before) + row_steps(fields) =~= plan(before));
}

/// A row of nine fields or more gets one lookup for each token of its ninth
/// field, in the order in which the tokens stand in the field.
pub proof fn lemma_row_lookups(
    before: Seq<Seq<Seq<char>>>,
    fields: Seq<Seq<char>>,
    after: Seq<Seq<Seq<char>>>,
)
    requires
        fields.len() >= 9,
    ensures
        plan(before.push(fields) + after) == plan(before) + lookups(split_words(fields[8])) + plan(
            after,
        ),
        lookups(split_words(fields[8])).len() == split_words(fields[8]).len(),
        forall|i: int|
            0 <= i < split_words(fields[8]).len() ==> #[trigger] lookups(split_words(fields[8]))[i]
                == StepView::Lookup(split_words(fields[8])[i]),
{
    lemma_plan_around_row(before, fields, after);
}

/// The steps for one row.
pub fn steps_of_row(fields: &Vec<String>) -> (steps: Vec<Step>)
    ensures
        step_views(steps@) == row_steps(texts(fields@)),
{
    let mut steps: Vec<Step> = Vec::new();
    if fields.len() <= HASH_COLUMN {
        steps.push(Step::NoNinthEntry);
        assert(step_views(steps@) =~= seq![StepView::NoNinthEntry]);
        return steps;
    }
    let tokens = split_whitespace(fields[HASH_COLUMN].as_str());
    let ghost words = texts(tokens@);
    assert(words == split_words(texts(fields@)[HASH_COLUMN as int]));
    let n = tokens.len();
    let mut i: usize = 0;
    while i < n
        invariant
            n == tokens.len(),
            i <= n,
            steps.len() == i,
            forall|k: int| i <= k < n ==> (#[trigger] tokens[k])@ == words[k],
            words.len() == n,
            forall|k: int| 0 <= k < i ==> (#[trigger] steps[k])@ == StepView::Lookup(words[k]),
        decreases n - i,
    {
        let token = tokens[i].clone();
        steps.push(Step::Lookup(token));
        i += 1;
    }
    assert(step_views(steps@) =~= lookups(words));
    steps
}

/// The steps for `rows`, row after row.
pub fn plan_steps(rows: &Vec<Vec<String>>) -> (steps: Vec<Step>)
    ensures
        step_views(steps@) == plan(row_texts(rows@)),
{
    let mut steps: Vec<Step> = Vec::new();
    let n = rows.len();
    let mut i: usize = 0;
    let ghost all = row_texts(rows@);
    assert(step_views(steps@) =~= plan(all.take(0)));
    while i < n
        invariant
            n == rows.len(),
            i <= n,
            all == row_texts(rows@),
            step_views(steps@) == plan(all.take(i as int)),
        decreases n - i,
    {
        let mut more = steps_of_row(&rows[i]);
        let ghost before = step_views(steps@);
        let ghost added = step_views(more@);
        steps.append(&mut more);
        proof {
            assert(step_views(steps@) =~= before + added);
            assert(all.take(i + 1).drop_last() =~= all.take(i as int));
            assert(all.take(i + 1).last() == texts(rows[i as int]@));
        }
        i += 1;
    }
    assert(all.take(n as int) =~= all);
    steps
}

} // verus!
