//! Reading the rows of a CSV text.

use crate::error::{Failure, RunError};
use crate::tokens::texts;
use vstd::prelude::*;

verus! {

/// A reader of CSV records over some source of bytes.
#[verifier::external_type_specification]
#[verifier::external_body]
#[verifier::reject_recursive_types(R)]
pub struct ExReader<R>(csv::Reader<R>);

/// Why a row could not be read.
#[verifier::external_type_specification]
#[verifier::external_body]
pub struct ExCsvError(csv::Error);

/// What a reader yields for one row: its fields, or what the reader says is
/// wrong with the row.
pub type RowReading = Result<Seq<Seq<char>>, Seq<char>>;

/// What the `csv` crate says of an error.
pub uninterp spec fn csv_error_text(err: csv::Error) -> Seq<char>;

/// What a reader over `data` yields, row by row. With `has_headers` the
/// first row is a header, which the reader keeps to itself; without, the
/// first row is yielded like the others.
pub uninterp spec fn csv_reading(data: Seq<u8>, has_headers: bool) -> Seq<RowReading>;

/// What `reader` has yet to yield.
pub uninterp spec fn unread(reader: csv::Reader<&[u8]>) -> Seq<RowReading>;

/// `csv::ReaderBuilder::from_reader` over bytes in memory, with
/// `has_headers` set as given and every other setting left as it is: a
/// reader that has all its rows still to yield. Nothing is read yet.
#[verifier::external_body]
fn open_reader(data: &[u8], has_headers: bool) -> (reader: csv::Reader<&[u8]>)
    ensures
        unread(reader) == csv_reading(data@, has_headers),
{
    csv::ReaderBuilder::new().has_headers(has_headers).from_reader(data)
}

/// One step of `csv::Reader::records`: `None` at the end of the data, else
/// the next row, as its fields or as the error that the reader raises for it.
/// A row that raised an error is consumed like any other.
#[verifier::external_body]
fn next_row(reader: &mut csv::Reader<&[u8]>) -> (item: Option<Result<Vec<String>, csv::Error>>)
    ensures
        (match item {
            None => unread(*old(reader)).len() == 0 && unread(*final(reader)) == unread(
                *old(reader),
            ),
            Some(row) => unread(*old(reader)).len() > 0 && unread(*final(reader)) == unread(
                *old(reader),
            ).drop_first() && (match row {
                Ok(fields) => unread(*old(reader))[0] matches Ok(f) && f == texts(fields@),
                Err(err) => unread(*old(reader))[0] matches Err(e) && e == csv_error_text(err),
            }),
        }),
{
    reader.records().next().map(|row| row.map(|record| record.iter().map(String::from).collect()))
}

/// `Display` of `csv::Error`: what is wrong, and where in the data.
#[verifier::external_body]
fn show_csv_error(err: &csv::Error) -> (text: String)
    ensures
        text@ == csv_error_text(*err),
{
    format!("{}", err)
}

/// The rows of a text as far as they are sound, and what ended the reading
/// where a row is malformed.
#[derive(Debug)]
pub struct Rows {
    /// The rows before the first malformed one, each as its fields.
    pub rows: Vec<Vec<String>>,
    /// The failure that the first malformed row raises, if there is one.
    pub failure: Option<RunError>,
}

/// The fields of each row of `rows` as sequences of characters.
pub open spec fn row_texts(rows: Seq<Vec<String>>) -> Seq<Seq<Seq<char>>> {
    Seq::new(rows.len(), |i: int| texts(rows[i]@))
}

/// The rows that are read before the first error.
pub open spec fn sound_rows(items: Seq<RowReading>) -> Seq<Seq<Seq<char>>>
    decreases items.len(),
{
    if items.len() == 0 {
        Seq::empty()
    } else {
        match items[0] {
            Ok(fields) => seq![fields] + sound_rows(items.drop_first()),
            Err(_) => Seq::empty(),
        }
    }
}

/// What the reader says of the first malformed row, if there is one.
pub open spec fn first_error(items: Seq<RowReading>) -> Option<Seq<char>>
    decreases items.len(),
{
    if items.len() == 0 {
        None
    } else {
        match items[0] {
            Ok(_) => first_error(items.drop_first()),
            Err(text) => Some(text),
        }
    }
}

/// The sound rows are what the reader yields up to its first error: each of
/// them was yielded as it stands, a reading with no error is sound as a
/// whole, and any other stops at the row that raised the first error.
pub proof fn lemma_sound_rows_are_prefix(items: Seq<RowReading>)
    ensures
        sound_rows(items).len() <= items.len(),
        forall|i: int|
            0 <= i < sound_rows(items).len() ==> (#[trigger] items[i] matches Ok(fields)
                && fields == sound_rows(items)[i]),
        first_error(items) is None <==> sound_rows(items).len() == items.len(),
        first_error(items) matches Some(text) ==> (items[sound_rows(items).len() as int] matches Err(
            told,
        ) && told == text),
    decreases items.len(),
{
    if items.len() > 0 {
        match items[0] {
            Ok(fields) => {
                let rest = items.drop_first();
                lemma_sound_rows_are_prefix(rest);
                let sound = sound_rows(items);
                assert(sound == seq![fields] + sound_rows(rest));
                assert forall|i: int| 0 <= i < sound.len() implies (#[trigger] items[i] matches Ok(f)
                    && f == sound[i]) by {
                    if i > 0 {
                        assert(items[i] == rest[i - 1]);
                        assert(sound[i] == sound_rows(rest)[i - 1]);
                    }
                }
                if first_error(items) is Some {
                    assert(items[sound.len() as int] == rest[sound_rows(rest).len() as int]);
                }
            },
            Err(_) => {},
        }
    }
}

/// The failure that ends a reading, if one does.
pub open spec fn reading_failure(items: Seq<RowReading>) -> Option<Failure> {
    match first_error(items) {
        Some(text) => Some(Failure::Csv(text)),
        None => None,
    }
}

/// The failure in `failure`, by its view.
pub open spec fn failure_view(failure: Option<RunError>) -> Option<Failure> {
    match failure {
        Some(e) => Some(e@),
        None => None,
    }
}

/// What a reader yields for a text whose first row is a header.
pub open spec fn data_rows(data: Seq<u8>) -> Seq<RowReading> {
    csv_reading(data, true)
}

/// Reads `data` as CSV with a header row, which is left out and never looked
/// into. The rows behind it are read in order up to the first malformed one:
/// the rows before it are kept, what the reader says of it is the failure,
/// and nothing behind it is read.
pub fn read_rows(data: &[u8]) -> (out: Rows)
    ensures
        row_texts(out.rows@) == sound_rows(data_rows(data@)),
        failure_view(out.failure) == reading_failure(data_rows(data@)),
{
    let mut reader = open_reader(data, true);
    let mut rows: Vec<Vec<String>> = Vec::new();
    let mut failure: Option<RunError> = None;
    let ghost all = data_rows(data@);
    assert(row_texts(rows@) =~= Seq::<Seq<Seq<char>>>::empty());
    assert(row_texts(rows@) + sound_rows(all) =~= sound_rows(all));
    loop
        invariant_except_break
            failure is None,
            sound_rows(all) == row_texts(rows@) + sound_rows(unread(reader)),
            first_error(all) == first_error(unread(reader)),
        ensures
            row_texts(rows@) == sound_rows(all),
            failure_view(failure) == reading_failure(all),
        decreases unread(reader).len(),
    {
        let ghost before = unread(reader);
        let ghost kept = row_texts(rows@);
        match next_row(&mut reader) {
            None => {
                assert(kept + Seq::<Seq<Seq<char>>>::empty() =~= kept);
                break ;
            },
            Some(Ok(fields)) => {
                rows.push(fields);
                assert(row_texts(rows@) =~= kept + seq![texts(fields@)]);
                assert(kept + (seq![texts(fields@)] + sound_rows(before.drop_first()))
                    =~= row_texts(rows@) + sound_rows(before.drop_first()));
            },
            Some(Err(err)) => {
                failure = Some(RunError::Csv(show_csv_error(&err)));
                assert(kept + Seq::<Seq<Seq<char>>>::empty() =~= kept);
                break ;
            },
        }
    }
    Rows { rows, failure }
}

} // verus!
