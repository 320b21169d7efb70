//! What a handler answers: a status and, for some answers, a body.

use vstd::prelude::*;
use crate::todo::{Todo, TodoView};

verus! {

/// The status of an answer that carries out the request.
pub const STATUS_OK: u16 = 200;

/// The status of an answer to a request for an identifier that no record has.
pub const STATUS_NOT_FOUND: u16 = 404;

/// The answer to one request.
#[derive(Debug, PartialEq, Eq)]
pub enum Reply {
    /// Success; the body is the array of all records, oldest first.
    Listing(Vec<Todo>),
    /// Success; the body is one record.
    Record(Todo),
    /// Success; the body is empty.
    Done,
    /// No record has the identifier asked for; the body is empty.
    NotFound,
}

/// What a [`Reply`] holds, as mathematical values.
pub enum ReplyView {
    Listing(Seq<TodoView>),
    Record(TodoView),
    Done,
    NotFound,
}

impl ReplyView {
    /// The status that goes out with the answer.
    pub open spec fn status(self) -> int {
        match self {
            ReplyView::NotFound => 404,
            _ => 200,
        }
    }
}

impl View for Reply {
    type V = ReplyView;

    open spec fn view(&self) -> ReplyView {
        match self {
            Reply::Listing(records) => ReplyView::Listing(
                Seq::new(records@.len(), |i: int| records@[i]@),
            ),
            Reply::Record(record) => ReplyView::Record(record@),
            Reply::Done => ReplyView::Done,
            Reply::NotFound => ReplyView::NotFound,
        }
    }
}

impl Reply {
    /// The status that goes out with the answer: `STATUS_NOT_FOUND` for
    /// `NotFound`, `STATUS_OK` for every other answer.
    pub fn status(&self) -> (code: u16)
        ensures
            code == self@.status(),
            code == STATUS_NOT_FOUND <==> self@ is NotFound,
            code == STATUS_OK <==> !(self@ is NotFound),
    {
        match self {
            Reply::NotFound => STATUS_NOT_FOUND,
            _ => STATUS_OK,
        }
    }
}

} // verus!
