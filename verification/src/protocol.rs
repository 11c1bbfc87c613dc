//! Requests, responses and the lines of a streamed response.
use vstd::prelude::*;
use crate::json::{Json, JsonV};

verus! {

/// A command with its parameters.
#[derive(Debug, PartialEq)]
pub struct Request {
    pub id: String,
    pub command: String,
    pub params: Json,
}

#[derive(Debug, Clone, Copy, PartialEq, Eq, Structural)]
pub enum ResponseStatus {
    Success,
    Error,
}

/// The answer to a request that is not streamed.
#[derive(Debug, PartialEq)]
pub struct Response {
    pub id: String,
    pub status: ResponseStatus,
    pub data: Json,
}

/// One line of a streamed answer; the last one is marked `done`.
#[derive(Debug, PartialEq)]
pub struct StreamingResponseLine {
    pub id: String,
    pub status: ResponseStatus,
    pub data: Json,
    pub done: bool,
}

/// The data of an error answer.
pub open spec fn message_data(message: Seq<char>) -> JsonV {
    JsonV::object().with("message"@, JsonV::Str(message))
}

impl Response {
    pub open spec fn is_ok(self, id: String, data: JsonV) -> bool {
        self.id == id && self.status == ResponseStatus::Success && self.data@ == data
    }

    pub open spec fn is_error(self, id: String, message: Seq<char>) -> bool {
        self.id == id && self.status == ResponseStatus::Error && self.data@ == message_data(message)
    }

    pub fn ok(id: String, data: Json) -> (r: Response)
        ensures
            r.is_ok(id, data@),
    {
        Response { id, status: ResponseStatus::Success, data }
    }

    pub fn error(id: String, message: &str) -> (r: Response)
        ensures
            r.is_error(id, message@),
    {
        Response {
            id,
            status: ResponseStatus::Error,
            data: Json::object().with("message", Json::text(message)),
        }
    }
}

impl StreamingResponseLine {
    pub open spec fn is_data(self, id: String, data: JsonV) -> bool {
        self.id == id && self.status == ResponseStatus::Success && self.data@ == data && !self.done
    }

    pub open spec fn is_done(self, id: String, data: JsonV) -> bool {
        self.id == id && self.status == ResponseStatus::Success && self.data@ == data && self.done
    }

    pub open spec fn is_error(self, id: String, message: Seq<char>) -> bool {
        self.id == id && self.status == ResponseStatus::Error && self.data@ == message_data(message)
            && self.done
    }

    pub fn data(id: String, data: Json) -> (r: StreamingResponseLine)
        ensures
            r.is_data(id, data@),
    {
        StreamingResponseLine { id, status: ResponseStatus::Success, data, done: false }
    }

    pub fn done(id: String, data: Json) -> (r: StreamingResponseLine)
        ensures
            r.is_done(id, data@),
    {
        StreamingResponseLine { id, status: ResponseStatus::Success, data, done: true }
    }

    pub fn error(id: String, message: &str) -> (r: StreamingResponseLine)
        ensures
            r.is_error(id, message@),
    {
        StreamingResponseLine {
            id,
            status: ResponseStatus::Error,
            data: Json::object().with("message", Json::text(message)),
            done: true,
        }
    }
}

} // verus!
