//! The records that the service sends.

pub mod anime;

use crate::codec::{here, put, required, JsonCodec, Mismatch, Reading, StepView};
use crate::json::{new_members, no_members, object_value, value_is_object, Json};
use serde_json::Value;
use vstd::prelude::*;

verus! {

/// The envelope of an answer that carries what was asked for: the payload, under `data`.
#[derive(Debug, Clone, PartialEq)]
pub struct JikanResponse<T> {
    pub data: T,
}

impl<T: DeepView> DeepView for JikanResponse<T> {
    type V = JikanResponse<T::V>;

    open spec fn deep_view(&self) -> JikanResponse<T::V> {
        JikanResponse { data: self.data.deep_view() }
    }
}

impl<T: JsonCodec> JsonCodec for JikanResponse<T> {
    open spec fn decode(j: Json) -> Reading<JikanResponse<T::V>> {
        if !(j is Object) {
            Reading::Mismatch(here())
        } else {
            match j.required::<T>("data"@) {
                Reading::Value(data) => Reading::Value(JikanResponse { data }),
                Reading::Mismatch(path) => Reading::Mismatch(path),
            }
        }
    }

    open spec fn encode(x: JikanResponse<T::V>) -> Json {
        Json::Object(no_members().insert("data"@, T::encode(x.data)))
    }

    proof fn round_trip(x: JikanResponse<T::V>) {
        T::round_trip(x.data);
    }

    proof fn null_is_refused() {
    }

    fn from_json(v: &Value) -> (r: Result<JikanResponse<T>, Mismatch>) {
        if !value_is_object(v) {
            return Err(Mismatch::here());
        }
        let data = required::<T>(v, "data")?;
        Ok(JikanResponse { data })
    }

    fn to_json(&self) -> (v: Value) {
        let mut m = new_members();
        put::<T>(&mut m, "data", &self.data);
        object_value(m)
    }
}

/// What the service says of a request that it refuses.
#[derive(Debug, Clone, PartialEq)]
pub struct JikanAPIError {
    /// The HTTP status, repeated in the body.
    pub status: u32,
    /// The kind of failure, in the service's words.
    pub error_type: String,
    pub message: String,
    pub error: String,
}

/// What a [`JikanAPIError`] holds.
pub struct JikanAPIErrorView {
    pub status: u32,
    pub error_type: Seq<char>,
    pub message: Seq<char>,
    pub error: Seq<char>,
}

impl DeepView for JikanAPIError {
    type V = JikanAPIErrorView;

    open spec fn deep_view(&self) -> JikanAPIErrorView {
        JikanAPIErrorView {
            status: self.status,
            error_type: self.error_type@,
            message: self.message@,
            error: self.error@,
        }
    }
}

impl JikanAPIError {
    /// The place where `j` departs from the shape of this record, if it does: `j` itself
    /// where it is no object, and otherwise the first of the members, in the order in
    /// which they are read, that cannot be read.
    pub open spec fn mismatch(j: Json) -> Option<Seq<StepView>> {
        if !(j is Object) {
            Some(here())
        } else if let Reading::Mismatch(path) = j.required::<u32>("status"@) {
            Some(path)
        } else if let Reading::Mismatch(path) = j.required::<String>("type"@) {
            Some(path)
        } else if let Reading::Mismatch(path) = j.required::<String>("message"@) {
            Some(path)
        } else if let Reading::Mismatch(path) = j.required::<String>("error"@) {
            Some(path)
        } else {
            None
        }
    }

    /// The member names, each by its length and by the characters that tell it from the
    /// others of that length.
    proof fn lemma_names()
        ensures
            "status"@.len() == 6,
            "type"@.len() == 4,
            "message"@.len() == 7,
            "error"@.len() == 5,
    {
        reveal_strlit("status");
        reveal_strlit("type");
        reveal_strlit("message");
        reveal_strlit("error");
    }
}

impl JsonCodec for JikanAPIError {
    open spec fn decode(j: Json) -> Reading<JikanAPIErrorView> {
        match Self::mismatch(j) {
            Some(path) => Reading::Mismatch(path),
            None => Reading::Value(
                JikanAPIErrorView {
                    status: j.required::<u32>("status"@)->Value_0,
                    error_type: j.required::<String>("type"@)->Value_0,
                    message: j.required::<String>("message"@)->Value_0,
                    error: j.required::<String>("error"@)->Value_0,
                },
            ),
        }
    }

    open spec fn encode(x: JikanAPIErrorView) -> Json {
        Json::Object(
            no_members()
                .insert("status"@, u32::encode(x.status))
                .insert("type"@, String::encode(x.error_type))
                .insert("message"@, String::encode(x.message))
                .insert("error"@, String::encode(x.error)),
        )
    }

    proof fn round_trip(x: JikanAPIErrorView) {
        Self::lemma_names();
        u32::round_trip(x.status);
        String::round_trip(x.error_type);
        String::round_trip(x.message);
        String::round_trip(x.error);
    }

    proof fn null_is_refused() {
    }

    fn from_json(v: &Value) -> (r: Result<JikanAPIError, Mismatch>) {
        if !value_is_object(v) {
            return Err(Mismatch::here());
        }
        let status = required::<u32>(v, "status")?;
        let error_type = required::<String>(v, "type")?;
        let message = required::<String>(v, "message")?;
        let error = required::<String>(v, "error")?;
        Ok(JikanAPIError { status, error_type, message, error })
    }

    fn to_json(&self) -> (v: Value) {
        let mut m = new_members();
        put::<u32>(&mut m, "status", &self.status);
        put::<String>(&mut m, "type", &self.error_type);
        put::<String>(&mut m, "message", &self.message);
        put::<String>(&mut m, "error", &self.error);
        object_value(m)
    }
}

} // verus!
