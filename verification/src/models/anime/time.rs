//! When an anime aired.

use crate::codec::{
    encode_nullable, here, lemma_nullable_round_trip, optional, put, put_optional, required,
    JsonCodec, Mismatch, Reading, StepView,
};
use crate::json::{
    lemma_member_left_out, new_members, no_members, object_value, value_is_object, Json,
};
use serde_json::Value;
use vstd::prelude::*;

verus! {

/// When an anime aired.
#[derive(Debug, Clone, PartialEq)]
pub struct Aired {
    /// The first day, as the service writes it.
    pub from: Option<String>,
    /// The last day, as the service writes it.
    pub to: Option<String>,
    pub prop: Prop,
    /// The whole span in words.
    pub string: String,
}

/// What an [`Aired`] holds.
pub struct AiredView {
    pub from: Option<Seq<char>>,
    pub to: Option<Seq<char>>,
    pub prop: Prop,
    pub string: Seq<char>,
}

impl DeepView for Aired {
    type V = AiredView;

    open spec fn deep_view(&self) -> AiredView {
        AiredView {
            from: self.from.deep_view(),
            to: self.to.deep_view(),
            prop: self.prop,
            string: self.string@,
        }
    }
}

impl Aired {
    /// The place where `j` departs from the shape of this record, if it does: `j` itself
    /// where it is no object, and otherwise the first of the members, in the order in
    /// which they are read, that cannot be read.
    pub open spec fn mismatch(j: Json) -> Option<Seq<StepView>> {
        if !(j is Object) {
            Some(here())
        } else if let Reading::Mismatch(path) = j.optional::<String>("from"@) {
            Some(path)
        } else if let Reading::Mismatch(path) = j.optional::<String>("to"@) {
            Some(path)
        } else if let Reading::Mismatch(path) = j.required::<Prop>("prop"@) {
            Some(path)
        } else if let Reading::Mismatch(path) = j.required::<String>("string"@) {
            Some(path)
        } else {
            None
        }
    }

    /// Whether a document may leave out the member called `key`.
    pub open spec fn may_lack(key: Seq<char>) -> bool {
        ||| key == "from"@
        ||| key == "to"@
    }

    /// `x` with the member called `key` absent.
    pub open spec fn lacking(x: AiredView, key: Seq<char>) -> AiredView {
        if key == "from"@ {
            AiredView { from: None, ..x }
        } else if key == "to"@ {
            AiredView { to: None, ..x }
        } else {
            x
        }
    }

    /// The member names, each by its length and by the characters that tell it from the
    /// others of that length.
    proof fn lemma_names()
        ensures
            "from"@.len() == 4 && "from"@[0] == 'f',
            "to"@.len() == 2,
            "prop"@.len() == 4 && "prop"@[0] == 'p',
            "string"@.len() == 6,
    {
        reveal_strlit("from");
        reveal_strlit("to");
        reveal_strlit("prop");
        reveal_strlit("string");
    }

    /// A member that may be absent can be left out, or be `null`: the document is still accepted,
    /// that member is read as absent, and the others are read as before.
    pub proof fn lemma_may_lack(j: Json, key: Seq<char>)
        requires
            Self::decode(j) is Value,
            Self::may_lack(key),
        ensures
            Self::decode(j.without(key)) == Reading::Value(
                Self::lacking(Self::decode(j)->Value_0, key),
            ),
            Self::decode(j.with(key, Json::Null)) == Self::decode(j.without(key)),
    {
        Self::lemma_names();
        lemma_member_left_out(j, key, "from"@);
        lemma_member_left_out(j, key, "to"@);
        lemma_member_left_out(j, key, "prop"@);
        lemma_member_left_out(j, key, "string"@);
    }
}

impl JsonCodec for Aired {
    open spec fn decode(j: Json) -> Reading<AiredView> {
        match Self::mismatch(j) {
            Some(path) => Reading::Mismatch(path),
            None => Reading::Value(
                AiredView {
                    from: j.optional::<String>("from"@)->Value_0,
                    to: j.optional::<String>("to"@)->Value_0,
                    prop: j.required::<Prop>("prop"@)->Value_0,
                    string: j.required::<String>("string"@)->Value_0,
                },
            ),
        }
    }

    open spec fn encode(x: AiredView) -> Json {
        Json::Object(
            no_members()
                .insert("from"@, encode_nullable::<String>(x.from))
                .insert("to"@, encode_nullable::<String>(x.to))
                .insert("prop"@, Prop::encode(x.prop))
                .insert("string"@, String::encode(x.string)),
        )
    }

    proof fn round_trip(x: AiredView) {
        Self::lemma_names();
        lemma_nullable_round_trip::<String>(x.from);
        lemma_nullable_round_trip::<String>(x.to);
        Prop::round_trip(x.prop);
        String::round_trip(x.string);
    }

    proof fn null_is_refused() {
    }

    fn from_json(v: &Value) -> (r: Result<Aired, Mismatch>) {
        if !value_is_object(v) {
            return Err(Mismatch::here());
        }
        let from = optional::<String>(v, "from")?;
        let to = optional::<String>(v, "to")?;
        let prop = required::<Prop>(v, "prop")?;
        let string = required::<String>(v, "string")?;
        Ok(Aired { from, to, prop, string })
    }

    fn to_json(&self) -> (v: Value) {
        let mut m = new_members();
        put_optional::<String>(&mut m, "from", &self.from);
        put_optional::<String>(&mut m, "to", &self.to);
        put::<Prop>(&mut m, "prop", &self.prop);
        put::<String>(&mut m, "string", &self.string);
        object_value(m)
    }
}

/// The two ends of the time over which an anime aired, part by part.
#[derive(Debug, Clone, Copy, PartialEq, Eq)]
pub struct Prop {
    pub from: From,
    pub to: From,
}

impl DeepView for Prop {
    type V = Prop;

    open spec fn deep_view(&self) -> Prop {
        *self
    }
}

impl Prop {
    /// The place where `j` departs from the shape of this record, if it does: `j` itself
    /// where it is no object, and otherwise the first of the members, in the order in
    /// which they are read, that cannot be read.
    pub open spec fn mismatch(j: Json) -> Option<Seq<StepView>> {
        if !(j is Object) {
            Some(here())
        } else if let Reading::Mismatch(path) = j.required::<From>("from"@) {
            Some(path)
        } else if let Reading::Mismatch(path) = j.required::<From>("to"@) {
            Some(path)
        } else {
            None
        }
    }

    /// The member names, each by its length and by the characters that tell it from the
    /// others of that length.
    proof fn lemma_names()
        ensures
            "from"@.len() == 4,
            "to"@.len() == 2,
    {
        reveal_strlit("from");
        reveal_strlit("to");
    }
}

impl JsonCodec for Prop {
    open spec fn decode(j: Json) -> Reading<Prop> {
        match Self::mismatch(j) {
            Some(path) => Reading::Mismatch(path),
            None => Reading::Value(
                Prop {
                    from: j.required::<From>("from"@)->Value_0,
                    to: j.required::<From>("to"@)->Value_0,
                },
            ),
        }
    }

    open spec fn encode(x: Prop) -> Json {
        Json::Object(
            no_members()
                .insert("from"@, From::encode(x.from))
                .insert("to"@, From::encode(x.to)),
        )
    }

    proof fn round_trip(x: Prop) {
        Self::lemma_names();
        From::round_trip(x.from);
        From::round_trip(x.to);
    }

    proof fn null_is_refused() {
    }

    fn from_json(v: &Value) -> (r: Result<Prop, Mismatch>) {
        if !value_is_object(v) {
            return Err(Mismatch::here());
        }
        let from = required::<From>(v, "from")?;
        let to = required::<From>(v, "to")?;
        Ok(Prop { from, to })
    }

    fn to_json(&self) -> (v: Value) {
        let mut m = new_members();
        put::<From>(&mut m, "from", &self.from);
        put::<From>(&mut m, "to", &self.to);
        object_value(m)
    }
}

/// A calendar date of which any part may be unknown.
#[derive(Debug, Clone, Copy, PartialEq, Eq)]
pub struct From {
    pub day: Option<i64>,
    pub month: Option<i64>,
    pub year: Option<i64>,
}

impl DeepView for From {
    type V = From;

    open spec fn deep_view(&self) -> From {
        *self
    }
}

impl From {
    /// The place where `j` departs from the shape of this record, if it does: `j` itself
    /// where it is no object, and otherwise the first of the members, in the order in
    /// which they are read, that cannot be read.
    pub open spec fn mismatch(j: Json) -> Option<Seq<StepView>> {
        if !(j is Object) {
            Some(here())
        } else if let Reading::Mismatch(path) = j.optional::<i64>("day"@) {
            Some(path)
        } else if let Reading::Mismatch(path) = j.optional::<i64>("month"@) {
            Some(path)
        } else if let Reading::Mismatch(path) = j.optional::<i64>("year"@) {
            Some(path)
        } else {
            None
        }
    }

    /// Whether a document may leave out the member called `key`.
    pub open spec fn may_lack(key: Seq<char>) -> bool {
        ||| key == "day"@
        ||| key == "month"@
        ||| key == "year"@
    }

    /// `x` with the member called `key` absent.
    pub open spec fn lacking(x: From, key: Seq<char>) -> From {
        if key == "day"@ {
            From { day: None, ..x }
        } else if key == "month"@ {
            From { month: None, ..x }
        } else if key == "year"@ {
            From { year: None, ..x }
        } else {
            x
        }
    }

    /// The member names, each by its length and by the characters that tell it from the
    /// others of that length.
    proof fn lemma_names()
        ensures
            "day"@.len() == 3,
            "month"@.len() == 5,
            "year"@.len() == 4,
    {
        reveal_strlit("day");
        reveal_strlit("month");
        reveal_strlit("year");
    }

    /// A member that may be absent can be left out, or be `null`: the document is still accepted,
    /// that member is read as absent, and the others are read as before.
    pub proof fn lemma_may_lack(j: Json, key: Seq<char>)
        requires
            Self::decode(j) is Value,
            Self::may_lack(key),
        ensures
            Self::decode(j.without(key)) == Reading::Value(
                Self::lacking(Self::decode(j)->Value_0, key),
            ),
            Self::decode(j.with(key, Json::Null)) == Self::decode(j.without(key)),
    {
        Self::lemma_names();
        lemma_member_left_out(j, key, "day"@);
        lemma_member_left_out(j, key, "month"@);
        lemma_member_left_out(j, key, "year"@);
    }
}

impl JsonCodec for From {
    open spec fn decode(j: Json) -> Reading<From> {
        match Self::mismatch(j) {
            Some(path) => Reading::Mismatch(path),
            None => Reading::Value(
                From {
                    day: j.optional::<i64>("day"@)->Value_0,
                    month: j.optional::<i64>("month"@)->Value_0,
                    year: j.optional::<i64>("year"@)->Value_0,
                },
            ),
        }
    }

    open spec fn encode(x: From) -> Json {
        Json::Object(
            no_members()
                .insert("day"@, encode_nullable::<i64>(x.day))
                .insert("month"@, encode_nullable::<i64>(x.month))
                .insert("year"@, encode_nullable::<i64>(x.year)),
        )
    }

    proof fn round_trip(x: From) {
        Self::lemma_names();
        lemma_nullable_round_trip::<i64>(x.day);
        lemma_nullable_round_trip::<i64>(x.month);
        lemma_nullable_round_trip::<i64>(x.year);
    }

    proof fn null_is_refused() {
    }

    fn from_json(v: &Value) -> (r: Result<From, Mismatch>) {
        if !value_is_object(v) {
            return Err(Mismatch::here());
        }
        let day = optional::<i64>(v, "day")?;
        let month = optional::<i64>(v, "month")?;
        let year = optional::<i64>(v, "year")?;
        Ok(From { day, month, year })
    }

    fn to_json(&self) -> (v: Value) {
        let mut m = new_members();
        put_optional::<i64>(&mut m, "day", &self.day);
        put_optional::<i64>(&mut m, "month", &self.month);
        put_optional::<i64>(&mut m, "year", &self.year);
        object_value(m)
    }
}

} // verus!
