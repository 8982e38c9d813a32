//! Reading values from JSON and writing them to it.
//!
//! A type that implements [`JsonCodec`] says, as mathematics, which JSON values it
//! accepts and what they mean, and how a value is written. Reading reports where a
//! document departs from the expected shape; writing and reading again gives back
//! what was written.

use crate::json::{
    array_value, bool_value, i64_value, insert_member, items_of, json_of, members_of,
    null_value, string_value, u64_value, value_as_array, value_as_bool, value_as_i64,
    value_as_str, value_as_u64, value_get, value_is_null, Json, Members, Num,
};
use crate::text::{decimal, push_decimal};
use serde_json::Value;
use vstd::prelude::*;
use vstd::string::StringExecFns;

verus! {

/// A step from a JSON value to a value inside it.
#[derive(Debug, Clone, PartialEq, Eq)]
pub enum Step {
    /// To the member of this name.
    Member(String),
    /// To the item at this place, counted from zero.
    Item(usize),
}

/// What a [`Step`] holds.
pub enum StepView {
    Member(Seq<char>),
    Item(nat),
}

impl DeepView for Step {
    type V = StepView;

    open spec fn deep_view(&self) -> StepView {
        match self {
            Step::Member(name) => StepView::Member(name@),
            Step::Item(place) => StepView::Item(*place as nat),
        }
    }
}

/// Where a document departs from the shape that was expected of it: the steps that
/// lead from the document to the first value that could not be read, the outermost
/// step first. No steps at all means the document itself.
#[derive(Debug, Clone, PartialEq, Eq)]
pub struct Mismatch {
    pub path: Vec<Step>,
}

impl DeepView for Mismatch {
    type V = Seq<StepView>;

    open spec fn deep_view(&self) -> Seq<StepView> {
        self.path.deep_view()
    }
}

/// A step, written out: a member as a dot and its name, an item as its place between
/// square brackets.
pub open spec fn step_text(step: StepView) -> Seq<char> {
    match step {
        StepView::Member(name) => "."@ + name,
        StepView::Item(place) => "["@ + decimal(place) + "]"@,
    }
}

/// A path, written out: a dollar sign for the document, and then step after step.
pub open spec fn path_text(path: Seq<StepView>) -> Seq<char>
    decreases path.len(),
{
    if path.len() == 0 {
        "$"@
    } else {
        path_text(path.drop_last()) + step_text(path.last())
    }
}

impl Step {
    /// Appends this step, written out, to `text`.
    pub fn write(&self, text: &mut String)
        ensures
            final(text)@ == old(text)@ + step_text(self.deep_view()),
    {
        match self {
            Step::Member(name) => {
                text.append(".");
                text.append(name.as_str());
                assert(text@ =~= old(text)@ + step_text(self.deep_view()));
            },
            Step::Item(place) => {
                text.append("[");
                push_decimal(text, *place as u64);
                text.append("]");
                assert(text@ =~= old(text)@ + step_text(self.deep_view()));
            },
        }
    }
}

impl Mismatch {
    /// The place of this mismatch, written out.
    pub fn place(&self) -> (r: String)
        ensures
            r@ == path_text(self.deep_view()),
    {
        let mut text = String::from_str("$");
        let ghost path = self.deep_view();
        let mut i: usize = 0;
        assert(path.take(0) =~= Seq::empty());
        while i < self.path.len()
            invariant
                i <= self.path.len(),
                path == self.deep_view(),
                text@ == path_text(path.take(i as int)),
            decreases self.path.len() - i,
        {
            proof {
                let next = path.take(i + 1);
                assert(next.drop_last() =~= path.take(i as int));
                assert(next.last() == self.path[i as int].deep_view());
            }
            self.path[i].write(&mut text);
            i = i + 1;
        }
        assert(path.take(i as int) =~= path);
        text
    }

    /// The mismatch of the value at hand.
    pub fn here() -> (r: Mismatch)
        ensures
            r.deep_view() == here(),
    {
        let r = Mismatch { path: Vec::new() };
        assert(r.deep_view() =~= here());
        r
    }

    /// This mismatch, seen from one step further out.
    pub fn under(self, step: Step) -> (r: Mismatch)
        ensures
            r.deep_view() == seq![step.deep_view()] + self.deep_view(),
    {
        let mut path = self.path;
        path.insert(0, step);
        let r = Mismatch { path };
        assert(r.deep_view() =~= seq![step.deep_view()] + self.deep_view());
        r
    }
}

/// What reading a JSON value comes to.
pub enum Reading<V> {
    /// The value that was read.
    Value(V),
    /// The place where the JSON value departs from the shape that was expected, as the
    /// steps that lead there.
    Mismatch(Seq<StepView>),
}

/// The path that leads nowhere: the place of the value at hand.
pub open spec fn here() -> Seq<StepView> {
    Seq::empty()
}

/// What a reading came to, as mathematics.
pub open spec fn read<T: DeepView>(r: Result<T, Mismatch>) -> Reading<T::V> {
    match r {
        Ok(x) => Reading::Value(x.deep_view()),
        Err(e) => Reading::Mismatch(e.deep_view()),
    }
}

/// A reading seen from one step further out: a value stays what it is, and the place
/// of a mismatch is reached by `step` first.
pub open spec fn under<V>(step: StepView, r: Reading<V>) -> Reading<V> {
    match r {
        Reading::Value(x) => Reading::Value(x),
        Reading::Mismatch(path) => Reading::Mismatch(seq![step] + path),
    }
}

/// Reading of a value that may be `null`: `null` is the absent value, anything else
/// has to read as a `T`.
pub open spec fn decode_nullable<T: JsonCodec>(j: Json) -> Reading<Option<T::V>> {
    if j is Null {
        Reading::Value(None)
    } else {
        match T::decode(j) {
            Reading::Value(x) => Reading::Value(Some(x)),
            Reading::Mismatch(path) => Reading::Mismatch(path),
        }
    }
}

/// Writing of a value that may be absent: absence is written as `null`.
pub open spec fn encode_nullable<T: JsonCodec>(x: Option<T::V>) -> Json {
    match x {
        Some(x) => T::encode(x),
        None => Json::Null,
    }
}

/// Reading of the items of an array, one after the other, up to the first that cannot
/// be read.
pub open spec fn decode_items<T: JsonCodec>(items: Seq<Json>) -> Reading<Seq<T::V>>
    decreases items.len(),
{
    if items.len() == 0 {
        Reading::Value(Seq::empty())
    } else {
        match decode_items::<T>(items.drop_last()) {
            Reading::Value(front) => under(
                StepView::Item((items.len() - 1) as nat),
                match T::decode(items.last()) {
                    Reading::Value(x) => Reading::Value(front.push(x)),
                    Reading::Mismatch(path) => Reading::Mismatch(path),
                },
            ),
            Reading::Mismatch(path) => Reading::Mismatch(path),
        }
    }
}

/// Whether the item at `i` is the first of `items` that cannot be read.
pub open spec fn first_unread<T: JsonCodec>(items: Seq<Json>, i: int) -> bool {
    &&& 0 <= i < items.len()
    &&& T::decode(items[i]) is Mismatch
    &&& forall|k: int| 0 <= k < i ==> (#[trigger] T::decode(items[k])) is Value
}

/// Writing of items, one by one.
pub open spec fn encode_items<T: JsonCodec>(items: Seq<T::V>) -> Seq<Json> {
    Seq::new(items.len(), |i: int| T::encode(items[i]))
}

impl Json {
    /// What a member that must be present reads as.
    pub open spec fn required<T: JsonCodec>(self, key: Seq<char>) -> Reading<T::V> {
        under(StepView::Member(key), T::decode(self.member(key)))
    }

    /// What a member that may be missing or `null` reads as.
    pub open spec fn optional<T: JsonCodec>(self, key: Seq<char>) -> Reading<Option<T::V>> {
        under(StepView::Member(key), decode_nullable::<T>(self.member(key)))
    }
}

/// A type with a JSON form.
///
/// `decode` says which JSON values are accepted and what they mean, `encode` how a
/// value is written. The two laws make writing lossless, and keep `null` free to stand
/// for an absent value.
pub trait JsonCodec: DeepView + Sized {
    /// The value that `j` stands for, or the place where `j` departs from this type's
    /// shape.
    spec fn decode(j: Json) -> Reading<Self::V>;

    /// The JSON form of `x`.
    spec fn encode(x: Self::V) -> Json;

    /// Reading what was written gives the value back.
    proof fn round_trip(x: Self::V)
        ensures
            Self::decode(Self::encode(x)) == Reading::Value(x),
    ;

    /// `null` is never accepted, and it is `null` itself that is at fault.
    proof fn null_is_refused()
        ensures
            Self::decode(Json::Null) == Reading::<Self::V>::Mismatch(here()),
    ;

    /// Reads a value of this type from `v`.
    fn from_json(v: &Value) -> (r: Result<Self, Mismatch>)
        ensures
            read(r) == Self::decode(json_of(*v)),
    ;

    /// Writes this value.
    fn to_json(&self) -> (v: Value)
        ensures
            json_of(v) == Self::encode(self.deep_view()),
    ;
}

/// No value is written as `null`.
pub proof fn lemma_encode_is_not_null<T: JsonCodec>(x: T::V)
    ensures
        !(T::encode(x) is Null),
{
    T::round_trip(x);
    T::null_is_refused();
}

/// Whatever was read, written out and read again, is what it was.
pub proof fn lemma_reencoded<T: JsonCodec>(j: Json)
    requires
        T::decode(j) is Value,
    ensures
        T::decode(T::encode(T::decode(j)->Value_0)) == T::decode(j),
{
    T::round_trip(T::decode(j)->Value_0);
}

/// A member that is missing, or `null`, is read as absent where it may be absent.
pub proof fn lemma_absent_is_none<T: JsonCodec>(j: Json, key: Seq<char>)
    requires
        !j.has(key) || j.member(key) is Null,
    ensures
        j.optional::<T>(key) == Reading::Value(None::<T::V>),
{
}

/// A member that is missing, or `null`, is a mismatch where it must be present, and
/// the mismatch is at that member.
pub proof fn lemma_absent_is_refused<T: JsonCodec>(j: Json, key: Seq<char>)
    requires
        !j.has(key) || j.member(key) is Null,
    ensures
        j.required::<T>(key) == Reading::<T::V>::Mismatch(seq![StepView::Member(key)]),
{
    T::null_is_refused();
    assert(seq![StepView::Member(key)] + here() =~= seq![StepView::Member(key)]);
}

/// A value that may be absent survives writing and reading.
pub proof fn lemma_nullable_round_trip<T: JsonCodec>(x: Option<T::V>)
    ensures
        decode_nullable::<T>(encode_nullable::<T>(x)) == Reading::Value(x),
{
    if let Some(y) = x {
        T::round_trip(y);
        lemma_encode_is_not_null::<T>(y);
    }
}

/// What the reading of an array comes to: every item as it reads, where all of them
/// can be read; and otherwise the mismatch of the first item that cannot, under its
/// place.
pub proof fn lemma_decode_items<T: JsonCodec>(items: Seq<Json>)
    ensures
        match decode_items::<T>(items) {
            Reading::Value(values) => values.len() == items.len() && forall|i: int|
                0 <= i < items.len() ==> T::decode(items[i]) == Reading::Value(
                    #[trigger] values[i],
                ),
            Reading::Mismatch(path) => exists|i: int|
                0 <= i < items.len() && first_unread::<T>(items, i) && path == seq![
                    StepView::Item(i as nat),
                ] + T::decode(items[i])->Mismatch_0,
        },
    decreases items.len(),
{
    if items.len() > 0 {
        let front = items.drop_last();
        let last = items.len() - 1;
        lemma_decode_items::<T>(front);
        match decode_items::<T>(front) {
            Reading::Value(values) => {
                if T::decode(items.last()) is Mismatch {
                    assert forall|k: int| 0 <= k < last implies (#[trigger] T::decode(
                        items[k],
                    )) is Value by {
                        assert(T::decode(front[k]) == Reading::Value(values[k]));
                    }
                    assert(first_unread::<T>(items, last));
                } else {
                    let whole = decode_items::<T>(items)->Value_0;
                    assert forall|i: int| 0 <= i < items.len() implies T::decode(items[i])
                        == Reading::Value(#[trigger] whole[i]) by {
                        if i < last {
                            assert(T::decode(front[i]) == Reading::Value(values[i]));
                        }
                    }
                }
            },
            Reading::Mismatch(path) => {
                let i = choose|i: int|
                    0 <= i < front.len() && first_unread::<T>(front, i) && path == seq![
                        StepView::Item(i as nat),
                    ] + T::decode(front[i])->Mismatch_0;
                assert forall|k: int| 0 <= k < i implies (#[trigger] T::decode(items[k]))
                    is Value by {
                    assert(T::decode(front[k]) is Value);
                }
                assert(items[i] == front[i]);
                assert(first_unread::<T>(items, i));
            },
        }
    }
}

/// Once the reading of an array has stopped, the rest of the array does not matter.
pub proof fn lemma_decode_items_stops<T: JsonCodec>(items: Seq<Json>, n: int)
    requires
        0 <= n <= items.len(),
        decode_items::<T>(items.take(n)) is Mismatch,
    ensures
        decode_items::<T>(items) == decode_items::<T>(items.take(n)),
    decreases items.len(),
{
    if n == items.len() {
        assert(items.take(n) =~= items);
    } else {
        assert(items.drop_last().take(n) =~= items.take(n));
        lemma_decode_items_stops::<T>(items.drop_last(), n);
    }
}

/// The items of an array survive writing and reading.
pub proof fn lemma_items_round_trip<T: JsonCodec>(items: Seq<T::V>)
    ensures
        decode_items::<T>(encode_items::<T>(items)) == Reading::Value(items),
    decreases items.len(),
{
    let written = encode_items::<T>(items);
    if items.len() > 0 {
        assert(written.drop_last() =~= encode_items::<T>(items.drop_last()));
        lemma_items_round_trip::<T>(items.drop_last());
        T::round_trip(items.last());
        assert(items.drop_last().push(items.last()) =~= items);
    } else {
        assert(items =~= Seq::empty());
    }
}

/// Whether two texts are the same.
pub fn same_text(a: &str, b: &str) -> (r: bool)
    ensures
        r == (a@ == b@),
{
    a.to_owned() == b.to_owned()
}

/// Reads the member `key` of `v`, which has to be there.
pub fn required<T: JsonCodec>(v: &Value, key: &str) -> (r: Result<T, Mismatch>)
    ensures
        read(r) == json_of(*v).required::<T>(key@),
{
    let found = match value_get(v, key) {
        Some(member) => T::from_json(member),
        None => {
            proof {
                T::null_is_refused();
            }
            Err(Mismatch::here())
        },
    };
    match found {
        Ok(x) => Ok(x),
        Err(e) => Err(e.under(Step::Member(key.to_owned()))),
    }
}

/// Reads the member `key` of `v`, which may be missing or `null`.
pub fn optional<T: JsonCodec>(v: &Value, key: &str) -> (r: Result<Option<T>, Mismatch>)
    ensures
        read(r) == json_of(*v).optional::<T>(key@),
{
    let member = match value_get(v, key) {
        Some(member) => member,
        None => return Ok(None),
    };
    if value_is_null(member) {
        return Ok(None);
    }
    match T::from_json(member) {
        Ok(x) => Ok(Some(x)),
        Err(e) => Err(e.under(Step::Member(key.to_owned()))),
    }
}

/// Adds the member `key` with the JSON form of `x`.
pub fn put<T: JsonCodec>(m: &mut Members, key: &str, x: &T)
    ensures
        members_of(*final(m)) == members_of(*old(m)).insert(key@, T::encode(x.deep_view())),
{
    insert_member(m, key.to_owned(), x.to_json());
}

/// Adds the member `key` with the JSON form of `x`, `null` where `x` is absent.
pub fn put_optional<T: JsonCodec>(m: &mut Members, key: &str, x: &Option<T>)
    ensures
        members_of(*final(m)) == members_of(*old(m)).insert(
            key@,
            encode_nullable::<T>(x.deep_view()),
        ),
{
    let value = match x {
        Some(x) => x.to_json(),
        None => null_value(),
    };
    insert_member(m, key.to_owned(), value);
}

impl JsonCodec for bool {
    open spec fn decode(j: Json) -> Reading<bool> {
        match j {
            Json::Bool(b) => Reading::Value(b),
            _ => Reading::Mismatch(here()),
        }
    }

    open spec fn encode(x: bool) -> Json {
        Json::Bool(x)
    }

    proof fn round_trip(x: bool) {
    }

    proof fn null_is_refused() {
    }

    fn from_json(v: &Value) -> (r: Result<bool, Mismatch>) {
        match value_as_bool(v) {
            Some(b) => Ok(b),
            None => Err(Mismatch::here()),
        }
    }

    fn to_json(&self) -> (v: Value) {
        bool_value(*self)
    }
}

impl JsonCodec for u64 {
    open spec fn decode(j: Json) -> Reading<u64> {
        match j {
            Json::Number(Num::Int(n)) if 0 <= n <= u64::MAX => Reading::Value(n as u64),
            _ => Reading::Mismatch(here()),
        }
    }

    open spec fn encode(x: u64) -> Json {
        Json::Number(Num::Int(x as int))
    }

    proof fn round_trip(x: u64) {
    }

    proof fn null_is_refused() {
    }

    fn from_json(v: &Value) -> (r: Result<u64, Mismatch>) {
        match value_as_u64(v) {
            Some(n) => Ok(n),
            None => Err(Mismatch::here()),
        }
    }

    fn to_json(&self) -> (v: Value) {
        u64_value(*self)
    }
}

impl JsonCodec for u32 {
    open spec fn decode(j: Json) -> Reading<u32> {
        match j {
            Json::Number(Num::Int(n)) if 0 <= n <= u32::MAX => Reading::Value(n as u32),
            _ => Reading::Mismatch(here()),
        }
    }

    open spec fn encode(x: u32) -> Json {
        Json::Number(Num::Int(x as int))
    }

    proof fn round_trip(x: u32) {
    }

    proof fn null_is_refused() {
    }

    fn from_json(v: &Value) -> (r: Result<u32, Mismatch>) {
        match value_as_u64(v) {
            Some(n) if n <= 0xffff_ffff => Ok(n as u32),
            _ => Err(Mismatch::here()),
        }
    }

    fn to_json(&self) -> (v: Value) {
        u64_value(*self as u64)
    }
}

impl JsonCodec for i64 {
    open spec fn decode(j: Json) -> Reading<i64> {
        match j {
            Json::Number(Num::Int(n)) if i64::MIN <= n <= i64::MAX => Reading::Value(n as i64),
            _ => Reading::Mismatch(here()),
        }
    }

    open spec fn encode(x: i64) -> Json {
        Json::Number(Num::Int(x as int))
    }

    proof fn round_trip(x: i64) {
    }

    proof fn null_is_refused() {
    }

    fn from_json(v: &Value) -> (r: Result<i64, Mismatch>) {
        match value_as_i64(v) {
            Some(n) => Ok(n),
            None => Err(Mismatch::here()),
        }
    }

    fn to_json(&self) -> (v: Value) {
        i64_value(*self)
    }
}

impl JsonCodec for String {
    open spec fn decode(j: Json) -> Reading<Seq<char>> {
        match j {
            Json::String(s) => Reading::Value(s),
            _ => Reading::Mismatch(here()),
        }
    }

    open spec fn encode(x: Seq<char>) -> Json {
        Json::String(x)
    }

    proof fn round_trip(x: Seq<char>) {
    }

    proof fn null_is_refused() {
    }

    fn from_json(v: &Value) -> (r: Result<String, Mismatch>) {
        match value_as_str(v) {
            Some(s) => Ok(s.to_owned()),
            None => Err(Mismatch::here()),
        }
    }

    fn to_json(&self) -> (v: Value) {
        string_value(self.clone())
    }
}

impl<T: JsonCodec> JsonCodec for Vec<T> {
    open spec fn decode(j: Json) -> Reading<Seq<T::V>> {
        match j {
            Json::Array(items) => decode_items::<T>(items),
            _ => Reading::Mismatch(here()),
        }
    }

    open spec fn encode(x: Seq<T::V>) -> Json {
        Json::Array(encode_items::<T>(x))
    }

    proof fn round_trip(x: Seq<T::V>) {
        lemma_items_round_trip::<T>(x);
    }

    proof fn null_is_refused() {
    }

    fn from_json(v: &Value) -> (r: Result<Vec<T>, Mismatch>) {
        let items = match value_as_array(v) {
            Some(items) => items,
            None => return Err(Mismatch::here()),
        };
        let ghost content = items_of(items@);
        let mut out: Vec<T> = Vec::new();
        let mut i: usize = 0;
        assert(content.take(0) =~= Seq::empty());
        assert(out.deep_view() =~= Seq::empty());
        while i < items.len()
            invariant
                json_of(*v) == Json::Array(content),
                content == items_of(items@),
                i <= items.len(),
                decode_items::<T>(content.take(i as int)) == Reading::Value(
                    out.deep_view(),
                ),
            decreases items.len() - i,
        {
            let ghost before = out.deep_view();
            proof {
                let next = content.take(i + 1);
                assert(next.drop_last() =~= content.take(i as int));
                assert(next.last() == json_of(items@[i as int]));
            }
            match T::from_json(&items[i]) {
                Ok(x) => {
                    out.push(x);
                    assert(out.deep_view() =~= before.push(x.deep_view()));
                },
                Err(e) => {
                    proof {
                        lemma_decode_items_stops::<T>(content, i + 1);
                    }
                    return Err(e.under(Step::Item(i)));
                },
            }
            i = i + 1;
        }
        assert(content.take(i as int) =~= content);
        Ok(out)
    }

    fn to_json(&self) -> (v: Value) {
        let mut items: Vec<Value> = Vec::new();
        let mut i: usize = 0;
        while i < self.len()
            invariant
                i <= self.len(),
                items.len() == i,
                forall|k: int|
                    0 <= k < i ==> json_of(#[trigger] items@[k]) == T::encode(
                        self@[k].deep_view(),
                    ),
            decreases self.len() - i,
        {
            items.push(self[i].to_json());
            i = i + 1;
        }
        assert(items_of(items@) =~= encode_items::<T>(self.deep_view()));
        array_value(items)
    }
}

} // verus!
