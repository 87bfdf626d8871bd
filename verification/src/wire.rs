//! Reading typed values out of JSON documents, and writing them back.
//!
//! A type says how it is read from a document by a spec function and an
//! executable function that follows it; records are read member by member
//! under their published names, and a failure names the path to the member
//! that caused it.

use crate::json::{
    find_member, items_view, lemma_array_view, member, members_view, parsed_text, read_view,
    rendered_json, Json, JsonView, SyntaxError,
};
use vstd::prelude::*;

verus! {

/// What is wrong with a member of a document.
#[derive(Clone, Copy, Debug, PartialEq, Eq, Structural)]
pub enum Fault {
    /// A member that must be there is absent.
    Missing,
    /// The value is of another JSON type than the member has, or a number
    /// outside the member's range.
    Mismatch,
    /// A member is filled although another one, which excludes it, is filled
    /// too.
    Conflict,
}

/// One step on the way from the root of a document to a value in it.
#[derive(Clone, Copy, Debug, PartialEq, Eq)]
pub enum Step {
    /// Into the member of an object with this name.
    Key(&'static str),
    /// Into the item of an array at this position.
    Index(usize),
}

/// What a [`Step`] stands for in contracts.
pub enum StepView {
    Key(Seq<char>),
    Index(usize),
}

impl View for Step {
    type V = StepView;

    open spec fn view(&self) -> StepView {
        match self {
            Step::Key(name) => StepView::Key(name@),
            Step::Index(i) => StepView::Index(*i),
        }
    }
}

/// A fault and the path to the value that has it, from the root.
#[derive(Clone, Debug, PartialEq, Eq)]
pub struct FieldError {
    pub fault: Fault,
    pub path: Vec<Step>,
}

/// What a [`FieldError`] stands for in contracts.
pub struct FieldErrorView {
    pub fault: Fault,
    pub path: Seq<StepView>,
}

/// The steps of a path, each by its view.
pub open spec fn steps_view(path: Seq<Step>) -> Seq<StepView> {
    Seq::new(path.len(), |i: int| path[i]@)
}

impl View for FieldError {
    type V = FieldErrorView;

    open spec fn view(&self) -> FieldErrorView {
        FieldErrorView { fault: self.fault, path: steps_view(self.path@) }
    }
}

/// A fault of the value at hand.
pub open spec fn fail(fault: Fault) -> FieldErrorView {
    FieldErrorView { fault, path: Seq::empty() }
}

/// The same fault, seen from one step further out.
pub open spec fn under(step: StepView, inner: FieldErrorView) -> FieldErrorView {
    FieldErrorView { fault: inner.fault, path: seq![step] + inner.path }
}

impl FieldError {
    /// A fault of the value at hand.
    pub fn new(fault: Fault) -> (e: FieldError)
        ensures
            e@ == fail(fault),
    {
        let e = FieldError { fault, path: Vec::new() };
        assert(e@.path =~= Seq::empty());
        e
    }

    /// The same fault, seen from one step further out.
    pub fn under(self, step: Step) -> (e: FieldError)
        ensures
            e@ == under(step@, self@),
    {
        let FieldError { fault, path } = self;
        let mut path = path;
        let ghost before = path@;
        path.insert(0, step);
        let e = FieldError { fault, path };
        assert(e@.path =~= seq![step@] + steps_view(before));
        e
    }
}

/// What reading a value came to, with value and fault taken by their views.
pub open spec fn decoded_view<T: DeepView>(read: Result<T, FieldError>) -> Result<
    T::V,
    FieldErrorView,
> {
    match read {
        Ok(value) => Ok(value.deep_view()),
        Err(e) => Err(e@),
    }
}

/// A type whose values can be read from a JSON document.
pub trait FromJson: DeepView + Sized {
    /// The value that a document holds, or the first fault found in it.
    spec fn decoded(json: JsonView) -> Result<Self::V, FieldErrorView>;

    /// Reads a value from a document.
    fn from_json(json: &Json) -> (read: Result<Self, FieldError>)
        ensures
            decoded_view(read) == Self::decoded(json@),
    ;
}

impl FromJson for bool {
    open spec fn decoded(json: JsonView) -> Result<bool, FieldErrorView> {
        match json {
            JsonView::Bool(b) => Ok(b),
            _ => Err(fail(Fault::Mismatch)),
        }
    }

    fn from_json(json: &Json) -> (read: Result<bool, FieldError>) {
        match json {
            Json::Bool(b) => Ok(*b),
            _ => Err(FieldError::new(Fault::Mismatch)),
        }
    }
}

impl FromJson for u32 {
    open spec fn decoded(json: JsonView) -> Result<u32, FieldErrorView> {
        match json {
            JsonView::Number(Some(n)) if n <= u32::MAX => Ok(n as u32),
            _ => Err(fail(Fault::Mismatch)),
        }
    }

    fn from_json(json: &Json) -> (read: Result<u32, FieldError>) {
        match json {
            Json::Number(Some(n)) => {
                if *n <= u32::MAX as u64 {
                    Ok(*n as u32)
                } else {
                    Err(FieldError::new(Fault::Mismatch))
                }
            },
            _ => Err(FieldError::new(Fault::Mismatch)),
        }
    }
}

impl FromJson for u8 {
    open spec fn decoded(json: JsonView) -> Result<u8, FieldErrorView> {
        match json {
            JsonView::Number(Some(n)) if n <= u8::MAX => Ok(n as u8),
            _ => Err(fail(Fault::Mismatch)),
        }
    }

    fn from_json(json: &Json) -> (read: Result<u8, FieldError>) {
        match json {
            Json::Number(Some(n)) => {
                if *n <= u8::MAX as u64 {
                    Ok(*n as u8)
                } else {
                    Err(FieldError::new(Fault::Mismatch))
                }
            },
            _ => Err(FieldError::new(Fault::Mismatch)),
        }
    }
}

impl FromJson for String {
    open spec fn decoded(json: JsonView) -> Result<Seq<char>, FieldErrorView> {
        match json {
            JsonView::Text(s) => Ok(s),
            _ => Err(fail(Fault::Mismatch)),
        }
    }

    fn from_json(json: &Json) -> (read: Result<String, FieldError>) {
        match json {
            Json::Text(s) => Ok(s.clone()),
            _ => Err(FieldError::new(Fault::Mismatch)),
        }
    }
}

/// `null` stands for no value; anything else is read as a value.
impl<T: FromJson> FromJson for Option<T> {
    open spec fn decoded(json: JsonView) -> Result<Option<T::V>, FieldErrorView> {
        match json {
            JsonView::Null => Ok(None),
            _ => match T::decoded(json) {
                Ok(value) => Ok(Some(value)),
                Err(e) => Err(e),
            },
        }
    }

    fn from_json(json: &Json) -> (read: Result<Option<T>, FieldError>) {
        match json {
            Json::Null => Ok(None),
            _ => match T::from_json(json) {
                Ok(value) => Ok(Some(value)),
                Err(e) => Err(e),
            },
        }
    }
}

/// The values that the items of an array hold, or the fault of the first
/// item that has one, under its position.
pub open spec fn each<T: FromJson>(items: Seq<JsonView>) -> Result<Seq<T::V>, FieldErrorView>
    decreases items.len(),
{
    if items.len() == 0 {
        Ok(Seq::empty())
    } else {
        match each::<T>(items.drop_last()) {
            Err(e) => Err(e),
            Ok(head) => match T::decoded(items.last()) {
                Ok(value) => Ok(head.push(value)),
                Err(e) => Err(under(StepView::Index((items.len() - 1) as usize), e)),
            },
        }
    }
}

/// A fault among the first items of an array is the fault of the array.
pub proof fn lemma_each_fault_stays<T: FromJson>(items: Seq<JsonView>, n: int)
    requires
        0 <= n <= items.len(),
        each::<T>(items.take(n)) is Err,
    ensures
        each::<T>(items) == each::<T>(items.take(n)),
    decreases items.len(),
{
    if n == items.len() {
        assert(items.take(n) =~= items);
    } else {
        assert(items.drop_last().take(n) =~= items.take(n));
        lemma_each_fault_stays::<T>(items.drop_last(), n);
    }
}

impl<T: FromJson> FromJson for Vec<T> {
    open spec fn decoded(json: JsonView) -> Result<Seq<T::V>, FieldErrorView> {
        match json {
            JsonView::Array(items) => each::<T>(items),
            _ => Err(fail(Fault::Mismatch)),
        }
    }

    fn from_json(json: &Json) -> (read: Result<Vec<T>, FieldError>) {
        match json {
            Json::Array(items) => {
                proof {
                    lemma_array_view(*items);
                }
                let ghost all = items_view(items@);
                let mut out: Vec<T> = Vec::new();
                let mut i: usize = 0;
                assert(out.deep_view() =~= Seq::empty());
                assert(all.take(0) =~= Seq::empty());
                while i < items.len()
                    invariant
                        i <= items.len(),
                        all == items_view(items@),
                        json@ == JsonView::Array(all),
                        each::<T>(all.take(i as int)) == Ok::<Seq<T::V>, FieldErrorView>(
                            out.deep_view(),
                        ),
                    decreases items.len() - i,
                {
                    let ghost before = out.deep_view();
                    assert(all.take(i + 1).drop_last() =~= all.take(i as int));
                    assert(all.take(i + 1).last() == items@[i as int]@);
                    match T::from_json(&items[i]) {
                        Ok(value) => {
                            out.push(value);
                            assert(out.deep_view() =~= before.push(value.deep_view()));
                        },
                        Err(e) => {
                            proof {
                                let part = all.take(i + 1);
                                assert(part.len() == i + 1);
                                assert(T::decoded(part.last()) == Err::<T::V, FieldErrorView>(e@));
                                assert(each::<T>(part) == Err::<Seq<T::V>, FieldErrorView>(
                                    under(StepView::Index(i), e@),
                                ));
                                lemma_each_fault_stays::<T>(all, i + 1);
                            }
                            return Err(e.under(Step::Index(i)));
                        },
                    }
                    i += 1;
                }
                assert(all.take(i as int) =~= all);
                Ok(out)
            },
            _ => Err(FieldError::new(Fault::Mismatch)),
        }
    }
}

/// The value of a member that every object of the kind has: absent, it is
/// a fault; present, it is read as a `T`.
pub open spec fn required<T: FromJson>(
    members: Map<Seq<char>, JsonView>,
    key: Seq<char>,
) -> Result<T::V, FieldErrorView> {
    match member(members, key) {
        None => Err(under(StepView::Key(key), fail(Fault::Missing))),
        Some(json) => match T::decoded(json) {
            Ok(value) => Ok(value),
            Err(e) => Err(under(StepView::Key(key), e)),
        },
    }
}

/// The value of a member that may be left out: absent or `null`, there is no
/// value; otherwise it is read as a `T`.
pub open spec fn optional<T: FromJson>(
    members: Map<Seq<char>, JsonView>,
    key: Seq<char>,
) -> Result<Option<T::V>, FieldErrorView> {
    match member(members, key) {
        None => Ok(None),
        Some(json) => match Option::<T>::decoded(json) {
            Ok(value) => Ok(value),
            Err(e) => Err(under(StepView::Key(key), e)),
        },
    }
}

/// Reads a member that every object of the kind has.
pub fn required_member<T: FromJson>(members: &Vec<(String, Json)>, key: &'static str) -> (read:
    Result<T, FieldError>)
    ensures
        decoded_view(read) == required::<T>(members_view(members@), key@),
{
    match find_member(members, key) {
        None => Err(FieldError::new(Fault::Missing).under(Step::Key(key))),
        Some(json) => match T::from_json(json) {
            Ok(value) => Ok(value),
            Err(e) => Err(e.under(Step::Key(key))),
        },
    }
}

/// Reads a member that may be left out.
pub fn optional_member<T: FromJson>(members: &Vec<(String, Json)>, key: &'static str) -> (read:
    Result<Option<T>, FieldError>)
    ensures
        decoded_view(read) == optional::<T>(members_view(members@), key@),
{
    match find_member(members, key) {
        None => Ok(None),
        Some(json) => match Option::<T>::from_json(json) {
            Ok(value) => Ok(value),
            Err(e) => Err(e.under(Step::Key(key))),
        },
    }
}

/// A type whose values can be written as JSON documents and read back.
pub trait ToJson: FromJson {
    /// The document that stands for a value.
    spec fn encoded(value: Self::V) -> JsonView;

    /// Writes a value as a document.
    fn to_json(&self) -> (json: Json)
        ensures
            json@ == Self::encoded(self.deep_view()),
    ;

    /// The document written for a value is never `null`, and reading it gives
    /// the value back.
    proof fn lemma_round_trip(value: Self::V)
        ensures
            !(Self::encoded(value) is Null),
            Self::decoded(Self::encoded(value)) == Ok::<Self::V, FieldErrorView>(value),
    ;
}

impl ToJson for bool {
    open spec fn encoded(value: bool) -> JsonView {
        JsonView::Bool(value)
    }

    fn to_json(&self) -> (json: Json) {
        Json::Bool(*self)
    }

    proof fn lemma_round_trip(value: bool) {
    }
}

impl ToJson for u32 {
    open spec fn encoded(value: u32) -> JsonView {
        JsonView::Number(Some(value as u64))
    }

    fn to_json(&self) -> (json: Json) {
        Json::Number(Some(*self as u64))
    }

    proof fn lemma_round_trip(value: u32) {
    }
}

impl ToJson for u8 {
    open spec fn encoded(value: u8) -> JsonView {
        JsonView::Number(Some(value as u64))
    }

    fn to_json(&self) -> (json: Json) {
        Json::Number(Some(*self as u64))
    }

    proof fn lemma_round_trip(value: u8) {
    }
}

impl ToJson for String {
    open spec fn encoded(value: Seq<char>) -> JsonView {
        JsonView::Text(value)
    }

    fn to_json(&self) -> (json: Json) {
        Json::Text(self.clone())
    }

    proof fn lemma_round_trip(value: Seq<char>) {
    }
}

/// The documents that stand for the values of a sequence, in order.
pub open spec fn each_encoded<T: ToJson>(values: Seq<T::V>) -> Seq<JsonView> {
    Seq::new(values.len(), |i: int| T::encoded(values[i]))
}

/// Reading the documents written for a sequence of values gives the values
/// back.
pub proof fn lemma_each_round_trip<T: ToJson>(values: Seq<T::V>)
    ensures
        each::<T>(each_encoded::<T>(values)) == Ok::<Seq<T::V>, FieldErrorView>(values),
    decreases values.len(),
{
    let items = each_encoded::<T>(values);
    if values.len() == 0 {
        assert(values =~= Seq::empty());
    } else {
        assert(items.drop_last() =~= each_encoded::<T>(values.drop_last()));
        lemma_each_round_trip::<T>(values.drop_last());
        T::lemma_round_trip(values.last());
        assert(values.drop_last().push(values.last()) =~= values);
    }
}

impl<T: ToJson> ToJson for Vec<T> {
    open spec fn encoded(value: Seq<T::V>) -> JsonView {
        JsonView::Array(each_encoded::<T>(value))
    }

    fn to_json(&self) -> (json: Json) {
        let mut items: Vec<Json> = Vec::new();
        let mut i: usize = 0;
        while i < self.len()
            invariant
                i <= self.len(),
                items_view(items@) =~= each_encoded::<T>(self.deep_view().take(i as int)),
            decreases self.len() - i,
        {
            let ghost before = items_view(items@);
            let item = self[i].to_json();
            items.push(item);
            assert(items_view(items@) =~= before.push(item@));
            i += 1;
        }
        assert(self.deep_view().take(i as int) =~= self.deep_view());
        proof {
            lemma_array_view(items);
        }
        Json::Array(items)
    }

    proof fn lemma_round_trip(value: Seq<T::V>) {
        lemma_each_round_trip::<T>(value);
    }
}

/// The document that stands for a value that may be left out: `null` where
/// there is none.
pub open spec fn optional_encoded<T: ToJson>(value: Option<T::V>) -> JsonView {
    match value {
        Some(v) => T::encoded(v),
        None => JsonView::Null,
    }
}

/// Writes a value that may be left out.
pub fn optional_to_json<T: ToJson>(value: &Option<T>) -> (json: Json)
    ensures
        json@ == optional_encoded::<T>(value.deep_view()),
{
    match value {
        Some(v) => v.to_json(),
        None => Json::Null,
    }
}

/// Reading the document written for a value that may be left out gives the
/// value back.
pub proof fn lemma_optional_round_trip<T: ToJson>(value: Option<T::V>)
    ensures
        Option::<T>::decoded(optional_encoded::<T>(value)) == Ok::<Option<T::V>, FieldErrorView>(
            value,
        ),
{
    if let Some(v) = value {
        T::lemma_round_trip(v);
    }
}

/// Why a text could not be read as a value.
#[derive(Clone, Debug, PartialEq, Eq)]
pub enum ParseError {
    /// The text is not JSON.
    Syntax(SyntaxError),
    /// The text is JSON, but a member of it is missing or not as it must be.
    Field(FieldError),
}

/// What a [`ParseError`] stands for in contracts.
pub enum ParseErrorView {
    Syntax(SyntaxError),
    Field(FieldErrorView),
}

impl View for ParseError {
    type V = ParseErrorView;

    open spec fn view(&self) -> ParseErrorView {
        match self {
            ParseError::Syntax(e) => ParseErrorView::Syntax(*e),
            ParseError::Field(e) => ParseErrorView::Field(e@),
        }
    }
}

/// What reading a text came to, with value and error taken by their views.
pub open spec fn parsed_view<T: DeepView>(read: Result<T, ParseError>) -> Result<
    T::V,
    ParseErrorView,
> {
    match read {
        Ok(value) => Ok(value.deep_view()),
        Err(e) => Err(e@),
    }
}

/// The value that a text holds, given the document that the text holds: the
/// value that the document holds, or the first error on the way to it.
pub open spec fn document<T: FromJson>(parsed: Result<JsonView, SyntaxError>) -> Result<
    T::V,
    ParseErrorView,
> {
    match parsed {
        Err(e) => Err(ParseErrorView::Syntax(e)),
        Ok(json) => match T::decoded(json) {
            Ok(value) => Ok(value),
            Err(e) => Err(ParseErrorView::Field(e)),
        },
    }
}

/// Reads a value out of a text that has been read as JSON, or hands on why
/// the text is not JSON.
pub fn read_document<T: FromJson>(parsed: Result<Json, SyntaxError>) -> (read: Result<
    T,
    ParseError,
>)
    ensures
        parsed_view(read) == document::<T>(read_view(parsed)),
{
    match parsed {
        Err(e) => Err(ParseError::Syntax(e)),
        Ok(json) => match T::from_json(&json) {
            Ok(value) => Ok(value),
            Err(e) => Err(ParseError::Field(e)),
        },
    }
}

/// Reads a value out of a JSON text.
pub fn parse<T: FromJson>(text: &str) -> (read: Result<T, ParseError>)
    ensures
        parsed_view(read) == document::<T>(parsed_text(text@)),
{
    read_document(Json::parse(text))
}

/// Where the text that is written for the document of a value is read as
/// that document again, the value is read back from its text.
pub proof fn lemma_text_round_trip<T: ToJson>(value: T::V)
    ensures
        parsed_text(rendered_json(T::encoded(value))) == Ok::<JsonView, SyntaxError>(
            T::encoded(value),
        ) ==> document::<T>(parsed_text(rendered_json(T::encoded(value)))) == Ok::<
            T::V,
            ParseErrorView,
        >(value),
{
    T::lemma_round_trip(value);
}

} // verus!
