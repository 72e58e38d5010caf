//! The query and filter expressions of the engine's query language.
//!
//! Each kind of query or filter is built from its required arguments, takes
//! optional modifiers through chained calls, and is finished by `build`. A
//! finished node cannot be changed; `to_json` gives its wire form.

use crate::error::EsError;
use crate::json::encode;
use crate::json::json_text;
use crate::json::fits;
use crate::json::lemma_has_key;
use crate::json::lemma_names_of_concat;
use crate::json::lemma_names_of_optional;
use crate::json::lemma_single_distinct;
use crate::json::lemma_sound_concat;
use crate::json::lemma_sound_optional;
use crate::json::lemma_names_key_concat;
use crate::json::lemma_names_optional_field;
use crate::json::object;
use crate::json::optional_field;
use crate::json::push_field;
use crate::json::push_optional;
use crate::json::single;
use crate::json::single_field;
use crate::json::fields_model;
use crate::json::JsonModel;
use crate::json::JsonValue;
use vstd::prelude::*;
use vstd::std_specs::convert::FromSpecImpl;

verus! {

/// A scalar that a query compares a field with.
#[derive(Debug, PartialEq)]
pub enum JsonVal {
    String(String),
    I64(i64),
    U64(u64),
    Boolean(bool),
}

impl View for JsonVal {
    type V = JsonModel;

    open spec fn view(&self) -> JsonModel {
        match self {
            JsonVal::String(s) => JsonModel::String(s@),
            JsonVal::I64(n) => JsonModel::I64(*n),
            JsonVal::U64(n) => JsonModel::U64(*n),
            JsonVal::Boolean(b) => JsonModel::Boolean(*b),
        }
    }
}

impl JsonVal {
    /// The scalar as a JSON value.
    pub fn to_json(&self) -> (r: JsonValue)
        ensures
            r@ == self@,
            r@.distinct_names(),
    {
        match self {
            JsonVal::String(s) => JsonValue::String(s.clone()),
            JsonVal::I64(n) => JsonValue::I64(*n),
            JsonVal::U64(n) => JsonValue::U64(*n),
            JsonVal::Boolean(b) => JsonValue::Boolean(*b),
        }
    }
}

impl From<String> for JsonVal {
    fn from(v: String) -> (r: JsonVal) {
        JsonVal::String(v)
    }
}

impl FromSpecImpl<String> for JsonVal {
    open spec fn obeys_from_spec() -> bool {
        true
    }

    open spec fn from_spec(v: String) -> JsonVal {
        JsonVal::String(v)
    }
}

impl<'a> From<&'a str> for JsonVal {
    fn from(v: &'a str) -> (r: JsonVal)
        ensures
            r@ == JsonModel::String(v@),
    {
        JsonVal::String(String::from_str(v))
    }
}

impl<'a> FromSpecImpl<&'a str> for JsonVal {
    open spec fn obeys_from_spec() -> bool {
        false
    }

    open spec fn from_spec(v: &'a str) -> JsonVal {
        choose|r: JsonVal| r@ == JsonModel::String(v@)
    }
}

impl From<i64> for JsonVal {
    fn from(v: i64) -> (r: JsonVal) {
        JsonVal::I64(v)
    }
}

impl FromSpecImpl<i64> for JsonVal {
    open spec fn obeys_from_spec() -> bool {
        true
    }

    open spec fn from_spec(v: i64) -> JsonVal {
        JsonVal::I64(v)
    }
}

impl From<i32> for JsonVal {
    fn from(v: i32) -> (r: JsonVal) {
        JsonVal::I64(v as i64)
    }
}

impl FromSpecImpl<i32> for JsonVal {
    open spec fn obeys_from_spec() -> bool {
        true
    }

    open spec fn from_spec(v: i32) -> JsonVal {
        JsonVal::I64(v as i64)
    }
}

impl From<u64> for JsonVal {
    fn from(v: u64) -> (r: JsonVal) {
        JsonVal::U64(v)
    }
}

impl FromSpecImpl<u64> for JsonVal {
    open spec fn obeys_from_spec() -> bool {
        true
    }

    open spec fn from_spec(v: u64) -> JsonVal {
        JsonVal::U64(v)
    }
}

impl From<bool> for JsonVal {
    fn from(v: bool) -> (r: JsonVal) {
        JsonVal::Boolean(v)
    }
}

impl FromSpecImpl<bool> for JsonVal {
    open spec fn obeys_from_spec() -> bool {
        true
    }

    open spec fn from_spec(v: bool) -> JsonVal {
        JsonVal::Boolean(v)
    }
}

/// The view of an optional scalar.
pub open spec fn optional_view(value: Option<JsonVal>) -> Option<JsonModel> {
    match value {
        Some(v) => Some(v@),
        None => None,
    }
}

/// A boolean modifier as a JSON value.
pub open spec fn boolean_model(value: Option<bool>) -> Option<JsonModel> {
    match value {
        Some(b) => Some(JsonModel::Boolean(b)),
        None => None,
    }
}

/// A text modifier as a JSON value.
pub open spec fn string_model(value: Option<String>) -> Option<JsonModel> {
    match value {
        Some(s) => Some(JsonModel::String(s@)),
        None => None,
    }
}

/// A range filter: the field lies within the bounds that are given.
pub ghost struct RangeModel {
    pub field: Seq<char>,
    pub gte: Option<JsonModel>,
    pub gt: Option<JsonModel>,
    pub lte: Option<JsonModel>,
    pub lt: Option<JsonModel>,
}

/// A term filter: the field holds exactly the value.
pub ghost struct TermModel {
    pub field: Seq<char>,
    pub value: JsonModel,
}

/// The mathematical value of a filter.
pub ghost enum FilterModel {
    Range(RangeModel),
    Term(TermModel),
}

/// A match query: the field matches the text or number.
pub ghost struct MatchModel {
    pub field: Seq<char>,
    pub query: JsonModel,
    pub lenient: Option<JsonModel>,
    pub operator: Option<JsonModel>,
}

/// The mathematical value of a query.
pub ghost enum QueryModel {
    /// Every document matches.
    MatchAll,
    Match(MatchModel),
    /// The documents of the inner query, or of all documents, that pass the filter.
    Filtered { filter: FilterModel, inner: Option<Box<QueryModel>> },
}

impl RangeModel {
    /// The bounds, each under its operator's name and only where it is given.
    pub open spec fn bounds(self) -> Seq<(Seq<char>, JsonModel)> {
        optional_field("gte"@, self.gte) + optional_field("gt"@, self.gt) + optional_field(
            "lte"@,
            self.lte,
        ) + optional_field("lt"@, self.lt)
    }

    /// The JSON that the engine expects: `{"range": {field: {bounds}}}`.
    pub open spec fn wire(self) -> JsonModel {
        single("range"@, single(self.field, JsonModel::Object(self.bounds())))
    }
}

impl TermModel {
    /// The JSON that the engine expects: `{"term": {field: value}}`.
    pub open spec fn wire(self) -> JsonModel {
        single("term"@, single(self.field, self.value))
    }
}

impl FilterModel {
    /// The JSON that the engine expects for the filter.
    pub open spec fn wire(self) -> JsonModel {
        match self {
            FilterModel::Range(f) => f.wire(),
            FilterModel::Term(f) => f.wire(),
        }
    }
}

impl MatchModel {
    /// The query itself, then each modifier that is given.
    pub open spec fn settings(self) -> Seq<(Seq<char>, JsonModel)> {
        seq![("query"@, self.query)] + optional_field("lenient"@, self.lenient) + optional_field(
            "operator"@,
            self.operator,
        )
    }

    /// The JSON that the engine expects: `{"match": {field: {settings}}}`.
    pub open spec fn wire(self) -> JsonModel {
        single("match"@, single(self.field, JsonModel::Object(self.settings())))
    }
}

/// The wire form of an optional query.
pub open spec fn wire_model(query: Option<QueryModel>) -> Option<JsonModel> {
    match query {
        Some(q) => Some(q.wire()),
        None => None,
    }
}

/// The members of a filtered query: the inner query where there is one, then
/// the filter.
pub open spec fn filtered_members(filter: JsonModel, inner: Option<JsonModel>) -> Seq<(Seq<char>, JsonModel)> {
    optional_field("query"@, inner) + seq![("filter"@, filter)]
}

impl QueryModel {
    /// The JSON that the engine expects for the query.
    pub open spec fn wire(self) -> JsonModel
        decreases self,
    {
        match self {
            QueryModel::MatchAll => single("match_all"@, JsonModel::Object(Seq::empty())),
            QueryModel::Match(m) => m.wire(),
            QueryModel::Filtered { filter, inner } => single(
                "filtered"@,
                JsonModel::Object(
                    filtered_members(
                        filter.wire(),
                        match inner {
                            Some(q) => Some(q.wire()),
                            None => None,
                        },
                    ),
                ),
            ),
        }
    }
}

/// A range filter under construction.
#[derive(Debug, PartialEq)]
pub struct RangeFilter {
    field: String,
    gte: Option<JsonVal>,
    gt: Option<JsonVal>,
    lte: Option<JsonVal>,
    lt: Option<JsonVal>,
}

/// A term filter under construction.
#[derive(Debug, PartialEq)]
pub struct TermFilter {
    field: String,
    value: JsonVal,
}

/// A finished filter.
#[derive(Debug, PartialEq)]
pub enum Filter {
    Range(RangeFilter),
    Term(TermFilter),
}

impl View for RangeFilter {
    type V = RangeModel;

    closed spec fn view(&self) -> RangeModel {
        RangeModel {
            field: self.field@,
            gte: optional_view(self.gte),
            gt: optional_view(self.gt),
            lte: optional_view(self.lte),
            lt: optional_view(self.lt),
        }
    }
}

impl View for TermFilter {
    type V = TermModel;

    closed spec fn view(&self) -> TermModel {
        TermModel { field: self.field@, value: self.value@ }
    }
}

impl View for Filter {
    type V = FilterModel;

    closed spec fn view(&self) -> FilterModel {
        match self {
            Filter::Range(f) => FilterModel::Range(f@),
            Filter::Term(f) => FilterModel::Term(f@),
        }
    }
}

/// Appends a bound to a list of fields where the bound is given.
fn push_bound(fields: &mut Vec<(String, JsonValue)>, key: &str, bound: &Option<JsonVal>)
    ensures
        fields_model(final(fields)@) == fields_model(old(fields)@) + optional_field(
            key@,
            optional_view(*bound),
        ),
{
    match bound {
        Some(v) => push_optional(fields, key, Some(v.to_json())),
        None => push_optional(fields, key, None),
    }
}

impl RangeFilter {
    /// Sets the inclusive lower bound.
    pub fn with_gte(self, value: JsonVal) -> (r: RangeFilter)
        ensures
            r@ == (RangeModel { gte: Some(value@), ..self@ }),
    {
        RangeFilter { gte: Some(value), ..self }
    }

    /// Sets the exclusive lower bound.
    pub fn with_gt(self, value: JsonVal) -> (r: RangeFilter)
        ensures
            r@ == (RangeModel { gt: Some(value@), ..self@ }),
    {
        RangeFilter { gt: Some(value), ..self }
    }

    /// Sets the inclusive upper bound.
    pub fn with_lte(self, value: JsonVal) -> (r: RangeFilter)
        ensures
            r@ == (RangeModel { lte: Some(value@), ..self@ }),
    {
        RangeFilter { lte: Some(value), ..self }
    }

    /// Sets the exclusive upper bound.
    pub fn with_lt(self, value: JsonVal) -> (r: RangeFilter)
        ensures
            r@ == (RangeModel { lt: Some(value@), ..self@ }),
    {
        RangeFilter { lt: Some(value), ..self }
    }

    /// Finishes the filter.
    pub fn build(self) -> (r: Filter)
        ensures
            r@ == FilterModel::Range(self@),
    {
        Filter::Range(self)
    }

    /// The wire form of the filter.
    pub fn to_json(&self) -> (r: JsonValue)
        ensures
            r@ == self@.wire(),
            r@.distinct_names(),
    {
        proof {
            lemma_range_wire_distinct(self@);
        }
        let mut bounds: Vec<(String, JsonValue)> = Vec::new();
        push_bound(&mut bounds, "gte", &self.gte);
        push_bound(&mut bounds, "gt", &self.gt);
        push_bound(&mut bounds, "lte", &self.lte);
        push_bound(&mut bounds, "lt", &self.lt);
        single_field("range", single_field(self.field.as_str(), object(bounds)))
    }
}

impl TermFilter {
    /// Finishes the filter.
    pub fn build(self) -> (r: Filter)
        ensures
            r@ == FilterModel::Term(self@),
    {
        Filter::Term(self)
    }

    /// The wire form of the filter.
    pub fn to_json(&self) -> (r: JsonValue)
        ensures
            r@ == self@.wire(),
            r@.distinct_names(),
    {
        proof {
            lemma_term_wire_distinct(self@);
        }
        single_field("term", single_field(self.field.as_str(), self.value.to_json()))
    }
}

impl Filter {
    /// Starts a range filter on `field`, with no bound set.
    pub fn build_range(field: &str) -> (r: RangeFilter)
        ensures
            r@ == (RangeModel { field: field@, gte: None, gt: None, lte: None, lt: None }),
    {
        RangeFilter { field: String::from_str(field), gte: None, gt: None, lte: None, lt: None }
    }

    /// Starts a term filter: `field` holds exactly `value`.
    pub fn build_term(field: &str, value: JsonVal) -> (r: TermFilter)
        ensures
            r@ == (TermModel { field: field@, value: value@ }),
    {
        TermFilter { field: String::from_str(field), value }
    }

    /// The wire form of the filter.
    pub fn to_json(&self) -> (r: JsonValue)
        ensures
            r@ == self@.wire(),
            r@.distinct_names(),
    {
        match self {
            Filter::Range(f) => f.to_json(),
            Filter::Term(f) => f.to_json(),
        }
    }
}

/// A match-all query under construction.
#[derive(Debug, PartialEq)]
pub struct MatchAllQuery {}

/// A match query under construction.
#[derive(Debug, PartialEq)]
pub struct MatchQuery {
    field: String,
    query: JsonVal,
    lenient: Option<bool>,
    operator: Option<String>,
}

/// A filtered query under construction.
#[derive(Debug, PartialEq)]
pub struct FilteredQuery {
    filter: Filter,
    query: Option<Box<Query>>,
}

/// A finished query.
#[derive(Debug, PartialEq)]
pub enum Query {
    MatchAll(MatchAllQuery),
    Match(MatchQuery),
    Filtered(FilteredQuery),
}

impl View for MatchAllQuery {
    type V = QueryModel;

    open spec fn view(&self) -> QueryModel {
        QueryModel::MatchAll
    }
}

impl View for MatchQuery {
    type V = MatchModel;

    closed spec fn view(&self) -> MatchModel {
        MatchModel {
            field: self.field@,
            query: self.query@,
            lenient: boolean_model(self.lenient),
            operator: string_model(self.operator),
        }
    }
}

impl Query {
    /// The mathematical value of the query.
    pub closed spec fn model(&self) -> QueryModel
        decreases self,
    {
        match self {
            Query::MatchAll(_) => QueryModel::MatchAll,
            Query::Match(m) => QueryModel::Match(m@),
            Query::Filtered(f) => QueryModel::Filtered {
                filter: f.filter@,
                inner: match f.query {
                    Some(q) => Some(Box::new(q.model())),
                    None => None,
                },
            },
        }
    }
}

impl View for Query {
    type V = QueryModel;

    closed spec fn view(&self) -> QueryModel {
        self.model()
    }
}

impl FilteredQuery {
    /// The filter that the query applies.
    pub closed spec fn filter_model(&self) -> FilterModel {
        self.filter@
    }

    /// The inner query, where one is set.
    pub closed spec fn inner_model(&self) -> Option<QueryModel> {
        match self.query {
            Some(q) => Some(q@),
            None => None,
        }
    }

    /// Restricts the filter to the documents of `query`.
    pub fn with_query(self, query: Query) -> (r: FilteredQuery)
        ensures
            r.filter_model() == self.filter_model(),
            r.inner_model() == Some(query@),
    {
        FilteredQuery { filter: self.filter, query: Some(Box::new(query)) }
    }

    /// Finishes the query.
    pub fn build(self) -> (r: Query)
        ensures
            r@ == (QueryModel::Filtered {
                filter: self.filter_model(),
                inner: match self.inner_model() {
                    Some(q) => Some(Box::new(q)),
                    None => None,
                },
            }),
    {
        Query::Filtered(self)
    }
}

impl MatchAllQuery {
    /// Finishes the query.
    pub fn build(self) -> (r: Query)
        ensures
            r@ == self@,
    {
        Query::MatchAll(self)
    }
}

impl MatchQuery {
    /// Sets whether a value of the wrong type for the field is ignored.
    pub fn with_lenient(self, lenient: bool) -> (r: MatchQuery)
        ensures
            r@ == (MatchModel { lenient: Some(JsonModel::Boolean(lenient)), ..self@ }),
    {
        MatchQuery { lenient: Some(lenient), ..self }
    }

    /// Sets how the terms of the text combine: `and` or `or`.
    pub fn with_operator(self, operator: &str) -> (r: MatchQuery)
        ensures
            r@ == (MatchModel { operator: Some(JsonModel::String(operator@)), ..self@ }),
    {
        MatchQuery { operator: Some(String::from_str(operator)), ..self }
    }

    /// Finishes the query.
    pub fn build(self) -> (r: Query)
        ensures
            r@ == QueryModel::Match(self@),
    {
        Query::Match(self)
    }

    /// The wire form of the query.
    pub fn to_json(&self) -> (r: JsonValue)
        ensures
            r@ == self@.wire(),
            r@.distinct_names(),
    {
        proof {
            lemma_match_wire_distinct(self@);
        }
        let mut settings: Vec<(String, JsonValue)> = Vec::new();
        push_field(&mut settings, "query", self.query.to_json());
        push_optional(
            &mut settings,
            "lenient",
            match self.lenient {
                Some(b) => Some(JsonValue::Boolean(b)),
                None => None,
            },
        );
        push_optional(
            &mut settings,
            "operator",
            match &self.operator {
                Some(s) => Some(JsonValue::String(s.clone())),
                None => None,
            },
        );
        assert(fields_model(settings@) =~= self@.settings());
        single_field("match", single_field(self.field.as_str(), object(settings)))
    }
}

impl Query {
    /// Starts a query that matches every document.
    pub fn build_match_all() -> (r: MatchAllQuery)
        ensures
            r@ == QueryModel::MatchAll,
    {
        MatchAllQuery {  }
    }

    /// Starts a query that matches `field` against `query`.
    pub fn build_match(field: &str, query: JsonVal) -> (r: MatchQuery)
        ensures
            r@ == (MatchModel { field: field@, query: query@, lenient: None, operator: None }),
    {
        MatchQuery { field: String::from_str(field), query, lenient: None, operator: None }
    }

    /// Starts a query for the documents that pass `filter`.
    pub fn build_filtered(filter: Filter) -> (r: FilteredQuery)
        ensures
            r.filter_model() == filter@,
            r.inner_model() is None,
    {
        FilteredQuery { filter, query: None }
    }

    /// The wire form of the query.
    pub fn to_json(&self) -> (r: JsonValue)
        ensures
            r@ == self@.wire(),
            r@.distinct_names(),
        decreases self,
    {
        match self {
            Query::MatchAll(_) => {
                let empty: Vec<(String, JsonValue)> = Vec::new();
                assert(fields_model(empty@) =~= Seq::empty());
                proof {
                    lemma_sound_optional("match_all"@, None);
                    lemma_single_distinct("match_all"@, JsonModel::Object(Seq::empty()));
                }
                single_field("match_all", object(empty))
            },
            Query::Match(m) => m.to_json(),
            Query::Filtered(f) => {
                let mut members: Vec<(String, JsonValue)> = Vec::new();
                match &f.query {
                    Some(q) => {
                        let inner = q.to_json();
                        push_optional(&mut members, "query", Some(inner));
                    },
                    None => {
                        push_optional(&mut members, "query", None);
                    },
                }
                push_field(&mut members, "filter", f.filter.to_json());
                assert(fields_model(members@) =~= filtered_members(
                    f.filter@.wire(),
                    match f.query {
                        Some(q) => Some(q@.wire()),
                        None => None,
                    },
                ));
                proof {
                    lemma_filtered_wire_distinct(f.filter@.wire(), wire_model(f.inner_model()));
                }
                single_field("filtered", object(members))
            },
        }
    }
}

impl Query {
    /// The query's wire form as compact JSON text. Every query has one.
    pub fn serialize(&self) -> (r: Result<String, EsError>)
        ensures
            match r {
                Ok(text) => text@ == json_text(self@.wire()),
                Err(_) => false,
            },
    {
        let wire = self.to_json();
        encode(&wire)
    }
}

impl Filter {
    /// The filter's wire form as compact JSON text. Every filter has one.
    pub fn serialize(&self) -> (r: Result<String, EsError>)
        ensures
            match r {
                Ok(text) => text@ == json_text(self@.wire()),
                Err(_) => false,
            },
    {
        let wire = self.to_json();
        encode(&wire)
    }
}

/// The names that queries and filters put on the wire differ from one
/// another where they stand in one object.
proof fn lemma_wire_names()
    ensures
        "gte"@ != "gt"@,
        "gte"@ != "lte"@,
        "gte"@ != "lt"@,
        "gt"@ != "lte"@,
        "gt"@ != "lt"@,
        "lte"@ != "lt"@,
        "query"@ != "lenient"@,
        "query"@ != "operator"@,
        "lenient"@ != "operator"@,
        "query"@ != "filter"@,
{
    reveal_strlit("gte");
    reveal_strlit("gt");
    reveal_strlit("lte");
    reveal_strlit("lt");
    reveal_strlit("query");
    reveal_strlit("lenient");
    reveal_strlit("operator");
    reveal_strlit("filter");
    assert("gte"@.len() == 3 && "lte"@.len() == 3 && "gt"@.len() == 2 && "lt"@.len() == 2);
    assert("lenient"@.len() == 7 && "operator"@.len() == 8);
    assert("gte"@[0] != "lte"@[0]);
    assert("gt"@[0] != "lt"@[0]);
    assert("query"@[0] != "filter"@[0]);
}

/// The wire form of a range filter names no field twice, if none of its
/// bounds does.
pub proof fn lemma_range_wire_distinct(f: RangeModel)
    requires
        fits(f.gte),
        fits(f.gt),
        fits(f.lte),
        fits(f.lt),
    ensures
        f.wire().distinct_names(),
{
    lemma_wire_names();
    let a = optional_field("gte"@, f.gte);
    let b = optional_field("gt"@, f.gt);
    let c = optional_field("lte"@, f.lte);
    let d = optional_field("lt"@, f.lt);
    lemma_names_of_optional("gte"@, f.gte);
    lemma_names_of_optional("gt"@, f.gt);
    lemma_names_of_optional("lte"@, f.lte);
    lemma_names_of_optional("lt"@, f.lt);
    lemma_sound_optional("gte"@, f.gte);
    lemma_sound_optional("gt"@, f.gt);
    lemma_sound_optional("lte"@, f.lte);
    lemma_sound_optional("lt"@, f.lt);
    lemma_names_of_concat(a, b);
    lemma_sound_concat(a, b);
    lemma_names_of_concat(a + b, c);
    lemma_sound_concat(a + b, c);
    lemma_sound_concat(a + b + c, d);
    lemma_single_distinct(f.field, JsonModel::Object(f.bounds()));
    lemma_single_distinct("range"@, single(f.field, JsonModel::Object(f.bounds())));
}

/// The wire form of a term filter names no field twice, if its value does
/// not.
pub proof fn lemma_term_wire_distinct(f: TermModel)
    requires
        f.value.distinct_names(),
    ensures
        f.wire().distinct_names(),
{
    lemma_single_distinct(f.field, f.value);
    lemma_single_distinct("term"@, single(f.field, f.value));
}

/// The wire form of a match query names no field twice, if neither its
/// query nor its modifiers do.
pub proof fn lemma_match_wire_distinct(m: MatchModel)
    requires
        m.query.distinct_names(),
        fits(m.lenient),
        fits(m.operator),
    ensures
        m.wire().distinct_names(),
{
    lemma_wire_names();
    let a = optional_field("query"@, Some(m.query));
    let b = optional_field("lenient"@, m.lenient);
    let c = optional_field("operator"@, m.operator);
    assert(a == seq![("query"@, m.query)]);
    lemma_names_of_optional("query"@, Some(m.query));
    lemma_names_of_optional("lenient"@, m.lenient);
    lemma_names_of_optional("operator"@, m.operator);
    lemma_sound_optional("query"@, Some(m.query));
    lemma_sound_optional("lenient"@, m.lenient);
    lemma_sound_optional("operator"@, m.operator);
    lemma_names_of_concat(a, b);
    lemma_sound_concat(a, b);
    lemma_sound_concat(a + b, c);
    lemma_single_distinct(m.field, JsonModel::Object(m.settings()));
    lemma_single_distinct("match"@, single(m.field, JsonModel::Object(m.settings())));
}

/// The wire form of a filtered query names no field twice, if neither the
/// wire form of its filter nor that of its inner query does.
pub proof fn lemma_filtered_wire_distinct(filter: JsonModel, inner: Option<JsonModel>)
    requires
        filter.distinct_names(),
        fits(inner),
    ensures
        single("filtered"@, JsonModel::Object(filtered_members(filter, inner))).distinct_names(),
{
    lemma_wire_names();
    let a = optional_field("query"@, inner);
    let b = optional_field("filter"@, Some(filter));
    assert(b == seq![("filter"@, filter)]);
    lemma_names_of_optional("query"@, inner);
    lemma_names_of_optional("filter"@, Some(filter));
    lemma_sound_optional("query"@, inner);
    lemma_sound_optional("filter"@, Some(filter));
    lemma_sound_concat(a, b);
    lemma_single_distinct("filtered"@, JsonModel::Object(filtered_members(filter, inner)));
}

/// A query that matches everything is, on the wire, an empty object under
/// the name `match_all`, and nothing else.
pub proof fn lemma_match_all_wire(key: Seq<char>)
    ensures
        QueryModel::MatchAll.wire().get("match_all"@) == Some(JsonModel::Object(Seq::empty())),
        QueryModel::MatchAll.wire().has_key(key) <==> key == "match_all"@,
{
    let fields = seq![("match_all"@, JsonModel::Object(Seq::empty()))];
    lemma_has_key(fields, key);
}

/// Queries built from the same inputs have the same wire form, and whatever
/// text the one is serialized to, the other is too.
pub proof fn lemma_query_serialization_is_deterministic(
    first: Query,
    first_text: Result<String, EsError>,
    second: Query,
    second_text: Result<String, EsError>,
)
    requires
        first@ == second@,
        first_text matches Ok(text) && text@ == json_text(first@.wire()),
        second_text matches Ok(text) && text@ == json_text(second@.wire()),
    ensures
        first@.wire() == second@.wire(),
        first_text->Ok_0@ == second_text->Ok_0@,
{
}

/// Filters built from the same inputs have the same wire form, and whatever
/// text the one is serialized to, the other is too.
pub proof fn lemma_filter_serialization_is_deterministic(
    first: Filter,
    first_text: Result<String, EsError>,
    second: Filter,
    second_text: Result<String, EsError>,
)
    requires
        first@ == second@,
        first_text matches Ok(text) && text@ == json_text(first@.wire()),
        second_text matches Ok(text) && text@ == json_text(second@.wire()),
    ensures
        first@.wire() == second@.wire(),
        first_text->Ok_0@ == second_text->Ok_0@,
{
}

/// The settings of a match query always hold `query`; they hold `lenient`
/// and `operator` exactly where the modifier was set, and no other name.
pub proof fn lemma_match_settings_follow_modifiers(m: MatchModel, key: Seq<char>)
    ensures
        JsonModel::Object(m.settings()).has_key(key) <==> key == "query"@ || (m.lenient is Some && key
            == "lenient"@) || (m.operator is Some && key == "operator"@),
{
    let a = seq![("query"@, m.query)];
    let b = optional_field("lenient"@, m.lenient);
    let c = optional_field("operator"@, m.operator);
    lemma_has_key(m.settings(), key);
    lemma_names_key_concat(a + b, c, key);
    lemma_names_key_concat(a, b, key);
    lemma_names_optional_field("lenient"@, m.lenient, key);
    lemma_names_optional_field("operator"@, m.operator, key);
}

/// The bounds of a range filter hold `gte`, `gt`, `lte` and `lt` exactly
/// where the bound was set, and no other name.
pub proof fn lemma_range_bounds_follow_options(f: RangeModel, key: Seq<char>)
    ensures
        JsonModel::Object(f.bounds()).has_key(key) <==> (f.gte is Some && key == "gte"@) || (f.gt is Some
            && key == "gt"@) || (f.lte is Some && key == "lte"@) || (f.lt is Some && key == "lt"@),
{
    let a = optional_field("gte"@, f.gte);
    let b = optional_field("gt"@, f.gt);
    let c = optional_field("lte"@, f.lte);
    let d = optional_field("lt"@, f.lt);
    lemma_has_key(f.bounds(), key);
    lemma_names_key_concat(a + b + c, d, key);
    lemma_names_key_concat(a + b, c, key);
    lemma_names_key_concat(a, b, key);
    lemma_names_optional_field("gte"@, f.gte, key);
    lemma_names_optional_field("gt"@, f.gt, key);
    lemma_names_optional_field("lte"@, f.lte, key);
    lemma_names_optional_field("lt"@, f.lt, key);
}

/// The members of a filtered query always hold `filter`; they hold `query`
/// exactly where an inner query was set, and no other name.
pub proof fn lemma_filtered_members_follow_options(
    filter: JsonModel,
    inner: Option<JsonModel>,
    key: Seq<char>,
)
    ensures
        JsonModel::Object(filtered_members(filter, inner)).has_key(key) <==> key == "filter"@ || (
        inner is Some && key == "query"@),
{
    let a = optional_field("query"@, inner);
    let b = seq![("filter"@, filter)];
    lemma_has_key(filtered_members(filter, inner), key);
    lemma_names_key_concat(a, b, key);
    lemma_names_optional_field("query"@, inner, key);
    if key == "filter"@ {
        assert(b[0].0 == key);
    }
}

} // verus!
