//! What the arguments of a call must look like, and how they are read.
//!
//! The arguments of a call are one JSON object. A parameter that a tool
//! requires must be a member of it and fit the parameter's kind; one that it
//! does not require may also be missing or `null`. Members that no parameter
//! names are not looked at.

use crate::json::{items_view, lemma_array_view, Json, JsonView, Number};
use crate::params::{
    status_named, text_view, ExecutionStatus, FilterView, Id, RetrieveAllWorkflowParams,
};
use crate::request::ids_view;
use crate::text;
use crate::tool::{filter_fields, schema_of, Param, ParamKind, Tool};
use vstd::prelude::*;

verus! {

/// Whether `value` is a whole number from 0 to 255.
pub open spec fn is_count(value: JsonView) -> bool {
    value matches JsonView::Number(Number::Unsigned(n)) && n <= 255
}

/// Whether `value` names a tag: an object whose `id` is a string.
pub open spec fn is_tag(value: JsonView) -> bool {
    value.get(text::ID@) matches Some(JsonView::Text(_))
}

/// Whether `value` fits a kind that a filter may have: a string, a flag or a
/// count. Nothing fits another kind here.
pub open spec fn fits_plain(kind: ParamKind, value: JsonView) -> bool {
    match kind {
        ParamKind::Text => value is Text,
        ParamKind::Flag => value is Bool,
        ParamKind::Count => is_count(value),
        _ => false,
    }
}

/// Whether `doc` gives the field `field` of a filter as it should.
pub open spec fn grants_plain(field: Param, doc: JsonView) -> bool {
    match doc.get(field.name@) {
        None => !field.required,
        Some(value) => (!field.required && value is Null) || fits_plain(field.kind, value),
    }
}

/// Whether `doc` is a filter for listing workflows: an object that gives
/// each field of the filter as it should.
pub open spec fn is_filter(doc: JsonView) -> bool {
    &&& doc is Object
    &&& forall|i: int|
        0 <= i < filter_fields().len() ==> grants_plain(#[trigger] filter_fields()[i], doc)
}

/// Whether `value` fits `kind`.
pub open spec fn fits(kind: ParamKind, value: JsonView) -> bool {
    match kind {
        ParamKind::Text => value is Text,
        ParamKind::Flag => value is Bool,
        ParamKind::Count => is_count(value),
        ParamKind::Document => true,
        ParamKind::Status => value matches JsonView::Text(word) && status_named(word) is Some,
        ParamKind::TagIds => value matches JsonView::Array(items) && forall|i: int|
            0 <= i < items.len() ==> is_tag(#[trigger] items[i]),
        ParamKind::Filter => is_filter(value),
    }
}

/// What is wrong with an argument.
#[derive(Clone, Copy, Debug, PartialEq, Eq, Structural)]
pub enum Fault {
    /// A required parameter is not among the arguments.
    Missing,
    /// The argument does not fit the kind of the parameter.
    Mistyped,
}

/// What is wrong with the way `args` give `param`, if anything is.
pub open spec fn fault_of(param: Param, args: JsonView) -> Option<Fault> {
    match args.get(param.name@) {
        None => if param.required {
            Some(Fault::Missing)
        } else {
            None
        },
        Some(value) => if (!param.required && value is Null) || fits(param.kind, value) {
            None
        } else {
            Some(Fault::Mistyped)
        },
    }
}

/// The first parameter of `schema` that `args` do not give as they should,
/// as its place in `schema`, and what is wrong with it.
pub open spec fn first_fault(schema: Seq<Param>, args: JsonView) -> Option<(int, Fault)>
    decreases schema.len(),
{
    if schema.len() == 0 {
        None
    } else {
        match first_fault(schema.drop_last(), args) {
            Some(found) => Some(found),
            None => match fault_of(schema.last(), args) {
                Some(fault) => Some((schema.len() - 1, fault)),
                None => None,
            },
        }
    }
}

/// Whether `args` are arguments that `tool` takes.
pub open spec fn accepts(tool: Tool, args: JsonView) -> bool {
    &&& args is Object
    &&& forall|i: int|
        0 <= i < schema_of(tool).len() ==> fault_of(#[trigger] schema_of(tool)[i], args) is None
}

/// A schema has no first fault exactly when every parameter is given as it
/// should be; and a first fault stands before every other.
pub proof fn lemma_first_fault(schema: Seq<Param>, args: JsonView)
    ensures
        match first_fault(schema, args) {
            None => forall|i: int| 0 <= i < schema.len() ==> fault_of(#[trigger] schema[i], args) is None,
            Some((at, fault)) => {
                &&& 0 <= at < schema.len()
                &&& fault_of(schema[at], args) == Some(fault)
                &&& forall|i: int| 0 <= i < at ==> fault_of(#[trigger] schema[i], args) is None
            },
        },
    decreases schema.len(),
{
    if schema.len() > 0 {
        lemma_first_fault(schema.drop_last(), args);
        match first_fault(schema.drop_last(), args) {
            Some((at, fault)) => {
                assert(schema.drop_last()[at] == schema[at]);
                assert forall|i: int| 0 <= i < at implies fault_of(
                    #[trigger] schema[i],
                    args,
                ) is None by {
                    assert(schema.drop_last()[i] == schema[i]);
                }
            },
            None => {
                assert forall|i: int| 0 <= i < schema.len() - 1 implies fault_of(
                    #[trigger] schema[i],
                    args,
                ) is None by {
                    assert(schema.drop_last()[i] == schema[i]);
                }
            },
        }
    }
}

/// Tells whether `value` is a whole number from 0 to 255.
pub fn check_count(value: &Json) -> (ok: bool)
    ensures
        ok == is_count(value@),
{
    match value {
        Json::Number(Number::Unsigned(n)) => *n <= 255,
        _ => false,
    }
}

/// Tells whether `value` names a tag.
pub fn check_tag(value: &Json) -> (ok: bool)
    ensures
        ok == is_tag(value@),
{
    match value.get(text::ID) {
        Some(Json::Text(_)) => true,
        _ => false,
    }
}

/// Tells whether `value` fits a kind that a filter may have.
pub fn check_plain(kind: ParamKind, value: &Json) -> (ok: bool)
    ensures
        ok == fits_plain(kind, value@),
{
    match kind {
        ParamKind::Text => match value {
            Json::Text(_) => true,
            _ => false,
        },
        ParamKind::Flag => match value {
            Json::Bool(_) => true,
            _ => false,
        },
        ParamKind::Count => check_count(value),
        _ => false,
    }
}

/// Tells whether `doc` is a filter for listing workflows.
pub fn check_filter(doc: &Json) -> (ok: bool)
    ensures
        ok == is_filter(doc@),
{
    match doc {
        Json::Object(_) => {},
        _ => {
            return false;
        },
    }
    let fields = Tool::filter_params();
    let mut i: usize = 0;
    while i < fields.len()
        invariant
            i <= fields.len(),
            fields@ == filter_fields(),
            doc@ is Object,
            forall|j: int| 0 <= j < i ==> grants_plain(#[trigger] filter_fields()[j], doc@),
        decreases fields.len() - i,
    {
        let field = fields[i];
        let granted = match doc.get(field.name) {
            None => !field.required,
            Some(value) => {
                let null = match value {
                    Json::Null => true,
                    _ => false,
                };
                (!field.required && null) || check_plain(field.kind, value)
            },
        };
        if !granted {
            assert(!grants_plain(filter_fields()[i as int], doc@));
            return false;
        }
        i = i + 1;
    }
    true
}

/// Tells whether `value` fits `kind`.
pub fn check(kind: ParamKind, value: &Json) -> (ok: bool)
    ensures
        ok == fits(kind, value@),
{
    match kind {
        ParamKind::Text => match value {
            Json::Text(_) => true,
            _ => false,
        },
        ParamKind::Flag => match value {
            Json::Bool(_) => true,
            _ => false,
        },
        ParamKind::Count => check_count(value),
        ParamKind::Document => true,
        ParamKind::Status => match value {
            Json::Text(word) => ExecutionStatus::from_wire(word.as_str()).is_some(),
            _ => false,
        },
        ParamKind::TagIds => match value {
            Json::Array(items) => {
                proof {
                    lemma_array_view(*items);
                }
                let mut i: usize = 0;
                while i < items.len()
                    invariant
                        i <= items.len(),
                        kind is TagIds,
                        value@ == JsonView::Array(items_view(items@)),
                        forall|j: int| 0 <= j < i ==> is_tag(#[trigger] items[j]@),
                    decreases items.len() - i,
                {
                    if !check_tag(&items[i]) {
                        assert(!is_tag(value@->Array_0[i as int]));
                        return false;
                    }
                    i = i + 1;
                }
                assert forall|j: int| 0 <= j < value@->Array_0.len() implies is_tag(
                    #[trigger] value@->Array_0[j],
                ) by {
                    assert(is_tag(items[j]@));
                }
                true
            },
            _ => false,
        },
        ParamKind::Filter => check_filter(value),
    }
}

/// Finds the first parameter of `schema` that `args` do not give as they
/// should.
pub fn find_fault(schema: &Vec<Param>, args: &Json) -> (found: Option<(usize, Fault)>)
    ensures
        match found {
            Some((at, fault)) => first_fault(schema@, args@) == Some((at as int, fault)),
            None => first_fault(schema@, args@) is None,
        },
{
    let mut i: usize = 0;
    while i < schema.len()
        invariant
            i <= schema.len(),
            first_fault(schema@.subrange(0, i as int), args@) is None,
        decreases schema.len() - i,
    {
        let param = schema[i];
        let fault = match args.get(param.name) {
            None => if param.required {
                Some(Fault::Missing)
            } else {
                None
            },
            Some(value) => {
                let null = match value {
                    Json::Null => true,
                    _ => false,
                };
                if (!param.required && null) || check(param.kind, value) {
                    None
                } else {
                    Some(Fault::Mistyped)
                }
            },
        };
        assert(fault == fault_of(schema@[i as int], args@));
        proof {
            let upto = schema@.subrange(0, i + 1);
            assert(upto.drop_last() =~= schema@.subrange(0, i as int));
            assert(upto.last() == schema@[i as int]);
        }
        match fault {
            Some(fault) => {
                proof {
                    lemma_fault_stays(schema@, args@, i + 1);
                }
                return Some((i, fault));
            },
            None => {},
        }
        i = i + 1;
    }
    assert(schema@.subrange(0, i as int) =~= schema@);
    None
}

/// A fault among the first parameters of a schema is the first fault of
/// the whole schema.
proof fn lemma_fault_stays(schema: Seq<Param>, args: JsonView, upto: int)
    requires
        0 <= upto <= schema.len(),
        first_fault(schema.subrange(0, upto), args) is Some,
    ensures
        first_fault(schema, args) == first_fault(schema.subrange(0, upto), args),
    decreases schema.len() - upto,
{
    if upto < schema.len() {
        assert(schema.drop_last().subrange(0, upto) =~= schema.subrange(0, upto));
        lemma_fault_stays(schema.drop_last(), args, upto);
    } else {
        assert(schema.subrange(0, upto) =~= schema);
    }
}

/// The string that `args` give for `key`.
pub open spec fn text_of(args: JsonView, key: Seq<char>) -> Seq<char> {
    args.get(key)->Some_0->Text_0
}

/// The flag that `args` give for `key`.
pub open spec fn flag_of(args: JsonView, key: Seq<char>) -> bool {
    args.get(key)->Some_0->Bool_0
}

/// The document that `args` give for `key`.
pub open spec fn document_of(args: JsonView, key: Seq<char>) -> JsonView {
    args.get(key)->Some_0
}

/// The status that `args` give for `key`.
pub open spec fn status_of(args: JsonView, key: Seq<char>) -> ExecutionStatus {
    status_named(text_of(args, key))->Some_0
}

/// The tags that `args` give for `key`, each by its name.
pub open spec fn tag_ids_of(args: JsonView, key: Seq<char>) -> Seq<Seq<char>> {
    let items = args.get(key)->Some_0->Array_0;
    Seq::new(items.len(), |i: int| text_of(items[i], text::ID@))
}

/// The string that `args` give for `key`, where they give one.
pub open spec fn optional_text_of(args: JsonView, key: Seq<char>) -> Option<Seq<char>> {
    match args.get(key) {
        Some(JsonView::Text(text)) => Some(text),
        _ => None,
    }
}

/// The flag that `args` give for `key`, where they give one.
pub open spec fn optional_flag_of(args: JsonView, key: Seq<char>) -> Option<bool> {
    match args.get(key) {
        Some(JsonView::Bool(flag)) => Some(flag),
        _ => None,
    }
}

/// The count that `args` give for `key`, where they give one.
pub open spec fn optional_count_of(args: JsonView, key: Seq<char>) -> Option<u8> {
    match args.get(key) {
        Some(value) => if is_count(value) {
            Some(value->Number_0->Unsigned_0 as u8)
        } else {
            None
        },
        None => None,
    }
}

/// The document that `args` give for `key`, where they give one: a member
/// that is `null` gives none.
pub open spec fn optional_document_of(args: JsonView, key: Seq<char>) -> Option<JsonView> {
    match args.get(key) {
        None => None,
        Some(JsonView::Null) => None,
        Some(value) => Some(value),
    }
}

/// The filters that `doc` sets.
pub open spec fn filter_of(doc: JsonView) -> FilterView {
    FilterView {
        active: optional_flag_of(doc, text::ACTIVE@),
        tags: optional_text_of(doc, text::TAGS@),
        name: optional_text_of(doc, text::NAME@),
        project_id: optional_text_of(doc, text::PROJECT_ID@),
        exclude_pinned_data: optional_text_of(doc, text::EXCLUDE_PINNED_DATA@),
        limit: optional_count_of(doc, text::LIMIT@),
        cursor: optional_text_of(doc, text::CURSOR@),
    }
}

/// Reads the string that `args` give for `key`, where they give one.
pub fn read_text(args: &Json, key: &str) -> (text: Option<String>)
    ensures
        text_view(text) == optional_text_of(args@, key@),
{
    match args.get(key) {
        Some(Json::Text(text)) => Some(text.clone()),
        _ => None,
    }
}

/// Reads the flag that `args` give for `key`, where they give one.
pub fn read_flag(args: &Json, key: &str) -> (flag: Option<bool>)
    ensures
        flag == optional_flag_of(args@, key@),
{
    match args.get(key) {
        Some(Json::Bool(flag)) => Some(*flag),
        _ => None,
    }
}

/// Reads the count that `args` give for `key`, where they give one.
pub fn read_count(args: &Json, key: &str) -> (count: Option<u8>)
    ensures
        count == optional_count_of(args@, key@),
{
    match args.get(key) {
        Some(Json::Number(Number::Unsigned(n))) => if *n <= 255 {
            Some(*n as u8)
        } else {
            None
        },
        _ => None,
    }
}

/// Reads the document that `args` give for `key`, where they give one.
pub fn read_document(args: &Json, key: &str) -> (doc: Option<Json>)
    ensures
        match doc {
            Some(doc) => optional_document_of(args@, key@) == Some(doc@),
            None => optional_document_of(args@, key@) is None,
        },
{
    match args.get(key) {
        None => None,
        Some(Json::Null) => None,
        Some(value) => Some(value.clone()),
    }
}

/// Reads the filters that `doc` sets.
pub fn read_filter(doc: &Json) -> (filter: RetrieveAllWorkflowParams)
    ensures
        filter@ == filter_of(doc@),
{
    RetrieveAllWorkflowParams {
        active: read_flag(doc, text::ACTIVE),
        tags: read_text(doc, text::TAGS),
        name: read_text(doc, text::NAME),
        project_id: read_text(doc, text::PROJECT_ID),
        exclude_pinned_data: read_text(doc, text::EXCLUDE_PINNED_DATA),
        limit: read_count(doc, text::LIMIT),
        cursor: read_text(doc, text::CURSOR),
    }
}

/// Takes the string that `args` give for `key`.
pub(crate) fn need_text(args: &Json, key: &str) -> (text: String)
    requires
        args@.get(key@) matches Some(JsonView::Text(_)),
    ensures
        text@ == text_of(args@, key@),
{
    match args.get(key) {
        Some(Json::Text(text)) => text.clone(),
        _ => vstd::pervasive::unreached(),
    }
}

/// Takes the flag that `args` give for `key`.
pub(crate) fn need_flag(args: &Json, key: &str) -> (flag: bool)
    requires
        args@.get(key@) matches Some(JsonView::Bool(_)),
    ensures
        flag == flag_of(args@, key@),
{
    match args.get(key) {
        Some(Json::Bool(flag)) => *flag,
        _ => vstd::pervasive::unreached(),
    }
}

/// Takes the document that `args` give for `key`.
pub(crate) fn need_document(args: &Json, key: &str) -> (doc: Json)
    requires
        args@.get(key@) is Some,
    ensures
        doc@ == document_of(args@, key@),
{
    match args.get(key) {
        Some(value) => value.clone(),
        None => vstd::pervasive::unreached(),
    }
}

/// Takes the status that `args` give for `key`.
pub(crate) fn need_status(args: &Json, key: &str) -> (status: ExecutionStatus)
    requires
        args@.get(key@) matches Some(JsonView::Text(word)) && status_named(word) is Some,
    ensures
        status == status_of(args@, key@),
{
    match args.get(key) {
        Some(Json::Text(word)) => match ExecutionStatus::from_wire(word.as_str()) {
            Some(status) => status,
            None => vstd::pervasive::unreached(),
        },
        _ => vstd::pervasive::unreached(),
    }
}

/// Takes the tags that `args` give for `key`.
pub(crate) fn need_tag_ids(args: &Json, key: &str) -> (tags: Vec<Id>)
    requires
        args@.get(key@) matches Some(value) && fits(ParamKind::TagIds, value),
    ensures
        ids_view(tags@) == tag_ids_of(args@, key@),
{
    match args.get(key) {
        Some(Json::Array(items)) => {
            proof {
                lemma_array_view(*items);
            }
            let ghost shown = items_view(items@);
            assert(args@.get(key@) == Some(JsonView::Array(shown)));
            assert forall|j: int| 0 <= j < shown.len() implies is_tag(#[trigger] shown[j]) by {
                assert(fits(ParamKind::TagIds, JsonView::Array(shown)));
                assert(is_tag(JsonView::Array(shown)->Array_0[j]));
            }
            let mut tags: Vec<Id> = Vec::new();
            let mut i: usize = 0;
            while i < items.len()
                invariant
                    i <= items.len(),
                    tags.len() == i,
                    shown == items_view(items@),
                    forall|j: int| 0 <= j < shown.len() ==> is_tag(#[trigger] shown[j]),
                    forall|j: int| 0 <= j < i ==> (#[trigger] tags[j])@ == text_of(shown[j], text::ID@),
                decreases items.len() - i,
            {
                assert(is_tag(shown[i as int]));
                tags.push(Id { id: need_text(&items[i], text::ID) });
                i = i + 1;
            }
            assert(ids_view(tags@) =~= tag_ids_of(args@, key@));
            tags
        },
        _ => vstd::pervasive::unreached(),
    }
}

} // verus!
