//! The parameters of a tool written as a JSON schema, for a host that lists
//! the tools to its callers.

use crate::json::{items_view, members_view, put, Json, JsonView, Number};
use crate::text;
use crate::tool::{filter_fields, schema_of, Param, ParamKind, Tool};
use vstd::prelude::*;

verus! {

/// The names of the parameters of `params` that are required, in order.
pub open spec fn required_names(params: Seq<Param>) -> Seq<JsonView>
    decreases params.len(),
{
    if params.len() == 0 {
        Seq::empty()
    } else if params.last().required {
        required_names(params.drop_last()).push(JsonView::Text(params.last().name@))
    } else {
        required_names(params.drop_last())
    }
}

/// The schema of the object that names a tag.
pub open spec fn tag_schema() -> JsonView {
    JsonView::Object(
        seq![
            (text::TYPE@, JsonView::Text(text::OBJECT@)),
            (
                text::PROPERTIES@,
                JsonView::Object(
                    seq![
                        (
                            text::ID@,
                            JsonView::Object(seq![(text::TYPE@, JsonView::Text(text::STRING@))]),
                        ),
                    ],
                ),
            ),
            (text::REQUIRED@, JsonView::Array(seq![JsonView::Text(text::ID@)])),
        ],
    )
}

/// The statuses an execution may be asked by.
pub open spec fn status_words() -> JsonView {
    JsonView::Array(
        seq![
            JsonView::Text(text::ERROR@),
            JsonView::Text(text::SUCCESS@),
            JsonView::Text(text::WAITING@),
        ],
    )
}

/// What the schema says of a value of `kind`. Within a filter (`nested`),
/// nothing is said of a further filter.
pub open spec fn shape_of(kind: ParamKind, nested: bool) -> Seq<(Seq<char>, JsonView)>
    decreases
            (if nested {
                0nat
            } else {
                1nat
            }),
            0nat,
{
    match kind {
        ParamKind::Text => seq![(text::TYPE@, JsonView::Text(text::STRING@))],
        ParamKind::Flag => seq![(text::TYPE@, JsonView::Text(text::BOOLEAN@))],
        ParamKind::Count => seq![
            (text::TYPE@, JsonView::Text(text::INTEGER@)),
            (text::MINIMUM@, JsonView::Number(Number::Unsigned(0))),
            (text::MAXIMUM@, JsonView::Number(Number::Unsigned(255))),
        ],
        ParamKind::Document => Seq::empty(),
        ParamKind::Status => seq![
            (text::TYPE@, JsonView::Text(text::STRING@)),
            (text::ENUM@, status_words()),
        ],
        ParamKind::TagIds => seq![
            (text::TYPE@, JsonView::Text(text::ARRAY@)),
            (text::ITEMS@, tag_schema()),
        ],
        ParamKind::Filter => if nested {
            Seq::empty()
        } else {
            object_shape(filter_fields(), true)
        },
    }
}

/// What the schema says of one parameter: its description, then the shape
/// of its kind.
pub open spec fn property_of(param: Param, nested: bool) -> JsonView
    decreases
            (if nested {
                0nat
            } else {
                1nat
            }),
            1nat,
{
    JsonView::Object(
        seq![(text::DESCRIPTION@, JsonView::Text(param.about@))] + shape_of(param.kind, nested),
    )
}

/// What the schema says of an object with the parameters `params`: that it
/// is an object, what each parameter is, and which of them are required.
pub open spec fn object_shape(params: Seq<Param>, nested: bool) -> Seq<(Seq<char>, JsonView)>
    decreases
            (if nested {
                0nat
            } else {
                1nat
            }),
            2nat,
{
    seq![
        (text::TYPE@, JsonView::Text(text::OBJECT@)),
        (
            text::PROPERTIES@,
            JsonView::Object(
                Seq::new(params.len(), |i: int| (params[i].name@, property_of(params[i], nested))),
            ),
        ),
        (text::REQUIRED@, JsonView::Array(required_names(params))),
    ]
}

/// The schema of the arguments that `tool` takes.
pub open spec fn input_schema_of(tool: Tool) -> JsonView {
    JsonView::Object(object_shape(schema_of(tool), false))
}

/// Writes the schema of the object that names a tag.
fn tag_schema_document() -> (doc: Json)
    ensures
        doc@ == tag_schema(),
{
    let mut of_id: Vec<(String, Json)> = Vec::new();
    put(&mut of_id, text::TYPE, Json::text(text::STRING));
    assert(members_view(of_id@) =~= seq![(text::TYPE@, JsonView::Text(text::STRING@))]);
    let mut properties: Vec<(String, Json)> = Vec::new();
    put(&mut properties, text::ID, Json::object(of_id));
    assert(members_view(properties@) =~= seq![
        (text::ID@, JsonView::Object(seq![(text::TYPE@, JsonView::Text(text::STRING@))])),
    ]);
    let mut required: Vec<Json> = Vec::new();
    required.push(Json::text(text::ID));
    assert(items_view(required@) =~= seq![JsonView::Text(text::ID@)]);
    let mut members: Vec<(String, Json)> = Vec::new();
    put(&mut members, text::TYPE, Json::text(text::OBJECT));
    put(&mut members, text::PROPERTIES, Json::object(properties));
    put(&mut members, text::REQUIRED, Json::array(required));
    assert(members_view(members@) =~= tag_schema()->Object_0);
    Json::object(members)
}

/// Writes the statuses an execution may be asked by.
fn status_words_document() -> (doc: Json)
    ensures
        doc@ == status_words(),
{
    let mut words: Vec<Json> = Vec::new();
    words.push(Json::text(text::ERROR));
    words.push(Json::text(text::SUCCESS));
    words.push(Json::text(text::WAITING));
    assert(items_view(words@) =~= status_words()->Array_0);
    Json::array(words)
}

/// Writes what the schema says of a value of `kind`.
fn shape(kind: ParamKind, nested: bool) -> (members: Vec<(String, Json)>)
    ensures
        members_view(members@) == shape_of(kind, nested),
    decreases
            (if nested {
                0nat
            } else {
                1nat
            }),
            0nat,
{
    let mut members: Vec<(String, Json)> = Vec::new();
    assert(members_view(members@) =~= Seq::empty());
    match kind {
        ParamKind::Text => {
            put(&mut members, text::TYPE, Json::text(text::STRING));
        },
        ParamKind::Flag => {
            put(&mut members, text::TYPE, Json::text(text::BOOLEAN));
        },
        ParamKind::Count => {
            put(&mut members, text::TYPE, Json::text(text::INTEGER));
            put(&mut members, text::MINIMUM, Json::count(0));
            put(&mut members, text::MAXIMUM, Json::count(255));
        },
        ParamKind::Document => {},
        ParamKind::Status => {
            put(&mut members, text::TYPE, Json::text(text::STRING));
            put(&mut members, text::ENUM, status_words_document());
        },
        ParamKind::TagIds => {
            put(&mut members, text::TYPE, Json::text(text::ARRAY));
            put(&mut members, text::ITEMS, tag_schema_document());
        },
        ParamKind::Filter => {
            if !nested {
                return object_members(&Tool::filter_params(), true);
            }
        },
    }
    assert(members_view(members@) =~= shape_of(kind, nested));
    members
}

/// Writes what the schema says of an object with the parameters `params`.
fn object_members(params: &Vec<Param>, nested: bool) -> (members: Vec<(String, Json)>)
    ensures
        members_view(members@) == object_shape(params@, nested),
    decreases
            (if nested {
                0nat
            } else {
                1nat
            }),
            2nat,
{
    let mut properties: Vec<(String, Json)> = Vec::new();
    let mut required: Vec<Json> = Vec::new();
    let mut i: usize = 0;
    assert(params@.subrange(0, 0) =~= Seq::empty());
    while i < params.len()
        invariant
            i <= params.len(),
            members_view(properties@).len() == i,
            forall|j: int|
                0 <= j < i ==> (#[trigger] members_view(properties@)[j]) == (
                    params[j].name@,
                    property_of(params[j], nested),
                ),
            items_view(required@) == required_names(params@.subrange(0, i as int)),
        decreases params.len() - i,
    {
        let param = params[i];
        let mut property: Vec<(String, Json)> = Vec::new();
        assert(members_view(property@) =~= Seq::empty());
        put(&mut property, text::DESCRIPTION, Json::text(param.about));
        let mut rest = shape(param.kind, nested);
        let ghost first = members_view(property@);
        let ghost second = members_view(rest@);
        property.append(&mut rest);
        assert(members_view(property@) =~= first + second);
        let ghost before = members_view(properties@);
        put(&mut properties, param.name, Json::object(property));
        proof {
            let upto = params@.subrange(0, i + 1);
            assert(upto.drop_last() =~= params@.subrange(0, i as int));
            assert(upto.last() == params@[i as int]);
            assert forall|j: int| 0 <= j < i + 1 implies (#[trigger] members_view(properties@)[j])
                == (params[j].name@, property_of(params[j], nested)) by {
                if j < i {
                    assert(members_view(properties@)[j] == before[j]);
                }
            }
        }
        if param.required {
            let ghost listed = items_view(required@);
            required.push(Json::text(param.name));
            assert(items_view(required@) =~= listed.push(JsonView::Text(param.name@)));
        }
        i = i + 1;
    }
    assert(params@.subrange(0, i as int) =~= params@);
    let mut members: Vec<(String, Json)> = Vec::new();
    assert(members_view(members@) =~= Seq::empty());
    assert(members_view(properties@) =~= object_shape(params@, nested)[1].1->Object_0);
    put(&mut members, text::TYPE, Json::text(text::OBJECT));
    put(&mut members, text::PROPERTIES, Json::object(properties));
    put(&mut members, text::REQUIRED, Json::array(required));
    assert(members_view(members@) =~= object_shape(params@, nested));
    members
}

impl Tool {
    /// Writes the schema of the arguments that the tool takes.
    pub fn input_schema(self) -> (doc: Json)
        ensures
            doc@ == input_schema_of(self),
    {
        Json::object(object_members(&self.params(), false))
    }
}

} // verus!
