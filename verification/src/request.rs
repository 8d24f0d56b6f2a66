//! The one request that a tool call asks the host to send.

use crate::json::{member, members_view, Json, JsonView};
use crate::params::{
    count_json, default_settings, id_json, lemma_member_before, optional, text_json,
    ExecutionStatus, Id,
};
use crate::text;
use vstd::prelude::*;

verus! {

/// The verb of an HTTP request.
#[derive(Clone, Copy, Debug, PartialEq, Eq, Structural)]
pub enum Verb {
    Get,
    Post,
    Put,
    Delete,
}

/// A request to the remote service. The host sends it as it stands: `query`
/// is appended to `url` as its query string, and `body`, where there is one,
/// is sent as JSON.
#[derive(Debug, PartialEq, Eq)]
pub struct Request {
    pub verb: Verb,
    pub url: String,
    pub query: Vec<(String, Json)>,
    pub body: Option<Json>,
}

/// The mathematical value of a [`Request`].
pub struct RequestView {
    pub verb: Verb,
    pub url: Seq<char>,
    pub query: Seq<(Seq<char>, JsonView)>,
    pub body: Option<JsonView>,
}

impl View for Request {
    type V = RequestView;

    open spec fn view(&self) -> RequestView {
        RequestView {
            verb: self.verb,
            url: self.url@,
            query: members_view(self.query@),
            body: match self.body {
                Some(body) => Some(body@),
                None => None,
            },
        }
    }
}

/// The body that creates or replaces a workflow: its name, nodes and
/// connections, the default settings, and the word `null` for static data.
pub open spec fn workflow_body(name: Seq<char>, nodes: JsonView, connections: JsonView) -> JsonView {
    JsonView::Object(
        seq![
            (text::NAME@, JsonView::Text(name)),
            (text::NODES@, nodes),
            (text::CONNECTIONS@, connections),
            (text::KEY_SETTINGS@, default_settings().json()),
            (text::KEY_STATIC_DATA@, JsonView::Text(text::NULL_WORD@)),
        ],
    )
}

/// The body that creates or renames a tag: its name.
pub open spec fn tag_body(name: Seq<char>) -> JsonView {
    JsonView::Object(seq![(text::NAME@, JsonView::Text(name))])
}

/// The names of a list of tags.
pub open spec fn ids_view(tags: Seq<Id>) -> Seq<Seq<char>> {
    Seq::new(tags.len(), |i: int| tags[i]@)
}

/// The body that assigns tags to a workflow: an array with one object for
/// each tag, in the order given.
pub open spec fn tags_body(ids: Seq<Seq<char>>) -> JsonView {
    JsonView::Array(Seq::new(ids.len(), |i: int| id_json(ids[i])))
}

/// The query that lists executions. Its members are in the order of their
/// keys; the cursor, the limit and the two filters are sent only where they
/// are given.
pub open spec fn executions_query(
    include_data: bool,
    status: ExecutionStatus,
    workflow_id: Option<Seq<char>>,
    project_id: Option<Seq<char>>,
    limit: Option<u8>,
    cursor: Option<Seq<char>>,
) -> Seq<(Seq<char>, JsonView)> {
    optional(text::CURSOR@, text_json(cursor)) + seq![
        (text::KEY_INCLUDE_DATA@, JsonView::Bool(include_data)),
    ] + optional(text::LIMIT@, count_json(limit)) + optional(
        text::KEY_PROJECT_ID@,
        text_json(project_id),
    ) + seq![(text::STATUS@, JsonView::Text(status.wire()))] + optional(
        text::KEY_WORKFLOW_ID@,
        text_json(workflow_id),
    )
}

/// The query that lists tags: the cursor and the limit, each where it is
/// given.
pub open spec fn tags_query(cursor: Option<Seq<char>>, limit: Option<u8>) -> Seq<
    (Seq<char>, JsonView),
> {
    optional(text::CURSOR@, text_json(cursor)) + optional(text::LIMIT@, count_json(limit))
}

/// A setting that may be missing is found under its key exactly where it
/// is given.
proof fn lemma_member_of_optional(key: Seq<char>, value: Option<JsonView>)
    ensures
        member(optional(key, value), key) == value,
{
    match value {
        Some(value) => {
            assert(optional(key, Some(value)).last() == (key, value));
        },
        None => {},
    }
}

/// Listing executions sends the cursor and the limit it is given under the
/// names `cursor` and `limit`, and sends nothing under a name where it is
/// given nothing.
pub proof fn lemma_executions_paging(
    include_data: bool,
    status: ExecutionStatus,
    workflow_id: Option<Seq<char>>,
    project_id: Option<Seq<char>>,
    limit: Option<u8>,
    cursor: Option<Seq<char>>,
)
    ensures
        ({
            let query = executions_query(
                include_data,
                status,
                workflow_id,
                project_id,
                limit,
                cursor,
            );
            &&& member(query, text::CURSOR@) == text_json(cursor)
            &&& member(query, text::LIMIT@) == count_json(limit)
        }),
{
    reveal_strlit("cursor");
    reveal_strlit("includeData");
    reveal_strlit("limit");
    reveal_strlit("projectId");
    reveal_strlit("status");
    reveal_strlit("workflowId");
    assert(text::STATUS@[0] != text::CURSOR@[0]);
    assert(text::LIMIT@.len() == 5);
    assert(text::CURSOR@.len() == 6);
    assert(text::STATUS@.len() == 6);
    assert(text::KEY_INCLUDE_DATA@.len() == 11);
    assert(text::KEY_PROJECT_ID@.len() == 9);
    assert(text::KEY_WORKFLOW_ID@.len() == 10);
    let first = optional(text::CURSOR@, text_json(cursor));
    let data = seq![(text::KEY_INCLUDE_DATA@, JsonView::Bool(include_data))];
    let paged = optional(text::LIMIT@, count_json(limit));
    let rest = optional(text::KEY_PROJECT_ID@, text_json(project_id)) + seq![
        (text::STATUS@, JsonView::Text(status.wire())),
    ] + optional(text::KEY_WORKFLOW_ID@, text_json(workflow_id));
    let query = executions_query(include_data, status, workflow_id, project_id, limit, cursor);
    assert(query =~= first + (data + paged + rest));
    assert(query =~= first + data + paged + rest);
    lemma_member_before(first, data + paged + rest, text::CURSOR@);
    lemma_member_of_optional(text::CURSOR@, text_json(cursor));
    lemma_member_before(first + data + paged, rest, text::LIMIT@);
    match limit {
        Some(_) => {
            assert((first + data + paged).last() == paged[0]);
        },
        None => {
            assert(first + data + paged =~= first + data);
            lemma_member_before(Seq::empty(), first + data, text::LIMIT@);
            assert(Seq::<(Seq<char>, JsonView)>::empty() + (first + data) =~= first + data);
        },
    }
}

/// Listing tags sends the cursor and the limit it is given under the names
/// `cursor` and `limit`, and sends nothing under a name where it is given
/// nothing.
pub proof fn lemma_tags_paging(cursor: Option<Seq<char>>, limit: Option<u8>)
    ensures
        member(tags_query(cursor, limit), text::CURSOR@) == text_json(cursor),
        member(tags_query(cursor, limit), text::LIMIT@) == count_json(limit),
{
    reveal_strlit("cursor");
    reveal_strlit("limit");
    assert(text::LIMIT@.len() == 5);
    assert(text::CURSOR@.len() == 6);
    let first = optional(text::CURSOR@, text_json(cursor));
    let paged = optional(text::LIMIT@, count_json(limit));
    lemma_member_before(first, paged, text::CURSOR@);
    lemma_member_of_optional(text::CURSOR@, text_json(cursor));
    match limit {
        Some(_) => {
            assert((first + paged).last() == paged[0]);
        },
        None => {
            assert(first + paged =~= first);
            lemma_member_before(Seq::empty(), first, text::LIMIT@);
            assert(Seq::<(Seq<char>, JsonView)>::empty() + first =~= first);
        },
    }
}

/// Whether `value` can be written into a query string as it is: a string, a
/// flag or a number.
pub open spec fn is_plain(value: JsonView) -> bool {
    value is Text || value is Bool || value is Number
}

/// Whether every member of `query` can be written into a query string.
pub open spec fn plain_query(query: Seq<(Seq<char>, JsonView)>) -> bool {
    forall|i: int| 0 <= i < query.len() ==> is_plain((#[trigger] query[i]).1)
}

/// Two queries that can be written can be written one after the other.
pub proof fn lemma_plain_joined(first: Seq<(Seq<char>, JsonView)>, second: Seq<(Seq<char>, JsonView)>)
    requires
        plain_query(first),
        plain_query(second),
    ensures
        plain_query(first + second),
{
    assert forall|i: int| 0 <= i < (first + second).len() implies is_plain(
        (#[trigger] (first + second)[i]).1,
    ) by {
        if i < first.len() {
            assert((first + second)[i] == first[i]);
        } else {
            assert((first + second)[i] == second[i - first.len()]);
        }
    }
}

} // verus!
