//! The typed parameters of the tools, and how each is written on the wire.

use crate::json::{member, members_view, put, Json, JsonView, Number};
use crate::text;
use vstd::prelude::*;

verus! {

/// Which executions keep their data: all of them, or none.
#[derive(Clone, Copy, Debug, PartialEq, Eq, Structural)]
pub enum AllOrNone {
    All,
    Nothing,
}

impl AllOrNone {
    /// The word that stands for the choice on the wire.
    pub open spec fn wire(self) -> Seq<char> {
        match self {
            AllOrNone::All => text::ALL@,
            AllOrNone::Nothing => text::NONE@,
        }
    }

    /// The word that stands for the choice on the wire: `all` or `none`.
    pub fn as_str(self) -> (word: &'static str)
        ensures
            word@ == self.wire(),
    {
        match self {
            AllOrNone::All => text::ALL,
            AllOrNone::Nothing => text::NONE,
        }
    }

    /// The choice as it is shown: `all` or `none`.
    pub fn to_string(&self) -> (word: String)
        ensures
            word@ == self.wire(),
    {
        self.as_str().to_string()
    }
}

impl Default for AllOrNone {
    fn default() -> (choice: Self)
        ensures
            choice == AllOrNone::All,
    {
        AllOrNone::All
    }
}

/// How an execution ended, or that it has not ended yet.
#[derive(Clone, Copy, Debug, PartialEq, Eq, Structural)]
pub enum ExecutionStatus {
    Error,
    Success,
    Waiting,
}

/// The status that `word` stands for on the wire, if it stands for one.
pub open spec fn status_named(word: Seq<char>) -> Option<ExecutionStatus> {
    if word == text::ERROR@ {
        Some(ExecutionStatus::Error)
    } else if word == text::SUCCESS@ {
        Some(ExecutionStatus::Success)
    } else if word == text::WAITING@ {
        Some(ExecutionStatus::Waiting)
    } else {
        None
    }
}

impl ExecutionStatus {
    /// The word that stands for the status on the wire.
    pub open spec fn wire(self) -> Seq<char> {
        match self {
            ExecutionStatus::Error => text::ERROR@,
            ExecutionStatus::Success => text::SUCCESS@,
            ExecutionStatus::Waiting => text::WAITING@,
        }
    }

    /// The word that stands for the status on the wire: `error`, `success`
    /// or `waiting`.
    pub fn as_str(self) -> (word: &'static str)
        ensures
            word@ == self.wire(),
    {
        match self {
            ExecutionStatus::Error => text::ERROR,
            ExecutionStatus::Success => text::SUCCESS,
            ExecutionStatus::Waiting => text::WAITING,
        }
    }

    /// Reads a status from its word on the wire.
    pub fn from_wire(word: &str) -> (status: Option<ExecutionStatus>)
        ensures
            status == status_named(word@),
    {
        let word = word.to_string();
        if word == text::ERROR.to_string() {
            Some(ExecutionStatus::Error)
        } else if word == text::SUCCESS.to_string() {
            Some(ExecutionStatus::Success)
        } else if word == text::WAITING.to_string() {
            Some(ExecutionStatus::Waiting)
        } else {
            None
        }
    }
}

/// Every status is read back from its own word.
pub proof fn lemma_status_round_trip(status: ExecutionStatus)
    ensures
        status_named(status.wire()) == Some(status),
{
    reveal_strlit("error");
    reveal_strlit("success");
    reveal_strlit("waiting");
    assert(text::ERROR@.len() == 5);
    assert(text::SUCCESS@[0] == 's');
    assert(text::WAITING@[0] == 'w');
}

/// The settings a workflow is created with.
#[derive(Clone, Copy, Debug, PartialEq, Eq, Structural)]
pub struct WorkflowSettings {
    pub save_execution_progress: bool,
    pub save_manual_executions: bool,
    pub save_data_error_execution: AllOrNone,
    pub save_data_success_execution: AllOrNone,
    pub execution_timeout: u16,
}

impl WorkflowSettings {
    /// The settings as the remote service reads them.
    pub open spec fn json(self) -> JsonView {
        JsonView::Object(
            seq![
                (text::KEY_SAVE_EXECUTION_PROGRESS@, JsonView::Bool(self.save_execution_progress)),
                (text::KEY_SAVE_MANUAL_EXECUTIONS@, JsonView::Bool(self.save_manual_executions)),
                (
                    text::KEY_SAVE_DATA_ERROR_EXECUTION@,
                    JsonView::Text(self.save_data_error_execution.wire()),
                ),
                (
                    text::KEY_SAVE_DATA_SUCCESS_EXECUTION@,
                    JsonView::Text(self.save_data_success_execution.wire()),
                ),
                (
                    text::KEY_EXECUTION_TIMEOUT@,
                    JsonView::Number(Number::Unsigned(self.execution_timeout as u64)),
                ),
            ],
        )
    }

    /// Writes the settings as the remote service reads them.
    pub fn to_json(&self) -> (doc: Json)
        ensures
            doc@ == self.json(),
    {
        let mut members: Vec<(String, Json)> = Vec::new();
        put(&mut members, text::KEY_SAVE_EXECUTION_PROGRESS, Json::Bool(self.save_execution_progress));
        put(&mut members, text::KEY_SAVE_MANUAL_EXECUTIONS, Json::Bool(self.save_manual_executions));
        put(
            &mut members,
            text::KEY_SAVE_DATA_ERROR_EXECUTION,
            Json::text(self.save_data_error_execution.as_str()),
        );
        put(
            &mut members,
            text::KEY_SAVE_DATA_SUCCESS_EXECUTION,
            Json::text(self.save_data_success_execution.as_str()),
        );
        put(
            &mut members,
            text::KEY_EXECUTION_TIMEOUT,
            Json::Number(Number::Unsigned(self.execution_timeout as u64)),
        );
        assert(members_view(members@) =~= self.json()->Object_0);
        Json::object(members)
    }
}

impl Default for WorkflowSettings {
    fn default() -> (settings: Self)
        ensures
            settings == (WorkflowSettings {
                save_execution_progress: false,
                save_manual_executions: false,
                save_data_error_execution: AllOrNone::All,
                save_data_success_execution: AllOrNone::All,
                execution_timeout: 0,
            }),
    {
        WorkflowSettings {
            save_execution_progress: false,
            save_manual_executions: false,
            save_data_error_execution: AllOrNone::All,
            save_data_success_execution: AllOrNone::All,
            execution_timeout: 0,
        }
    }
}

/// The settings every workflow is created and updated with.
pub open spec fn default_settings() -> WorkflowSettings {
    WorkflowSettings {
        save_execution_progress: false,
        save_manual_executions: false,
        save_data_error_execution: AllOrNone::All,
        save_data_success_execution: AllOrNone::All,
        execution_timeout: 0,
    }
}

/// The name of a tag.
#[derive(Debug, PartialEq, Eq)]
pub struct Id {
    pub id: String,
}

impl View for Id {
    type V = Seq<char>;

    open spec fn view(&self) -> Seq<char> {
        self.id@
    }
}

/// A tag as the remote service reads it: an object that holds its `id`.
pub open spec fn id_json(id: Seq<char>) -> JsonView {
    JsonView::Object(seq![(text::ID@, JsonView::Text(id))])
}

impl Id {
    /// Writes the tag as the remote service reads it.
    pub fn to_json(&self) -> (doc: Json)
        ensures
            doc@ == id_json(self@),
    {
        let mut members: Vec<(String, Json)> = Vec::new();
        put(&mut members, text::ID, Json::text(self.id.as_str()));
        assert(members_view(members@) =~= id_json(self@)->Object_0);
        Json::object(members)
    }
}

/// The value of a string that may be missing.
pub open spec fn text_view(text: Option<String>) -> Option<Seq<char>> {
    match text {
        Some(text) => Some(text@),
        None => None,
    }
}

/// A string that may be missing, as a document.
pub open spec fn text_json(text: Option<Seq<char>>) -> Option<JsonView> {
    match text {
        Some(text) => Some(JsonView::Text(text)),
        None => None,
    }
}

/// A flag that may be missing, as a document.
pub open spec fn flag_json(flag: Option<bool>) -> Option<JsonView> {
    match flag {
        Some(flag) => Some(JsonView::Bool(flag)),
        None => None,
    }
}

/// A count that may be missing, as a document.
pub open spec fn count_json(count: Option<u8>) -> Option<JsonView> {
    match count {
        Some(count) => Some(JsonView::Number(Number::Unsigned(count as u64))),
        None => None,
    }
}

/// The member `key`: `value` where there is a value, and nothing where
/// there is none.
pub open spec fn optional(key: Seq<char>, value: Option<JsonView>) -> Seq<(Seq<char>, JsonView)> {
    match value {
        Some(value) => seq![(key, value)],
        None => Seq::empty(),
    }
}

/// Appends the member `key`: `value` to `members` where there is a value.
pub fn put_optional(members: &mut Vec<(String, Json)>, key: &str, value: Option<Json>)
    ensures
        members_view(final(members)@) == members_view(old(members)@) + optional(
            key@,
            match value {
                Some(value) => Some(value@),
                None => None,
            },
        ),
{
    match value {
        Some(value) => {
            let ghost shown = value@;
            put(members, key, value);
            assert(members_view(old(members)@).push((key@, shown)) =~= members_view(old(members)@)
                + seq![(key@, shown)]);
        },
        None => {
            assert(members_view(old(members)@) =~= members_view(old(members)@) + Seq::empty());
        },
    }
}

/// A string that may be missing, as a document.
pub fn optional_text(text: &Option<String>) -> (doc: Option<Json>)
    ensures
        match doc {
            Some(doc) => text_json(text_view(*text)) == Some(doc@),
            None => text_json(text_view(*text)) is None,
        },
{
    match text {
        Some(text) => Some(Json::text(text.as_str())),
        None => None,
    }
}

/// A flag that may be missing, as a document.
pub fn optional_flag(flag: Option<bool>) -> (doc: Option<Json>)
    ensures
        match doc {
            Some(doc) => flag_json(flag) == Some(doc@),
            None => flag_json(flag) is None,
        },
{
    match flag {
        Some(flag) => Some(Json::Bool(flag)),
        None => None,
    }
}

/// A count that may be missing, as a document.
pub fn optional_count(count: Option<u8>) -> (doc: Option<Json>)
    ensures
        match doc {
            Some(doc) => count_json(count) == Some(doc@),
            None => count_json(count) is None,
        },
{
    match count {
        Some(count) => Some(Json::count(count)),
        None => None,
    }
}

/// The filters for listing workflows. A filter that is `None` is not sent.
#[derive(Debug, PartialEq, Eq)]
pub struct RetrieveAllWorkflowParams {
    pub active: Option<bool>,
    pub tags: Option<String>,
    pub name: Option<String>,
    pub project_id: Option<String>,
    pub exclude_pinned_data: Option<String>,
    pub limit: Option<u8>,
    pub cursor: Option<String>,
}

/// The mathematical value of [`RetrieveAllWorkflowParams`].
pub struct FilterView {
    pub active: Option<bool>,
    pub tags: Option<Seq<char>>,
    pub name: Option<Seq<char>>,
    pub project_id: Option<Seq<char>>,
    pub exclude_pinned_data: Option<Seq<char>>,
    pub limit: Option<u8>,
    pub cursor: Option<Seq<char>>,
}

impl FilterView {
    /// The query that carries the filters: one member for each filter that
    /// is set, in the order of the fields.
    pub open spec fn query(self) -> Seq<(Seq<char>, JsonView)> {
        optional(text::ACTIVE@, flag_json(self.active)) + optional(
            text::TAGS@,
            text_json(self.tags),
        ) + optional(text::NAME@, text_json(self.name)) + optional(
            text::PROJECT_ID@,
            text_json(self.project_id),
        ) + optional(text::EXCLUDE_PINNED_DATA@, text_json(self.exclude_pinned_data)) + optional(
            text::LIMIT@,
            count_json(self.limit),
        ) + optional(text::CURSOR@, text_json(self.cursor))
    }
}

impl View for RetrieveAllWorkflowParams {
    type V = FilterView;

    open spec fn view(&self) -> FilterView {
        FilterView {
            active: self.active,
            tags: text_view(self.tags),
            name: text_view(self.name),
            project_id: text_view(self.project_id),
            exclude_pinned_data: text_view(self.exclude_pinned_data),
            limit: self.limit,
            cursor: text_view(self.cursor),
        }
    }
}

/// Members added behind a list do not change what is found in it under a
/// name that none of them has.
pub proof fn lemma_member_before(
    members: Seq<(Seq<char>, JsonView)>,
    more: Seq<(Seq<char>, JsonView)>,
    key: Seq<char>,
)
    requires
        forall|i: int| 0 <= i < more.len() ==> (#[trigger] more[i]).0 != key,
    ensures
        member(members + more, key) == member(members, key),
    decreases more.len(),
{
    if more.len() == 0 {
        assert(members + more =~= members);
    } else {
        assert((members + more).drop_last() =~= members + more.drop_last());
        assert((members + more).last() == more.last());
        lemma_member_before(members, more.drop_last(), key);
    }
}

/// Listing workflows sends the cursor it is given under the name `cursor`,
/// and sends nothing under that name where it is given none.
pub proof fn lemma_cursor_is_sent(filter: FilterView)
    ensures
        member(filter.query(), text::CURSOR@) == text_json(filter.cursor),
{
    reveal_strlit("active");
    reveal_strlit("tags");
    reveal_strlit("name");
    reveal_strlit("project_id");
    reveal_strlit("exclude_pinned_data");
    reveal_strlit("limit");
    reveal_strlit("cursor");
    let key = text::CURSOR@;
    assert(text::ACTIVE@[0] != key[0]);
    let before = optional(text::ACTIVE@, flag_json(filter.active)) + optional(
        text::TAGS@,
        text_json(filter.tags),
    ) + optional(text::NAME@, text_json(filter.name)) + optional(
        text::PROJECT_ID@,
        text_json(filter.project_id),
    ) + optional(text::EXCLUDE_PINNED_DATA@, text_json(filter.exclude_pinned_data)) + optional(
        text::LIMIT@,
        count_json(filter.limit),
    );
    assert(forall|i: int| 0 <= i < before.len() ==> (#[trigger] before[i]).0 != key);
    lemma_member_before(Seq::empty(), before, key);
    assert(Seq::<(Seq<char>, JsonView)>::empty() + before =~= before);
    match filter.cursor {
        Some(cursor) => {
            let sent = seq![(key, JsonView::Text(cursor))];
            assert(filter.query() == before + sent);
            assert((before + sent).last() == sent[0]);
        },
        None => {
            assert(filter.query() =~= before);
        },
    }
}

impl RetrieveAllWorkflowParams {
    /// Writes the filters as a query.
    pub fn to_query(&self) -> (query: Vec<(String, Json)>)
        ensures
            members_view(query@) == self@.query(),
    {
        let mut query: Vec<(String, Json)> = Vec::new();
        assert(members_view(query@) =~= Seq::empty());
        put_optional(&mut query, text::ACTIVE, optional_flag(self.active));
        put_optional(&mut query, text::TAGS, optional_text(&self.tags));
        put_optional(&mut query, text::NAME, optional_text(&self.name));
        put_optional(&mut query, text::PROJECT_ID, optional_text(&self.project_id));
        put_optional(&mut query, text::EXCLUDE_PINNED_DATA, optional_text(&self.exclude_pinned_data));
        put_optional(&mut query, text::LIMIT, optional_count(self.limit));
        put_optional(&mut query, text::CURSOR, optional_text(&self.cursor));
        assert(members_view(query@) =~= self@.query());
        query
    }
}

/// What names one workflow to retrieve.
#[derive(Debug, PartialEq, Eq)]
pub struct RetrieveSingleWorkflowParams {
    pub id: String,
    pub exclude_pinned_data: Option<bool>,
}

/// What a workflow is made of when it is created.
#[derive(Debug, PartialEq, Eq)]
pub struct CreateWorkflowParams {
    pub name: String,
    pub nodes: Json,
    pub connections: Json,
    pub settings: WorkflowSettings,
    pub static_data: Option<Json>,
}

} // verus!
