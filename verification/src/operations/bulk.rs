//! The bulk operation: many index, create, update and delete actions in one
//! call, sent as newline-delimited JSON.

use crate::error::EncodingFailure;
use crate::error::EsError;
use crate::json::encode;
use crate::json::items_model;
use crate::json::fits;
use crate::json::lemma_names_of_concat;
use crate::json::lemma_names_of_optional;
use crate::json::lemma_single_distinct;
use crate::json::lemma_sound_concat;
use crate::json::lemma_sound_optional;
use crate::json::json_text;
use crate::json::lemma_has_key;
use crate::json::lemma_names_key_concat;
use crate::json::lemma_names_optional_field;
use crate::json::object;
use crate::json::optional_field;
use crate::json::push_optional;
use crate::json::single;
use crate::json::single_field;
use crate::json::JsonModel;
use crate::json::JsonValue;
use crate::operations::name_model;
use crate::operations::name_text;
use crate::operations::push_segment;
use crate::operations::segment;
use crate::operations::source_model;
use crate::operations::within;
use crate::receive;
use crate::received;
use crate::reception_error;
use crate::request::Method;
use crate::request::Request;
use crate::request::RequestModel;
use crate::text::count_char;
use crate::text::lemma_count_char_absent;
use crate::text::lemma_count_char_concat;
use crate::text::texts;
use crate::Received;
use vstd::prelude::*;

verus! {

/// What a bulk action does with its document.
#[derive(Clone, Copy, Debug, PartialEq, Eq, Structural)]
pub enum ActionType {
    Index,
    Create,
    Update,
    Delete,
}

impl ActionType {
    /// The name of the action on the wire.
    pub open spec fn name(self) -> Seq<char> {
        match self {
            ActionType::Index => "index"@,
            ActionType::Create => "create"@,
            ActionType::Update => "update"@,
            ActionType::Delete => "delete"@,
        }
    }

    /// The name of the action on the wire.
    pub fn as_str(&self) -> (r: &'static str)
        ensures
            r@ == self.name(),
    {
        match self {
            ActionType::Index => "index",
            ActionType::Create => "create",
            ActionType::Update => "update",
            ActionType::Delete => "delete",
        }
    }
}

/// The mathematical value of a bulk action.
pub ghost struct ActionModel {
    pub action: ActionType,
    pub index: Option<JsonModel>,
    pub doc_type: Option<JsonModel>,
    pub id: Option<JsonModel>,
    pub source: Option<JsonModel>,
}

impl ActionModel {
    /// Every action but a delete carries a document, and a delete carries none.
    pub open spec fn wf(self) -> bool {
        self.source is Some <==> self.action != ActionType::Delete
    }

    /// The target of the action: index, type and id, each only where it is set.
    pub open spec fn target(self) -> Seq<(Seq<char>, JsonModel)> {
        optional_field("_index"@, self.index) + optional_field("_type"@, self.doc_type)
            + optional_field("_id"@, self.id)
    }

    /// The metadata document: the action's name over its target.
    pub open spec fn metadata(self) -> JsonModel {
        single(self.action.name(), JsonModel::Object(self.target()))
    }

    /// Whether the action can be sent: its document, where it has one,
    /// names no field of an object twice.
    pub open spec fn sendable(self) -> bool {
        fits(self.source)
    }

    /// The documents that the action puts on the wire, one per line: the
    /// metadata, then the source where there is one.
    pub open spec fn documents(self) -> Seq<JsonModel> {
        match self.source {
            Some(source) => seq![self.metadata(), source],
            None => seq![self.metadata()],
        }
    }
}

/// One item of a bulk call.
#[derive(Debug, PartialEq)]
pub struct Action {
    action: ActionType,
    index: Option<String>,
    doc_type: Option<String>,
    id: Option<String>,
    source: Option<JsonValue>,
}

impl View for Action {
    type V = ActionModel;

    closed spec fn view(&self) -> ActionModel {
        ActionModel {
            action: self.action,
            index: name_model(self.index),
            doc_type: name_model(self.doc_type),
            id: name_model(self.id),
            source: source_model(self.source),
        }
    }
}

/// A name as an optional JSON string.
fn name_value(name: &Option<String>) -> (r: Option<JsonValue>)
    ensures
        source_model(r) == name_model(*name),
{
    match name {
        Some(s) => Some(JsonValue::String(s.clone())),
        None => None,
    }
}

impl Action {
    #[verifier::type_invariant]
    spec fn valid(&self) -> bool {
        self@.wf()
    }

    /// An action that indexes `document`.
    pub fn index(document: JsonValue) -> (r: Action)
        ensures
            r@ == (ActionModel {
                action: ActionType::Index,
                index: None,
                doc_type: None,
                id: None,
                source: Some(document@),
            }),
    {
        Action { action: ActionType::Index, index: None, doc_type: None, id: None, source: Some(document) }
    }

    /// An action that creates `document` and fails where its id exists.
    pub fn create(document: JsonValue) -> (r: Action)
        ensures
            r@ == (ActionModel {
                action: ActionType::Create,
                index: None,
                doc_type: None,
                id: None,
                source: Some(document@),
            }),
    {
        Action { action: ActionType::Create, index: None, doc_type: None, id: None, source: Some(document) }
    }

    /// An action that applies `update` to the document `id`.
    pub fn update(id: &str, update: JsonValue) -> (r: Action)
        ensures
            r@ == (ActionModel {
                action: ActionType::Update,
                index: None,
                doc_type: None,
                id: Some(JsonModel::String(id@)),
                source: Some(update@),
            }),
    {
        Action {
            action: ActionType::Update,
            index: None,
            doc_type: None,
            id: Some(String::from_str(id)),
            source: Some(update),
        }
    }

    /// An action that deletes the document `id`.
    pub fn delete(id: &str) -> (r: Action)
        ensures
            r@ == (ActionModel {
                action: ActionType::Delete,
                index: None,
                doc_type: None,
                id: Some(JsonModel::String(id@)),
                source: None,
            }),
    {
        Action {
            action: ActionType::Delete,
            index: None,
            doc_type: None,
            id: Some(String::from_str(id)),
            source: None,
        }
    }

    /// Sets the index that the action addresses.
    pub fn with_index(self, index: &str) -> (r: Action)
        ensures
            r@ == (ActionModel { index: Some(JsonModel::String(index@)), ..self@ }),
    {
        proof {
            use_type_invariant(&self);
        }
        Action { index: Some(String::from_str(index)), ..self }
    }

    /// Sets the document type that the action addresses.
    pub fn with_doc_type(self, doc_type: &str) -> (r: Action)
        ensures
            r@ == (ActionModel { doc_type: Some(JsonModel::String(doc_type@)), ..self@ }),
    {
        proof {
            use_type_invariant(&self);
        }
        Action { doc_type: Some(String::from_str(doc_type)), ..self }
    }

    /// Sets the id of the document that the action addresses.
    pub fn with_id(self, id: &str) -> (r: Action)
        ensures
            r@ == (ActionModel { id: Some(JsonModel::String(id@)), ..self@ }),
    {
        proof {
            use_type_invariant(&self);
        }
        Action { id: Some(String::from_str(id)), ..self }
    }

    /// What the action does.
    pub fn action_type(&self) -> (r: ActionType)
        ensures
            r == self@.action,
            self@.wf(),
    {
        proof {
            use_type_invariant(self);
        }
        self.action
    }

    /// The metadata document of the action.
    pub fn metadata(&self) -> (r: JsonValue)
        ensures
            r@ == self@.metadata(),
            r@.distinct_names(),
    {
        proof {
            lemma_metadata_distinct(self@);
        }
        let mut target: Vec<(String, JsonValue)> = Vec::new();
        push_optional(&mut target, "_index", name_value(&self.index));
        push_optional(&mut target, "_type", name_value(&self.doc_type));
        push_optional(&mut target, "_id", name_value(&self.id));
        single_field(self.action.as_str(), object(target))
    }

    /// The lines that the action puts on the wire, without their line ends:
    /// the metadata, then the source where there is one. An action whose
    /// document names a field twice is refused.
    pub fn lines(&self) -> (r: Result<Vec<String>, EsError>)
        ensures
            match r {
                Ok(lines) => {
                    &&& self@.sendable()
                    &&& texts(lines@) == document_texts(self@.documents())
                    &&& free_of_line_ends(texts(lines@))
                },
                Err(e) => !self@.sendable() && e matches EsError::EncodingError(
                    EncodingFailure::RepeatedName,
                ),
            },
    {
        let mut lines: Vec<String> = Vec::new();
        let metadata = self.metadata();
        let first = encode(&metadata)?;
        lines.push(first);
        match &self.source {
            Some(source) => {
                let second = encode(source)?;
                lines.push(second);
            },
            None => {},
        }
        Ok(lines)
    }
}

/// The views of a list of actions, in order.
pub open spec fn action_models(actions: Seq<Action>) -> Seq<ActionModel> {
    Seq::new(actions.len(), |i: int| actions[i]@)
}

/// The documents that a list of actions puts on the wire, in order.
pub open spec fn bulk_documents(actions: Seq<ActionModel>) -> Seq<JsonModel>
    decreases actions.len(),
{
    if actions.len() == 0 {
        Seq::empty()
    } else {
        bulk_documents(actions.drop_last()) + actions.last().documents()
    }
}

/// Whether every action of the list can be sent.
pub open spec fn all_sendable(actions: Seq<ActionModel>) -> bool {
    forall|i: int| 0 <= i < actions.len() ==> (#[trigger] actions[i]).sendable()
}

/// The names of an action's target differ from one another.
proof fn lemma_target_names()
    ensures
        "_index"@ != "_type"@,
        "_index"@ != "_id"@,
        "_type"@ != "_id"@,
{
    reveal_strlit("_index");
    reveal_strlit("_type");
    reveal_strlit("_id");
    assert("_index"@.len() == 6 && "_type"@.len() == 5 && "_id"@.len() == 3);
}

/// The metadata of an action names no field twice, if none of the values
/// of its target does.
pub proof fn lemma_metadata_distinct(action: ActionModel)
    requires
        fits(action.index),
        fits(action.doc_type),
        fits(action.id),
    ensures
        action.metadata().distinct_names(),
{
    lemma_target_names();
    let a = optional_field("_index"@, action.index);
    let b = optional_field("_type"@, action.doc_type);
    let c = optional_field("_id"@, action.id);
    lemma_names_of_optional("_index"@, action.index);
    lemma_names_of_optional("_type"@, action.doc_type);
    lemma_names_of_optional("_id"@, action.id);
    lemma_sound_optional("_index"@, action.index);
    lemma_sound_optional("_type"@, action.doc_type);
    lemma_sound_optional("_id"@, action.id);
    lemma_names_of_concat(a, b);
    lemma_sound_concat(a, b);
    lemma_sound_concat(a + b, c);
    lemma_single_distinct(action.action.name(), JsonModel::Object(action.target()));
}

/// The compact JSON text of each document.
pub open spec fn document_texts(documents: Seq<JsonModel>) -> Seq<Seq<char>> {
    Seq::new(documents.len(), |i: int| json_text(documents[i]))
}

/// Newline-delimited text: every line followed by a line feed.
pub open spec fn ndjson(lines: Seq<Seq<char>>) -> Seq<char>
    decreases lines.len(),
{
    if lines.len() == 0 {
        Seq::empty()
    } else {
        ndjson(lines.drop_last()) + lines.last() + "\n"@
    }
}

/// No line holds a line feed.
pub open spec fn free_of_line_ends(lines: Seq<Seq<char>>) -> bool {
    forall|i: int| 0 <= i < lines.len() ==> !(#[trigger] lines[i]).contains('\n')
}

/// Newline-delimited text of lines without line feeds holds as many line
/// feeds as there are lines.
pub proof fn lemma_ndjson_line_count(lines: Seq<Seq<char>>)
    requires
        free_of_line_ends(lines),
    ensures
        count_char(ndjson(lines), '\n') == lines.len(),
    decreases lines.len(),
{
    reveal_strlit("\n");
    if lines.len() > 0 {
        let head = lines.drop_last();
        assert forall|i: int| 0 <= i < head.len() implies !(#[trigger] head[i]).contains('\n') by {
            assert(head[i] == lines[i]);
        }
        lemma_ndjson_line_count(head);
        lemma_count_char_absent(lines.last(), '\n');
        lemma_count_char_concat(ndjson(head), lines.last(), '\n');
        lemma_count_char_concat(ndjson(head) + lines.last(), "\n"@, '\n');
        assert("\n"@ =~= seq!['\n']);
        assert(seq!['\n'].drop_last() =~= Seq::<char>::empty());
        assert(count_char(seq!['\n'], '\n') == 1) by {
            assert(count_char(Seq::<char>::empty(), '\n') == 0);
        }
    }
}

/// The target in an action's metadata holds `_index`, `_type` and `_id`
/// exactly where the action sets them, and no other name.
pub proof fn lemma_action_target_follows_options(action: ActionModel, key: Seq<char>)
    ensures
        JsonModel::Object(action.target()).has_key(key) <==> (action.index is Some && key == "_index"@)
            || (action.doc_type is Some && key == "_type"@) || (action.id is Some && key == "_id"@),
{
    let a = optional_field("_index"@, action.index);
    let b = optional_field("_type"@, action.doc_type);
    let c = optional_field("_id"@, action.id);
    lemma_has_key(action.target(), key);
    lemma_names_key_concat(a + b, c, key);
    lemma_names_key_concat(a, b, key);
    lemma_names_optional_field("_index"@, action.index, key);
    lemma_names_optional_field("_type"@, action.doc_type, key);
    lemma_names_optional_field("_id"@, action.id, key);
}

/// The path of a bulk call holds a segment for the default index and for
/// the default type exactly where the default is set: without defaults it is
/// `/_bulk`.
pub proof fn lemma_bulk_path_follows_defaults(op: BulkModel)
    ensures
        op.index is None && op.doc_type is None ==> op.path() == "/_bulk"@,
        op.index is None ==> op.path() == segment(op.doc_type) + "/_bulk"@,
        op.doc_type is None ==> op.path() == segment(op.index) + "/_bulk"@,
{
}

/// A valid action puts one line on the wire if it is a delete, and two
/// otherwise.
pub proof fn lemma_documents_per_action(action: ActionModel)
    requires
        action.wf(),
    ensures
        action.documents().len() == if action.action == ActionType::Delete {
            1nat
        } else {
            2nat
        },
{
}

/// Actions that all carry a document put twice as many lines on the wire as
/// there are actions, each action's metadata directly before its source.
pub proof fn lemma_bulk_two_lines_each(actions: Seq<ActionModel>)
    requires
        forall|i: int| 0 <= i < actions.len() ==> (#[trigger] actions[i]).action != ActionType::Delete && actions[i].wf(),
    ensures
        bulk_documents(actions).len() == 2 * actions.len(),
        forall|i: int|
            0 <= i < actions.len() ==> bulk_documents(actions)[2 * i] == (#[trigger] actions[i]).metadata()
                && Some(bulk_documents(actions)[2 * i + 1]) == actions[i].source,
    decreases actions.len(),
{
    if actions.len() > 0 {
        let head = actions.drop_last();
        assert forall|i: int| 0 <= i < head.len() implies (#[trigger] head[i]).action != ActionType::Delete && head[i].wf() by {
            assert(head[i] == actions[i]);
        }
        lemma_bulk_two_lines_each(head);
        assert forall|i: int| 0 <= i < actions.len() implies bulk_documents(actions)[2 * i] == (#[trigger] actions[i]).metadata()
            && Some(bulk_documents(actions)[2 * i + 1]) == actions[i].source by {
            if i < head.len() {
                assert(head[i] == actions[i]);
            }
        }
    }
}

/// Joins lines into newline-delimited text.
pub fn frame_lines(lines: &Vec<String>) -> (r: String)
    ensures
        r@ == ndjson(texts(lines@)),
{
    let mut out = String::new();
    let mut i: usize = 0;
    while i < lines.len()
        invariant
            i <= lines.len(),
            out@ == ndjson(texts(lines@).subrange(0, i as int)),
        decreases lines.len() - i,
    {
        out.append(lines[i].as_str());
        out.append("\n");
        proof {
            let before = texts(lines@).subrange(0, i as int);
            let after = texts(lines@).subrange(0, i as int + 1);
            assert(after.drop_last() =~= before);
        }
        i += 1;
    }
    assert(texts(lines@).subrange(0, i as int) =~= texts(lines@));
    out
}

/// A bulk call under construction.
pub struct BulkOperation<'b> {
    actions: &'b [Action],
    index: Option<String>,
    doc_type: Option<String>,
}

/// The mathematical value of a bulk call.
pub ghost struct BulkModel {
    pub actions: Seq<ActionModel>,
    pub index: Option<Seq<char>>,
    pub doc_type: Option<Seq<char>>,
}

impl BulkModel {
    /// The path of the call: the default index and type where they are set,
    /// then `/_bulk`.
    pub open spec fn path(self) -> Seq<char> {
        segment(self.index) + segment(self.doc_type) + "/_bulk"@
    }

    /// The body of the call: every action's lines, in the order of the actions.
    pub open spec fn body(self) -> Seq<char> {
        ndjson(document_texts(bulk_documents(self.actions)))
    }

    /// The request of the call.
    pub open spec fn request(self) -> RequestModel {
        RequestModel {
            method: Method::Post,
            path: self.path(),
            params: Seq::empty(),
            body: Some(self.body()),
        }
    }
}

impl<'b> View for BulkOperation<'b> {
    type V = BulkModel;

    closed spec fn view(&self) -> BulkModel {
        BulkModel {
            actions: action_models(self.actions@),
            index: name_text(self.index),
            doc_type: name_text(self.doc_type),
        }
    }
}

impl<'b> BulkOperation<'b> {
    /// A bulk call for the actions, in their order.
    pub fn new(actions: &'b [Action]) -> (r: BulkOperation<'b>)
        ensures
            r@ == (BulkModel { actions: action_models(actions@), index: None, doc_type: None }),
    {
        BulkOperation { actions, index: None, doc_type: None }
    }

    /// Sets the index for actions that name none.
    pub fn with_index(self, index: &str) -> (r: BulkOperation<'b>)
        ensures
            r@ == (BulkModel { index: Some(index@), ..self@ }),
    {
        BulkOperation { index: Some(String::from_str(index)), ..self }
    }

    /// Sets the document type for actions that name none.
    pub fn with_doc_type(self, doc_type: &str) -> (r: BulkOperation<'b>)
        ensures
            r@ == (BulkModel { doc_type: Some(doc_type@), ..self@ }),
    {
        BulkOperation { doc_type: Some(String::from_str(doc_type)), ..self }
    }

    /// The path of the call.
    pub fn path(&self) -> (r: String)
        ensures
            r@ == self@.path(),
    {
        let mut path = String::new();
        push_segment(&mut path, &self.index);
        push_segment(&mut path, &self.doc_type);
        path.append("/_bulk");
        path
    }

    /// The lines of all actions, in order, without their line ends. A call
    /// with an action whose document names a field twice is refused.
    pub fn lines(&self) -> (r: Result<Vec<String>, EsError>)
        ensures
            match r {
                Ok(lines) => {
                    &&& all_sendable(self@.actions)
                    &&& texts(lines@) == document_texts(bulk_documents(self@.actions))
                    &&& free_of_line_ends(texts(lines@))
                },
                Err(e) => !all_sendable(self@.actions) && e matches EsError::EncodingError(
                    EncodingFailure::RepeatedName,
                ),
            },
    {
        let mut lines: Vec<String> = Vec::new();
        let mut i: usize = 0;
        while i < self.actions.len()
            invariant
                i <= self.actions.len(),
                texts(lines@) == document_texts(
                    bulk_documents(action_models(self.actions@).subrange(0, i as int)),
                ),
                free_of_line_ends(texts(lines@)),
                forall|k: int| 0 <= k < i ==> (#[trigger] self@.actions[k]).sendable(),
            decreases self.actions.len() - i,
        {
            let mut more = match self.actions[i].lines() {
                Ok(more) => more,
                Err(e) => {
                    assert(!self@.actions[i as int].sendable());
                    return Err(e);
                },
            };
            proof {
                assert(self@.actions[i as int].sendable());
                let before = action_models(self.actions@).subrange(0, i as int);
                let after = action_models(self.actions@).subrange(0, i as int + 1);
                assert(after.drop_last() =~= before);
                assert(document_texts(bulk_documents(after)) =~= document_texts(
                    bulk_documents(before),
                ) + document_texts(after.last().documents()));
                let joined = texts(lines@ + more@);
                assert(joined =~= texts(lines@) + texts(more@));
                assert forall|k: int| 0 <= k < joined.len() implies !(#[trigger] joined[k]).contains(
                    '\n',
                ) by {
                    if k < lines@.len() {
                        assert(joined[k] == texts(lines@)[k]);
                    } else {
                        assert(joined[k] == texts(more@)[k - lines@.len()]);
                    }
                }
            }
            lines.append(&mut more);
            i += 1;
        }
        assert(action_models(self.actions@).subrange(0, i as int) =~= self@.actions);
        Ok(lines)
    }

    /// The request for given lines: `POST` to the path, with the lines as
    /// newline-delimited text.
    pub fn request_of(&self, lines: &Vec<String>) -> (r: Request)
        ensures
            r@ == (RequestModel {
                method: Method::Post,
                path: self@.path(),
                params: Seq::empty(),
                body: Some(ndjson(texts(lines@))),
            }),
    {
        let r = Request {
            method: Method::Post,
            path: self.path(),
            params: Vec::new(),
            body: Some(frame_lines(lines)),
        };
        assert(r@.params =~= Seq::empty());
        r
    }

    /// The request of the call. Its body holds one line feed for each line.
    /// A call with an action whose document names a field twice is refused.
    pub fn request(&self) -> (r: Result<Request, EsError>)
        ensures
            match r {
                Ok(request) => {
                    &&& all_sendable(self@.actions)
                    &&& request@ == self@.request()
                    &&& count_char(request@.body->0, '\n') == bulk_documents(self@.actions).len()
                },
                Err(e) => !all_sendable(self@.actions) && e matches EsError::EncodingError(
                    EncodingFailure::RepeatedName,
                ),
            },
    {
        let lines = self.lines()?;
        proof {
            lemma_ndjson_line_count(texts(lines@));
        }
        Ok(self.request_of(&lines))
    }
}

/// The outcome of one action of a bulk call.
#[derive(Debug, PartialEq)]
pub struct ActionResult {
    pub action: ActionType,
    pub index: String,
    pub doc_type: String,
    pub id: String,
    pub version: Option<u64>,
    pub status: u64,
    pub error: Option<String>,
}

impl ActionResult {
    /// The action that an item reports: the first of the four names, in the
    /// order index, create, update, delete, that the item has as a field.
    pub open spec fn kind_of(d: JsonModel) -> Option<ActionType> {
        if d.has_key("index"@) {
            Some(ActionType::Index)
        } else if d.has_key("create"@) {
            Some(ActionType::Create)
        } else if d.has_key("update"@) {
            Some(ActionType::Update)
        } else if d.has_key("delete"@) {
            Some(ActionType::Delete)
        } else {
            None
        }
    }

    /// The first field that the report under the action's name lacks.
    pub open spec fn report_fault(report: JsonModel) -> Option<Seq<char>> {
        if report.string_at("_index"@) is None {
            Some("_index"@)
        } else if report.string_at("_type"@) is None {
            Some("_type"@)
        } else if report.string_at("_id"@) is None {
            Some("_id"@)
        } else if report.u64_at("status"@) is None {
            Some("status"@)
        } else {
            None
        }
    }

    /// The path that an item lacks to be an action's outcome: `action` where
    /// it names no action, else the action's name, a dot and the missing field.
    pub open spec fn shape_fault(d: JsonModel) -> Option<Seq<char>> {
        match Self::kind_of(d) {
            None => Some("action"@),
            Some(kind) => match Self::report_fault(d.get(kind.name())->0) {
                Some(path) => Some(kind.name() + "."@ + path),
                None => None,
            },
        }
    }

    /// Whether the outcome says what the item holds.
    pub open spec fn describes(&self, d: JsonModel) -> bool {
        &&& Self::kind_of(d) == Some(self.action)
        &&& d.get(self.action.name()) matches Some(report)
        &&& report.string_at("_index"@) == Some(self.index@)
        &&& report.string_at("_type"@) == Some(self.doc_type@)
        &&& report.string_at("_id"@) == Some(self.id@)
        &&& report.u64_at("_version"@) == self.version
        &&& report.u64_at("status"@) == Some(self.status)
        &&& report.string_at("error"@) == name_text(self.error)
    }

    /// Reads the report that stands under an action's name.
    fn from_report(action: ActionType, report: &JsonValue) -> (r: Result<ActionResult, EsError>)
        ensures
            match r {
                Ok(outcome) => {
                    &&& Self::report_fault(report@) is None
                    &&& outcome.action == action
                    &&& report@.string_at("_index"@) == Some(outcome.index@)
                    &&& report@.string_at("_type"@) == Some(outcome.doc_type@)
                    &&& report@.string_at("_id"@) == Some(outcome.id@)
                    &&& report@.u64_at("_version"@) == outcome.version
                    &&& report@.u64_at("status"@) == Some(outcome.status)
                    &&& report@.string_at("error"@) == name_text(outcome.error)
                },
                Err(e) => Self::report_fault(report@) matches Some(path) && e.is_shape_error(
                    action.name() + "."@ + path,
                ),
            },
    {
        let index = match report.read_string("_index") {
            Ok(v) => v,
            Err(e) => {
                return Err(within(action.as_str(), e));
            },
        };
        let doc_type = match report.read_string("_type") {
            Ok(v) => v,
            Err(e) => {
                return Err(within(action.as_str(), e));
            },
        };
        let id = match report.read_string("_id") {
            Ok(v) => v,
            Err(e) => {
                return Err(within(action.as_str(), e));
            },
        };
        let version = report.read_optional_u64("_version");
        let status = match report.read_u64("status") {
            Ok(v) => v,
            Err(e) => {
                return Err(within(action.as_str(), e));
            },
        };
        let error = report.read_optional_string("error");
        Ok(ActionResult { action, index, doc_type, id, version, status, error })
    }

    /// Reads the outcome of one action.
    pub fn from_json(d: &JsonValue) -> (r: Result<ActionResult, EsError>)
        ensures
            match r {
                Ok(outcome) => Self::shape_fault(d@) is None && outcome.describes(d@),
                Err(e) => Self::shape_fault(d@) matches Some(path) && e.is_shape_error(path),
            },
    {
        match d.find("index") {
            Some(report) => {
                return Self::from_report(ActionType::Index, report);
            },
            None => {},
        }
        match d.find("create") {
            Some(report) => {
                return Self::from_report(ActionType::Create, report);
            },
            None => {},
        }
        match d.find("update") {
            Some(report) => {
                return Self::from_report(ActionType::Update, report);
            },
            None => {},
        }
        match d.find("delete") {
            Some(report) => {
                return Self::from_report(ActionType::Delete, report);
            },
            None => {},
        }
        Err(EsError::shape("action"))
    }
}

/// The fault of the first item, at or after `from`, that is no action's
/// outcome.
pub open spec fn first_item_fault(items: Seq<JsonModel>, from: int) -> Option<Seq<char>>
    decreases items.len() - from,
{
    if from < 0 || from >= items.len() {
        None
    } else {
        match ActionResult::shape_fault(items[from]) {
            Some(path) => Some(path),
            None => first_item_fault(items, from + 1),
        }
    }
}

/// What the engine reports of a bulk call.
#[derive(Debug, PartialEq)]
pub struct BulkResult {
    /// Whether any action failed.
    pub errors: bool,
    /// The outcome of each action, in the order of the actions.
    pub items: Vec<ActionResult>,
    /// The milliseconds that the call took.
    pub took: u64,
}

impl BulkResult {
    /// The path that a document lacks to be a bulk result.
    pub open spec fn shape_fault(d: JsonModel) -> Option<Seq<char>> {
        if d.boolean_at("errors"@) is None {
            Some("errors"@)
        } else if d.array_at("items"@) is None {
            Some("items"@)
        } else if first_item_fault(d.array_at("items"@)->0, 0) is Some {
            Some("items"@ + "."@ + first_item_fault(d.array_at("items"@)->0, 0)->0)
        } else if d.u64_at("took"@) is None {
            Some("took"@)
        } else {
            None
        }
    }

    /// Whether the result says what the document holds: the flags, and for
    /// every item of the document, at its position, its outcome.
    pub open spec fn describes(&self, d: JsonModel) -> bool {
        &&& d.boolean_at("errors"@) == Some(self.errors)
        &&& d.u64_at("took"@) == Some(self.took)
        &&& d.array_at("items"@) matches Some(items)
        &&& items.len() == self.items@.len()
        &&& forall|i: int| 0 <= i < items.len() ==> (#[trigger] self.items@[i]).describes(items[i])
    }

    /// Reads a bulk result.
    pub fn from_json(d: &JsonValue) -> (r: Result<BulkResult, EsError>)
        ensures
            match r {
                Ok(result) => Self::shape_fault(d@) is None && result.describes(d@),
                Err(e) => Self::shape_fault(d@) matches Some(path) && e.is_shape_error(path),
            },
    {
        let errors = d.read_boolean("errors")?;
        let reports = d.read_array("items")?;
        let mut items: Vec<ActionResult> = Vec::new();
        let mut i: usize = 0;
        while i < reports.len()
            invariant
                i <= reports.len(),
                items@.len() == i,
                d@.boolean_at("errors"@) == Some(errors),
                d@.array_at("items"@) == Some(items_model(reports@)),
                first_item_fault(items_model(reports@), 0) == first_item_fault(
                    items_model(reports@),
                    i as int,
                ),
                forall|k: int| 0 <= k < i ==> (#[trigger] items@[k]).describes(items_model(reports@)[k]),
            decreases reports.len() - i,
        {
            match ActionResult::from_json(&reports[i]) {
                Ok(outcome) => {
                    items.push(outcome);
                },
                Err(e) => {
                    return Err(within("items", e));
                },
            }
            i += 1;
        }
        let took = d.read_u64("took")?;
        Ok(BulkResult { errors, items, took })
    }
}

impl BulkModel {
    /// The path that a document lacks to be the result of this call: what
    /// it lacks to be a bulk result, or `items` where it does not hold one
    /// item for each action.
    pub open spec fn result_fault(self, d: JsonModel) -> Option<Seq<char>> {
        match BulkResult::shape_fault(d) {
            Some(path) => Some(path),
            None => if d.array_at("items"@)->0.len() != self.actions.len() {
                Some("items"@)
            } else {
                None
            },
        }
    }
}

impl<'b> BulkOperation<'b> {
    /// Reads the result of this call out of the response's document. The
    /// result holds one outcome for each action, at the action's position.
    pub fn decode(&self, d: &JsonValue) -> (r: Result<BulkResult, EsError>)
        ensures
            match r {
                Ok(result) => {
                    &&& self@.result_fault(d@) is None
                    &&& result.describes(d@)
                    &&& result.items@.len() == self@.actions.len()
                },
                Err(e) => self@.result_fault(d@) matches Some(path) && e.is_shape_error(path),
            },
    {
        let result = BulkResult::from_json(d)?;
        if result.items.len() != self.actions.len() {
            return Err(EsError::shape("items"));
        }
        Ok(result)
    }

    /// Ends the call: reads its result out of the response.
    pub fn response(self, status: u16, body: &[u8]) -> (r: Result<BulkResult, EsError>)
        ensures
            match r {
                Ok(result) => {
                    &&& received(status, body@) matches Received::Document(d)
                    &&& self@.result_fault(d) is None
                    &&& result.describes(d)
                    &&& result.items@.len() == self@.actions.len()
                },
                Err(e) => match received(status, body@) {
                    Received::Document(d) => self@.result_fault(d) matches Some(path)
                        && e.is_shape_error(path),
                    _ => reception_error(status, body@, e),
                },
            },
    {
        let d = receive(status, body)?;
        self.decode(&d)
    }
}

} // verus!
