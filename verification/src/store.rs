//! The content store: loading the content document, materializing the
//! embedded default when the file is missing, and preparing saves that stamp
//! object documents with an update timestamp.
//!
//! The store never touches the filesystem. A caller reads the file at the
//! resolved path and reports what it found as a [`ReadOutcome`]; the store
//! decides what that means ([`load_decision`]). A save is prepared as a
//! [`SavePlan`] naming the path, the directory to create and the exact text
//! to write.

use vstd::prelude::*;

use crate::clock::{four_digit_year, now_rfc3339, rfc3339_parseable};
use crate::json::{
    doc_fields, doc_is_object, error_text_of, insert_string_field, json_error_message,
    json_parse_of, json_string, json_value_of, parse_json, pretty_of, to_pretty_json,
    value_is_object, within_parse_depth,
};
use crate::paths::{
    parent_dir, parent_dir_of, resolve_content_path, resolved_content_path, PathConfig,
};

verus! {

/// Why a load or save failed.
#[derive(Debug)]
pub enum ContentError {
    /// The file could not be read, its directory could not be created, or it
    /// could not be written.
    IoError(String),
    /// The file exists but its contents are not valid JSON.
    DeserializationError(String),
    /// The in-memory document could not be rendered to text.
    SerializationError(String),
}

impl ContentError {
    /// The underlying failure text.
    pub open spec fn text_view(&self) -> Seq<char> {
        match self {
            ContentError::IoError(m) => m@,
            ContentError::DeserializationError(m) => m@,
            ContentError::SerializationError(m) => m@,
        }
    }

    /// The underlying failure text, for display at the outermost boundary.
    pub fn text(&self) -> (r: String)
        ensures
            r@ == self.text_view(),
    {
        match self {
            ContentError::IoError(m) => m.clone(),
            ContentError::DeserializationError(m) => m.clone(),
            ContentError::SerializationError(m) => m.clone(),
        }
    }
}

/// The reserved top-level field stamped on every save of an object document.
pub open spec fn updated_at_key() -> Seq<char> {
    "updatedAt"@
}

/// The embedded seed document, as spec-level text.
pub open spec fn default_content() -> Seq<char> {
    "{\"hero\":{\"primary\":{\"url\":\"https://images.example.com/hero/main.jpg\",\"label\":\"Main Stage Hero\"}}}"@
}

/// The embedded seed document used to initialize a missing content file.
pub fn default_image_content() -> (r: &'static str)
    ensures
        r@ == default_content(),
{
    "{\"hero\":{\"primary\":{\"url\":\"https://images.example.com/hero/main.jpg\",\"label\":\"Main Stage Hero\"}}}"
}

/// What reading the content file produced: its text, a not-found error, or
/// any other read failure with its message.
pub enum ReadOutcome {
    Contents(String),
    Missing,
    Failed(String),
}

/// Instructions for materializing a missing content file: create
/// `parent_dir` (when there is one), then write `contents` to `path`.
pub struct InitPlan {
    pub path: String,
    pub parent_dir: Option<String>,
    pub contents: String,
}

/// What a load does with a read outcome: return the parsed document, fail,
/// or materialize the default content first.
pub enum LoadDecision {
    Document(serde_json::Value),
    Reject(ContentError),
    Materialize(InitPlan),
}

/// What load decides once the file's text is in hand: the parsed document,
/// or a deserialization failure carrying the parser's message. No write is
/// ever instructed.
pub open spec fn contents_decision(text: Seq<char>, r: LoadDecision) -> bool {
    &&& json_value_of(text) is Some ==> r == LoadDecision::Document(json_value_of(text)->Some_0)
    &&& json_value_of(text) is None ==> (r matches LoadDecision::Reject(e)
        && e matches ContentError::DeserializationError(m)
        && m@ == error_text_of(json_parse_of(text)->Err_0))
}

/// Decides what a load returns, given what reading the file at the resolved
/// path produced.
pub fn load_decision(cfg: &PathConfig, outcome: ReadOutcome) -> (r: LoadDecision)
    ensures
        outcome matches ReadOutcome::Contents(text) ==> contents_decision(text@, r),
        outcome matches ReadOutcome::Failed(msg) ==> r == LoadDecision::Reject(
            ContentError::IoError(msg),
        ),
        outcome is Missing ==> (r matches LoadDecision::Materialize(plan) && {
            &&& plan.path@ == resolved_content_path(cfg.override_view(), cfg.project_root@)
            &&& plan.parent_dir.deep_view() == parent_dir_of(plan.path@)
            &&& plan.contents@ == default_content()
        }),
{
    match outcome {
        ReadOutcome::Contents(text) => match parse_json(text.as_str()) {
            Ok(doc) => LoadDecision::Document(doc),
            Err(e) => LoadDecision::Reject(
                ContentError::DeserializationError(json_error_message(&e)),
            ),
        },
        ReadOutcome::Missing => {
            let path = resolve_content_path(cfg);
            let parent = parent_dir(path.as_str());
            LoadDecision::Materialize(
                InitPlan {
                    path,
                    parent_dir: parent,
                    contents: String::from_str(default_image_content()),
                },
            )
        },
        ReadOutcome::Failed(msg) => LoadDecision::Reject(ContentError::IoError(msg)),
    }
}

/// Parses the default content once a materialization plan has been carried
/// out, yielding the document the first load returns.
pub fn finish_initialization() -> (r: Result<serde_json::Value, ContentError>)
    ensures
        r is Ok <==> json_value_of(default_content()) is Some,
        r is Ok ==> r->Ok_0 == json_value_of(default_content())->Some_0,
        r is Err ==> (r->Err_0 matches ContentError::DeserializationError(m)
            && m@ == error_text_of(json_parse_of(default_content())->Err_0)),
{
    match parse_json(default_image_content()) {
        Ok(doc) => Ok(doc),
        Err(e) => Err(ContentError::DeserializationError(json_error_message(&e))),
    }
}

/// Instructions for persisting a document: create `parent_dir` (when there
/// is one), write `contents` to `path`, and hand `document` back to the
/// caller.
pub struct SavePlan {
    pub path: String,
    pub parent_dir: Option<String>,
    pub contents: String,
    pub document: serde_json::Value,
}

/// What a save plan for `content`, stamped at `ts`, promises: it targets the
/// resolved path, its document is `content` with `updatedAt` set to `ts`
/// when `content` is an object and `content` unchanged otherwise, and its
/// text renders that document — and, for a document within the parser's
/// recursion limit, parses back to it.
pub open spec fn save_plan_for(
    plan: SavePlan,
    content: serde_json::Value,
    over: Option<Seq<char>>,
    root: Seq<char>,
    ts: Seq<char>,
) -> bool {
    &&& plan.path@ == resolved_content_path(over, root)
    &&& plan.parent_dir.deep_view() == parent_dir_of(resolved_content_path(over, root))
    &&& doc_is_object(content) ==> {
        &&& doc_is_object(plan.document)
        &&& doc_fields(plan.document) == doc_fields(content).insert(
            updated_at_key(),
            json_string(ts),
        )
    }
    &&& !doc_is_object(content) ==> plan.document == content
    &&& plan.contents@ == pretty_of(plan.document)
    &&& within_parse_depth(content) ==> within_parse_depth(plan.document)
    &&& within_parse_depth(content) ==> json_value_of(plan.contents@) == Some(plan.document)
}

/// Stamps `timestamp` into the `updatedAt` field of an object document;
/// a non-object document passes through unchanged.
pub fn stamp_document(content: serde_json::Value, timestamp: &str) -> (r: serde_json::Value)
    ensures
        doc_is_object(content) ==> doc_is_object(r) && doc_fields(r) == doc_fields(
            content,
        ).insert(updated_at_key(), json_string(timestamp@)),
        !doc_is_object(content) ==> r == content,
        within_parse_depth(content) ==> within_parse_depth(r),
{
    let mut doc = content;
    if value_is_object(&doc) {
        insert_string_field(&mut doc, "updatedAt", timestamp);
    }
    doc
}

/// Prepares a save of `content` stamped at the given timestamp. Preparing a
/// save always succeeds: rendering a document cannot fail, so the error case
/// of the result is purely defensive.
pub fn prepare_save_at(
    content: serde_json::Value,
    cfg: &PathConfig,
    timestamp: &str,
) -> (r: Result<SavePlan, ContentError>)
    ensures
        r is Ok,
        r is Ok ==> save_plan_for(
            r->Ok_0,
            content,
            cfg.override_view(),
            cfg.project_root@,
            timestamp@,
        ),
{
    let document = stamp_document(content, timestamp);
    let path = resolve_content_path(cfg);
    let parent = parent_dir(path.as_str());
    match to_pretty_json(&document) {
        Ok(contents) => Ok(SavePlan { path, parent_dir: parent, contents, document }),
        Err(e) => Err(ContentError::SerializationError(json_error_message(&e))),
    }
}

/// Prepares a save of `content` stamped with the current time. The stamp
/// parses back as an RFC 3339 timestamp whenever the clock's year has four
/// digits, as RFC 3339 requires of any real clock.
pub fn prepare_save(content: serde_json::Value, cfg: &PathConfig) -> (r: Result<
    SavePlan,
    ContentError,
>)
    ensures
        r is Ok,
        r is Ok ==> exists|ts: Seq<char>|
            {
                &&& #[trigger] save_plan_for(
                    r->Ok_0,
                    content,
                    cfg.override_view(),
                    cfg.project_root@,
                    ts,
                )
                &&& ts.len() >= 20
                &&& four_digit_year(ts) ==> rfc3339_parseable(ts)
            },
{
    let timestamp = now_rfc3339();
    let ghost ts = timestamp@;
    let result = prepare_save_at(content, cfg, timestamp.as_str());
    proof {
        assert(save_plan_for(
            result->Ok_0,
            content,
            cfg.override_view(),
            cfg.project_root@,
            ts,
        ));
    }
    result
}

/// Loading what a successful save wrote returns the saved document: the same
/// fields as the document handed to save, except that `updatedAt` now holds
/// the save's timestamp. The saved document must be nested within the
/// parser's recursion limit, as every document that ever came out of a load
/// is.
pub proof fn lemma_load_after_save(
    d: serde_json::Value,
    plan: SavePlan,
    over: Option<Seq<char>>,
    root: Seq<char>,
    ts: Seq<char>,
)
    requires
        doc_is_object(d),
        within_parse_depth(d),
        save_plan_for(plan, d, over, root, ts),
    ensures
        json_value_of(plan.contents@) == Some(plan.document),
        doc_is_object(plan.document),
        doc_fields(plan.document).dom().contains(updated_at_key()),
        doc_fields(plan.document)[updated_at_key()] == json_string(ts),
        forall|k: Seq<char>|
            k != updated_at_key() ==> (#[trigger] doc_fields(plan.document).dom().contains(k)
                <==> doc_fields(d).dom().contains(k)),
        forall|k: Seq<char>|
            k != updated_at_key() && doc_fields(d).dom().contains(k)
                ==> #[trigger] doc_fields(plan.document)[k] == doc_fields(d)[k],
{
}

/// A load never writes, so two loads without an intervening save read the
/// same text and return equal documents.
pub proof fn lemma_reload_idempotent(text: Seq<char>, r1: LoadDecision, r2: LoadDecision)
    requires
        contents_decision(text, r1),
        contents_decision(text, r2),
    ensures
        !(r1 is Materialize),
        !(r2 is Materialize),
        r1 matches LoadDecision::Document(d1) ==> r2 matches LoadDecision::Document(d2) && d1
            == d2,
{
}

} // verus!
