//! The fetch → edit → submit flow behind the `edit` verb.
//!
//! The flow is a forward-only state machine. It starts in the fetching
//! phase; only a fetch that returned status 200 moves it to the editing
//! phase (any other outcome is fatal with exit code 2); and only the editing
//! phase can produce the update request, whose body is the edited text
//! exactly as written back. Malformed edited text is a recoverable
//! validation error, not a crash.

use vstd::prelude::*;
use crate::errors::{CliError, ValidationKind};
use crate::payload::{json_parse_ok, json_wf};
use crate::request::{get_request_v, put_request_v, HttpRequest};

verus! {

/// Where an edit flow stands.
pub enum EditPhase {
    /// The document has not been fetched yet.
    Fetching,
    /// The fetch returned; its status and body are recorded.
    Editing { fetched_body: String, fetch_status: u16 },
}

/// The mathematical value of an [`EditPhase`].
pub enum EditPhaseV {
    Fetching,
    Editing { fetched_body: Seq<char>, fetch_status: u16 },
}

impl View for EditPhase {
    type V = EditPhaseV;

    open spec fn view(&self) -> EditPhaseV {
        match self {
            EditPhase::Fetching => EditPhaseV::Fetching,
            EditPhase::Editing { fetched_body, fetch_status } => EditPhaseV::Editing {
                fetched_body: fetched_body@,
                fetch_status: *fetch_status,
            },
        }
    }
}

/// One interactive edit of one resource item.
pub struct EditFlow {
    item_url: String,
    bearer_token: String,
    phase: EditPhase,
}

/// The mathematical value of an [`EditFlow`].
pub struct EditFlowV {
    pub item_url: Seq<char>,
    pub bearer_token: Seq<char>,
    pub phase: EditPhaseV,
}

impl View for EditFlow {
    type V = EditFlowV;

    closed spec fn view(&self) -> EditFlowV {
        EditFlowV {
            item_url: self.item_url@,
            bearer_token: self.bearer_token@,
            phase: self.phase@,
        }
    }
}

impl EditFlowV {
    /// The editing phase is only ever entered on a fetch that returned 200.
    pub open spec fn wf(self) -> bool {
        self.phase matches EditPhaseV::Editing { fetch_status, .. } ==> fetch_status == 200
    }
}

/// What a completed fetch leads to.
pub enum FetchStep {
    /// The fetch succeeded; the flow may present the body to the editor.
    Editor(EditFlow),
    /// The fetch failed; the invocation is over, with this exit code.
    Fatal(u8),
}

/// The mathematical value of a [`FetchStep`].
pub enum FetchStepV {
    Editor(EditFlowV),
    Fatal(u8),
}

impl View for FetchStep {
    type V = FetchStepV;

    open spec fn view(&self) -> FetchStepV {
        match self {
            FetchStep::Editor(f) => FetchStepV::Editor(f@),
            FetchStep::Fatal(c) => FetchStepV::Fatal(*c),
        }
    }
}

/// What the edited text leads to.
pub enum SubmitStep {
    /// The text parses as JSON: this update request submits it verbatim.
    Submit(HttpRequest),
    /// The text is not JSON; the error is recoverable, nothing is sent.
    Invalid(CliError),
}

/// The mathematical value of a [`SubmitStep`].
pub enum SubmitStepV {
    Submit(crate::request::HttpRequestV),
    Invalid(CliError),
}

impl View for SubmitStep {
    type V = SubmitStepV;

    open spec fn view(&self) -> SubmitStepV {
        match self {
            SubmitStep::Submit(r) => SubmitStepV::Submit(r@),
            SubmitStep::Invalid(e) => SubmitStepV::Invalid(*e),
        }
    }
}

/// The flow after its fetch returned: status 200 enters the editing phase
/// with the body recorded verbatim; anything else ends the invocation with
/// exit code 2.
pub open spec fn spec_after_fetch(f: EditFlowV, status: u16, body: Seq<char>) -> FetchStepV {
    if status == 200 {
        FetchStepV::Editor(
            EditFlowV {
                item_url: f.item_url,
                bearer_token: f.bearer_token,
                phase: EditPhaseV::Editing { fetched_body: body, fetch_status: 200 },
            },
        )
    } else {
        FetchStepV::Fatal(2)
    }
}

/// The outcome of submitting the edited text: if it parses as JSON, an
/// update request that carries the text byte for byte; otherwise a
/// recoverable validation error.
pub open spec fn spec_submit(f: EditFlowV, text: Seq<char>) -> SubmitStepV {
    if json_wf(text) {
        SubmitStepV::Submit(put_request_v(f.item_url, f.bearer_token, text))
    } else {
        SubmitStepV::Invalid(CliError::ValidationError { kind: ValidationKind::InvalidPayload })
    }
}

impl EditFlow {
    /// Begins an edit of the item at `item_url`, authenticated as `bearer_token`.
    pub fn start(item_url: String, bearer_token: String) -> (f: EditFlow)
        ensures
            f@.item_url == item_url@,
            f@.bearer_token == bearer_token@,
            f@.phase is Fetching,
            f@.wf(),
    {
        EditFlow { item_url, bearer_token, phase: EditPhase::Fetching }
    }

    /// The mandatory fetch that precedes any edit.
    pub fn fetch_request(&self) -> (req: HttpRequest)
        requires
            self@.phase is Fetching,
        ensures
            req@ == get_request_v(self@.item_url, self@.bearer_token),
    {
        HttpRequest {
            method: crate::request::Method::Get,
            url: self.item_url.clone(),
            bearer_token: self.bearer_token.clone(),
            content_type_json: false,
            body: None,
        }
    }

    /// Records the fetch outcome. Only status 200 lets the flow continue.
    pub fn on_fetch_response(self, status: u16, body: String) -> (r: FetchStep)
        requires
            self@.phase is Fetching,
        ensures
            r@ == spec_after_fetch(self@, status, body@),
            r@ matches FetchStepV::Editor(f2) ==> f2.wf(),
    {
        if status == 200 {
            FetchStep::Editor(
                EditFlow {
                    item_url: self.item_url,
                    bearer_token: self.bearer_token,
                    phase: EditPhase::Editing { fetched_body: body, fetch_status: status },
                },
            )
        } else {
            FetchStep::Fatal(2)
        }
    }

    /// The fetched document, exactly as the registry returned it.
    pub fn fetched_body(&self) -> (b: &String)
        requires
            self@.phase is Editing,
        ensures
            self@.phase matches EditPhaseV::Editing { fetched_body, .. } && b@ == fetched_body,
    {
        match &self.phase {
            EditPhase::Editing { fetched_body, .. } => fetched_body,
            EditPhase::Fetching => unreached(),
        }
    }

    /// Takes the text the editor wrote back and either produces the update
    /// request that submits it verbatim, or rejects it as malformed JSON.
    pub fn on_editor_result(&self, text: String) -> (r: SubmitStep)
        requires
            self@.phase is Editing,
        ensures
            r@ == spec_submit(self@, text@),
    {
        if json_parse_ok(text.as_str()) {
            SubmitStep::Submit(
                HttpRequest {
                    method: crate::request::Method::Put,
                    url: self.item_url.clone(),
                    bearer_token: self.bearer_token.clone(),
                    content_type_json: true,
                    body: Some(text),
                },
            )
        } else {
            SubmitStep::Invalid(CliError::ValidationError { kind: ValidationKind::InvalidPayload })
        }
    }
}

/// An update is issued only after a read of the same item returned 200:
/// the only way into the editing phase is a fetch whose status was 200, the
/// flow keeps pointing at the item it fetched, and every other fetch outcome
/// is fatal with exit code 2 before any update request exists.
pub proof fn lemma_update_only_after_ok_fetch(f: EditFlowV, status: u16, body: Seq<char>)
    requires
        f.phase is Fetching,
    ensures
        spec_after_fetch(f, status, body) matches FetchStepV::Editor(f2) ==> status == 200
            && f2.item_url == f.item_url && f2.wf() && f2.phase == (EditPhaseV::Editing {
            fetched_body: body,
            fetch_status: 200u16,
        }),
        status != 200 ==> spec_after_fetch(f, status, body) == FetchStepV::Fatal(2u8),
{
}

/// A no-op edit is idempotent on the wire: submitting the fetched document
/// unchanged produces an update whose body is byte for byte the fetched
/// body, whenever that body parses as JSON at all.
pub proof fn lemma_noop_edit(f: EditFlowV)
    requires
        f.phase is Editing,
    ensures
        f.phase matches EditPhaseV::Editing { fetched_body, .. } ==> (json_wf(fetched_body)
            ==> (spec_submit(f, fetched_body) matches SubmitStepV::Submit(req) && req.body == Some(
            fetched_body,
        ) && req.url == f.item_url && req.method == crate::request::Method::Put)),
{
}

} // verus!
