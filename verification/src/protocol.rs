//! The export protocol as an explicit state machine. The server is
//! stateful and the call order is fixed: acquire a session, bootstrap it,
//! issue the two select-all filters and the expanded display parameter, and
//! then, once per reporting period, reissue the period filter and run the
//! export sequence (dialog, start, download). The machine's phases encode
//! that order; a driver performs each requested action and feeds the
//! outcome back in.

use vstd::prelude::*;
use vstd::pervasive::unreached;
use crate::jsonpath::{
    parse_json, path_view, string_at_path_spec, session_id_spec, session_id_from_page,
    extract_string_at, PathSeg, PathSegV, ProtocolError, ProtocolErrorV,
};
use crate::requests::{
    bootstrap_body_spec, bootstrap_request, bootstrap_url_spec, command_url_spec, download_url,
    download_url_spec, embed_page_url, embed_url_spec, export_dialog_fields_spec,
    export_dialog_request, fields_view, filter_all_fields_spec, filter_all_request,
    filter_index_fields_spec, filter_index_request, set_expanded_fields_spec,
    set_expanded_request, start_export_fields_spec, start_export_request, HttpBody,
    ProtocolRequest,
};
use crate::text::dec_str;
use crate::text::u64_to_string;

verus! {

/// The fixed path of the sheet-document identifier in the export dialog's
/// response body.
pub open spec fn sheet_doc_path_spec() -> Seq<PathSegV> {
    seq![
        PathSegV::Key("vqlCmdResponse"@),
        PathSegV::Key("layoutStatus"@),
        PathSegV::Key("applicationPresModel"@),
        PathSegV::Key("presentationLayerNotification"@),
        PathSegV::Index(0),
        PathSegV::Key("presModelHolder"@),
        PathSegV::Key("genExportCrosstabOptionsDialogPresModel"@),
        PathSegV::Key("thumbnailSheetPickerItems"@),
        PathSegV::Index(0),
        PathSegV::Key("sheetdocId"@),
    ]
}

fn sheet_doc_path() -> (p: Vec<PathSeg>)
    ensures
        path_view(p@) == sheet_doc_path_spec(),
{
    let mut p: Vec<PathSeg> = Vec::new();
    p.push(PathSeg::Key("vqlCmdResponse".to_owned()));
    p.push(PathSeg::Key("layoutStatus".to_owned()));
    p.push(PathSeg::Key("applicationPresModel".to_owned()));
    p.push(PathSeg::Key("presentationLayerNotification".to_owned()));
    p.push(PathSeg::Index(0));
    p.push(PathSeg::Key("presModelHolder".to_owned()));
    p.push(PathSeg::Key("genExportCrosstabOptionsDialogPresModel".to_owned()));
    p.push(PathSeg::Key("thumbnailSheetPickerItems".to_owned()));
    p.push(PathSeg::Index(0));
    p.push(PathSeg::Key("sheetdocId".to_owned()));
    proof {
        assert(path_view(p@) =~~= sheet_doc_path_spec());
    }
    p
}

/// The fixed path of the result key in the start-export response body.
pub open spec fn result_key_path_spec() -> Seq<PathSegV> {
    seq![
        PathSegV::Key("vqlCmdResponse"@),
        PathSegV::Key("cmdResultList"@),
        PathSegV::Index(0),
        PathSegV::Key("commandReturn"@),
        PathSegV::Key("exportResult"@),
        PathSegV::Key("resultKey"@),
    ]
}

fn result_key_path() -> (p: Vec<PathSeg>)
    ensures
        path_view(p@) == result_key_path_spec(),
{
    let mut p: Vec<PathSeg> = Vec::new();
    p.push(PathSeg::Key("vqlCmdResponse".to_owned()));
    p.push(PathSeg::Key("cmdResultList".to_owned()));
    p.push(PathSeg::Index(0));
    p.push(PathSeg::Key("commandReturn".to_owned()));
    p.push(PathSeg::Key("exportResult".to_owned()));
    p.push(PathSeg::Key("resultKey".to_owned()));
    proof {
        assert(path_view(p@) =~~= result_key_path_spec());
    }
    p
}

/// What extracting the sheet-document identifier from a dialog response
/// body yields.
pub open spec fn sheet_doc_id_spec(body: Seq<char>) -> Result<Seq<char>, ProtocolErrorV> {
    match crate::jsonpath::json_parsed(body) {
        None => Err(ProtocolErrorV::MalformedJson),
        Some(root) => string_at_path_spec(root, sheet_doc_path_spec()),
    }
}

/// Reads the sheet-document identifier out of the export dialog's response.
pub fn extract_sheet_doc_id(body: &str) -> (r: Result<String, ProtocolError>)
    ensures
        match r {
            Ok(s) => sheet_doc_id_spec(body@) == Ok::<Seq<char>, ProtocolErrorV>(s@),
            Err(e) => sheet_doc_id_spec(body@) == Err::<Seq<char>, ProtocolErrorV>(e@),
        },
{
    let root = match parse_json(body) {
        Some(root) => root,
        None => {
            return Err(ProtocolError::MalformedJson);
        },
    };
    let path = sheet_doc_path();
    extract_string_at(&root, &path)
}

/// What extracting the result key from a start-export response body yields.
pub open spec fn result_key_spec(body: Seq<char>) -> Result<Seq<char>, ProtocolErrorV> {
    match crate::jsonpath::json_parsed(body) {
        None => Err(ProtocolErrorV::MalformedJson),
        Some(root) => string_at_path_spec(root, result_key_path_spec()),
    }
}

/// Reads the result key out of the start-export response.
pub fn extract_result_key(body: &str) -> (r: Result<String, ProtocolError>)
    ensures
        match r {
            Ok(s) => result_key_spec(body@) == Ok::<Seq<char>, ProtocolErrorV>(s@),
            Err(e) => result_key_spec(body@) == Err::<Seq<char>, ProtocolErrorV>(e@),
        },
{
    let root = match parse_json(body) {
        Some(root) => root,
        None => {
            return Err(ProtocolError::MalformedJson);
        },
    };
    let path = result_key_path();
    extract_string_at(&root, &path)
}

/// Where in the required call order a run stands.
#[derive(Clone, Copy, Debug)]
pub enum Phase {
    /// The embed page must be fetched and a session identifier extracted.
    NeedSession,
    /// The session must be bootstrapped.
    NeedBootstrap,
    /// The select-all filter on the calculated grouping field must be issued.
    NeedFilterGroup,
    /// The select-all filter on the course-prefix field must be issued.
    NeedFilterPrefix,
    /// The expanded display parameter must be set.
    NeedExpanded,
    /// The current period's filter must be (re)issued.
    NeedPeriodFilter,
    /// The export dialog must be requested.
    NeedExportDialog,
    /// The crosstab export must be started.
    NeedStartExport,
    /// The exported payload must be downloaded.
    NeedDownload,
    /// Every period has been exported.
    Finished,
}

/// What the driver must do next.
#[derive(Debug)]
pub enum ProtocolAction {
    /// Fetch a page body over GET.
    FetchEmbedPage { url: String },
    /// Send a request whose response body is not read.
    Send { request: ProtocolRequest },
    /// Send a request and hand back its response body.
    SendForBody { request: ProtocolRequest },
    /// Download raw bytes over GET.
    Download { url: String },
    /// Nothing remains.
    Done,
}

/// What performing an action produced.
#[derive(Debug)]
pub enum ProtocolEvent {
    /// The embed page's body.
    PageBody(String),
    /// A request went through; its body is not needed.
    Acked,
    /// A response body that holds JSON to extract from.
    JsonBody(String),
    /// A downloaded payload.
    Payload(Vec<u8>),
}

/// One period's exported bytes, to be written under the period's file name.
#[derive(Debug)]
pub struct PeriodExport {
    pub period: u32,
    pub data: Vec<u8>,
}

/// The calculated grouping field the first select-all filter addresses.
pub open spec fn group_field_spec() -> Seq<char> {
    "Calculation_3161245480939225089"@
}

/// The course-prefix field the second select-all filter addresses.
pub open spec fn prefix_field_spec() -> Seq<char> {
    "COURSE_PREFIX"@
}

/// The academic-year-span field the per-period filter addresses.
pub open spec fn period_field_spec() -> Seq<char> {
    "ACADEMIC_YEAR_SPAN"@
}

/// Drives one export run over an ordered list of reporting periods.
pub struct Orchestrator {
    pub periods: Vec<u32>,
    pub pos: usize,
    pub phase: Phase,
    pub session: Option<String>,
    pub sheet_doc: Option<String>,
    pub result_key: Option<String>,
}

impl Orchestrator {
    /// The state invariant: every phase holds the handles its action needs,
    /// and the position stays within the period list. That a phase later in
    /// the order is only ever reached through the earlier ones is the
    /// machine's structure: `advance` steps one phase at a time.
    pub open spec fn wf(self) -> bool {
        &&& self.pos <= self.periods@.len()
        &&& match self.phase {
            Phase::NeedSession => self.session is None && self.pos == 0,
            Phase::NeedBootstrap => self.session is Some && self.pos == 0,
            Phase::NeedFilterGroup => self.session is Some && self.pos == 0,
            Phase::NeedFilterPrefix => self.session is Some && self.pos == 0,
            Phase::NeedExpanded => self.session is Some && self.pos == 0,
            Phase::NeedPeriodFilter => self.session is Some && self.pos < self.periods@.len(),
            Phase::NeedExportDialog => self.session is Some && self.pos < self.periods@.len(),
            Phase::NeedStartExport => self.session is Some && self.sheet_doc is Some && self.pos
                < self.periods@.len(),
            Phase::NeedDownload => self.session is Some && self.sheet_doc is Some
                && self.result_key is Some && self.pos < self.periods@.len(),
            Phase::Finished => true,
        }
    }

    /// Which event kind performing the current phase's action yields.
    pub open spec fn expects(self, ev: ProtocolEvent) -> bool {
        match self.phase {
            Phase::NeedSession => ev is PageBody,
            Phase::NeedBootstrap => ev is Acked,
            Phase::NeedFilterGroup => ev is Acked,
            Phase::NeedFilterPrefix => ev is Acked,
            Phase::NeedExpanded => ev is Acked,
            Phase::NeedPeriodFilter => ev is Acked,
            Phase::NeedExportDialog => ev is JsonBody,
            Phase::NeedStartExport => ev is JsonBody,
            Phase::NeedDownload => ev is Payload,
            Phase::Finished => false,
        }
    }

    /// The same state in another phase.
    pub open spec fn with_phase(self, p: Phase) -> Orchestrator {
        Orchestrator {
            periods: self.periods,
            pos: self.pos,
            phase: p,
            session: self.session,
            sheet_doc: self.sheet_doc,
            result_key: self.result_key,
        }
    }

    /// Begins a run over the given 0-based period indices, exported in
    /// input order.
    pub fn new(periods: Vec<u32>) -> (o: Orchestrator)
        ensures
            o.wf(),
            o.phase is NeedSession,
            o.periods@ == periods@,
            o.pos == 0,
    {
        Orchestrator {
            periods,
            pos: 0,
            phase: Phase::NeedSession,
            session: None,
            sheet_doc: None,
            result_key: None,
        }
    }

    /// The action the driver must perform in the current state. The phase
    /// order makes the protocol's contract structural: no export dialog is
    /// requested before both select-all filters, the expanded parameter,
    /// and the current period's filter have been issued.
    pub fn next_action(&self) -> (a: ProtocolAction)
        requires
            self.wf(),
        ensures
            match self.phase {
                Phase::NeedSession => a matches ProtocolAction::FetchEmbedPage { url } && url@
                    == embed_url_spec(),
                Phase::NeedBootstrap => a matches ProtocolAction::Send { request }
                    && request.method is Post && request.url@ == bootstrap_url_spec(
                    self.session->0@,
                ) && (request.body matches HttpBody::UrlEncoded(b) && b@ == bootstrap_body_spec()),
                Phase::NeedFilterGroup => a matches ProtocolAction::Send { request }
                    && request.method is Post && request.url@ == command_url_spec(
                    self.session->0@,
                    "tabdoc/categorical-filter"@,
                ) && (request.body matches HttpBody::Multipart(fs) && fields_view(fs@)
                    == filter_all_fields_spec(group_field_spec())),
                Phase::NeedFilterPrefix => a matches ProtocolAction::Send { request }
                    && request.method is Post && request.url@ == command_url_spec(
                    self.session->0@,
                    "tabdoc/categorical-filter"@,
                ) && (request.body matches HttpBody::Multipart(fs) && fields_view(fs@)
                    == filter_all_fields_spec(prefix_field_spec())),
                Phase::NeedExpanded => a matches ProtocolAction::Send { request }
                    && request.method is Post && request.url@ == command_url_spec(
                    self.session->0@,
                    "tabdoc/set-parameter-value"@,
                ) && (request.body matches HttpBody::Multipart(fs) && fields_view(fs@)
                    == set_expanded_fields_spec()),
                Phase::NeedPeriodFilter => a matches ProtocolAction::Send { request }
                    && request.method is Post && request.url@ == command_url_spec(
                    self.session->0@,
                    "tabdoc/categorical-filter-by-index"@,
                ) && (request.body matches HttpBody::Multipart(fs) && fields_view(fs@)
                    == filter_index_fields_spec(
                    period_field_spec(),
                    self.periods@[self.pos as int] as int,
                )),
                Phase::NeedExportDialog => a matches ProtocolAction::SendForBody { request }
                    && request.method is Post && request.url@ == command_url_spec(
                    self.session->0@,
                    "tabsrv/export-crosstab-server-dialog"@,
                ) && (request.body matches HttpBody::Multipart(fs) && fields_view(fs@)
                    == export_dialog_fields_spec()),
                Phase::NeedStartExport => a matches ProtocolAction::SendForBody { request }
                    && request.method is Post && request.url@ == command_url_spec(
                    self.session->0@,
                    "tabsrv/export-crosstab-to-csvserver"@,
                ) && (request.body matches HttpBody::Multipart(fs) && fields_view(fs@)
                    == start_export_fields_spec(self.sheet_doc->0@)),
                Phase::NeedDownload => a matches ProtocolAction::Download { url } && url@
                    == download_url_spec(self.session->0@, self.result_key->0@),
                Phase::Finished => a is Done,
            },
    {
        match self.phase {
            Phase::NeedSession => ProtocolAction::FetchEmbedPage { url: embed_page_url() },
            Phase::NeedBootstrap => {
                let session = match &self.session {
                    Some(s) => s,
                    None => unreached(),
                };
                ProtocolAction::Send { request: bootstrap_request(session.as_str()) }
            },
            Phase::NeedFilterGroup => {
                let session = match &self.session {
                    Some(s) => s,
                    None => unreached(),
                };
                ProtocolAction::Send {
                    request: filter_all_request(
                        session.as_str(),
                        "Calculation_3161245480939225089",
                    ),
                }
            },
            Phase::NeedFilterPrefix => {
                let session = match &self.session {
                    Some(s) => s,
                    None => unreached(),
                };
                ProtocolAction::Send {
                    request: filter_all_request(session.as_str(), "COURSE_PREFIX"),
                }
            },
            Phase::NeedExpanded => {
                let session = match &self.session {
                    Some(s) => s,
                    None => unreached(),
                };
                ProtocolAction::Send { request: set_expanded_request(session.as_str()) }
            },
            Phase::NeedPeriodFilter => {
                let session = match &self.session {
                    Some(s) => s,
                    None => unreached(),
                };
                let index = self.periods[self.pos] as usize;
                ProtocolAction::Send {
                    request: filter_index_request(session.as_str(), "ACADEMIC_YEAR_SPAN", index),
                }
            },
            Phase::NeedExportDialog => {
                let session = match &self.session {
                    Some(s) => s,
                    None => unreached(),
                };
                ProtocolAction::SendForBody { request: export_dialog_request(session.as_str()) }
            },
            Phase::NeedStartExport => {
                let session = match &self.session {
                    Some(s) => s,
                    None => unreached(),
                };
                let sheet_doc = match &self.sheet_doc {
                    Some(d) => d,
                    None => unreached(),
                };
                ProtocolAction::SendForBody {
                    request: start_export_request(session.as_str(), sheet_doc.as_str()),
                }
            },
            Phase::NeedDownload => {
                let session = match &self.session {
                    Some(s) => s,
                    None => unreached(),
                };
                let result_key = match &self.result_key {
                    Some(k) => k,
                    None => unreached(),
                };
                ProtocolAction::Download {
                    url: download_url(session.as_str(), result_key.as_str()),
                }
            },
            Phase::Finished => ProtocolAction::Done,
        }
    }

    /// Feeds back what performing the current action produced. A protocol
    /// error aborts the run and leaves the state untouched; the run is then
    /// over as a whole (fail-fast, no per-period retry). A downloaded
    /// payload comes back out with the period index it belongs to.
    pub fn advance(&mut self, ev: ProtocolEvent) -> (r: Result<Option<PeriodExport>, ProtocolError>)
        requires
            old(self).wf(),
            old(self).expects(ev),
        ensures
            final(self).wf(),
            final(self).periods@ == old(self).periods@,
            match old(self).phase {
                Phase::NeedSession => (match session_id_spec(ev->PageBody_0@) {
                    Ok(sid) => {
                        &&& r == Ok::<Option<PeriodExport>, ProtocolError>(None)
                        &&& final(self).phase is NeedBootstrap
                        &&& final(self).session matches Some(s) && s@ == sid
                        &&& final(self).pos == 0
                    },
                    Err(e) => r matches Err(e2) && e2@ == e && *final(self) == *old(self),
                }),
                Phase::NeedBootstrap => r == Ok::<Option<PeriodExport>, ProtocolError>(None)
                    && *final(self) == old(self).with_phase(Phase::NeedFilterGroup),
                Phase::NeedFilterGroup => r == Ok::<Option<PeriodExport>, ProtocolError>(None)
                    && *final(self) == old(self).with_phase(Phase::NeedFilterPrefix),
                Phase::NeedFilterPrefix => r == Ok::<Option<PeriodExport>, ProtocolError>(None)
                    && *final(self) == old(self).with_phase(Phase::NeedExpanded),
                Phase::NeedExpanded => r == Ok::<Option<PeriodExport>, ProtocolError>(None)
                    && *final(self) == old(self).with_phase(
                    if old(self).periods@.len() == 0 {
                        Phase::Finished
                    } else {
                        Phase::NeedPeriodFilter
                    },
                ),
                Phase::NeedPeriodFilter => r == Ok::<Option<PeriodExport>, ProtocolError>(None)
                    && *final(self) == old(self).with_phase(Phase::NeedExportDialog),
                Phase::NeedExportDialog => (match sheet_doc_id_spec(ev->JsonBody_0@) {
                    Ok(id) => {
                        &&& r == Ok::<Option<PeriodExport>, ProtocolError>(None)
                        &&& final(self).phase is NeedStartExport
                        &&& final(self).sheet_doc matches Some(d) && d@ == id
                        &&& final(self).session == old(self).session
                        &&& final(self).pos == old(self).pos
                    },
                    Err(e) => r matches Err(e2) && e2@ == e && *final(self) == *old(self),
                }),
                Phase::NeedStartExport => (match result_key_spec(ev->JsonBody_0@) {
                    Ok(key) => {
                        &&& r == Ok::<Option<PeriodExport>, ProtocolError>(None)
                        &&& final(self).phase is NeedDownload
                        &&& final(self).result_key matches Some(k) && k@ == key
                        &&& final(self).session == old(self).session
                        &&& final(self).sheet_doc == old(self).sheet_doc
                        &&& final(self).pos == old(self).pos
                    },
                    Err(e) => r matches Err(e2) && e2@ == e && *final(self) == *old(self),
                }),
                Phase::NeedDownload => {
                    &&& r matches Ok(Some(px)) && px.period == old(self).periods@[old(
                        self,
                    ).pos as int] && px.data@ == ev->Payload_0@
                    &&& final(self).pos == old(self).pos + 1
                    &&& (if old(self).pos + 1 == old(self).periods@.len() {
                        final(self).phase is Finished
                    } else {
                        final(self).phase is NeedPeriodFilter
                    })
                    &&& final(self).session == old(self).session
                    &&& final(self).sheet_doc is None
                    &&& final(self).result_key is None
                },
                Phase::Finished => true,
            },
    {
        match self.phase {
            Phase::NeedSession => {
                let html = match ev {
                    ProtocolEvent::PageBody(h) => h,
                    _ => unreached(),
                };
                match session_id_from_page(html.as_str()) {
                    Ok(sid) => {
                        self.session = Some(sid);
                        self.phase = Phase::NeedBootstrap;
                        Ok(None)
                    },
                    Err(e) => Err(e),
                }
            },
            Phase::NeedBootstrap => {
                self.phase = Phase::NeedFilterGroup;
                Ok(None)
            },
            Phase::NeedFilterGroup => {
                self.phase = Phase::NeedFilterPrefix;
                Ok(None)
            },
            Phase::NeedFilterPrefix => {
                self.phase = Phase::NeedExpanded;
                Ok(None)
            },
            Phase::NeedExpanded => {
                if self.periods.len() == 0 {
                    self.phase = Phase::Finished;
                } else {
                    self.phase = Phase::NeedPeriodFilter;
                }
                Ok(None)
            },
            Phase::NeedPeriodFilter => {
                self.phase = Phase::NeedExportDialog;
                Ok(None)
            },
            Phase::NeedExportDialog => {
                let body = match ev {
                    ProtocolEvent::JsonBody(b) => b,
                    _ => unreached(),
                };
                match extract_sheet_doc_id(body.as_str()) {
                    Ok(id) => {
                        self.sheet_doc = Some(id);
                        self.phase = Phase::NeedStartExport;
                        Ok(None)
                    },
                    Err(e) => Err(e),
                }
            },
            Phase::NeedStartExport => {
                let body = match ev {
                    ProtocolEvent::JsonBody(b) => b,
                    _ => unreached(),
                };
                match extract_result_key(body.as_str()) {
                    Ok(key) => {
                        self.result_key = Some(key);
                        self.phase = Phase::NeedDownload;
                        Ok(None)
                    },
                    Err(e) => Err(e),
                }
            },
            Phase::NeedDownload => {
                let data = match ev {
                    ProtocolEvent::Payload(d) => d,
                    _ => unreached(),
                };
                let len = self.periods.len();
                proof {
                    assert(self.pos < len);
                }
                let period = self.periods[self.pos];
                self.pos = self.pos + 1;
                self.sheet_doc = None;
                self.result_key = None;
                if self.pos == self.periods.len() {
                    self.phase = Phase::Finished;
                } else {
                    self.phase = Phase::NeedPeriodFilter;
                }
                Ok(Some(PeriodExport { period, data }))
            },
            Phase::Finished => unreached(),
        }
    }
}

/// The thirteen reporting periods the dashboard serves, as 0-based indices
/// of the academic-year-span filter.
pub fn default_periods() -> (v: Vec<u32>)
    ensures
        v@.len() == 13,
        forall|i: int| 0 <= i < 13 ==> v@[i] == i,
{
    let mut v: Vec<u32> = Vec::new();
    let mut i: u32 = 0;
    while i < 13
        invariant
            0 <= i <= 13,
            v@.len() == i,
            forall|j: int| 0 <= j < i ==> v@[j] == j,
        decreases 13 - i,
    {
        v.push(i);
        i += 1;
    }
    v
}

/// The raw export file name of a period: the calendar-year span its 0-based
/// index stands for.
pub open spec fn export_file_name_spec(period: int) -> Seq<char> {
    "grade_distributions_"@ + dec_str(2010 + period) + "-"@ + dec_str(2011 + period) + ".csv"@
}

/// Writes the raw export file name of a period.
pub fn export_file_name(period: u32) -> (r: String)
    ensures
        r@ == export_file_name_spec(period as int),
{
    let mut name = "grade_distributions_".to_owned();
    let first_year = u64_to_string(period as u64 + 2010);
    name.append(first_year.as_str());
    name.append("-");
    let second_year = u64_to_string(period as u64 + 2011);
    name.append(second_year.as_str());
    name.append(".csv");
    proof {
        assert(name@ =~= export_file_name_spec(period as int));
    }
    name
}

} // verus!
