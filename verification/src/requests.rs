//! Construction of the protocol's HTTP requests: for each operation of the
//! remote export sequence, the exact URL and body the dashboard expects,
//! built from the session and handle values the operation depends on.

use vstd::prelude::*;
use crate::text::{dec_str, u64_to_string};

verus! {

/// How a request is to be sent.
#[derive(Debug)]
pub enum HttpMethod {
    Get,
    Post,
}

/// What a request carries.
#[derive(Debug)]
pub enum HttpBody {
    Empty,
    /// A form-urlencoded body text.
    UrlEncoded(String),
    /// Multipart form fields, in order, as (name, value) texts.
    Multipart(Vec<(String, String)>),
}

/// One fully-determined protocol request.
#[derive(Debug)]
pub struct ProtocolRequest {
    pub method: HttpMethod,
    pub url: String,
    pub body: HttpBody,
}

/// The models of multipart fields.
pub open spec fn fields_view(fs: Seq<(String, String)>) -> Seq<(Seq<char>, Seq<char>)> {
    fs.map_values(|p: (String, String)| (p.0@, p.1@))
}

/// The dashboard's embed page, where a session is acquired.
pub open spec fn embed_url_spec() -> Seq<char> {
    "https://iq-analytics.austin.utexas.edu/views/Gradedistributiondashboard/Externaldashboard-Crosstab?%3Aembed=y&%3AisGuestRedirectFromVizportal=n"@
}

/// The embed page URL.
pub fn embed_page_url() -> (r: String)
    ensures
        r@ == embed_url_spec(),
{
    "https://iq-analytics.austin.utexas.edu/views/Gradedistributiondashboard/Externaldashboard-Crosstab?%3Aembed=y&%3AisGuestRedirectFromVizportal=n".to_owned()
}

/// A session-scoped command endpoint.
pub open spec fn command_url_spec(session: Seq<char>, command: Seq<char>) -> Seq<char> {
    "https://iq-analytics.austin.utexas.edu/vizql/w/Gradedistributiondashboard/v/Externaldashboard-Crosstab/sessions/"@
        + session + "/commands/"@ + command
}

fn command_url(session: &str, command: &str) -> (r: String)
    ensures
        r@ == command_url_spec(session@, command@),
{
    let mut url =
        "https://iq-analytics.austin.utexas.edu/vizql/w/Gradedistributiondashboard/v/Externaldashboard-Crosstab/sessions/".to_owned();
    url.append(session);
    url.append("/commands/");
    url.append(command);
    proof {
        assert(url@ =~= command_url_spec(session@, command@));
    }
    url
}

/// The session bootstrap endpoint.
pub open spec fn bootstrap_url_spec(session: Seq<char>) -> Seq<char> {
    "https://iq-analytics.austin.utexas.edu/vizql/w/Gradedistributiondashboard/v/Externaldashboard-Crosstab/bootstrapSession/sessions/"@
        + session
}

/// The fixed urlencoded body that names the sheet being bootstrapped.
pub open spec fn bootstrap_body_spec() -> Seq<char> {
    "sheet_id=External%20dashboard-Crosstab"@
}

/// The request that bootstraps a freshly acquired session.
pub fn bootstrap_request(session: &str) -> (r: ProtocolRequest)
    ensures
        r.method is Post,
        r.url@ == bootstrap_url_spec(session@),
        r.body matches HttpBody::UrlEncoded(b) && b@ == bootstrap_body_spec(),
{
    let mut url =
        "https://iq-analytics.austin.utexas.edu/vizql/w/Gradedistributiondashboard/v/Externaldashboard-Crosstab/bootstrapSession/sessions/".to_owned();
    url.append(session);
    proof {
        assert(url@ =~= bootstrap_url_spec(session@));
    }
    ProtocolRequest {
        method: HttpMethod::Post,
        url,
        body: HttpBody::UrlEncoded("sheet_id=External%20dashboard-Crosstab".to_owned()),
    }
}

/// The worksheet/dashboard pair every categorical filter addresses.
pub open spec fn visual_id_spec() -> Seq<char> {
    "{\"worksheet\":\"Grade distribution - external\",\"dashboard\":\"External dashboard-Crosstab\"}"@
}

/// A dashboard field's fully-qualified name.
pub open spec fn global_field_name_spec(field: Seq<char>) -> Seq<char> {
    "[sqlproxy.1nikk2j199ysrw13cof5d1qn00ff].[none:"@ + field + ":nk]"@
}

fn global_field_name(field: &str) -> (r: String)
    ensures
        r@ == global_field_name_spec(field@),
{
    let mut name = "[sqlproxy.1nikk2j199ysrw13cof5d1qn00ff].[none:".to_owned();
    name.append(field);
    name.append(":nk]");
    proof {
        assert(name@ =~= global_field_name_spec(field@));
    }
    name
}

/// The multipart fields of a select-all categorical filter.
pub open spec fn filter_all_fields_spec(field: Seq<char>) -> Seq<(Seq<char>, Seq<char>)> {
    seq![
        ("visualIdPresModel"@, visual_id_spec()),
        ("membershipTarget"@, "filter"@),
        ("globalFieldName"@, global_field_name_spec(field)),
        ("filterValues"@, "[]"@),
        ("filterUpdateType"@, "filter-all"@),
    ]
}

/// The request that selects every value of a categorical filter field; it
/// affects the next export only.
pub fn filter_all_request(session: &str, field: &str) -> (r: ProtocolRequest)
    ensures
        r.method is Post,
        r.url@ == command_url_spec(session@, "tabdoc/categorical-filter"@),
        r.body matches HttpBody::Multipart(fs) && fields_view(fs@) == filter_all_fields_spec(
            field@,
        ),
{
    let url = command_url(session, "tabdoc/categorical-filter");
    let mut fs: Vec<(String, String)> = Vec::new();
    fs.push(
        (
            "visualIdPresModel".to_owned(),
            "{\"worksheet\":\"Grade distribution - external\",\"dashboard\":\"External dashboard-Crosstab\"}".to_owned(),
        ),
    );
    fs.push(("membershipTarget".to_owned(), "filter".to_owned()));
    fs.push(("globalFieldName".to_owned(), global_field_name(field)));
    fs.push(("filterValues".to_owned(), "[]".to_owned()));
    fs.push(("filterUpdateType".to_owned(), "filter-all".to_owned()));
    proof {
        assert(fields_view(fs@) =~~= filter_all_fields_spec(field@));
    }
    ProtocolRequest { method: HttpMethod::Post, url, body: HttpBody::Multipart(fs) }
}

/// The text of a one-element filter index list.
pub open spec fn index_list_spec(index: int) -> Seq<char> {
    "["@ + dec_str(index) + "]"@
}

/// The multipart fields of a select-by-index categorical filter.
pub open spec fn filter_index_fields_spec(field: Seq<char>, index: int) -> Seq<
    (Seq<char>, Seq<char>),
> {
    seq![
        ("visualIdPresModel"@, visual_id_spec()),
        ("membershipTarget"@, "filter"@),
        ("globalFieldName"@, global_field_name_spec(field)),
        ("filterIndices"@, index_list_spec(index)),
        ("filterUpdateType"@, "filter-replace"@),
    ]
}

/// The request that replaces a categorical filter with the single value at
/// a 0-based index; it affects the next export only.
pub fn filter_index_request(session: &str, field: &str, index: usize) -> (r: ProtocolRequest)
    ensures
        r.method is Post,
        r.url@ == command_url_spec(session@, "tabdoc/categorical-filter-by-index"@),
        r.body matches HttpBody::Multipart(fs) && fields_view(fs@) == filter_index_fields_spec(
            field@,
            index as int,
        ),
{
    let url = command_url(session, "tabdoc/categorical-filter-by-index");
    let mut indices = "[".to_owned();
    let index_text = u64_to_string(index as u64);
    indices.append(index_text.as_str());
    indices.append("]");
    proof {
        assert(indices@ =~= index_list_spec(index as int));
    }
    let mut fs: Vec<(String, String)> = Vec::new();
    fs.push(
        (
            "visualIdPresModel".to_owned(),
            "{\"worksheet\":\"Grade distribution - external\",\"dashboard\":\"External dashboard-Crosstab\"}".to_owned(),
        ),
    );
    fs.push(("membershipTarget".to_owned(), "filter".to_owned()));
    fs.push(("globalFieldName".to_owned(), global_field_name(field)));
    fs.push(("filterIndices".to_owned(), indices));
    fs.push(("filterUpdateType".to_owned(), "filter-replace".to_owned()));
    proof {
        assert(fields_view(fs@) =~~= filter_index_fields_spec(field@, index as int));
    }
    ProtocolRequest { method: HttpMethod::Post, url, body: HttpBody::Multipart(fs) }
}

/// The multipart fields that set the display parameter to "Expanded".
pub open spec fn set_expanded_fields_spec() -> Seq<(Seq<char>, Seq<char>)> {
    seq![
        ("globalFieldName"@, "[Parameters].[Parameter 1]"@),
        ("valueString"@, "Expanded"@),
        ("useUsLocale"@, "false"@),
    ]
}

/// The request that sets the display parameter to "Expanded", widening the
/// row granularity of subsequent exports.
pub fn set_expanded_request(session: &str) -> (r: ProtocolRequest)
    ensures
        r.method is Post,
        r.url@ == command_url_spec(session@, "tabdoc/set-parameter-value"@),
        r.body matches HttpBody::Multipart(fs) && fields_view(fs@) == set_expanded_fields_spec(),
{
    let url = command_url(session, "tabdoc/set-parameter-value");
    let mut fs: Vec<(String, String)> = Vec::new();
    fs.push(("globalFieldName".to_owned(), "[Parameters].[Parameter 1]".to_owned()));
    fs.push(("valueString".to_owned(), "Expanded".to_owned()));
    fs.push(("useUsLocale".to_owned(), "false".to_owned()));
    proof {
        assert(fields_view(fs@) =~~= set_expanded_fields_spec());
    }
    ProtocolRequest { method: HttpMethod::Post, url, body: HttpBody::Multipart(fs) }
}

/// The fixed thumbnail listing the export dialog is asked with.
pub open spec fn thumbnail_uris_spec() -> Seq<char> {
    "{\"External dashboard-Crosstab\":\"/thumb/views/Gradedistributiondashboard/Externaldashboard-Crosstab\",\"External dashboard-bar graph\":\"/thumb/views/Gradedistributiondashboard/Externaldashboard-bargraph\"}"@
}

/// The multipart fields of the export dialog request.
pub open spec fn export_dialog_fields_spec() -> Seq<(Seq<char>, Seq<char>)> {
    seq![("thumbnailUris"@, thumbnail_uris_spec())]
}

/// The request that opens the crosstab export dialog; its response carries
/// the sheet-document identifier.
pub fn export_dialog_request(session: &str) -> (r: ProtocolRequest)
    ensures
        r.method is Post,
        r.url@ == command_url_spec(session@, "tabsrv/export-crosstab-server-dialog"@),
        r.body matches HttpBody::Multipart(fs) && fields_view(fs@) == export_dialog_fields_spec(),
{
    let url = command_url(session, "tabsrv/export-crosstab-server-dialog");
    let mut fs: Vec<(String, String)> = Vec::new();
    fs.push(
        (
            "thumbnailUris".to_owned(),
            "{\"External dashboard-Crosstab\":\"/thumb/views/Gradedistributiondashboard/Externaldashboard-Crosstab\",\"External dashboard-bar graph\":\"/thumb/views/Gradedistributiondashboard/Externaldashboard-bargraph\"}".to_owned(),
        ),
    );
    proof {
        assert(fields_view(fs@) =~~= export_dialog_fields_spec());
    }
    ProtocolRequest { method: HttpMethod::Post, url, body: HttpBody::Multipart(fs) }
}

/// The multipart fields that start a crosstab export to CSV.
pub open spec fn start_export_fields_spec(sheet_doc_id: Seq<char>) -> Seq<(Seq<char>, Seq<char>)> {
    seq![
        ("sheetdocId"@, sheet_doc_id),
        ("useTabs"@, "false"@),
        ("sendNotifications"@, "false"@),
    ]
}

/// The request that starts a crosstab export for a sheet document; its
/// response carries the single-use result key.
pub fn start_export_request(session: &str, sheet_doc_id: &str) -> (r: ProtocolRequest)
    ensures
        r.method is Post,
        r.url@ == command_url_spec(session@, "tabsrv/export-crosstab-to-csvserver"@),
        r.body matches HttpBody::Multipart(fs) && fields_view(fs@) == start_export_fields_spec(
            sheet_doc_id@,
        ),
{
    let url = command_url(session, "tabsrv/export-crosstab-to-csvserver");
    let mut fs: Vec<(String, String)> = Vec::new();
    fs.push(("sheetdocId".to_owned(), sheet_doc_id.to_owned()));
    fs.push(("useTabs".to_owned(), "false".to_owned()));
    fs.push(("sendNotifications".to_owned(), "false".to_owned()));
    proof {
        assert(fields_view(fs@) =~~= start_export_fields_spec(sheet_doc_id@));
    }
    ProtocolRequest { method: HttpMethod::Post, url, body: HttpBody::Multipart(fs) }
}

/// The temp-file endpoint an exported payload is downloaded from.
pub open spec fn download_url_spec(session: Seq<char>, result_key: Seq<char>) -> Seq<char> {
    "https://iq-analytics.austin.utexas.edu/vizql/w/Gradedistributiondashboard/v/Externaldashboard-Crosstab/tempfile/sessions/"@
        + session + "/?key="@ + result_key
}

/// The download URL for an export's result key.
pub fn download_url(session: &str, result_key: &str) -> (r: String)
    ensures
        r@ == download_url_spec(session@, result_key@),
{
    let mut url =
        "https://iq-analytics.austin.utexas.edu/vizql/w/Gradedistributiondashboard/v/Externaldashboard-Crosstab/tempfile/sessions/".to_owned();
    url.append(session);
    url.append("/?key=");
    url.append(result_key);
    proof {
        assert(url@ =~= download_url_spec(session@, result_key@));
    }
    url
}

} // verus!
