use gradedist::jsonpath::{session_id_from_config, session_id_from_page, ProtocolError};
use gradedist::protocol::{
    default_periods, export_file_name, extract_result_key, extract_sheet_doc_id, Orchestrator,
    Phase, ProtocolAction, ProtocolEvent,
};
use gradedist::requests::{
    bootstrap_request, download_url, filter_all_request, filter_index_request, HttpBody,
};
use gradedist::table::table_name_for_file;

#[test]
fn session_id_read_from_config_blob() {
    let blob = "{\"sessionid\":\"ABC123-0:0\",\"other\":4}";
    assert_eq!(session_id_from_config(blob).unwrap(), "ABC123-0:0");
}

#[test]
fn malformed_config_blob_reported() {
    assert!(matches!(
        session_id_from_config("not json at all"),
        Err(ProtocolError::MalformedJson)
    ));
}

#[test]
fn missing_session_field_reported() {
    match session_id_from_config("{\"something\":1}") {
        Err(ProtocolError::MissingField { field }) => assert_eq!(field, "sessionid"),
        other => panic!("expected a missing-field error, got {:?}", other),
    }
}

#[test]
fn non_string_session_field_reported() {
    assert!(matches!(
        session_id_from_config("{\"sessionid\":17}"),
        Err(ProtocolError::MissingField { .. })
    ));
}

#[test]
fn session_id_read_from_embed_page() {
    let html = "<html><body><textarea id=\"tsConfigContainer\">{\"sessionid\":\"S42\"}</textarea></body></html>";
    assert_eq!(session_id_from_page(html).unwrap(), "S42");
}

#[test]
fn embed_page_without_config_element_reported() {
    let html = "<html><body><p>nothing here</p></body></html>";
    assert!(matches!(
        session_id_from_page(html),
        Err(ProtocolError::MissingElement)
    ));
}

#[test]
fn sheet_doc_id_extracted_from_nested_response() {
    let body = "{\"vqlCmdResponse\":{\"layoutStatus\":{\"applicationPresModel\":{\"presentationLayerNotification\":[{\"presModelHolder\":{\"genExportCrosstabOptionsDialogPresModel\":{\"thumbnailSheetPickerItems\":[{\"sheetdocId\":\"DOC-7\"}]}}}]}}}}";
    assert_eq!(extract_sheet_doc_id(body).unwrap(), "DOC-7");
}

#[test]
fn sheet_doc_id_missing_segment_named() {
    let body = "{\"vqlCmdResponse\":{\"layoutStatus\":{}}}";
    match extract_sheet_doc_id(body) {
        Err(ProtocolError::UnexpectedShape { segment }) => {
            assert_eq!(segment, "applicationPresModel")
        }
        other => panic!("expected an unexpected-shape error, got {:?}", other),
    }
}

#[test]
fn result_key_extracted_from_nested_response() {
    let body = "{\"vqlCmdResponse\":{\"cmdResultList\":[{\"commandReturn\":{\"exportResult\":{\"resultKey\":\"K99\"}}}]}}";
    assert_eq!(extract_result_key(body).unwrap(), "K99");
}

#[test]
fn result_key_empty_list_names_index_segment() {
    let body = "{\"vqlCmdResponse\":{\"cmdResultList\":[]}}";
    match extract_result_key(body) {
        Err(ProtocolError::UnexpectedShape { segment }) => assert_eq!(segment, "0"),
        other => panic!("expected an unexpected-shape error, got {:?}", other),
    }
}

#[test]
fn malformed_export_response_reported() {
    assert!(matches!(
        extract_sheet_doc_id("<html>error page</html>"),
        Err(ProtocolError::MalformedJson)
    ));
}

#[test]
fn bootstrap_request_shape() {
    let r = bootstrap_request("S1");
    assert_eq!(
        r.url,
        "https://iq-analytics.austin.utexas.edu/vizql/w/Gradedistributiondashboard/v/Externaldashboard-Crosstab/bootstrapSession/sessions/S1"
    );
    match &r.body {
        HttpBody::UrlEncoded(b) => assert_eq!(b, "sheet_id=External%20dashboard-Crosstab"),
        other => panic!("expected a urlencoded body, got {:?}", other),
    }
}

#[test]
fn filter_requests_shape() {
    let r = filter_all_request("S1", "COURSE_PREFIX");
    match &r.body {
        HttpBody::Multipart(fs) => {
            assert_eq!(fs.len(), 5);
            assert_eq!(fs[2].0, "globalFieldName");
            assert_eq!(
                fs[2].1,
                "[sqlproxy.1nikk2j199ysrw13cof5d1qn00ff].[none:COURSE_PREFIX:nk]"
            );
            assert_eq!(fs[4].1, "filter-all");
        }
        _ => panic!("expected multipart fields"),
    }
    let r = filter_index_request("S1", "ACADEMIC_YEAR_SPAN", 12);
    match &r.body {
        HttpBody::Multipart(fs) => {
            assert_eq!(fs[3].0, "filterIndices");
            assert_eq!(fs[3].1, "[12]");
            assert_eq!(fs[4].1, "filter-replace");
        }
        _ => panic!("expected multipart fields"),
    }
}

#[test]
fn download_url_shape() {
    assert_eq!(
        download_url("S1", "K7"),
        "https://iq-analytics.austin.utexas.edu/vizql/w/Gradedistributiondashboard/v/Externaldashboard-Crosstab/tempfile/sessions/S1/?key=K7"
    );
}

#[test]
fn orchestrator_runs_whole_sequence_in_order() {
    let mut o = Orchestrator::new(vec![0, 1]);
    let page = "<div id=\"tsConfigContainer\">{\"sessionid\":\"S9\"}</div>".to_string();
    assert!(matches!(o.next_action(), ProtocolAction::FetchEmbedPage { .. }));
    assert!(o.advance(ProtocolEvent::PageBody(page)).unwrap().is_none());
    // bootstrap, the two select-all filters, the expanded parameter
    for _ in 0..4 {
        assert!(matches!(o.next_action(), ProtocolAction::Send { .. }));
        assert!(o.advance(ProtocolEvent::Acked).unwrap().is_none());
    }
    let dialog = "{\"vqlCmdResponse\":{\"layoutStatus\":{\"applicationPresModel\":{\"presentationLayerNotification\":[{\"presModelHolder\":{\"genExportCrosstabOptionsDialogPresModel\":{\"thumbnailSheetPickerItems\":[{\"sheetdocId\":\"D1\"}]}}}]}}}}".to_string();
    let start = "{\"vqlCmdResponse\":{\"cmdResultList\":[{\"commandReturn\":{\"exportResult\":{\"resultKey\":\"K1\"}}}]}}".to_string();
    for expected_period in [0u32, 1u32] {
        // the period filter is reissued before each export sequence
        match o.next_action() {
            ProtocolAction::Send { request } => {
                let fs = match request.body {
                    HttpBody::Multipart(fs) => fs,
                    _ => panic!("expected multipart fields"),
                };
                assert_eq!(fs[3].1, format!("[{}]", expected_period));
            }
            other => panic!("expected the period filter, got {:?}", other),
        }
        assert!(o.advance(ProtocolEvent::Acked).unwrap().is_none());
        assert!(matches!(o.next_action(), ProtocolAction::SendForBody { .. }));
        assert!(o.advance(ProtocolEvent::JsonBody(dialog.clone())).unwrap().is_none());
        assert!(matches!(o.next_action(), ProtocolAction::SendForBody { .. }));
        assert!(o.advance(ProtocolEvent::JsonBody(start.clone())).unwrap().is_none());
        match o.next_action() {
            ProtocolAction::Download { url } => assert!(url.ends_with("/?key=K1")),
            _ => panic!("expected a download action"),
        }
        let export = o
            .advance(ProtocolEvent::Payload(vec![1, 2, 3]))
            .unwrap()
            .unwrap();
        assert_eq!(export.period, expected_period);
        assert_eq!(export.data, vec![1, 2, 3]);
    }
    assert!(matches!(o.next_action(), ProtocolAction::Done));
    assert!(matches!(o.phase, Phase::Finished));
}

#[test]
fn orchestrator_aborts_on_bad_page() {
    let mut o = Orchestrator::new(vec![0]);
    let r = o.advance(ProtocolEvent::PageBody("<html></html>".to_string()));
    assert!(matches!(r, Err(ProtocolError::MissingElement)));
    assert!(matches!(o.phase, Phase::NeedSession));
}

#[test]
fn default_periods_are_the_thirteen_indices() {
    let periods = default_periods();
    assert_eq!(periods.len(), 13);
    for (i, p) in periods.iter().enumerate() {
        assert_eq!(*p as usize, i);
    }
}

#[test]
fn export_file_names_span_calendar_years() {
    assert_eq!(export_file_name(0), "grade_distributions_2010-2011.csv");
    assert_eq!(export_file_name(12), "grade_distributions_2022-2023.csv");
}

#[test]
fn table_name_strips_extension_and_dashes() {
    assert_eq!(
        table_name_for_file("grade_distributions_2010-2011.csv"),
        "grade_distributions_2010_2011"
    );
    assert_eq!(table_name_for_file("plain"), "plain");
    assert_eq!(table_name_for_file("a-b.tar.gz"), "a_b.tar");
}
