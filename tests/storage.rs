use qsl_record::context::{
    callsign_or_default, check_filter, record_from_columns, require_present, QSLContext,
    QslError, RecordFilter,
};
use qsl_record::manager::{
    adif_document, export_page_count, max_page_for, typst_document, QSLManager,
};
use qsl_record::record::{Mode, Timestamp, QSL};

fn new_log(callsign: &str) -> QSLContext {
    QSLContext::open(":memory:", Some(callsign.to_string())).unwrap()
}

fn contact(call: &str, mode: Mode, day: u32, minute: u32) -> QSL {
    QSL {
        id: 0,
        call_number: call.to_string(),
        mode,
        freq: Some("14.070/USB".to_string()),
        datetime: Timestamp::new(2024, 7, day, 12, minute).unwrap(),
        rst_me: Some("599".to_string()),
        qth_me: Some("Beijing".to_string()),
        rig_me: None,
        watt_me: Some("5".to_string()),
        ant_me: None,
        rst_counterpart: Some("579".to_string()),
        qth_counterpart: None,
        rig_counterpart: Some("IC-7300".to_string()),
        watt_counterpart: Some("100.5".to_string()),
        ant_counterpart: None,
        note: Some("nice".to_string()),
    }
}

fn same_but_id(a: &QSL, b: &QSL) -> bool {
    a.call_number == b.call_number
        && a.mode == b.mode
        && a.freq == b.freq
        && a.datetime == b.datetime
        && a.rst_me == b.rst_me
        && a.qth_me == b.qth_me
        && a.rig_me == b.rig_me
        && a.watt_me == b.watt_me
        && a.ant_me == b.ant_me
        && a.rst_counterpart == b.rst_counterpart
        && a.qth_counterpart == b.qth_counterpart
        && a.rig_counterpart == b.rig_counterpart
        && a.watt_counterpart == b.watt_counterpart
        && a.ant_counterpart == b.ant_counterpart
        && a.note == b.note
}

#[test]
fn blank_callsign_becomes_nocall() {
    assert_eq!(callsign_or_default(""), "NOCALL");
    assert_eq!(callsign_or_default("BA1ABC"), "BA1ABC");
    let log = new_log("");
    assert_eq!(log.get_callsign().unwrap(), "NOCALL");
    let log = new_log("BG2XYZ");
    assert_eq!(log.get_callsign().unwrap(), "BG2XYZ");
}

#[test]
fn added_record_reads_back() {
    let log = new_log("BA1ABC");
    let q = contact("JA1XYZ", Mode::CW, 1, 34);
    log.add_qsl(q.clone()).unwrap();
    assert_eq!(log.get_qsl_count().unwrap(), 1);
    let page = log.get_qsl_page(18, 0).unwrap();
    assert_eq!(page.len(), 1);
    assert!(same_but_id(&page[0], &q));
    let id = page[0].id;
    assert!(log.id_is_exist(id).unwrap());
    let again = log.get_qsl_page(18, 0).unwrap();
    assert_eq!(again[0].id, id);
}

#[test]
fn absent_fields_read_back_absent() {
    let log = new_log("BA1ABC");
    let mut q = contact("JA1XYZ", Mode::EYEBALL, 1, 0);
    q.freq = None;
    q.watt_me = None;
    q.watt_counterpart = None;
    q.note = None;
    log.add_qsl(q.clone()).unwrap();
    let page = log.get_qsl_page(18, 0).unwrap();
    assert!(same_but_id(&page[0], &q));
}

#[test]
fn update_of_missing_id_changes_nothing() {
    let log = new_log("BA1ABC");
    let q = contact("JA1XYZ", Mode::CW, 1, 34);
    log.add_qsl(q.clone()).unwrap();
    let mut ghost_record = contact("K1ABC", Mode::SSB, 2, 0);
    ghost_record.id = 4242;
    match log.update(ghost_record) {
        Err(QslError::NotFound { id }) => assert_eq!(id, 4242),
        other => panic!("expected NotFound, got {:?}", other),
    }
    assert_eq!(log.get_qsl_count().unwrap(), 1);
    let page = log.get_qsl_page(18, 0).unwrap();
    assert!(same_but_id(&page[0], &q));
}

#[test]
fn update_replaces_every_field() {
    let log = new_log("BA1ABC");
    log.add_qsl(contact("JA1XYZ", Mode::CW, 1, 34)).unwrap();
    let id = log.get_qsl_page(18, 0).unwrap()[0].id;
    let mut changed = contact("K1ABC", Mode::SSB, 3, 10);
    changed.id = id;
    changed.note = None;
    log.update(changed.clone()).unwrap();
    let page = log.get_qsl_page(18, 0).unwrap();
    assert_eq!(page[0].id, id);
    assert!(same_but_id(&page[0], &changed));
}

#[test]
fn delete_removes_and_rejects_missing() {
    let log = new_log("BA1ABC");
    log.add_qsl(contact("JA1XYZ", Mode::CW, 1, 34)).unwrap();
    let id = log.get_qsl_page(18, 0).unwrap()[0].id;
    match log.delete(id + 1) {
        Err(QslError::NotFound { id: missing }) => assert_eq!(missing, id + 1),
        other => panic!("expected NotFound, got {:?}", other),
    }
    log.delete(id).unwrap();
    assert_eq!(log.get_qsl_count().unwrap(), 0);
    assert!(!log.id_is_exist(id).unwrap());
}

#[test]
fn presence_decision() {
    assert!(require_present(3, Ok(true)).is_ok());
    assert!(matches!(require_present(3, Ok(false)), Err(QslError::NotFound { id: 3 })));
    assert!(matches!(
        require_present(3, Err(QslError::Store { detail: "locked".to_string() })),
        Err(QslError::Store { detail }) if detail == "locked"
    ));
}

#[test]
fn not_found_message() {
    let e = QslError::NotFound { id: 7 };
    assert_eq!(e.message(), "QSL with ID 7 does not exist.");
    let e = QslError::NotFound { id: -7 };
    assert_eq!(e.message(), "QSL with ID -7 does not exist.");
}

#[test]
fn pages_of_thirty_seven_records() {
    assert_eq!(max_page_for(37, 18), 2);
    assert_eq!(max_page_for(36, 18), 1);
    assert_eq!(max_page_for(0, 18), 0);
    assert_eq!(max_page_for(1, 18), 0);
    let log = new_log("BA1ABC");
    for i in 0..37u32 {
        log.add_qsl(contact("JA1XYZ", Mode::CW, 1 + i / 30, i % 30)).unwrap();
    }
    assert_eq!(log.get_qsl_page(18, 0).unwrap().len(), 18);
    assert_eq!(log.get_qsl_page(18, 1).unwrap().len(), 18);
    assert_eq!(log.get_qsl_page(18, 2).unwrap().len(), 1);
    assert_eq!(log.get_qsl_page(18, 3).unwrap().len(), 0);
    assert_eq!(log.get_qsl_page(18, -1).unwrap().len(), 0);
    assert_eq!(log.get_qsl_page(0, 0).unwrap().len(), 0);
    assert_eq!(log.get_qsl_page(i64::MAX, 2).unwrap().len(), 0);
    let manager = QSLManager::new(log, 18).unwrap();
    assert_eq!(manager.max_page(), 2);
    assert_eq!(manager.number_of_record(), 37);
    assert_eq!(manager.page(), 0);
}

#[test]
fn pages_come_in_time_order() {
    let log = new_log("BA1ABC");
    log.add_qsl(contact("LATE", Mode::CW, 3, 0)).unwrap();
    log.add_qsl(contact("EARLY", Mode::CW, 1, 0)).unwrap();
    log.add_qsl(contact("MIDDLE", Mode::CW, 2, 0)).unwrap();
    let page = log.get_qsl_page(2, 0).unwrap();
    assert_eq!(page[0].call_number, "EARLY");
    assert_eq!(page[1].call_number, "MIDDLE");
    let page = log.get_qsl_page(2, 1).unwrap();
    assert_eq!(page[0].call_number, "LATE");
}

#[test]
fn navigation_stops_at_the_ends() {
    let log = new_log("BA1ABC");
    for i in 0..20u32 {
        log.add_qsl(contact("JA1XYZ", Mode::CW, 1, i)).unwrap();
    }
    let mut manager = QSLManager::new(log, 18).unwrap();
    assert!(!manager.previous_page());
    assert_eq!(manager.page(), 0);
    assert!(manager.next_page());
    assert_eq!(manager.page(), 1);
    assert!(!manager.next_page());
    assert_eq!(manager.page(), 1);
    assert!(manager.previous_page());
    assert_eq!(manager.page(), 0);
}

#[test]
fn shown_page_follows_removals() {
    let log = new_log("BA1ABC");
    for i in 0..37u32 {
        log.add_qsl(contact("JA1XYZ", Mode::CW, 1 + i / 30, i % 30)).unwrap();
    }
    let mut manager = QSLManager::new(log, 18).unwrap();
    assert!(manager.next_page());
    assert!(manager.next_page());
    assert_eq!(manager.fetch_shown_qsl().unwrap().len(), 1);
    // remove 20 records behind the session's back
    let first = manager.context.get_qsl_page(20, 0).unwrap();
    for q in first {
        manager.context.delete(q.id).unwrap();
    }
    let shown = manager.fetch_shown_qsl().unwrap();
    assert_eq!(manager.number_of_record(), 17);
    assert_eq!(manager.max_page(), 0);
    assert_eq!(manager.page(), 0);
    assert_eq!(shown.len(), 17);
}

#[test]
fn export_sweeps_one_extra_page() {
    assert_eq!(export_page_count(37, 18), 3);
    assert_eq!(export_page_count(36, 18), 3);
    assert_eq!(export_page_count(0, 18), 1);
    assert_eq!(export_page_count(-5, 18), 1);
}

#[test]
fn adif_export_leaves_out_in_person_contacts() {
    let log = new_log("BA1ABC");
    log.add_qsl(contact("EYE", Mode::EYEBALL, 1, 0)).unwrap();
    log.add_qsl(contact("JA1XYZ", Mode::CW, 2, 0)).unwrap();
    let manager = QSLManager::new(log, 18).unwrap();
    let created = Timestamp::new(2024, 8, 1, 10, 0).unwrap();
    let text = manager.output_adif(&created).unwrap();
    assert!(text.starts_with("<ADIF_VER:5>3.1.4 \n"));
    assert!(text.contains("<EOH>\n<CALL:6>JA1XYZ <MODE:2>CW "));
    assert!(!text.contains("EYE "));
    assert!(text.ends_with("<EOR>\n"));
}

#[test]
fn typst_export_lists_radio_contacts() {
    let log = new_log("BA1ABC");
    log.add_qsl(contact("EYE", Mode::EYEBALL, 1, 0)).unwrap();
    log.add_qsl(contact("JA1XYZ", Mode::CW, 2, 0)).unwrap();
    let manager = QSLManager::new(log, 18).unwrap();
    let text = manager.output_typst("// end\n").unwrap();
    assert!(text.starts_with("#let callsign = \"BA1ABC\"\n#let log_data = ((\n  call_number: \"JA1XYZ\","));
    assert!(text.ends_with("),)\n// end\n"));
    assert!(!text.contains("EYE"));
}

#[test]
fn html_records_are_split_by_mode() {
    let log = new_log("BA1ABC");
    log.add_qsl(contact("EYE", Mode::EYEBALL, 1, 0)).unwrap();
    log.add_qsl(contact("JA1XYZ", Mode::CW, 2, 0)).unwrap();
    log.add_qsl(contact("K1ABC", Mode::OTHER, 3, 0)).unwrap();
    let manager = QSLManager::new(log, 1).unwrap();
    let sets = manager.output_html().unwrap();
    assert_eq!(sets.callsign, "BA1ABC");
    assert_eq!(sets.records_eyeball.len(), 1);
    assert_eq!(sets.records_eyeball[0].call_number, "EYE");
    assert_eq!(sets.records_formal.len(), 2);
    assert_eq!(sets.records_formal[0].call_number, "JA1XYZ");
    assert_eq!(sets.records_formal[1].call_number, "K1ABC");
}

#[test]
fn documents_from_records() {
    let created = Timestamp::new(2024, 8, 1, 10, 0).unwrap();
    let empty: Vec<QSL> = Vec::new();
    assert_eq!(
        adif_document(&created, &empty),
        qsl_record::adif::adif_generate_header(&created)
    );
    assert_eq!(
        typst_document("BA1ABC", &empty, "T"),
        "#let callsign = \"BA1ABC\"\n#let log_data = ()\nT"
    );
    let q = contact("JA1XYZ", Mode::CW, 2, 0);
    let both = vec![q.clone(), q.clone()];
    assert_eq!(
        adif_document(&created, &both),
        format!("{}{}{}", qsl_record::adif::adif_generate_header(&created), q.fmt_adif(), q.fmt_adif())
    );
}

#[test]
fn error_messages() {
    let e = QslError::Store { detail: "disk full".to_string() };
    assert_eq!(e.message(), "disk full");
    let e = QslError::Open { detail: "no such file".to_string() };
    assert_eq!(e.message(), "Failed to open the database: no such file");
}

#[test]
fn band_of_a_stored_record() {
    let q = contact("JA1XYZ", Mode::CW, 1, 34);
    assert_eq!(q.get_band(), Ok("20m"));
}

#[test]
fn powers_read_back_as_written() {
    let log = new_log("BA1ABC");
    let mut q = contact("JA1XYZ", Mode::CW, 1, 0);
    q.watt_me = Some("0.1234567".to_string());
    q.watt_counterpart = Some("1234567".to_string());
    log.add_qsl(q.clone()).unwrap();
    let page = log.get_qsl_page(18, 0).unwrap();
    assert_eq!(page[0].watt_me, Some("0.1234567".to_string()));
    assert_eq!(page[0].watt_counterpart, Some("1234567".to_string()));
}

#[test]
fn row_columns_make_a_record() {
    let t = Timestamp::new(2024, 7, 1, 12, 34).unwrap();
    let q = record_from_columns(
        9, "JA1XYZ".to_string(), 3, Some("7.0".to_string()), t, None, None, Some("5".to_string()),
        None, None, None, None, None, None, None, Some("n".to_string()),
    );
    assert_eq!(q.id, 9);
    assert_eq!(q.mode, Mode::CW);
    assert_eq!(q.watt_me, Some("5".to_string()));
    assert_eq!(q.note, Some("n".to_string()));
    let odd = record_from_columns(
        1, "X".to_string(), 42, None, t, None, None, None, None, None, None, None, None, None,
        None, None,
    );
    assert_eq!(odd.mode, Mode::OTHER);
}

#[test]
fn out_of_range_id_is_a_store_error() {
    let uri = "file:wide_ids?mode=memory&cache=shared";
    let log = QSLContext::open(uri, Some("BA1ABC".to_string())).unwrap();
    let raw = rusqlite::Connection::open(uri).unwrap();
    raw.execute(
        "INSERT INTO qsl (id, call_number, call_type, datetime) VALUES (3000000000, 'W1AW', 3, '2024-07-01 12:00:00')",
        [],
    )
    .unwrap();
    assert!(matches!(log.get_qsl_page(18, 0), Err(QslError::Store { .. })));
}

#[test]
fn filter_check_on_pages() {
    let eye = contact("EYE", Mode::EYEBALL, 1, 0);
    let cw = contact("JA1XYZ", Mode::CW, 1, 0);
    let kept = check_filter(RecordFilter::Formal, vec![cw.clone()]).unwrap();
    assert_eq!(kept.len(), 1);
    assert!(matches!(
        check_filter(RecordFilter::Formal, vec![cw.clone(), eye.clone()]),
        Err(QslError::Store { .. })
    ));
    assert!(check_filter(RecordFilter::Eyeball, vec![eye.clone()]).is_ok());
    assert!(check_filter(RecordFilter::All, vec![eye, cw]).is_ok());
}

#[test]
fn delete_of_missing_id_keeps_records() {
    let log = new_log("BA1ABC");
    log.add_qsl(contact("JA1XYZ", Mode::CW, 1, 0)).unwrap();
    let id = log.get_qsl_page(18, 0).unwrap()[0].id;
    assert!(matches!(log.delete(id + 100), Err(QslError::NotFound { .. })));
    assert_eq!(log.get_qsl_count().unwrap(), 1);
}
