use secure_os_layer::{read_record, settle_record, status_report, RecordReply, StoredRecord};

fn row(id: &str) -> StoredRecord {
    StoredRecord { id: id.to_string(), key: "colour".to_string(), value: "blue".to_string() }
}

#[test]
fn stored_uuid_is_read_as_its_value() {
    match read_record(Some(row("67e55044-10b1-426f-9247-bb680e5fe0c8"))) {
        RecordReply::Found { id, key, value } => {
            assert_eq!(id, 0x67e5504410b1426f9247bb680e5fe0c8);
            assert_eq!(key, "colour");
            assert_eq!(value, "blue");
        }
        _ => panic!("record not served"),
    }
}

#[test]
fn simple_form_uuid_is_read_too() {
    let reply = read_record(Some(row("67e5504410b1426f9247bb680e5fe0c8")));
    assert!(matches!(reply, RecordReply::Found { id: 0x67e5504410b1426f9247bb680e5fe0c8, .. }));
    assert_eq!(reply.status(), 200);
    assert_eq!(reply.reason(), None);
}

#[test]
fn malformed_stored_identifier_reads_as_absent() {
    for id in ["not-a-uuid", "", "67e55044-10b1-426f-9247-bb680e5fe0c"] {
        let reply = read_record(Some(row(id)));
        assert!(matches!(reply, RecordReply::CorruptId));
        assert_eq!(reply.status(), 404);
        assert_eq!(reply.reason(), Some("Invalid UUID in DB"));
    }
}

#[test]
fn missing_record_is_not_found() {
    let reply = read_record(None);
    assert!(matches!(reply, RecordReply::NotFound));
    assert_eq!(reply.status(), 404);
    assert_eq!(reply.reason(), Some("Data not found"));
}

#[test]
fn settling_takes_the_parsed_value() {
    match settle_record(row("whatever"), Some(42)) {
        RecordReply::Found { id, key, value } => {
            assert_eq!(id, 42);
            assert_eq!(key, "colour");
            assert_eq!(value, "blue");
        }
        _ => panic!("record not served"),
    }
    assert!(matches!(settle_record(row("whatever"), None), RecordReply::CorruptId));
}

#[test]
fn status_report_says_the_service_runs() {
    let r = status_report();
    assert_eq!(r.status, "ok");
    assert_eq!(r.message, "Secure OS Layer is running");
}
