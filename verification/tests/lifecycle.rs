use shsqlite::client::{AuthResponse, Data};
use shsqlite::error::SoracomHarvestClientError;
use shsqlite::harvest_data_client::OpenEvent;
use shsqlite::module::{
    create_declare_table_statement, declared_columns, error_to_sqlite3_string, register_module, yield_cell_value,
    CellValue, CreateFailure, CreateStep, VirtualCursor, VirtualTable, SQLITE_ERROR, SQLITE_OK,
    SQLITE_OK_LOAD_PERMANENTLY,
};

fn args(list: &[&str]) -> Vec<String> {
    list.iter().map(|s| s.to_string()).collect()
}

fn entry(time: i64, content_type: &str, content: &str) -> Data {
    Data { time, content_type: content_type.to_string(), content: content.to_string() }
}

fn session() -> AuthResponse {
    AuthResponse {
        api_key: "api-key".to_string(),
        token: "token".to_string(),
        user_name: Some("user".to_string()),
        operator_id: None,
    }
}

fn pairs(list: &[(&str, &str)]) -> Vec<(String, String)> {
    list.iter().map(|(name, value)| (name.to_string(), value.to_string())).collect()
}

fn number(query: &[(String, String)], name: &str) -> i64 {
    query.iter().find(|(key, _)| key == name).unwrap().1.parse().unwrap()
}

fn answer(step: CreateStep, event: OpenEvent) -> CreateStep {
    match step {
        CreateStep::Authenticate(creation, _) => creation.proceed(event),
        CreateStep::Fetch(creation, _) => creation.proceed(event),
        _ => panic!("nothing is awaited"),
    }
}

fn declared(step: CreateStep) -> (VirtualTable, String) {
    match step {
        CreateStep::Declare(table, statement) => (table, statement),
        _ => panic!("the table was not declared"),
    }
}

fn table_of(entries: Vec<Data>) -> VirtualTable {
    let step = VirtualTable::create_at(
        &args(&["IMSI '441200000050000'"]),
        "keyId-1".to_string(),
        "secret-1".to_string(),
        1_000,
        2_000,
    );
    let step = answer(step, OpenEvent::Authenticated(session()));
    declared(answer(step, OpenEvent::Fetched(entries))).0
}

fn text(value: &str) -> CellValue {
    CellValue::Text(value.to_string())
}

#[test]
fn status_codes() {
    assert_eq!(SQLITE_OK, 0);
    assert_eq!(SQLITE_ERROR, 1);
    assert_eq!(SQLITE_OK_LOAD_PERMANENTLY, 256);
}

#[test]
fn full_scan_of_two_entries() {
    let table = table_of(vec![
        entry(1000, "application/json", "{\"payload\":\"aGVsbG8=\"}"),
        entry(900, "application/json", "{\"temperature\":20}"),
    ]);
    let mut cursor = table.open();
    assert_eq!(cursor.filter(), SQLITE_OK);

    assert_eq!(cursor.eof(), 0);
    assert_eq!(cursor.rowid(), 0);
    assert_eq!(cursor.column(0), CellValue::Integer(1000));
    assert_eq!(cursor.column(1), text("application/json"));
    assert_eq!(cursor.column(2), text("{\"value\":\"hello\"}"));

    assert_eq!(cursor.next(), SQLITE_OK);
    assert_eq!(cursor.eof(), 0);
    assert_eq!(cursor.rowid(), 1);
    assert_eq!(cursor.column(0), CellValue::Integer(900));
    assert_eq!(cursor.column(1), text("application/json"));
    assert_eq!(cursor.column(2), text("{\"temperature\":20}"));

    assert_eq!(cursor.next(), SQLITE_OK);
    assert_eq!(cursor.eof(), 1);
    assert_eq!(VirtualCursor::close(Some(cursor)), SQLITE_OK);
    assert_eq!(VirtualTable::destroy(Some(table)), SQLITE_OK);
}

#[test]
fn creation_asks_for_the_session_then_for_the_entries() {
    let step = VirtualTable::create_at(
        &args(&["shsqlite", "main", "t", "IMSI '44120'", "COVERAGE 'japan'", "FROM '5'", "LIMIT '7'"]),
        "keyId-1".to_string(),
        "secret-1".to_string(),
        1_000,
        2_000,
    );
    match &step {
        CreateStep::Authenticate(_, request) => {
            assert_eq!(request.url, "https://api.soracom.io/v1/auth");
            assert_eq!(request.auth_key_id, "keyId-1");
            assert_eq!(request.auth_key, "secret-1");
        }
        _ => panic!("no session was asked for"),
    }
    let step = answer(step, OpenEvent::Authenticated(session()));
    match &step {
        CreateStep::Fetch(_, request) => {
            assert_eq!(request.url, "https://api.soracom.io/v1/data/Subscriber/44120");
            assert_eq!(
                request.headers,
                pairs(&[
                    ("User-Agent", "libshsqlite"),
                    ("X-Soracom-Api-Key", "api-key"),
                    ("X-Soracom-Token", "token"),
                    ("X-Soracom-Lang", "en"),
                ])
            );
            assert_eq!(request.query, pairs(&[("from", "5"), ("to", "2000"), ("sort", "desc"), ("limit", "7")]));
        }
        _ => panic!("no entries were asked for"),
    }
    let (table, statement) = declared(answer(step, OpenEvent::Fetched(vec![entry(1, "a", "b")])));
    assert_eq!(statement, "CREATE TABLE harvest_data (time INTEGER, content_type TEXT, value TEXT)");
    assert_eq!(table.open().column(2), text("b"));
}

#[test]
fn creation_reads_the_clock_for_an_open_range() {
    let before = std::time::SystemTime::now().duration_since(std::time::UNIX_EPOCH).unwrap().as_millis() as i64;
    let step = VirtualTable::create(&args(&["IMSI '44120'"]), "keyId-1".to_string(), "secret-1".to_string());
    let after = std::time::SystemTime::now().duration_since(std::time::UNIX_EPOCH).unwrap().as_millis() as i64;
    match answer(step, OpenEvent::Authenticated(session())) {
        CreateStep::Fetch(_, request) => {
            assert_eq!(request.url, "https://g.api.soracom.io/v1/data/Subscriber/44120");
            let (from, to) = (number(&request.query, "from"), number(&request.query, "to"));
            assert!(before <= to && to <= after);
            assert_eq!(from, to - 86_400_000);
            assert_eq!(number(&request.query, "limit"), 100);
        }
        _ => panic!("no entries were asked for"),
    }
    let step = VirtualTable::connect(&args(&["IMSI '44120'"]), "k".to_string(), "s".to_string());
    assert!(matches!(step, CreateStep::Authenticate(_, _)));
}

fn failure_of(step: CreateStep) -> CreateFailure {
    match step {
        CreateStep::Fail(failure) => failure,
        _ => panic!("the creation did not fail"),
    }
}

fn new_table() -> CreateStep {
    VirtualTable::create_at(&args(&["IMSI 'a'"]), "k".to_string(), "s".to_string(), 1, 2)
}

#[test]
fn creation_fails_without_a_device() {
    let expected = CreateFailure { status: SQLITE_ERROR, message: "No IMSI is provided".to_string() };
    for list in [&[][..], &["COVERAGE 'japan'", "LIMIT '10'"][..], &["shsqlite", "main", "t"][..]] {
        assert_eq!(failure_of(VirtualTable::create_at(&args(list), "k".to_string(), "s".to_string(), 1, 2)), expected);
        assert_eq!(failure_of(VirtualTable::create(&args(list), "k".to_string(), "s".to_string())), expected);
        assert_eq!(failure_of(VirtualTable::connect(&args(list), "k".to_string(), "s".to_string())), expected);
    }
}

#[test]
fn creation_fails_when_the_credentials_are_turned_down() {
    assert_eq!(
        failure_of(answer(new_table(), OpenEvent::Rejected)),
        CreateFailure {
            status: SQLITE_ERROR,
            message: "Failed to authenticate with auth key ID and auth key secret given".to_string()
        }
    );
}

#[test]
fn creation_fails_when_a_request_fails() {
    assert_eq!(
        failure_of(answer(new_table(), OpenEvent::Failed(SoracomHarvestClientError::Request("no route".to_string())))),
        CreateFailure { status: SQLITE_ERROR, message: "no route".to_string() }
    );

    let step = answer(new_table(), OpenEvent::Authenticated(session()));
    assert_eq!(
        failure_of(answer(step, OpenEvent::Failed(SoracomHarvestClientError::Json("expected value".to_string())))),
        CreateFailure { status: SQLITE_ERROR, message: "expected value".to_string() }
    );

    assert_eq!(
        failure_of(answer(new_table(), OpenEvent::Failed(SoracomHarvestClientError::InvalidLimit))),
        CreateFailure {
            status: SQLITE_ERROR,
            message: "Invalid limit is provided. It should be from 1 to 1000".to_string()
        }
    );
}

#[test]
fn the_snapshot_of_a_table_stays() {
    let table = table_of(vec![entry(1, "a", "b")]);
    for _ in 0..3 {
        let mut cursor = table.open();
        assert_eq!(cursor.column(0), CellValue::Integer(1));
        assert_eq!(cursor.column(1), text("a"));
        assert_eq!(cursor.column(2), text("b"));
        cursor.next();
        assert_eq!(cursor.eof(), 1);
    }
}

#[test]
fn events_out_of_turn_change_nothing() {
    let step = answer(new_table(), OpenEvent::Fetched(vec![entry(1, "a", "b")]));
    match &step {
        CreateStep::Authenticate(_, request) => assert_eq!(request.url, "https://g.api.soracom.io/v1/auth"),
        _ => panic!("no session was asked for"),
    }
    let step = answer(step, OpenEvent::Authenticated(session()));
    let step = answer(step, OpenEvent::Rejected);
    match &step {
        CreateStep::Fetch(_, request) => assert_eq!(request.headers[1].1, "api-key"),
        _ => panic!("no entries were asked for"),
    }
    let step = answer(
        step,
        OpenEvent::Authenticated(AuthResponse {
            api_key: "other".to_string(),
            token: "other".to_string(),
            user_name: None,
            operator_id: None,
        }),
    );
    match &step {
        CreateStep::Fetch(_, request) => assert_eq!(request.headers[1].1, "api-key"),
        _ => panic!("no entries were asked for"),
    }
    let (table, _) = declared(answer(step, OpenEvent::Fetched(Vec::new())));
    assert_eq!(table.open().eof(), 1);
}

#[test]
fn cursor_notes_when_it_was_opened() {
    let before = std::time::SystemTime::now().duration_since(std::time::UNIX_EPOCH).unwrap().as_millis() as i64;
    let table = table_of(vec![entry(1, "a", "b")]);
    let mut cursor = table.open();
    let after = std::time::SystemTime::now().duration_since(std::time::UNIX_EPOCH).unwrap().as_millis() as i64;
    let opened = cursor.initialized_at();
    assert!(before <= opened && opened <= after);
    cursor.next();
    cursor.filter();
    assert_eq!(cursor.initialized_at(), opened);
}

#[test]
fn no_index_is_offered() {
    let table = table_of(Vec::new());
    assert_eq!(table.best_index(), (SQLITE_OK, None));
}

#[test]
fn releasing_nothing_is_no_failure() {
    assert_eq!(VirtualTable::destroy(None), SQLITE_OK);
    assert_eq!(VirtualTable::disconnect(None), SQLITE_OK);
    assert_eq!(VirtualCursor::close(None), SQLITE_OK);
    assert_eq!(VirtualTable::disconnect(Some(table_of(Vec::new()))), SQLITE_OK);
}

#[test]
fn cursors_are_independent_of_each_other() {
    let table = table_of(vec![entry(3, "a", "x"), entry(2, "b", "y"), entry(1, "c", "z")]);
    let mut first = table.open();
    let mut second = table.open();
    first.next();
    first.next();
    assert_eq!(first.rowid(), 2);
    assert_eq!(second.rowid(), 0);
    second.next();
    assert_eq!(first.column(2), text("z"));
    assert_eq!(second.column(2), text("y"));
}

#[test]
fn filter_goes_back_to_the_first_row_even_in_the_middle_of_a_scan() {
    let table = table_of(vec![entry(3, "a", "x"), entry(2, "b", "y"), entry(1, "c", "z")]);
    let mut cursor = table.open();
    cursor.next();
    assert_eq!(cursor.rowid(), 1);
    assert_eq!(cursor.filter(), SQLITE_OK);
    assert_eq!(cursor.rowid(), 0);
    assert_eq!(cursor.column(0), CellValue::Integer(3));
    for _ in 0..3 {
        cursor.next();
    }
    assert_eq!(cursor.eof(), 1);
    assert_eq!(cursor.filter(), SQLITE_OK);
    assert_eq!(cursor.eof(), 0);
    assert_eq!(cursor.rowid(), 0);
}

#[test]
fn next_stays_at_the_end() {
    let table = table_of(vec![entry(3, "a", "x")]);
    let mut cursor = table.open();
    cursor.next();
    assert_eq!(cursor.eof(), 1);
    assert_eq!(cursor.rowid(), 1);
    cursor.next();
    cursor.next();
    assert_eq!(cursor.eof(), 1);
    assert_eq!(cursor.rowid(), 1);
    assert_eq!(cursor.column(0), text(""));
    assert_eq!(cursor.column(1), text(""));
    assert_eq!(cursor.column(2), text(""));
}

#[test]
fn an_empty_table_scans_no_row() {
    let table = table_of(Vec::new());
    let mut cursor = table.open();
    assert_eq!(cursor.filter(), SQLITE_OK);
    assert_eq!(cursor.eof(), 1);
    assert_eq!(cursor.rowid(), 0);
}

#[test]
fn cells_are_typed_by_their_text_in_every_column() {
    let table = table_of(vec![
        entry(1668003111681, "42", "-7"),
        entry(-5, "text/plain", "{\"payload\":\"MTIz\"}"),
        entry(0, "+1", "1.5"),
        entry(1, "9223372036854775808", " 1"),
    ]);
    let mut cursor = table.open();
    assert_eq!(cursor.column(0), CellValue::Integer(1668003111681));
    assert_eq!(cursor.column(1), CellValue::Integer(42));
    assert_eq!(cursor.column(2), CellValue::Integer(-7));
    assert_eq!(cursor.column(-1), CellValue::Integer(-7));
    assert_eq!(cursor.column(3), CellValue::Integer(-7));
    cursor.next();
    assert_eq!(cursor.column(0), CellValue::Integer(-5));
    assert_eq!(cursor.column(1), text("text/plain"));
    assert_eq!(cursor.column(2), text("{\"value\":\"123\"}"));
    cursor.next();
    assert_eq!(cursor.column(0), CellValue::Integer(0));
    assert_eq!(cursor.column(1), CellValue::Integer(1));
    assert_eq!(cursor.column(2), text("1.5"));
    cursor.next();
    assert_eq!(cursor.column(1), text("9223372036854775808"));
    assert_eq!(cursor.column(2), text(" 1"));
}

#[test]
fn yield_cell_value_types_a_text() {
    assert_eq!(yield_cell_value("1000".to_string()), CellValue::Integer(1000));
    assert_eq!(yield_cell_value("-9223372036854775808".to_string()), CellValue::Integer(i64::MIN));
    assert_eq!(yield_cell_value("application/json".to_string()), text("application/json"));
    assert_eq!(yield_cell_value("".to_string()), text(""));
    assert_eq!(yield_cell_value("12 ".to_string()), text("12 "));
    assert_eq!(yield_cell_value("0x1f".to_string()), text("0x1f"));
}

#[test]
fn declaration_of_the_schema() {
    assert_eq!(declared_columns(), vec!["time INTEGER", "content_type TEXT", "value TEXT"]);
    assert_eq!(
        create_declare_table_statement(declared_columns()),
        "CREATE TABLE harvest_data (time INTEGER, content_type TEXT, value TEXT)"
    );
    assert_eq!(create_declare_table_statement(Vec::new()), "CREATE TABLE harvest_data ()");
    assert_eq!(create_declare_table_statement(vec!["a INTEGER".to_string()]), "CREATE TABLE harvest_data (a INTEGER)");
    assert_eq!(
        create_declare_table_statement(vec!["a".to_string(), "".to_string(), "b".to_string()]),
        "CREATE TABLE harvest_data (a, , b)"
    );
}

#[test]
fn error_message_gets_a_terminating_zero() {
    assert_eq!(error_to_sqlite3_string("abc"), Some(vec![b'a', b'b', b'c', 0]));
    assert_eq!(error_to_sqlite3_string(""), Some(vec![0]));
    assert_eq!(error_to_sqlite3_string("\u{e9}"), Some(vec![0xc3, 0xa9, 0]));
    assert_eq!(
        error_to_sqlite3_string("No IMSI is provided").map(|bytes| bytes.len()),
        Some("No IMSI is provided".len() + 1)
    );
}

#[test]
fn error_message_with_a_zero_inside_has_no_form() {
    assert_eq!(error_to_sqlite3_string("a\0b"), None);
    assert_eq!(error_to_sqlite3_string("\0"), None);
    assert_eq!(error_to_sqlite3_string("abc\0"), None);
}

#[test]
fn registration_outcomes() {
    assert_eq!(register_module(SQLITE_OK), (SQLITE_OK_LOAD_PERMANENTLY, None));
    assert_eq!(
        register_module(SQLITE_ERROR),
        (SQLITE_ERROR, Some("Failed to create module, status: 1".to_string()))
    );
    assert_eq!(register_module(21), (SQLITE_ERROR, Some("Failed to create module, status: 21".to_string())));
    assert_eq!(register_module(-3), (SQLITE_ERROR, Some("Failed to create module, status: -3".to_string())));
    assert_eq!(
        register_module(SQLITE_OK_LOAD_PERMANENTLY),
        (SQLITE_ERROR, Some("Failed to create module, status: 256".to_string()))
    );
}

#[test]
fn e2e() {
    let coverage = "global".to_string();
    let imsi = "441200000050000";
    let from = 1669024324201i64;
    let to = from + 3000;

    // What the engine hands over for CREATE VIRTUAL TABLE harvest_data USING shsqlite(...).
    let step = VirtualTable::create(
        &args(&[
            "shsqlite",
            "temp",
            "harvest_data",
            &format!("IMSI '{}'", imsi),
            &format!("FROM '{}'", from),
            &format!("TO '{}'", to),
            &format!("COVERAGE '{}'", coverage),
        ]),
        "keyId-1".to_string(),
        "secret-1".to_string(),
    );
    let step = answer(step, OpenEvent::Authenticated(session()));
    // What the service answers after a text was sent over UDP and a JSON document over HTTP.
    let step = answer(step, OpenEvent::Fetched(vec![
        entry(from + 2000, "application/json", "{\"temperature\":4096}"),
        entry(
            from + 1000,
            "application/json",
            &format!("{{\"payload\":\"{}\"}}", base64::encode("hello from extension_test.rs")),
        ),
    ]));
    let (table, _) = declared(step);

    // SELECT * FROM harvest_data;
    let mut harvest_data = Vec::new();
    let mut cursor = table.open();
    cursor.filter();
    while cursor.eof() == 0 {
        harvest_data.push(Data {
            time: match cursor.column(0) {
                CellValue::Integer(time) => time,
                CellValue::Text(_) => panic!("the time is no integer"),
            },
            content_type: match cursor.column(1) {
                CellValue::Text(content_type) => content_type,
                CellValue::Integer(_) => panic!("the content type is no text"),
            },
            content: match cursor.column(2) {
                CellValue::Text(content) => content,
                CellValue::Integer(_) => panic!("the content is no text"),
            },
        });
        cursor.next();
    }

    assert_eq!(harvest_data.len(), 2);

    assert_eq!(harvest_data[0].content_type, "application/json");
    assert_eq!(harvest_data[0].content, r#"{"temperature":4096}"#);

    assert_eq!(harvest_data[1].content_type, "application/json");
    assert_eq!(harvest_data[1].content, r#"{"value":"hello from extension_test.rs"}"#);

    assert_eq!(VirtualCursor::close(Some(cursor)), SQLITE_OK);
    assert_eq!(VirtualTable::destroy(Some(table)), SQLITE_OK);
}
