use vt_lookup::error::{exit_status, RunError};
use vt_lookup::records::Rows;
use vt_lookup::session::{Session, Turn};
use vt_lookup::status::Status;

/// What a trial service gives for one request.
enum Canned {
    Reply(u16, &'static str),
    NoReply(&'static str),
    BrokenBody(u16, &'static str),
}

/// What a trial run showed and asked for, and how it ended.
struct Trial {
    lines: Vec<String>,
    asked: Vec<String>,
    keys: Vec<String>,
    outcome: Result<(), RunError>,
}

fn drive(session: Session, service: &[Canned]) -> Trial {
    let mut trial = Trial { lines: vec![], asked: vec![], keys: vec![], outcome: Ok(()) };
    let mut served = 0;
    let mut turn = session.advance();
    loop {
        turn = match turn {
            Turn::Print(line, session) => {
                trial.lines.push(line);
                session.advance()
            }
            Turn::Send(request, waiting) => {
                assert_eq!(request.header_name, "x-apikey");
                trial.asked.push(request.url);
                trial.keys.push(request.header_value);
                let canned = &service[served];
                served += 1;
                match canned {
                    Canned::NoReply(why) => waiting.lost(why.to_string()),
                    Canned::Reply(code, body) => match waiting.answered(Status::new(*code).unwrap()) {
                        Turn::Read(reading) => reading.body(body.as_bytes()),
                        other => other,
                    },
                    Canned::BrokenBody(code, why) => {
                        match waiting.answered(Status::new(*code).unwrap()) {
                            Turn::Read(reading) => reading.lost(why.to_string()),
                            other => other,
                        }
                    }
                }
            }
            Turn::Read(_) => panic!("a body is read only after a status"),
            Turn::Done => return trial,
            Turn::Failed(failure) => {
                trial.outcome = Err(failure);
                return trial;
            }
        };
    }
}

const ONE_ROW: &[u8] = b"c1,c2,c3,c4,c5,c6,c7,c8,c9\na,b,c,d,e,f,g,h,\"hash1 hash2\"\n";

#[test]
fn no_data_rows_print_nothing() {
    let trial = drive(Session::open("key".to_string(), b"c1,c2,c3\n"), &[]);
    assert!(trial.lines.is_empty());
    assert!(trial.asked.is_empty());
    assert!(trial.outcome.is_ok());
    assert_eq!(exit_status(&trial.outcome), 0);
    let trial = drive(Session::open("key".to_string(), b""), &[]);
    assert!(trial.lines.is_empty());
    assert!(trial.outcome.is_ok());
}

#[test]
fn short_rows_print_the_placeholder_and_the_run_goes_on() {
    let trial = drive(Session::open("key".to_string(), b"h1,h2\na,b\nc,d\n"), &[]);
    assert_eq!(trial.lines, vec!["(no ninth entry)".to_string(), "(no ninth entry)".to_string()]);
    assert!(trial.asked.is_empty());
    assert!(trial.outcome.is_ok());
}

#[test]
fn blank_ninth_field_asks_for_nothing() {
    let data = b"1,2,3,4,5,6,7,8,9\na,b,c,d,e,f,g,h,\"  \t \"\na,b,c,d,e,f,g,h,\n";
    let trial = drive(Session::open("key".to_string(), data), &[]);
    assert!(trial.lines.is_empty());
    assert!(trial.asked.is_empty());
    assert!(trial.outcome.is_ok());
}

#[test]
fn tokens_are_looked_up_in_order() {
    let data = b"1,2,3,4,5,6,7,8,9\na,b,c,d,e,f,g,h,abc   def\n";
    let service = [Canned::Reply(200, "1"), Canned::Reply(200, "2")];
    let trial = drive(Session::open("SECRET".to_string(), data), &service);
    assert_eq!(
        trial.asked,
        vec![
            "https://www.virustotal.com/api/v3/files/abc".to_string(),
            "https://www.virustotal.com/api/v3/files/def".to_string(),
        ]
    );
    assert_eq!(trial.keys, vec!["SECRET".to_string(), "SECRET".to_string()]);
    assert_eq!(
        trial.lines,
        vec!["Response for hash abc: 1".to_string(), "Response for hash def: 2".to_string()]
    );
    assert!(trial.outcome.is_ok());
}

#[test]
fn both_hashes_answered_with_a_document() {
    let service = [Canned::Reply(200, "{\"data\":\"ok\"}"), Canned::Reply(200, "{\"data\":\"ok\"}")];
    let trial = drive(Session::open("key".to_string(), ONE_ROW), &service);
    assert_eq!(
        trial.lines,
        vec![
            "Response for hash hash1: {\n  \"data\": \"ok\"\n}".to_string(),
            "Response for hash hash2: {\n  \"data\": \"ok\"\n}".to_string(),
        ]
    );
    assert!(trial.outcome.is_ok());
    assert_eq!(exit_status(&trial.outcome), 0);
}

#[test]
fn refused_hash_is_reported_and_the_run_goes_on() {
    let service = [Canned::Reply(404, "{\"error\":{}}"), Canned::Reply(200, "{\"data\":\"ok\"}")];
    let trial = drive(Session::open("key".to_string(), ONE_ROW), &service);
    assert_eq!(
        trial.lines,
        vec![
            "Failed to query hash hash1: 404 Not Found".to_string(),
            "Response for hash hash2: {\n  \"data\": \"ok\"\n}".to_string(),
        ]
    );
    assert_eq!(trial.asked.len(), 2);
    assert!(trial.outcome.is_ok());
}

#[test]
fn refusals_of_every_kind_are_reported_alike() {
    let service = [Canned::Reply(429, "slow down"), Canned::Reply(503, "")];
    let trial = drive(Session::open("key".to_string(), ONE_ROW), &service);
    assert_eq!(
        trial.lines,
        vec![
            "Failed to query hash hash1: 429 Too Many Requests".to_string(),
            "Failed to query hash hash2: 503 Service Unavailable".to_string(),
        ]
    );
    assert!(trial.outcome.is_ok());
}

#[test]
fn body_of_a_refusal_is_not_read() {
    let service = [Canned::BrokenBody(500, "connection reset"), Canned::Reply(301, "moved")];
    let trial = drive(Session::open("key".to_string(), ONE_ROW), &service);
    assert_eq!(
        trial.lines,
        vec![
            "Failed to query hash hash1: 500 Internal Server Error".to_string(),
            "Failed to query hash hash2: 301 Moved Permanently".to_string(),
        ]
    );
    assert!(trial.outcome.is_ok());
}

#[test]
fn body_that_is_no_json_ends_the_run() {
    let data = b"1,2,3,4,5,6,7,8,9\na,b,c,d,e,f,g,h,hash1 hash2\na,b,c,d,e,f,g,h,hash3\n";
    let service = [Canned::Reply(200, "not json"), Canned::Reply(200, "{}"), Canned::Reply(200, "{}")];
    let trial = drive(Session::open("key".to_string(), data), &service);
    assert!(trial.lines.is_empty());
    assert_eq!(trial.asked, vec!["https://www.virustotal.com/api/v3/files/hash1".to_string()]);
    let failure = trial.outcome.unwrap_err();
    assert!(matches!(failure, RunError::Body(_)));
    assert_eq!(
        failure.report(),
        "Error: error decoding response body: expected ident at line 1 column 2"
    );
    assert_eq!(exit_status(&Err(failure)), 1);
}

#[test]
fn lost_request_ends_the_run() {
    let service = [Canned::Reply(200, "[]"), Canned::NoReply("connection refused")];
    let trial = drive(Session::open("key".to_string(), ONE_ROW), &service);
    assert_eq!(trial.lines, vec!["Response for hash hash1: []".to_string()]);
    match trial.outcome {
        Err(RunError::Transport(detail)) => assert_eq!(detail, "connection refused"),
        other => panic!("unexpected outcome: {:?}", other),
    }
}

#[test]
fn lost_body_ends_the_run() {
    let service = [Canned::BrokenBody(200, "timed out")];
    let trial = drive(Session::open("key".to_string(), ONE_ROW), &service);
    assert!(trial.lines.is_empty());
    assert_eq!(trial.asked.len(), 1);
    match trial.outcome {
        Err(RunError::Transport(detail)) => assert_eq!(detail, "timed out"),
        other => panic!("unexpected outcome: {:?}", other),
    }
}

#[test]
fn malformed_row_ends_the_run_behind_the_rows_before_it() {
    let data = b"h1,h2\na,b\nc\nd,e\n";
    let trial = drive(Session::open("key".to_string(), data), &[]);
    assert_eq!(trial.lines, vec!["(no ninth entry)".to_string()]);
    let failure = trial.outcome.unwrap_err();
    assert!(matches!(failure, RunError::Csv(_)));
    assert!(failure.report().starts_with("Error: CSV error:"), "{}", failure.report());
    assert_eq!(exit_status(&Err(failure)), 1);
}

#[test]
fn rows_read_elsewhere_run_alike() {
    let fields: Vec<String> =
        ["a", "b", "c", "d", "e", "f", "g", "h", "x y"].iter().map(|f| f.to_string()).collect();
    let rows = Rows { rows: vec![fields, vec!["short".to_string()]], failure: None };
    let service = [Canned::Reply(204, "null"), Canned::Reply(400, "")];
    let trial = drive(Session::new("key".to_string(), rows), &service);
    assert_eq!(
        trial.lines,
        vec![
            "Response for hash x: null".to_string(),
            "Failed to query hash y: 400 Bad Request".to_string(),
            "(no ninth entry)".to_string(),
        ]
    );
    assert!(trial.outcome.is_ok());
}

#[test]
fn failure_behind_the_rows_closes_the_run() {
    let rows = Rows {
        rows: vec![vec!["short".to_string()]],
        failure: Some(RunError::Csv("broken".to_string())),
    };
    let trial = drive(Session::new("key".to_string(), rows), &[]);
    assert_eq!(trial.lines, vec!["(no ninth entry)".to_string()]);
    assert!(matches!(trial.outcome, Err(RunError::Csv(_))));
}
