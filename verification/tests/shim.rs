use cubesql::messages::AuthenticationRequest;
use cubesql::messages::BackendMessage;
use cubesql::messages::Bind;
use cubesql::messages::ConnectionError;
use cubesql::messages::ErrorCode;
use cubesql::messages::ErrorKind;
use cubesql::messages::ErrorSeverity;
use cubesql::messages::Execute;
use cubesql::messages::FrontendMessage;
use cubesql::messages::Parse;
use cubesql::messages::PasswordMessage;
use cubesql::messages::ProtocolVersion;
use cubesql::messages::Query;
use cubesql::messages::StartupMessage;
use cubesql::messages::TransactionStatus;
use cubesql::messages::SSL_REQUEST_PROTOCOL;
use cubesql::messages::TEXT_TYPE_OID;
use cubesql::shim::AuthContext;
use cubesql::shim::AuthenticateResponse;
use cubesql::shim::Column;
use cubesql::shim::CommandAction;
use cubesql::shim::ConnectionPhase;
use cubesql::shim::CubeError;
use cubesql::shim::DataFrame;
use cubesql::shim::ExecuteDisposition;
use cubesql::shim::PostgresShim;
use cubesql::shim::QueryExecution;
use cubesql::shim::QueryPlan;
use cubesql::shim::QueryResponse;
use cubesql::shim::Row;
use cubesql::shim::Statement;
use cubesql::shim::StartupState;
use cubesql::shim::StatusFlags;
use cubesql::shim::TableValue;
use cubesql::shim::render_value;
use cubesql::strmap::StrMap;

fn startup(major: u16, minor: u16, params: &[(&str, &str)]) -> StartupMessage {
    let mut parameters: StrMap<String> = StrMap::new();
    for (k, v) in params {
        parameters.insert(k.to_string(), v.to_string());
    }
    StartupMessage {
        protocol_version: ProtocolVersion { major, minor },
        parameters,
    }
}

fn authenticated_shim() -> PostgresShim {
    let mut shim = PostgresShim::new();
    let (state, _) = shim.process_startup_message(startup(3, 0, &[("user", "a")]));
    assert_eq!(state, StartupState::Success);
    let (ok, _) = shim.authenticate(
        PasswordMessage {
            password: "ignored".to_string(),
        },
        Some(AuthenticateResponse {
            context: AuthContext {
                user: "a".to_string(),
            },
            password: None,
        }),
    );
    assert!(ok);
    shim
}

#[test]
fn startup_with_wrong_version_is_denied() {
    let mut shim = PostgresShim::new();
    let (state, msgs) = shim.process_startup_message(startup(2, 0, &[("user", "a")]));
    assert_eq!(state, StartupState::Denied);
    assert_eq!(msgs.len(), 1);
    match &msgs[0] {
        BackendMessage::ErrorResponse(sev, code, m) => {
            assert_eq!(*sev, ErrorSeverity::Fatal);
            assert_eq!(*code, ErrorCode::FeatureNotSupported);
            assert_eq!(m, "unsupported frontend protocol 2.0: server supports 3.0 to 3.0");
        }
        _ => panic!("expected an error response"),
    }
    assert!(shim.auth_context.is_none());
    assert_eq!(shim.phase, ConnectionPhase::Terminated);
}

#[test]
fn startup_without_user_is_denied() {
    let mut shim = PostgresShim::new();
    let (state, msgs) = shim.process_startup_message(startup(3, 0, &[]));
    assert_eq!(state, StartupState::Denied);
    assert_eq!(msgs.len(), 1);
    match &msgs[0] {
        BackendMessage::ErrorResponse(sev, code, m) => {
            assert_eq!(*sev, ErrorSeverity::Fatal);
            assert_eq!(*code, ErrorCode::InvalidAuthorizationSpecification);
            assert_eq!(m, "no PostgreSQL user name specified in startup packet");
        }
        _ => panic!("expected an error response"),
    }
    assert!(shim.auth_context.is_none());
}

#[test]
fn startup_defaults_database_to_user() {
    let mut shim = PostgresShim::new();
    let (state, msgs) = shim.process_startup_message(startup(3, 0, &[("user", "a")]));
    assert_eq!(state, StartupState::Success);
    assert_eq!(msgs.len(), 1);
    assert!(matches!(
        msgs[0],
        BackendMessage::Authentication(AuthenticationRequest::CleartextPassword)
    ));
    let database = shim.parameters.get(&"database".to_string()).expect("database");
    assert_eq!(database, "a");
    let user = shim.parameters.get(&"user".to_string()).expect("user");
    assert_eq!(user, "a");
}

#[test]
fn startup_keeps_explicit_database() {
    let mut shim = PostgresShim::new();
    let (state, _) =
        shim.process_startup_message(startup(3, 0, &[("user", "a"), ("database", "db")]));
    assert_eq!(state, StartupState::Success);
    let database = shim.parameters.get(&"database".to_string()).expect("database");
    assert_eq!(database, "db");
}

#[test]
fn ssl_request_then_plain_startup() {
    let mut shim = PostgresShim::new();
    let (state, msgs) = shim.process_startup_message(startup(SSL_REQUEST_PROTOCOL, 5679, &[]));
    assert_eq!(state, StartupState::SslRequested);
    assert_eq!(msgs.len(), 1);
    assert!(matches!(msgs[0], BackendMessage::SslResponse));
    assert_eq!(shim.phase, ConnectionPhase::SslNegotiated);
    let (state, _) = shim.process_startup_message(startup(3, 0, &[("user", "a")]));
    assert_eq!(state, StartupState::Success);
    assert_eq!(shim.phase, ConnectionPhase::AwaitingPassword);
}

#[test]
fn second_ssl_request_ends_the_connection() {
    let mut shim = PostgresShim::new();
    let (state, _) = shim.process_startup_message(startup(SSL_REQUEST_PROTOCOL, 5679, &[]));
    assert_eq!(state, StartupState::SslRequested);
    let (state, msgs) = shim.process_startup_message(startup(SSL_REQUEST_PROTOCOL, 5679, &[]));
    assert_eq!(state, StartupState::SslRequested);
    assert_eq!(msgs.len(), 1);
    assert!(matches!(msgs[0], BackendMessage::SslResponse));
    assert_eq!(shim.phase, ConnectionPhase::Terminated);
}

#[test]
fn authentication_without_expected_password_always_succeeds() {
    let mut shim = PostgresShim::new();
    let (state, _) = shim.process_startup_message(startup(3, 0, &[("user", "a")]));
    assert_eq!(state, StartupState::Success);
    let (ok, msgs) = shim.authenticate(
        PasswordMessage {
            password: "anything at all".to_string(),
        },
        Some(AuthenticateResponse {
            context: AuthContext {
                user: "a".to_string(),
            },
            password: None,
        }),
    );
    assert!(ok);
    assert_eq!(msgs.len(), 1);
    assert!(matches!(
        msgs[0],
        BackendMessage::Authentication(AuthenticationRequest::Success)
    ));
    assert!(shim.auth_context.is_some());
    assert_eq!(shim.phase, ConnectionPhase::Ready);
}

#[test]
fn authentication_with_matching_password_succeeds() {
    let mut shim = PostgresShim::new();
    shim.process_startup_message(startup(3, 0, &[("user", "a")]));
    let (ok, _) = shim.authenticate(
        PasswordMessage {
            password: "p".to_string(),
        },
        Some(AuthenticateResponse {
            context: AuthContext {
                user: "a".to_string(),
            },
            password: Some("p".to_string()),
        }),
    );
    assert!(ok);
}

#[test]
fn authentication_with_wrong_password_is_denied() {
    let mut shim = PostgresShim::new();
    shim.process_startup_message(startup(3, 0, &[("user", "a")]));
    let (ok, msgs) = shim.authenticate(
        PasswordMessage {
            password: "q".to_string(),
        },
        Some(AuthenticateResponse {
            context: AuthContext {
                user: "a".to_string(),
            },
            password: Some("p".to_string()),
        }),
    );
    assert!(!ok);
    assert_eq!(msgs.len(), 1);
    match &msgs[0] {
        BackendMessage::ErrorResponse(sev, code, m) => {
            assert_eq!(*sev, ErrorSeverity::Fatal);
            assert_eq!(*code, ErrorCode::InvalidPassword);
            assert_eq!(m, "password authentication failed for user \"a\"");
        }
        _ => panic!("expected an error response"),
    }
    assert!(shim.auth_context.is_none());
    assert_eq!(shim.phase, ConnectionPhase::Terminated);
}

#[test]
fn provider_failure_is_denied() {
    let mut shim = PostgresShim::new();
    shim.process_startup_message(startup(3, 0, &[("user", "a")]));
    let (ok, _) = shim.authenticate(
        PasswordMessage {
            password: "p".to_string(),
        },
        None,
    );
    assert!(!ok);
}

#[test]
fn non_password_message_closes_silently() {
    let mut shim = PostgresShim::new();
    shim.process_startup_message(startup(3, 0, &[("user", "a")]));
    let r = shim.expect_password_message(FrontendMessage::Sync);
    assert!(r.is_none());
    assert_eq!(shim.phase, ConnectionPhase::Terminated);
}

#[test]
fn ready_announces_fixed_parameters() {
    let shim = authenticated_shim();
    let msgs = shim.ready();
    assert_eq!(msgs.len(), 5);
    let expected = [
        ("server_version", "14.2 (Cube SQL)"),
        ("server_encoding", "UTF8"),
        ("client_encoding", "UTF8"),
        ("DateStyle", "ISO"),
    ];
    for (i, (k, v)) in expected.iter().enumerate() {
        match &msgs[i] {
            BackendMessage::ParameterStatus(key, value) => {
                assert_eq!(key, k);
                assert_eq!(value, v);
            }
            _ => panic!("expected a parameter status"),
        }
    }
    assert!(matches!(
        msgs[4],
        BackendMessage::ReadyForQuery(TransactionStatus::Idle)
    ));
}

#[test]
fn eof_before_authentication_is_clean() {
    let shim = PostgresShim::new();
    let r = shim.close_outcome(Err(ConnectionError {
        kind: ErrorKind::UnexpectedEof,
        message: "eof".to_string(),
    }));
    assert!(r.is_ok());
}

#[test]
fn eof_after_authentication_is_an_error() {
    let shim = authenticated_shim();
    let r = shim.close_outcome(Err(ConnectionError {
        kind: ErrorKind::UnexpectedEof,
        message: "eof".to_string(),
    }));
    match r {
        Err(e) => assert_eq!(e.kind, ErrorKind::UnexpectedEof),
        Ok(_) => panic!("an authenticated eof must be reported"),
    }
}

#[test]
fn other_errors_always_propagate() {
    let shim = PostgresShim::new();
    let r = shim.close_outcome(Err(ConnectionError {
        kind: ErrorKind::Other,
        message: "boom".to_string(),
    }));
    assert!(r.is_err());
    assert!(shim.close_outcome(Ok(())).is_ok());
}

fn sample_frame() -> DataFrame {
    DataFrame {
        columns: vec![
            Column {
                name: "c1".to_string(),
            },
            Column {
                name: "c2".to_string(),
            },
        ],
        rows: vec![
            Row {
                values: vec![TableValue::Int64(5), TableValue::Boolean(true)],
            },
            Row {
                values: vec![TableValue::Null, TableValue::String("hi".to_string())],
            },
        ],
    }
}

#[test]
fn simple_query_framing_for_tabular_results() {
    let shim = authenticated_shim();
    let status = StatusFlags { flags: 0 };
    let msgs = shim.process_query(Ok(QueryResponse::ResultSet(status, sample_frame())));
    // One row description, two data rows, one command complete, one ready.
    assert_eq!(msgs.len(), 5);
    match &msgs[0] {
        BackendMessage::RowDescription(fields) => {
            assert_eq!(fields.len(), 2);
            assert_eq!(fields[0].name, "c1");
            assert_eq!(fields[1].name, "c2");
            assert_eq!(fields[0].type_oid, TEXT_TYPE_OID);
            assert_eq!(fields[1].type_oid, TEXT_TYPE_OID);
        }
        _ => panic!("expected a row description"),
    }
    match &msgs[1] {
        BackendMessage::DataRow(values) => {
            assert_eq!(values[0].as_deref(), Some("5"));
            assert_eq!(values[1].as_deref(), Some("t"));
        }
        _ => panic!("expected a data row"),
    }
    match &msgs[2] {
        BackendMessage::DataRow(values) => {
            assert_eq!(values[0], None);
            assert_eq!(values[1].as_deref(), Some("hi"));
        }
        _ => panic!("expected a data row"),
    }
    assert!(matches!(msgs[3], BackendMessage::CommandComplete(_, 0)));
    assert!(matches!(
        msgs[4],
        BackendMessage::ReadyForQuery(TransactionStatus::Idle)
    ));
}

#[test]
fn value_rendering_matches_wire_text() {
    assert_eq!(render_value(&TableValue::Int64(-42)).as_deref(), Some("-42"));
    assert_eq!(render_value(&TableValue::Int64(0)).as_deref(), Some("0"));
    assert_eq!(render_value(&TableValue::Boolean(false)).as_deref(), Some("v"));
    assert_eq!(render_value(&TableValue::Null), None);
    assert_eq!(
        render_value(&TableValue::Float64("1.5".to_string())).as_deref(),
        Some("1.5")
    );
    assert_eq!(
        render_value(&TableValue::Timestamp("2022-01-01 00:00:00".to_string())).as_deref(),
        Some("2022-01-01 00:00:00")
    );
}

#[test]
fn status_only_results_and_errors() {
    let shim = authenticated_shim();
    let msgs = shim.process_query(Ok(QueryResponse::Completed(StatusFlags { flags: 0 })));
    assert_eq!(msgs.len(), 2);
    assert!(matches!(msgs[0], BackendMessage::CommandComplete(_, 0)));
    assert!(matches!(msgs[1], BackendMessage::ReadyForQuery(_)));

    let msgs = shim.process_query(Err(CubeError {
        message: "compile failed".to_string(),
    }));
    assert_eq!(msgs.len(), 2);
    match &msgs[0] {
        BackendMessage::ErrorResponse(sev, code, m) => {
            assert_eq!(*sev, ErrorSeverity::Error);
            assert_eq!(*code, ErrorCode::InternalError);
            assert_eq!(m, "compile failed");
        }
        _ => panic!("expected an error response"),
    }
    assert!(matches!(msgs[1], BackendMessage::ReadyForQuery(_)));
}

#[test]
fn extended_protocol_round_trip() {
    let mut shim = authenticated_shim();
    let parsed = shim.parse(
        Parse {
            name: "s1".to_string(),
            query: "SELECT 1".to_string(),
        },
        Ok(Statement {
            sql: "SELECT 1".to_string(),
        }),
    );
    let msgs = parsed.expect("parse should succeed");
    assert_eq!(msgs.len(), 1);
    assert!(matches!(msgs[0], BackendMessage::ParseComplete));

    let bind = Bind {
        statement: "s1".to_string(),
        portal: "p1".to_string(),
        params: vec![],
    };
    let source = shim.bind_source(&bind).expect("statement should be known");
    assert_eq!(source.query.sql, "SELECT 1");

    let plan = QueryPlan::MetaTabular(StatusFlags { flags: 0 }, sample_frame());
    let msgs = shim.bind(bind, plan);
    assert_eq!(msgs.len(), 1);
    assert!(matches!(msgs[0], BackendMessage::BindComplete));

    match shim.execute(&Execute {
        portal: "p1".to_string(),
    }) {
        ExecuteDisposition::Run(plan) => match shim.execute_query(plan) {
            QueryExecution::Done(QueryResponse::ResultSet(_, frame)) => {
                assert_eq!(frame.rows.len(), 2);
            }
            _ => panic!("expected a tabular result"),
        },
        ExecuteDisposition::Respond(_) => panic!("the portal exists"),
    }

    match shim.execute(&Execute {
        portal: "nope".to_string(),
    }) {
        ExecuteDisposition::Respond(msgs) => {
            assert_eq!(msgs.len(), 1);
            assert!(matches!(msgs[0], BackendMessage::ReadyForQuery(_)));
        }
        ExecuteDisposition::Run(_) => panic!("the portal does not exist"),
    }
}

#[test]
fn unknown_statement_on_bind_is_an_error() {
    let shim = authenticated_shim();
    let bind = Bind {
        statement: "missing".to_string(),
        portal: "p1".to_string(),
        params: vec![],
    };
    match shim.bind_source(&bind) {
        Err(e) => {
            assert_eq!(e.kind, ErrorKind::Other);
            assert_eq!(e.message, "Unknown statement");
        }
        Ok(_) => panic!("the statement is unknown"),
    }
}

#[test]
fn parse_failure_terminates_the_connection() {
    let mut shim = authenticated_shim();
    let r = shim.parse(
        Parse {
            name: "s1".to_string(),
            query: "SELEC".to_string(),
        },
        Err(CubeError {
            message: "syntax error".to_string(),
        }),
    );
    match r {
        Err(e) => {
            assert_eq!(e.kind, ErrorKind::Other);
            assert_eq!(e.message, "syntax error");
        }
        Ok(_) => panic!("a parse failure must propagate"),
    }
    assert_eq!(shim.phase, ConnectionPhase::Terminated);
}

#[test]
fn parse_overwrites_statements_of_the_same_name() {
    let mut shim = authenticated_shim();
    shim.parse(
        Parse {
            name: "".to_string(),
            query: "SELECT 1".to_string(),
        },
        Ok(Statement {
            sql: "SELECT 1".to_string(),
        }),
    )
    .expect("first parse");
    shim.parse(
        Parse {
            name: "".to_string(),
            query: "SELECT 2".to_string(),
        },
        Ok(Statement {
            sql: "SELECT 2".to_string(),
        }),
    )
    .expect("second parse");
    let bind = Bind {
        statement: "".to_string(),
        portal: "".to_string(),
        params: vec![],
    };
    let source = shim.bind_source(&bind).expect("unnamed statement");
    assert_eq!(source.query.sql, "SELECT 2");
}

#[test]
fn dispatch_routes_every_command() {
    let mut shim = authenticated_shim();
    assert!(matches!(
        shim.dispatch_message(FrontendMessage::Query(Query {
            query: "SELECT 1".to_string()
        })),
        CommandAction::RunQuery(_)
    ));
    assert!(matches!(
        shim.dispatch_message(FrontendMessage::Sync),
        CommandAction::RunSync
    ));
    let sync_msgs = shim.sync();
    assert_eq!(sync_msgs.len(), 1);
    assert!(matches!(sync_msgs[0], BackendMessage::ReadyForQuery(_)));
    assert_eq!(
        shim.describe(&cubesql::messages::Describe {
            name: "".to_string()
        })
        .len(),
        0
    );
    assert!(matches!(
        shim.dispatch_message(FrontendMessage::Terminate),
        CommandAction::CloseCleanly
    ));
    assert_eq!(shim.phase, ConnectionPhase::Terminated);
}

#[test]
fn unsupported_messages_are_fatal() {
    let mut shim = authenticated_shim();
    match shim.dispatch_message(FrontendMessage::Unsupported(88)) {
        CommandAction::Refuse(e) => {
            assert_eq!(e.kind, ErrorKind::Unsupported);
            assert_eq!(e.message, "Unsupported operation");
        }
        _ => panic!("expected a refusal"),
    }
    assert_eq!(shim.phase, ConnectionPhase::Terminated);
}

#[test]
fn auth_context_is_owed_only_after_authentication() {
    let shim = PostgresShim::new();
    match shim.auth_context() {
        Err(e) => assert_eq!(e.message, "must be auth"),
        Ok(_) => panic!("unauthenticated"),
    }
    let shim = authenticated_shim();
    let ctx = shim.auth_context().expect("authenticated");
    assert_eq!(ctx.user, "a");
}
