use firebolt_client::client::{QueryAction, QueryEvent, QueryPhase, QueryRun};
use firebolt_client::factory::{
    api_endpoint_from, engine_url_from_response, setup_error, use_database_sql, use_engine_sql,
    SetupTarget,
};
use firebolt_client::headers::{ensure_trailing_slash, fix_schema, HeaderField, ResponseHeaders};
use firebolt_client::version::{user_agent, PROTOCOL_VERSION, VERSION};
use firebolt_client::{FireboltClient, FireboltClientFactory, FireboltError};

const BODY: &str = r#"{"meta": [{"name": "test", "type": "int"}], "data": [[1]]}"#;

fn create_test_client() -> FireboltClient {
    FireboltClient::new(
        "test_id".to_string(),
        "test_secret".to_string(),
        "test_token".to_string(),
        "https://test.engine.url/".to_string(),
        "https://api.test.firebolt.io".to_string(),
    )
}

fn text(s: &str) -> HeaderField {
    HeaderField::Text(s.to_string())
}

fn respond(client: &mut FireboltClient, run: &mut QueryRun, status: u16, headers: ResponseHeaders) -> QueryAction {
    client.step(run, QueryEvent::Responded(status, headers))
}

/// Runs one query whose single response has status 200, the given headers and `BODY`.
fn query_with_headers(client: &mut FireboltClient, headers: ResponseHeaders) -> Result<(), FireboltError> {
    let (mut run, _request) = client.query("SELECT 1");
    match respond(client, &mut run, 200, headers) {
        QueryAction::ReadBody => {}
        QueryAction::Finish(Err(e)) => return Err(e),
        other => panic!("unexpected {other:?}"),
    }
    match client.step(&mut run, QueryEvent::BodyRead(Ok(BODY.to_string()))) {
        QueryAction::Finish(r) => r.map(|_| ()),
        other => panic!("unexpected {other:?}"),
    }
}

fn parameters_header(value: &str) -> ResponseHeaders {
    ResponseHeaders { update_parameters: text(value), ..ResponseHeaders::none() }
}

#[test]
fn test_client_getters() {
    let client = create_test_client();
    assert_eq!(client.client_id(), "test_id");
    assert_eq!(client.client_secret(), "test_secret");
    assert_eq!(client.api_endpoint(), "https://api.test.firebolt.io");
    assert_eq!(client.engine_url(), "https://test.engine.url/");
    assert!(client.parameters().is_empty());
}

#[test]
fn test_set_token() {
    let mut client = create_test_client();
    client.set_token("new_token".to_string());
    assert_eq!(client.token(), "new_token");
}

#[test]
fn test_ensure_trailing_slash() {
    assert_eq!(ensure_trailing_slash("https://example.com"), "https://example.com/");
    assert_eq!(ensure_trailing_slash("https://example.com/"), "https://example.com/");
    assert_eq!(ensure_trailing_slash(""), "/");
}

#[test]
fn fix_schema_adds_https_only_when_missing() {
    assert_eq!(fix_schema("engine.test.firebolt.io"), "https://engine.test.firebolt.io");
    assert_eq!(fix_schema("http://x.io"), "http://x.io");
    assert_eq!(fix_schema("https://x.io"), "https://x.io");
}

#[test]
fn query_request_carries_session_state() {
    let mut client = create_test_client();
    query_with_headers(&mut client, parameters_header("database=db1,output_format=other")).unwrap();
    let (run, request) = client.query("SELECT 2");
    assert_eq!(request.url, "https://test.engine.url/");
    assert_eq!(request.sql, "SELECT 2");
    assert_eq!(request.token, "test_token");
    assert_eq!(request.parameters.get("output_format").unwrap(), "JSON_Compact");
    assert_eq!(request.parameters.get("database").unwrap(), "db1");
    assert_eq!(request.parameters.len(), 2);
    assert_eq!(run.phase(), QueryPhase::AwaitingResponse);
    assert_eq!(run.sends(), 1);
}

#[test]
fn test_execute_query_request_success() {
    let mut client = create_test_client();
    let (mut run, _request) = client.query("SELECT 1");
    assert!(matches!(respond(&mut client, &mut run, 200, ResponseHeaders::none()), QueryAction::ReadBody));
    match client.step(&mut run, QueryEvent::BodyRead(Ok(BODY.to_string()))) {
        QueryAction::Finish(Ok(rs)) => {
            assert_eq!(rs.columns.len(), 1);
            assert_eq!(rs.rows.len(), 1);
        }
        other => panic!("unexpected {other:?}"),
    }
    assert_eq!(run.phase(), QueryPhase::Finished);
}

#[test]
fn test_execute_query_request_retry_on_401() {
    let mut client = create_test_client();
    let (mut run, _request) = client.query("SELECT 1");
    match respond(&mut client, &mut run, 401, ResponseHeaders::none()) {
        QueryAction::Authenticate { client_id, client_secret, api_endpoint } => {
            assert_eq!(client_id, "test_id");
            assert_eq!(client_secret, "test_secret");
            assert_eq!(api_endpoint, "https://api.test.firebolt.io");
        }
        other => panic!("unexpected {other:?}"),
    }
    let action = client.step(&mut run, QueryEvent::Authenticated(Err("Network error".to_string())));
    assert!(matches!(action, QueryAction::Finish(Err(FireboltError::Authentication(_)))));
}

#[test]
fn test_execute_query_request_no_retry_on_second_401() {
    let mut client = create_test_client();
    let (mut run, _request) = client.query("SELECT 1");
    assert!(matches!(
        respond(&mut client, &mut run, 401, ResponseHeaders::none()),
        QueryAction::Authenticate { .. }
    ));
    match client.step(&mut run, QueryEvent::Authenticated(Ok("fresh_token".to_string()))) {
        QueryAction::Send(request) => {
            assert_eq!(request.token, "fresh_token");
            assert_eq!(request.sql, "SELECT 1");
        }
        other => panic!("unexpected {other:?}"),
    }
    let action = respond(&mut client, &mut run, 401, ResponseHeaders::none());
    assert!(matches!(action, QueryAction::Finish(Err(FireboltError::Authentication(_)))));
    assert_eq!(run.sends(), 2);
}

#[test]
fn refreshed_token_is_kept_after_success() {
    let mut client = create_test_client();
    let before = client.token().to_string();
    let (mut run, _request) = client.query("SELECT 1");
    respond(&mut client, &mut run, 401, ResponseHeaders::none());
    client.step(&mut run, QueryEvent::Authenticated(Ok("fresh_token".to_string())));
    assert!(matches!(respond(&mut client, &mut run, 200, ResponseHeaders::none()), QueryAction::ReadBody));
    let action = client.step(&mut run, QueryEvent::BodyRead(Ok(BODY.to_string())));
    assert!(matches!(action, QueryAction::Finish(Ok(_))));
    assert_eq!(client.token(), "fresh_token");
    assert_ne!(client.token(), before);
    assert_eq!(run.sends(), 2);
}

#[test]
fn test_execute_query_request_5xx_error() {
    let mut client = create_test_client();
    let (mut run, _request) = client.query("SELECT 1");
    assert!(matches!(respond(&mut client, &mut run, 500, ResponseHeaders::none()), QueryAction::ReadBody));
    match client.step(&mut run, QueryEvent::BodyRead(Ok("Internal Server Error".to_string()))) {
        QueryAction::Finish(Err(error)) => {
            assert!(matches!(error, FireboltError::Query(_)));
            assert!(format!("{error:?}").contains("Internal Server Error"));
        }
        other => panic!("unexpected {other:?}"),
    }
}

#[test]
fn other_failure_status_is_a_query_error_and_ignores_headers() {
    let mut client = create_test_client();
    let (mut run, _request) = client.query("SELECT 1");
    let headers = parameters_header("database=x");
    assert!(matches!(respond(&mut client, &mut run, 404, headers), QueryAction::ReadBody));
    let action = client.step(&mut run, QueryEvent::BodyRead(Ok("nope".to_string())));
    match action {
        QueryAction::Finish(Err(FireboltError::Query(m))) => assert_eq!(m, "Server error: nope"),
        other => panic!("unexpected {other:?}"),
    }
    assert!(client.parameters().is_empty());
}

#[test]
fn send_failure_and_body_failure_are_network_errors() {
    let mut client = create_test_client();
    let (mut run, _request) = client.query("SELECT 1");
    let action = client.step(&mut run, QueryEvent::SendFailed("refused".to_string()));
    assert!(matches!(action, QueryAction::Finish(Err(FireboltError::Network(_)))));
    let (mut run, _request) = client.query("SELECT 1");
    respond(&mut client, &mut run, 200, ResponseHeaders::none());
    let action = client.step(&mut run, QueryEvent::BodyRead(Err("reset".to_string())));
    assert!(matches!(action, QueryAction::Finish(Err(FireboltError::Network(_)))));
}

#[test]
fn invalid_body_is_serialization_error() {
    let mut client = create_test_client();
    let (mut run, _request) = client.query("SELECT 1");
    respond(&mut client, &mut run, 200, ResponseHeaders::none());
    let action = client.step(&mut run, QueryEvent::BodyRead(Ok("not json".to_string())));
    assert!(matches!(action, QueryAction::Finish(Err(FireboltError::Serialization(_)))));
}

#[test]
fn event_after_finish_is_refused() {
    let mut client = create_test_client();
    let (mut run, _request) = client.query("SELECT 1");
    client.step(&mut run, QueryEvent::SendFailed("x".to_string()));
    let action = client.step(&mut run, QueryEvent::BodyRead(Ok(BODY.to_string())));
    assert!(matches!(action, QueryAction::Finish(Err(FireboltError::Unknown(_)))));
}

#[test]
fn test_process_response_headers_update_endpoint() {
    let mut client = create_test_client();
    let headers = ResponseHeaders {
        update_endpoint: text("https://new.engine.url/path?param1=value1&param2=value2"),
        ..ResponseHeaders::none()
    };
    assert!(query_with_headers(&mut client, headers).is_ok());
    assert_eq!(client.engine_url(), "https://new.engine.url/path");
    assert_eq!(client.parameters().get("param1"), Some(&"value1".to_string()));
    assert_eq!(client.parameters().get("param2"), Some(&"value2".to_string()));
}

#[test]
fn update_endpoint_root_path_and_scheme() {
    let mut client = create_test_client();
    let headers = ResponseHeaders { update_endpoint: text("other.engine.io/"), ..ResponseHeaders::none() };
    assert!(query_with_headers(&mut client, headers).is_ok());
    assert_eq!(client.engine_url(), "https://other.engine.io");
    let headers = ResponseHeaders { update_endpoint: text("https://"), ..ResponseHeaders::none() };
    assert!(matches!(query_with_headers(&mut client, headers), Err(FireboltError::HeaderParsing(_))));
    assert_eq!(client.engine_url(), "https://other.engine.io");
}

#[test]
fn test_process_response_headers_update_parameters() {
    let mut client = create_test_client();
    let headers = parameters_header("database=new_db,engine=new_engine,custom=value");
    assert!(query_with_headers(&mut client, headers).is_ok());
    assert_eq!(client.parameters().get("database"), Some(&"new_db".to_string()));
    assert_eq!(client.parameters().get("engine"), Some(&"new_engine".to_string()));
    assert_eq!(client.parameters().get("custom"), Some(&"value".to_string()));
}

#[test]
fn update_parameters_merges_with_existing() {
    let mut client = create_test_client();
    query_with_headers(&mut client, parameters_header("keep=1,database=old")).unwrap();
    query_with_headers(&mut client, parameters_header("database=new_db,engine=new_engine")).unwrap();
    let params = client.parameters();
    assert_eq!(params.get("database"), Some(&"new_db".to_string()));
    assert_eq!(params.get("engine"), Some(&"new_engine".to_string()));
    assert_eq!(params.get("keep"), Some(&"1".to_string()));
    assert_eq!(params.len(), 3);
}

#[test]
fn update_parameters_trims_and_skips_blank_entries() {
    let mut client = create_test_client();
    query_with_headers(&mut client, parameters_header(" a = x=y , ,b=,")).unwrap();
    assert_eq!(client.parameters().get("a"), Some(&"x=y".to_string()));
    assert_eq!(client.parameters().get("b"), Some(&"".to_string()));
    assert_eq!(client.parameters().len(), 2);
}

#[test]
fn test_process_response_headers_reset_session() {
    let mut client = create_test_client();
    query_with_headers(
        &mut client,
        parameters_header("database=test_db,engine=test_engine,custom_param=custom_value"),
    )
    .unwrap();
    let headers = ResponseHeaders { reset_session: true, ..ResponseHeaders::none() };
    assert!(query_with_headers(&mut client, headers).is_ok());
    assert_eq!(client.parameters().get("database"), Some(&"test_db".to_string()));
    assert_eq!(client.parameters().get("engine"), Some(&"test_engine".to_string()));
    assert_eq!(client.parameters().get("custom_param"), None);
    assert_eq!(client.parameters().len(), 2);
}

#[test]
fn reset_session_without_database_or_engine_clears_all() {
    let mut client = create_test_client();
    query_with_headers(&mut client, parameters_header("custom=x")).unwrap();
    let headers = ResponseHeaders { reset_session: true, ..ResponseHeaders::none() };
    query_with_headers(&mut client, headers).unwrap();
    assert!(client.parameters().is_empty());
}

#[test]
fn test_process_response_headers_remove_parameters() {
    let mut client = create_test_client();
    query_with_headers(&mut client, parameters_header("param1=value1,param2=value2,param3=value3")).unwrap();
    let headers = ResponseHeaders { remove_parameters: text("param1,param3, unknown ,"), ..ResponseHeaders::none() };
    assert!(query_with_headers(&mut client, headers).is_ok());
    assert_eq!(client.parameters().get("param1"), None);
    assert_eq!(client.parameters().get("param2"), Some(&"value2".to_string()));
    assert_eq!(client.parameters().get("param3"), None);
    assert_eq!(client.parameters().len(), 1);
}

#[test]
fn test_process_response_headers_invalid_parameters_format() {
    let mut client = create_test_client();
    let result = query_with_headers(&mut client, parameters_header("invalid-format-no-equals"));
    assert!(result.is_err());
    assert!(matches!(result.unwrap_err(), FireboltError::HeaderParsing(_)));
}

#[test]
fn test_process_response_headers_empty_parameter_key() {
    let mut client = create_test_client();
    let result = query_with_headers(&mut client, parameters_header("=value"));
    assert!(result.is_err());
    assert!(matches!(result.unwrap_err(), FireboltError::HeaderParsing(_)));
}

#[test]
fn malformed_entry_keeps_earlier_changes() {
    let mut client = create_test_client();
    let headers = ResponseHeaders {
        update_endpoint: text("https://e.io/p"),
        update_parameters: text("a=1,bad,c=3"),
        reset_session: true,
        remove_parameters: text("a"),
    };
    let result = client.process_response_headers(&headers);
    assert!(matches!(result, Err(FireboltError::HeaderParsing(_))));
    assert_eq!(client.engine_url(), "https://e.io/p");
    assert_eq!(client.parameters().get("a"), Some(&"1".to_string()));
    assert_eq!(client.parameters().get("c"), None);
}

#[test]
fn unreadable_header_is_a_parsing_error() {
    let mut client = create_test_client();
    let headers = ResponseHeaders { remove_parameters: HeaderField::Unreadable, ..ResponseHeaders::none() };
    assert!(matches!(client.process_response_headers(&headers), Err(FireboltError::HeaderParsing(_))));
}

#[test]
fn test_build_missing_client_id() {
    let factory = FireboltClientFactory::new()
        .with_credentials("id".to_string(), "secret".to_string())
        .with_account("test_account".to_string());
    assert!(factory.required_settings().is_ok());
    let factory_no_id = FireboltClient::builder().with_account("test_account".to_string());
    assert!(matches!(factory_no_id.required_settings(), Err(FireboltError::Configuration(_))));
}

#[test]
fn test_build_missing_account_name() {
    let factory = FireboltClientFactory::new()
        .with_credentials("client_id".to_string(), "secret".to_string())
        .with_database("db".to_string())
        .with_engine("eng".to_string());
    assert!(matches!(factory.required_settings(), Err(FireboltError::Configuration(_))));
    assert_eq!(factory.database_name().unwrap(), "db");
    assert_eq!(factory.engine_name().unwrap(), "eng");
}

#[test]
fn setup_statements() {
    assert_eq!(use_database_sql("my_db"), "USE DATABASE \"my_db\"");
    assert_eq!(use_engine_sql("my_engine"), "USE ENGINE \"my_engine\"");
}

#[test]
fn test_get_api_endpoint_default() {
    assert_eq!(api_endpoint_from("api.app.firebolt.io"), "https://api.app.firebolt.io");
}

#[test]
fn test_get_api_endpoint_from_env() {
    assert_eq!(api_endpoint_from("custom.api.firebolt.io"), "https://custom.api.firebolt.io");
}

#[test]
fn test_get_api_endpoint_with_https_prefix() {
    assert_eq!(api_endpoint_from("https://custom.api.firebolt.io"), "https://custom.api.firebolt.io");
}

#[test]
fn test_get_api_endpoint_with_http_prefix() {
    assert_eq!(api_endpoint_from("http://custom.api.firebolt.io"), "http://custom.api.firebolt.io");
}

#[test]
fn test_get_engine_url_success() {
    let result = engine_url_from_response("test_account", 200, r#"{"engineUrl": "engine.test.firebolt.io"}"#.to_string());
    assert_eq!(result.unwrap(), "https://engine.test.firebolt.io/");
}

#[test]
fn test_get_engine_url_account_not_found() {
    let result = engine_url_from_response("nonexistent", 404, String::new());
    match result {
        Err(FireboltError::Configuration(m)) => assert_eq!(m, "Account 'nonexistent' not found"),
        other => panic!("unexpected {other:?}"),
    }
}

#[test]
fn test_get_engine_url_server_error() {
    let result = engine_url_from_response("test_account", 500, "Internal server error".to_string());
    assert!(matches!(result.unwrap_err(), FireboltError::Query(_)));
}

#[test]
fn test_get_engine_url_invalid_json() {
    let result = engine_url_from_response("test_account", 200, "invalid json".to_string());
    assert!(matches!(result.unwrap_err(), FireboltError::Query(_)));
}

#[test]
fn test_get_engine_url_missing_engine_url_field() {
    let result = engine_url_from_response("test_account", 200, r#"{"otherField": "value"}"#.to_string());
    assert!(matches!(result.unwrap_err(), FireboltError::Query(_)));
}

#[test]
fn user_agent_names_version() {
    assert_eq!(user_agent(), format!("Rust SDK {VERSION}"));
    assert_eq!(PROTOCOL_VERSION, "2.4");
}

#[test]
fn setup_errors_are_configuration_errors() {
    let cause = FireboltError::Query("Server error: no such database".to_string());
    match setup_error(SetupTarget::Database, &cause) {
        FireboltError::Configuration(m) => {
            assert_eq!(m, "Failed to set database: Server error: no such database")
        }
        other => panic!("unexpected {other:?}"),
    }
    assert!(matches!(setup_error(SetupTarget::Engine, &cause), FireboltError::Configuration(_)));
}

#[test]
fn test_build_missing_client_secret() {
    let factory_no_secret = FireboltClientFactory::new()
        .with_account("test_account".to_string());
    assert!(matches!(factory_no_secret.required_settings(), Err(FireboltError::Configuration(_))));
    let complete = FireboltClientFactory::new()
        .with_credentials("client_id".to_string(), "secret".to_string())
        .with_account("test_account".to_string());
    let (id, secret, account) = complete.required_settings().unwrap();
    assert_eq!((id.as_str(), secret.as_str(), account.as_str()), ("client_id", "secret", "test_account"));
}

#[test]
fn test_execute_query_request_headers() {
    let client = create_test_client();
    let (_run, request) = client.query("SELECT 1");
    assert_eq!(request.token, "test_token");
    assert_eq!(request.authorization(), "Bearer test_token");
    assert_eq!(user_agent(), format!("Rust SDK {VERSION}"));
    assert_eq!(PROTOCOL_VERSION, "2.4");
}

#[test]
fn failed_refresh_carries_the_authenticator_message() {
    let mut client = create_test_client();
    let (mut run, _request) = client.query("SELECT 1");
    respond(&mut client, &mut run, 401, ResponseHeaders::none());
    match client.step(&mut run, QueryEvent::Authenticated(Err("invalid_client".to_string()))) {
        QueryAction::Finish(Err(FireboltError::Authentication(m))) => {
            assert_eq!(m, "Token refresh failed: invalid_client")
        }
        other => panic!("unexpected {other:?}"),
    }
    assert_eq!(client.token(), "test_token");
    assert_eq!(run.sends(), 1);
}

#[test]
fn failure_status_error_is_server_error_with_body() {
    let mut client = create_test_client();
    let (mut run, _request) = client.query("SELECT 1");
    respond(&mut client, &mut run, 500, ResponseHeaders::none());
    match client.step(&mut run, QueryEvent::BodyRead(Ok("Internal Server Error".to_string()))) {
        QueryAction::Finish(Err(FireboltError::Query(m))) => {
            assert_eq!(m, "Server error: Internal Server Error")
        }
        other => panic!("unexpected {other:?}"),
    }
    assert_eq!(run.sends(), 1);
}
