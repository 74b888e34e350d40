use clickhouse_component::request::{build_request, send_to_clickhouse, HttpMethod};
use clickhouse_component::settings::{RequiredField, Settings, ValidationError};

fn entry(key: &str, value: &str) -> (String, String) {
    (key.to_string(), value.to_string())
}

#[test]
fn all_fields_are_taken_as_supplied() {
    let settings = Settings::new(vec![
        entry("endpoint", "https://h:8443"),
        entry("database", "test"),
        entry("table", "edgee"),
        entry("username", "user"),
        entry("password", "12345"),
    ])
    .unwrap();
    assert_eq!(settings.endpoint, "https://h:8443");
    assert_eq!(settings.database, "test");
    assert_eq!(settings.table, "edgee");
    assert_eq!(settings.username, "user");
    assert_eq!(settings.password, "12345");
}

#[test]
fn absent_optional_fields_get_their_defaults() {
    let settings = Settings::new(vec![
        entry("endpoint", "https://h:8443"),
        entry("table", "edgee"),
        entry("password", "12345"),
    ])
    .unwrap();
    assert_eq!(settings.database, "default");
    assert_eq!(settings.username, "default");
}

#[test]
fn empty_optional_fields_count_as_absent() {
    let settings = Settings::new(vec![
        entry("endpoint", "https://h:8443"),
        entry("database", ""),
        entry("table", "edgee"),
        entry("username", ""),
        entry("password", "12345"),
    ])
    .unwrap();
    assert_eq!(settings.database, "default");
    assert_eq!(settings.username, "default");
}

#[test]
fn each_missing_required_field_is_named() {
    let no_endpoint = vec![entry("table", "edgee"), entry("password", "12345")];
    assert_eq!(
        Settings::new(no_endpoint),
        Err(ValidationError::MissingField(RequiredField::Endpoint))
    );
    let no_table = vec![entry("endpoint", "https://h:8443"), entry("password", "12345")];
    assert_eq!(
        Settings::new(no_table),
        Err(ValidationError::MissingField(RequiredField::Table))
    );
    let no_password = vec![entry("endpoint", "https://h:8443"), entry("table", "edgee")];
    assert_eq!(
        Settings::new(no_password),
        Err(ValidationError::MissingField(RequiredField::Password))
    );
}

#[test]
fn first_missing_field_is_reported() {
    assert_eq!(
        Settings::new(vec![]),
        Err(ValidationError::MissingField(RequiredField::Endpoint))
    );
    assert_eq!(
        Settings::new(vec![entry("endpoint", "https://h:8443")]),
        Err(ValidationError::MissingField(RequiredField::Table))
    );
    assert_eq!(
        Settings::new(vec![entry("database", "test"), entry("username", "user")]),
        Err(ValidationError::MissingField(RequiredField::Endpoint))
    );
}

#[test]
fn empty_required_field_counts_as_missing() {
    let empty_password = vec![
        entry("endpoint", "https://h:8443"),
        entry("table", "edgee"),
        entry("password", ""),
    ];
    assert_eq!(
        Settings::new(empty_password),
        Err(ValidationError::MissingField(RequiredField::Password))
    );
    let empty_endpoint = vec![
        entry("endpoint", ""),
        entry("table", "edgee"),
        entry("password", "12345"),
    ];
    assert_eq!(
        Settings::new(empty_endpoint),
        Err(ValidationError::MissingField(RequiredField::Endpoint))
    );
}

#[test]
fn later_pair_overrides_earlier_one() {
    let settings = Settings::new(vec![
        entry("endpoint", "https://first:8443"),
        entry("table", "edgee"),
        entry("password", "12345"),
        entry("database", "one"),
        entry("endpoint", "https://second:8443"),
        entry("database", "two"),
    ])
    .unwrap();
    assert_eq!(settings.endpoint, "https://second:8443");
    assert_eq!(settings.database, "two");

    let emptied = Settings::new(vec![
        entry("endpoint", "https://h:8443"),
        entry("table", "edgee"),
        entry("password", "12345"),
        entry("username", "user"),
        entry("username", ""),
    ])
    .unwrap();
    assert_eq!(emptied.username, "default");
}

#[test]
fn unknown_keys_are_ignored() {
    let settings = Settings::new(vec![
        entry("region", "eu"),
        entry("endpoint", "https://h:8443"),
        entry("Endpoint", "https://other:8443"),
        entry("table", "edgee"),
        entry("password", "12345"),
        entry("passwords", "none"),
    ])
    .unwrap();
    assert_eq!(
        settings,
        Settings {
            endpoint: "https://h:8443".to_string(),
            database: "default".to_string(),
            table: "edgee".to_string(),
            username: "default".to_string(),
            password: "12345".to_string(),
        }
    );
}

#[test]
fn error_message_names_the_field() {
    let endpoint = ValidationError::MissingField(RequiredField::Endpoint);
    let table = ValidationError::MissingField(RequiredField::Table);
    let password = ValidationError::MissingField(RequiredField::Password);
    assert_eq!(endpoint.message(), "Missing endpoint");
    assert_eq!(table.message(), "Missing table");
    assert_eq!(password.message(), "Missing password");
    assert_eq!(endpoint.field(), RequiredField::Endpoint);
    assert_eq!(table.field().name(), "table");
    assert_eq!(RequiredField::Password.name(), "password");
}

#[test]
fn build_request_splices_settings_unchanged() {
    let settings = Settings {
        endpoint: "http://db/".to_string(),
        database: "my db".to_string(),
        table: "t;1".to_string(),
        username: "a".to_string(),
        password: "b".to_string(),
    };
    let request = build_request("[1]".to_string(), &settings);
    assert_eq!(request.method, HttpMethod::Post);
    assert_eq!(
        request.url,
        "http://db/?query=INSERT INTO my db.t;1 FORMAT JSONEachRow"
    );
    assert_eq!(request.headers.len(), 2);
    assert_eq!(request.headers[0].0, "Content-Type");
    assert_eq!(request.headers[0].1, "application/json");
    assert_eq!(request.headers[1].0, "Authorization");
    assert_eq!(request.headers[1].1, "Basic YTpi");
    assert_eq!(request.body, "[1]");
    assert_eq!(request.forward_client_headers, false);
}

#[test]
fn send_to_clickhouse_resolves_then_builds() {
    let request = send_to_clickhouse(
        Some("{\"a\":1}".to_string()),
        vec![
            entry("endpoint", "https://h:8443"),
            entry("table", "edgee"),
            entry("password", "12345"),
        ],
    )
    .unwrap();
    assert_eq!(
        request.url,
        "https://h:8443?query=INSERT INTO default.edgee FORMAT JSONEachRow"
    );
    assert_eq!(request.body, "{\"a\":1}");
    assert_eq!(request.headers[1].1, "Basic ZGVmYXVsdDoxMjM0NQ==");

    let refused = send_to_clickhouse(None, vec![entry("endpoint", "https://h:8443")]);
    assert_eq!(refused, Err("Missing table".to_string()));
}
