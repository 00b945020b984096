use weatherapi::{map_response_err, read_body, read_reply, Error, Reply, Response, WeatherAPI};

const SUCCESS_BODY: &str = r#"{
  "location": {"name": "London", "region": "City of London, Greater London",
               "country": "United Kingdom", "lat": 51.52, "lon": -0.11,
               "tz_id": "Europe/London"},
  "current": {"temp_c": 12.5, "temp_f": 54.5, "feelslike_c": 11.0, "feelslike_f": 51.8,
              "wind_mph": 6.9, "wind_kph": 11.2, "wind_degree": 240, "wind_dir": "WSW",
              "condition": {"text": "Partly cloudy",
                            "icon": "//cdn.weatherapi.com/weather/64x64/day/116.png", "code": 1003},
              "pressure_mb": 1012.0, "pressure_in": 29.88, "humidity": 72}
}"#;

fn bad_request_reason(r: Result<Response, Error>) -> String {
    match r {
        Err(Error::BadRequest(reason)) => reason,
        other => panic!("expected a bad request, got {:?}", other),
    }
}

fn query_pairs(url: &str) -> Vec<(String, String)> {
    let parsed = url::Url::parse(url).unwrap();
    parsed.query_pairs().map(|(k, v)| (k.into_owned(), v.into_owned())).collect()
}

#[test]
fn url_for_plain_values() {
    let api = WeatherAPI::new("abc123", "London");
    assert_eq!(
        api.prepare_url().unwrap(),
        "https://api.weatherapi.com/v1/current.json?key=abc123&q=London"
    );
}

#[test]
fn url_escapes_and_decodes_back() {
    let key = "k e&y#1=x";
    let location = "São Paulo & more #2";
    let url = WeatherAPI::new(key, location).prepare_url().unwrap();
    assert!(!url.contains(' '));
    assert!(!url.contains('#'));
    assert_eq!(
        query_pairs(&url),
        vec![("key".to_string(), key.to_string()), ("q".to_string(), location.to_string())]
    );
}

#[test]
fn url_keeps_lat_lon_location() {
    let url = WeatherAPI::new("key", "48.8567,2.3508").prepare_url().unwrap();
    assert_eq!(
        query_pairs(&url),
        vec![("key".to_string(), "key".to_string()), ("q".to_string(), "48.8567,2.3508".to_string())]
    );
}

#[test]
fn success_body_is_read_field_for_field() {
    let r = read_reply(Reply::Received(200, SUCCESS_BODY.to_string())).unwrap();
    let loc = r.location();
    assert_eq!(loc.name(), "London");
    assert_eq!(loc.region(), "City of London, Greater London");
    assert_eq!(loc.country(), "United Kingdom");
    assert_eq!(loc.lat(), "51.52");
    assert_eq!(loc.lon(), "-0.11");
    let cur = r.current();
    assert_eq!(cur.temp_c(), "12.5");
    assert_eq!(cur.temp_f(), "54.5");
    assert_eq!(cur.feelslike_c(), "11.0");
    assert_eq!(cur.feelslike_f(), "51.8");
    assert_eq!(cur.wind_mph(), "6.9");
    assert_eq!(cur.wind_kph(), "11.2");
    assert_eq!(cur.wind_degree(), "240");
    assert_eq!(cur.wind_dir(), "WSW");
    assert_eq!(cur.condition().text(), "Partly cloudy");
    assert_eq!(cur.condition().icon(), "//cdn.weatherapi.com/weather/64x64/day/116.png");
    assert_eq!(cur.pressure_mb(), "1012.0");
    assert_eq!(cur.pressure_in(), "29.88");
}

#[test]
fn numbers_read_as_f32_match_the_json() {
    let r = read_body(200, SUCCESS_BODY).unwrap();
    assert_eq!(r.location().lat().parse::<f32>().unwrap(), 51.52f32);
    assert_eq!(r.current().wind_degree().parse::<f32>().unwrap(), 240.0f32);
}

#[test]
fn invalid_key_code_maps_to_its_message() {
    let body = r#"{"error":{"code":"2006","message":"API key is invalid."}}"#;
    let reason = bad_request_reason(read_reply(Reply::Received(401, body.to_string())));
    assert_eq!(reason, "API key provided is invalid");
}

#[test]
fn numeric_code_maps_like_its_text() {
    let body = r#"{"error":{"code":1006,"message":"No matching location found."}}"#;
    let reason = bad_request_reason(read_body(400, body));
    assert_eq!(reason, "No location found matching parameter 'q'");
}

#[test]
fn unlisted_code_is_unknown() {
    let body = r#"{"error":{"code":"4242","message":"?"}}"#;
    assert_eq!(bad_request_reason(read_body(400, body)), "Unknown error");
}

#[test]
fn missing_code_is_unknown() {
    assert_eq!(bad_request_reason(read_body(500, r#"{"error":{}}"#)), "Unknown error");
    assert_eq!(bad_request_reason(read_body(500, r#"{"message":"x"}"#)), "Unknown error");
    assert_eq!(bad_request_reason(read_body(500, r#"{"error":{"code":null}}"#)), "Unknown error");
}

#[test]
fn missing_current_fails_to_parse() {
    let body = r#"{"location": {"name": "London", "region": "", "country": "UK", "lat": 51.52, "lon": -0.11}}"#;
    assert!(matches!(read_body(200, body), Err(Error::DataParseFailed)));
}

#[test]
fn missing_nested_member_fails_to_parse() {
    let body = SUCCESS_BODY.replace("\"wind_dir\": \"WSW\",", "");
    assert!(matches!(read_body(200, &body), Err(Error::DataParseFailed)));
    let body = SUCCESS_BODY.replace("\"icon\"", "\"image\"");
    assert!(matches!(read_body(200, &body), Err(Error::DataParseFailed)));
}

#[test]
fn member_of_wrong_kind_fails_to_parse() {
    let body = SUCCESS_BODY.replace("\"lat\": 51.52", "\"lat\": \"51.52\"");
    assert!(matches!(read_body(200, &body), Err(Error::DataParseFailed)));
    let body = SUCCESS_BODY.replace("\"wind_dir\": \"WSW\"", "\"wind_dir\": 5");
    assert!(matches!(read_body(200, &body), Err(Error::DataParseFailed)));
}

#[test]
fn body_that_is_not_json_fails_to_parse() {
    assert!(matches!(read_body(200, "not json"), Err(Error::DataParseFailed)));
    assert!(matches!(read_body(403, "<html>Forbidden</html>"), Err(Error::DataParseFailed)));
    assert!(matches!(read_body(200, ""), Err(Error::DataParseFailed)));
}

#[test]
fn transport_failure_is_request_failed() {
    let r = read_reply(Reply::TransportFailed("connection refused".to_string()));
    match r {
        Err(Error::RequestFailed(text)) => assert_eq!(text, "connection refused"),
        other => panic!("expected a request failure, got {:?}", other),
    }
}

#[test]
fn unreadable_body_is_failed_response_to_string() {
    let r = read_reply(Reply::BodyUnreadable("stream ended".to_string()));
    match r {
        Err(Error::FailedResponseToString(text)) => assert_eq!(text, "stream ended"),
        other => panic!("expected an unreadable body, got {:?}", other),
    }
}

#[test]
fn code_table_is_exact() {
    let table = [
        ("1002", "API key not provided"),
        ("1003", "Parameter 'q' not provided"),
        ("1005", "API request url is invalid"),
        ("1006", "No location found matching parameter 'q'"),
        ("2006", "API key provided is invalid"),
        ("2007", "API key has exceeded calls per month quota"),
        ("2008", "API key has been disabled"),
        ("2009", "API key does not have access to the resource. Please check pricing page for what is allowed in your API subscription plan"),
        ("9000", "Json body passed in bulk request is invalid. Please make sure it is valid json with utf-8 encoding"),
        ("9001", "Json body contains too many locations for bulk request. Please keep it below 50 in a single request"),
        ("9999", "Internal application error"),
    ];
    for (code, message) in table {
        match map_response_err(Some(code.to_string())) {
            Error::BadRequest(reason) => assert_eq!(reason, message),
            other => panic!("unexpected {:?}", other),
        }
    }
}

#[test]
fn code_lookup_is_by_exact_text() {
    for code in ["", "100", "10020", " 1002", "\"1002\"", "2006.0"] {
        match map_response_err(Some(code.to_string())) {
            Error::BadRequest(reason) => assert_eq!(reason, "Unknown error"),
            other => panic!("unexpected {:?}", other),
        }
    }
    match map_response_err(None) {
        Error::BadRequest(reason) => assert_eq!(reason, "Unknown error"),
        other => panic!("unexpected {:?}", other),
    }
}

#[test]
fn client_is_reusable() {
    let api = WeatherAPI::new("abc", "Paris");
    assert_eq!(api.prepare_url().unwrap(), api.prepare_url().unwrap());
}
