use xiao_esp32s3::http::{
    after_read, query_param, readings_page, route_request, sensor_from_query, Page, ReadOutcome,
    Route, SensorKind, MAX_PAGE_READINGS,
};
use xiao_esp32s3::json::{
    ok_header, page_header, push_decimal, readings_head, status_body, thermal_unavailable_body,
};
use xiao_esp32s3::shared_state::HistoryStatus;
use xiao_esp32s3::text::{chars_of, decode_text, parse_u64};

fn chars(text: &str) -> Vec<char> {
    text.chars().collect()
}

fn string(chars: &[char]) -> String {
    chars.iter().collect()
}

#[test]
fn text_helpers_decode_and_parse() {
    assert_eq!(chars_of("héllo"), chars("héllo"));
    assert_eq!(decode_text("GET /".as_bytes()), chars("GET /"));
    assert_eq!(decode_text(&[0xFF, 0x41]), Vec::<char>::new());
    assert_eq!(parse_u64(&chars("12345")), Some(12345));
    assert_eq!(parse_u64(&chars("+7")), Some(7));
    assert_eq!(parse_u64(&chars("")), None);
    assert_eq!(parse_u64(&chars("+")), None);
    assert_eq!(parse_u64(&chars("-1")), None);
    assert_eq!(parse_u64(&chars("12a")), None);
    assert_eq!(parse_u64(&chars("18446744073709551615")), Some(u64::MAX));
    assert_eq!(parse_u64(&chars("18446744073709551616")), None);
}

#[test]
fn reading_stops_at_the_end_of_the_header_block() {
    let request = b"GET / HTTP/1.1\r\nHost: x\r\n\r\n";
    let mut buffer = [0u8; 64];
    buffer[..request.len()].copy_from_slice(request);
    assert_eq!(after_read(&buffer, request.len(), 5), ReadOutcome::Complete);
    assert_eq!(after_read(&buffer, 10, 10), ReadOutcome::NeedMore);
    assert_eq!(after_read(&buffer, 10, 0), ReadOutcome::Closed);
}

#[test]
fn a_full_buffer_without_header_end_is_too_large() {
    let buffer = [b'a'; 16];
    assert_eq!(after_read(&buffer, 16, 4), ReadOutcome::TooLarge);
}

#[test]
fn requests_are_routed_by_method_and_path() {
    assert_eq!(route_request(b"GET /api/status HTTP/1.1\r\n\r\n"), Route::Status);
    assert_eq!(route_request(b"GET /api/thermal HTTP/1.1\r\n\r\n"), Route::Thermal);
    assert_eq!(
        route_request(b"GET /api/readings?sensor=scd41&from=3 HTTP/1.1\r\n\r\n"),
        Route::Readings {
            query: chars("sensor=scd41&from=3")
        }
    );
    assert_eq!(
        route_request(b"GET /api/readings HTTP/1.1\r\n\r\n"),
        Route::Readings { query: Vec::new() }
    );
    assert_eq!(route_request(b"GET / HTTP/1.1\r\n\r\n"), Route::Page);
    assert_eq!(route_request(b"GET /index.html HTTP/1.1\r\n\r\n"), Route::Page);
    assert_eq!(route_request(b"GET /?x=1 HTTP/1.1\r\n\r\n"), Route::Page);
    assert_eq!(route_request(b"GET /index.htm HTTP/1.1\r\n\r\n"), Route::NotFound);
    assert_eq!(route_request(b"GET /api/statusx HTTP/1.1\r\n\r\n"), Route::NotFound);
    assert_eq!(
        route_request(b"POST /api/status HTTP/1.1\r\n\r\n"),
        Route::MethodNotAllowed
    );
    assert_eq!(route_request(&[0xFF, 0xFE]), Route::MethodNotAllowed);
    assert_eq!(route_request(b"  GET\t/api/status\r\n\r\n"), Route::Status);
}

#[test]
fn query_parameters_are_looked_up_by_name() {
    let query = chars("sensor=sps30&from=10&limit=&flag");
    assert_eq!(query_param(&query, &chars("sensor")), Some(chars("sps30")));
    assert_eq!(query_param(&query, &chars("from")), Some(chars("10")));
    assert_eq!(query_param(&query, &chars("limit")), Some(Vec::new()));
    assert_eq!(query_param(&query, &chars("flag")), None);
    assert_eq!(query_param(&query, &chars("missing")), None);
    assert_eq!(
        query_param(&chars("a=1&a=2"), &chars("a")),
        Some(chars("1"))
    );
}

#[test]
fn sensors_are_selected_by_their_api_name() {
    assert_eq!(sensor_from_query(&chars("sensor=scd41")), Some(SensorKind::Scd41));
    assert_eq!(sensor_from_query(&chars("from=0&sensor=sps30")), Some(SensorKind::Sps30));
    assert_eq!(sensor_from_query(&chars("sensor=as7343")), Some(SensorKind::As7343));
    assert_eq!(sensor_from_query(&chars("sensor=bmp581")), None);
    assert_eq!(sensor_from_query(&chars("sensor=opt4048")), None);
    assert_eq!(sensor_from_query(&chars("sensor=sht41")), None);
    assert_eq!(sensor_from_query(&chars("sensor=SCD41")), None);
    assert_eq!(sensor_from_query(&chars("sensor=bogus")), None);
    assert_eq!(sensor_from_query(&chars("")), None);
    assert_eq!(SensorKind::from_name(&chars("bme690")), Some(SensorKind::Bme690));
}

fn status(first: u64, len: usize) -> HistoryStatus {
    HistoryStatus {
        interval_ms: 10_000,
        capacity: 8640,
        len,
        first_sequence: first,
        next_sequence: first + len as u64,
    }
}

#[test]
fn page_defaults_to_the_oldest_readings() {
    assert_eq!(
        readings_page(&chars("sensor=scd41"), status(0, 360)),
        Page { from: 0, count: 360 }
    );
}

#[test]
fn page_from_is_raised_to_the_oldest_retained_reading() {
    assert_eq!(
        readings_page(&chars("sensor=scd41&from=5"), status(100, 50)),
        Page { from: 100, count: 50 }
    );
}

#[test]
fn page_is_limited_by_the_limit_and_the_cap() {
    assert_eq!(
        readings_page(&chars("from=10&limit=5"), status(0, 360)),
        Page { from: 10, count: 5 }
    );
    assert_eq!(
        readings_page(&chars("limit=999999"), status(0, 8640)),
        Page {
            from: 0,
            count: MAX_PAGE_READINGS
        }
    );
    assert_eq!(
        readings_page(&chars("limit=abc"), status(0, 8640)),
        Page { from: 0, count: 2000 }
    );
}

#[test]
fn page_past_the_newest_reading_is_empty() {
    assert_eq!(
        readings_page(&chars("from=500"), status(0, 360)),
        Page { from: 500, count: 0 }
    );
    assert_eq!(
        readings_page(&chars("from=x"), status(0, 0)),
        Page { from: 0, count: 0 }
    );
}

#[test]
fn decimal_numbers_have_no_leading_zeros() {
    let mut out = Vec::new();
    push_decimal(&mut out, 0);
    push_decimal(&mut out, 1234);
    push_decimal(&mut out, u64::MAX);
    assert_eq!(string(&out), "0123418446744073709551615");
}

#[test]
fn status_body_lists_every_sensor() {
    let statuses = [
        status(0, 360),
        HistoryStatus {
            interval_ms: 5000,
            capacity: 17280,
            len: 720,
            first_sequence: 0,
            next_sequence: 720,
        },
        HistoryStatus::absent(6000),
        status(1, 2),
    ];
    let body = status_body(3_600_000, &statuses).as_str().to_string();
    let expected = [
        "{\"uptime_ms\":3600000,\"window_ms\":86400000,\"sensors\":{",
        "\"scd41\":{\"interval_ms\":10000,\"capacity\":8640,\"len\":360,\"first_sequence\":0,\"next_sequence\":360},",
        "\"sps30\":{\"interval_ms\":5000,\"capacity\":17280,\"len\":720,\"first_sequence\":0,\"next_sequence\":720},",
        "\"bme690\":{\"interval_ms\":6000,\"capacity\":0,\"len\":0,\"first_sequence\":0,\"next_sequence\":0},",
        "\"as7343\":{\"interval_ms\":10000,\"capacity\":8640,\"len\":2,\"first_sequence\":1,\"next_sequence\":3}",
        "}}",
    ]
    .concat();
    assert_eq!(body, expected);
}

#[test]
fn readings_head_reports_the_page_actually_served() {
    let head = readings_head(
        SensorKind::Sps30,
        42,
        &status(100, 50),
        &Page { from: 100, count: 7 },
    )
    .as_str()
    .to_string();
    assert_eq!(
        head,
        "{\"sensor\":\"sps30\",\"uptime_ms\":42,\"interval_ms\":10000,\"capacity\":8640,\"first_sequence\":100,\"next_sequence\":150,\"from\":100,\"count\":7,\"readings\":["
    );
}

#[test]
fn thermal_without_an_image_is_not_an_error() {
    assert_eq!(
        thermal_unavailable_body(9).as_str(),
        "{\"uptime_ms\":9,\"available\":false,\"width\":32,\"height\":24,\"pixels\":[]}"
    );
}

#[test]
fn ok_header_carries_the_body_length() {
    assert_eq!(
        ok_header(17).as_str(),
        "HTTP/1.1 200 OK\r\nContent-Type: application/json\r\nContent-Length: 17\r\nCache-Control: no-store\r\nConnection: close\r\n\r\n"
    );
}

#[test]
fn page_header_is_html_with_its_length() {
    assert_eq!(
        page_header(1234).as_str(),
        "HTTP/1.1 200 OK\r\nContent-Type: text/html; charset=utf-8\r\nContent-Length: 1234\r\nCache-Control: no-store\r\nConnection: close\r\n\r\n"
    );
}
