//! The integer-only parts of the HTTP API's JSON: the `/api/status` body,
//! the head of an `/api/readings` page, the thermal answer of a camera that
//! has no image yet, and the header of a response of known length.
//!
//! Every text is built as characters and stated exactly: the literal pieces
//! of the format, and each number in plain decimal. It is handed out in a
//! fixed-size `heapless::String` of [`BUFFER_CAPACITY`] bytes; every text is
//! ASCII and proved to fit, so nothing is ever cut off.

use vstd::prelude::*;
use crate::http::{Page, SensorKind, sensor_name};
use crate::shared_state::{HistoryStatus, HISTORY_WINDOW_MS};

verus! {

/// Bytes a text buffer holds.
pub const BUFFER_CAPACITY: usize = 2048;

#[verifier::external_type_specification]
#[verifier::external_body]
pub struct ExHeaplessString<const N: usize>(heapless::String<N>);

/// The text a buffer holds.
pub uninterp spec fn buffer_text(buffer: heapless::String<2048>) -> Seq<char>;

/// Every character is ASCII, so it takes one byte.
pub open spec fn all_ascii(s: Seq<char>) -> bool {
    forall|i: int| 0 <= i < s.len() ==> (#[trigger] s[i] as u32) < 128
}

/// `heapless::String::new`: a buffer holding no text.
#[verifier::external_body]
fn buffer_new() -> (buffer: heapless::String<2048>)
    ensures
        buffer_text(buffer) == Seq::<char>::empty(),
{
    heapless::String::new()
}

/// `heapless::String::push` of an ASCII character onto ASCII text: with
/// every character one byte, it fails and leaves the text as it was when all
/// 2048 bytes are taken, and appends the character otherwise.
#[verifier::external_body]
fn buffer_push(buffer: &mut heapless::String<2048>, c: char) -> (pushed: Result<(), ()>)
    requires
        (c as u32) < 128,
        all_ascii(buffer_text(*old(buffer))),
    ensures
        pushed is Ok <==> buffer_text(*old(buffer)).len() < 2048,
        pushed is Ok ==> buffer_text(*final(buffer)) == buffer_text(*old(buffer)).push(c),
        pushed is Err ==> buffer_text(*final(buffer)) == buffer_text(*old(buffer)),
{
    buffer.push(c)
}

/// A buffer holding `text`, which is ASCII and fits.
fn buffer_of(text: &Vec<char>) -> (buffer: heapless::String<2048>)
    requires
        text@.len() <= BUFFER_CAPACITY,
        all_ascii(text@),
    ensures
        buffer_text(buffer) == text@,
{
    let mut buffer = buffer_new();
    let mut i: usize = 0;
    while i < text.len()
        invariant
            i <= text@.len(),
            text@.len() <= 2048,
            all_ascii(text@),
            buffer_text(buffer) == text@.take(i as int),
        decreases text@.len() - i,
    {
        let c = text[i];
        assert(all_ascii(text@.take(i as int)));
        let _ = buffer_push(&mut buffer, c);
        assert(text@.take(i as int + 1) =~= text@.take(i as int).push(c));
        i = i + 1;
    }
    assert(text@.take(text@.len() as int) =~= text@);
    buffer
}

/// Joining ASCII texts gives ASCII text.
proof fn lemma_ascii_concat(a: Seq<char>, b: Seq<char>)
    requires
        all_ascii(a),
        all_ascii(b),
    ensures
        all_ascii(a + b),
{
    assert forall|i: int| 0 <= i < (a + b).len() implies ((a + b)[i] as u32) < 128 by {
        if i < a.len() {
            assert((a + b)[i] == a[i]);
        } else {
            assert((a + b)[i] == b[i - a.len()]);
        }
    }
}

/// The character of a decimal digit.
pub open spec fn digit_char(d: nat) -> char {
    if d == 0 {
        '0'
    } else if d == 1 {
        '1'
    } else if d == 2 {
        '2'
    } else if d == 3 {
        '3'
    } else if d == 4 {
        '4'
    } else if d == 5 {
        '5'
    } else if d == 6 {
        '6'
    } else if d == 7 {
        '7'
    } else if d == 8 {
        '8'
    } else {
        '9'
    }
}

/// A number in plain decimal, without sign or leading zeros.
pub open spec fn decimal(n: nat) -> Seq<char>
    decreases n,
{
    if n < 10 {
        seq![digit_char(n)]
    } else {
        decimal(n / 10).push(digit_char(n % 10))
    }
}

/// `10^k`.
pub open spec fn pow10(k: nat) -> nat
    decreases k,
{
    if k == 0 {
        1
    } else {
        10 * pow10((k - 1) as nat)
    }
}

/// A number below `10^k` has at most `k` decimal digits, all ASCII.
proof fn lemma_decimal_digits(n: nat, k: nat)
    requires
        k >= 1,
        n < pow10(k),
    ensures
        all_ascii(decimal(n)),
        decimal(n).len() <= k,
    decreases n,
{
    if n >= 10 {
        assert(k >= 2) by {
            if k == 1 {
                assert(pow10(1) == 10 * pow10(0));
            }
        }
        assert(pow10(k) == 10 * pow10((k - 1) as nat));
        lemma_decimal_digits(n / 10, (k - 1) as nat);
    }
}

/// A 64-bit number has at most 20 decimal digits, all ASCII.
proof fn lemma_decimal_bounds(n: nat)
    requires
        n <= u64::MAX,
    ensures
        all_ascii(decimal(n)),
        decimal(n).len() <= 20,
{
    reveal_with_fuel(pow10, 21);
    assert(pow10(20) == 100_000_000_000_000_000_000nat);
    lemma_decimal_digits(n, 20);
}

/// Append `n` in plain decimal.
pub fn push_decimal(out: &mut Vec<char>, n: u64)
    ensures
        final(out)@ == old(out)@ + decimal(n as nat),
    decreases n,
{
    if n >= 10 {
        push_decimal(out, n / 10);
    }
    let d = n % 10;
    let c = if d == 0 {
        '0'
    } else if d == 1 {
        '1'
    } else if d == 2 {
        '2'
    } else if d == 3 {
        '3'
    } else if d == 4 {
        '4'
    } else if d == 5 {
        '5'
    } else if d == 6 {
        '6'
    } else if d == 7 {
        '7'
    } else if d == 8 {
        '8'
    } else {
        '9'
    };
    out.push(c);
    assert(out@ =~= old(out)@ + decimal(n as nat));
}

/// Append the characters of `text`.
pub fn push_text(out: &mut Vec<char>, text: &str)
    ensures
        final(out)@ == old(out)@ + text@,
{
    let ghost start = out@;
    for c in it: text.chars()
        invariant
            out@ == start + it.seq().take(it.index() as int),
    {
        out.push(c);
        assert(it.seq().take(it.index() as int + 1) =~= it.seq().take(it.index() as int).push(c));
    }
    assert(out@ =~= start + text@);
}

/// Append the API name of a sensor.
pub fn push_sensor_name(out: &mut Vec<char>, kind: SensorKind)
    ensures
        final(out)@ == old(out)@ + sensor_name(kind),
{
    let name: &[char] = match kind {
        SensorKind::Scd41 => &['s', 'c', 'd', '4', '1'],
        SensorKind::Sps30 => &['s', 'p', 's', '3', '0'],
        SensorKind::Bme690 => &['b', 'm', 'e', '6', '9', '0'],
        SensorKind::As7343 => &['a', 's', '7', '3', '4', '3'],
    };
    assert(name@ =~= sensor_name(kind));
    let ghost start = out@;
    for i in 0..name.len()
        invariant
            out@ == start + name@.take(i as int),
    {
        out.push(name[i]);
        assert(name@.take(i as int + 1) =~= name@.take(i as int).push(name@[i as int]));
    }
    assert(out@ =~= start + name@);
}

/// One `"name":{...}` member of the status body's `sensors` object.
pub open spec fn sensor_status_json(kind: SensorKind, status: HistoryStatus) -> Seq<char> {
    "\""@ + sensor_name(kind) + "\":{\"interval_ms\":"@ + decimal(status.interval_ms as nat)
        + ",\"capacity\":"@ + decimal(status.capacity as nat) + ",\"len\":"@ + decimal(
        status.len as nat,
    ) + ",\"first_sequence\":"@ + decimal(status.first_sequence as nat)
        + ",\"next_sequence\":"@ + decimal(status.next_sequence as nat) + "}"@
}

/// Append one member of the status body's `sensors` object.
pub fn push_sensor_status(out: &mut Vec<char>, kind: SensorKind, status: &HistoryStatus)
    ensures
        final(out)@ == old(out)@ + sensor_status_json(kind, *status),
{
    push_text(out, "\"");
    push_sensor_name(out, kind);
    push_text(out, "\":{\"interval_ms\":");
    push_decimal(out, status.interval_ms);
    push_text(out, ",\"capacity\":");
    push_decimal(out, status.capacity as u64);
    push_text(out, ",\"len\":");
    push_decimal(out, status.len as u64);
    push_text(out, ",\"first_sequence\":");
    push_decimal(out, status.first_sequence);
    push_text(out, ",\"next_sequence\":");
    push_decimal(out, status.next_sequence);
    push_text(out, "}");
    assert(out@ =~= old(out)@ + sensor_status_json(kind, *status));
}

/// The sensors of the status body, in the order it lists them.
pub open spec fn status_order(i: int) -> SensorKind {
    if i == 0 {
        SensorKind::Scd41
    } else if i == 1 {
        SensorKind::Sps30
    } else if i == 2 {
        SensorKind::Bme690
    } else {
        SensorKind::As7343
    }
}

/// The members of the `sensors` object for the first `count` statuses,
/// separated by commas.
pub open spec fn sensor_members(statuses: Seq<HistoryStatus>, count: nat) -> Seq<char>
    decreases count,
{
    if count == 0 {
        Seq::empty()
    } else if count == 1 {
        sensor_status_json(status_order(0), statuses[0])
    } else {
        sensor_members(statuses, (count - 1) as nat) + ","@ + sensor_status_json(
            status_order(count - 1),
            statuses[count - 1],
        )
    }
}

/// The `/api/status` body for an uptime and the statuses of the four served
/// histories, in the order SCD41, SPS30, BME690, AS7343.
pub open spec fn status_json(uptime_ms: u64, statuses: Seq<HistoryStatus>) -> Seq<char> {
    "{\"uptime_ms\":"@ + decimal(uptime_ms as nat) + ",\"window_ms\":"@ + decimal(
        HISTORY_WINDOW_MS as nat,
    ) + ",\"sensors\":{"@ + sensor_members(statuses, 4) + "}}"@
}

/// Build the `/api/status` body.
fn status_chars(uptime_ms: u64, statuses: &[HistoryStatus; 4]) -> (body: Vec<char>)
    ensures
        body@ == status_json(uptime_ms, statuses@),
{
    let mut body: Vec<char> = Vec::new();
    push_text(&mut body, "{\"uptime_ms\":");
    push_decimal(&mut body, uptime_ms);
    push_text(&mut body, ",\"window_ms\":");
    push_decimal(&mut body, HISTORY_WINDOW_MS);
    push_text(&mut body, ",\"sensors\":{");
    let ghost head = body@;
    let kinds = [
        SensorKind::Scd41,
        SensorKind::Sps30,
        SensorKind::Bme690,
        SensorKind::As7343,
    ];
    assert(forall|i: int| 0 <= i < 4 ==> kinds@[i] == status_order(i));
    for i in 0..4usize
        invariant
            forall|j: int| 0 <= j < 4 ==> kinds@[j] == status_order(j),
            body@ == head + sensor_members(statuses@, i as nat),
    {
        if i > 0 {
            push_text(&mut body, ",");
        }
        push_sensor_status(&mut body, kinds[i], &statuses[i]);
        assert(body@ =~= head + sensor_members(statuses@, (i + 1) as nat));
    }
    push_text(&mut body, "}}");
    assert(body@ =~= status_json(uptime_ms, statuses@));
    body
}

/// The part of an `/api/readings` page before its first reading.
pub open spec fn readings_head_json(
    kind: SensorKind,
    uptime_ms: u64,
    status: HistoryStatus,
    page: Page,
) -> Seq<char> {
    "{\"sensor\":\""@ + sensor_name(kind) + "\",\"uptime_ms\":"@ + decimal(uptime_ms as nat)
        + ",\"interval_ms\":"@ + decimal(status.interval_ms as nat) + ",\"capacity\":"@
        + decimal(status.capacity as nat) + ",\"first_sequence\":"@ + decimal(
        status.first_sequence as nat,
    ) + ",\"next_sequence\":"@ + decimal(status.next_sequence as nat) + ",\"from\":"@
        + decimal(page.from as nat) + ",\"count\":"@ + decimal(page.count as nat)
        + ",\"readings\":["@
}

/// Build the part of an `/api/readings` page before its first reading.
fn readings_head_chars(kind: SensorKind, uptime_ms: u64, status: &HistoryStatus, page: &Page) -> (head:
    Vec<char>)
    ensures
        head@ == readings_head_json(kind, uptime_ms, *status, *page),
{
    let mut head: Vec<char> = Vec::new();
    push_text(&mut head, "{\"sensor\":\"");
    push_sensor_name(&mut head, kind);
    push_text(&mut head, "\",\"uptime_ms\":");
    push_decimal(&mut head, uptime_ms);
    push_text(&mut head, ",\"interval_ms\":");
    push_decimal(&mut head, status.interval_ms);
    push_text(&mut head, ",\"capacity\":");
    push_decimal(&mut head, status.capacity as u64);
    push_text(&mut head, ",\"first_sequence\":");
    push_decimal(&mut head, status.first_sequence);
    push_text(&mut head, ",\"next_sequence\":");
    push_decimal(&mut head, status.next_sequence);
    push_text(&mut head, ",\"from\":");
    push_decimal(&mut head, page.from);
    push_text(&mut head, ",\"count\":");
    push_decimal(&mut head, page.count as u64);
    push_text(&mut head, ",\"readings\":[");
    assert(head@ =~= readings_head_json(kind, uptime_ms, *status, *page));
    head
}

/// The `/api/thermal` body of a camera that has not finished an image.
pub open spec fn thermal_unavailable_json(uptime_ms: u64) -> Seq<char> {
    "{\"uptime_ms\":"@ + decimal(uptime_ms as nat) + ",\"available\":false,\"width\":"@
        + decimal(32) + ",\"height\":"@ + decimal(24) + ",\"pixels\":[]}"@
}

/// Build the `/api/thermal` body of a camera without an image.
fn thermal_unavailable_chars(uptime_ms: u64) -> (body: Vec<char>)
    ensures
        body@ == thermal_unavailable_json(uptime_ms),
{
    let mut body: Vec<char> = Vec::new();
    push_text(&mut body, "{\"uptime_ms\":");
    push_decimal(&mut body, uptime_ms);
    push_text(&mut body, ",\"available\":false,\"width\":");
    push_decimal(&mut body, 32);
    push_text(&mut body, ",\"height\":");
    push_decimal(&mut body, 24);
    push_text(&mut body, ",\"pixels\":[]}");
    assert(body@ =~= thermal_unavailable_json(uptime_ms));
    body
}

/// The header of a `200 OK` JSON response whose body is `body_len` bytes.
pub open spec fn ok_header_json(body_len: usize) -> Seq<char> {
    "HTTP/1.1 200 OK\r\nContent-Type: application/json\r\nContent-Length: "@ + decimal(
        body_len as nat,
    ) + "\r\nCache-Control: no-store\r\nConnection: close\r\n\r\n"@
}

/// Build the header of a `200 OK` JSON response of known length.
fn ok_header_chars(body_len: usize) -> (header: Vec<char>)
    ensures
        header@ == ok_header_json(body_len),
{
    let mut header: Vec<char> = Vec::new();
    push_text(&mut header, "HTTP/1.1 200 OK\r\nContent-Type: application/json\r\nContent-Length: ");
    push_decimal(&mut header, body_len as u64);
    push_text(&mut header, "\r\nCache-Control: no-store\r\nConnection: close\r\n\r\n");
    assert(header@ =~= ok_header_json(body_len));
    header
}

/// The header of a `200 OK` HTML response whose body is `body_len` bytes.
pub open spec fn page_header_text(body_len: usize) -> Seq<char> {
    "HTTP/1.1 200 OK\r\nContent-Type: text/html; charset=utf-8\r\nContent-Length: "@ + decimal(
        body_len as nat,
    ) + "\r\nCache-Control: no-store\r\nConnection: close\r\n\r\n"@
}

/// Build the header of the web page's `200 OK` response.
fn page_header_chars(body_len: usize) -> (header: Vec<char>)
    ensures
        header@ == page_header_text(body_len),
{
    let mut header: Vec<char> = Vec::new();
    push_text(&mut header, "HTTP/1.1 200 OK\r\nContent-Type: text/html; charset=utf-8\r\nContent-Length: ");
    push_decimal(&mut header, body_len as u64);
    push_text(&mut header, "\r\nCache-Control: no-store\r\nConnection: close\r\n\r\n");
    assert(header@ =~= page_header_text(body_len));
    header
}

/// The name of a served sensor is ASCII and at most six characters.
proof fn lemma_name_bounds(kind: SensorKind)
    ensures
        all_ascii(sensor_name(kind)),
        sensor_name(kind).len() <= 6,
{
}

/// One member of the status body is ASCII and at most 200 characters.
proof fn lemma_member_bounds(kind: SensorKind, status: HistoryStatus)
    ensures
        all_ascii(sensor_status_json(kind, status)),
        sensor_status_json(kind, status).len() <= 200,
{
    reveal_strlit("\"");
    reveal_strlit("\":{\"interval_ms\":");
    reveal_strlit(",\"capacity\":");
    reveal_strlit(",\"len\":");
    reveal_strlit(",\"first_sequence\":");
    reveal_strlit(",\"next_sequence\":");
    reveal_strlit("}");
    lemma_name_bounds(kind);
    lemma_decimal_bounds(status.interval_ms as nat);
    lemma_decimal_bounds(status.capacity as nat);
    lemma_decimal_bounds(status.len as nat);
    lemma_decimal_bounds(status.first_sequence as nat);
    lemma_decimal_bounds(status.next_sequence as nat);
    let t0 = "\""@;
    lemma_ascii_concat(t0, sensor_name(kind));
    let t1 = t0 + sensor_name(kind);
    lemma_ascii_concat(t1, "\":{\"interval_ms\":"@);
    let t2 = t1 + "\":{\"interval_ms\":"@;
    lemma_ascii_concat(t2, decimal(status.interval_ms as nat));
    let t3 = t2 + decimal(status.interval_ms as nat);
    lemma_ascii_concat(t3, ",\"capacity\":"@);
    let t4 = t3 + ",\"capacity\":"@;
    lemma_ascii_concat(t4, decimal(status.capacity as nat));
    let t5 = t4 + decimal(status.capacity as nat);
    lemma_ascii_concat(t5, ",\"len\":"@);
    let t6 = t5 + ",\"len\":"@;
    lemma_ascii_concat(t6, decimal(status.len as nat));
    let t7 = t6 + decimal(status.len as nat);
    lemma_ascii_concat(t7, ",\"first_sequence\":"@);
    let t8 = t7 + ",\"first_sequence\":"@;
    lemma_ascii_concat(t8, decimal(status.first_sequence as nat));
    let t9 = t8 + decimal(status.first_sequence as nat);
    lemma_ascii_concat(t9, ",\"next_sequence\":"@);
    let t10 = t9 + ",\"next_sequence\":"@;
    lemma_ascii_concat(t10, decimal(status.next_sequence as nat));
    let t11 = t10 + decimal(status.next_sequence as nat);
    lemma_ascii_concat(t11, "}"@);
    let t12 = t11 + "}"@;
    assert(t12 == sensor_status_json(kind, status));
}

/// The members of the status body are ASCII and at most 201 characters
/// each.
proof fn lemma_members_bounds(statuses: Seq<HistoryStatus>, count: nat)
    ensures
        all_ascii(sensor_members(statuses, count)),
        sensor_members(statuses, count).len() <= 201 * count,
    decreases count,
{
    if count == 1 {
        lemma_member_bounds(status_order(0), statuses[0]);
    } else if count > 1 {
        lemma_members_bounds(statuses, (count - 1) as nat);
        lemma_member_bounds(status_order(count - 1), statuses[count - 1]);
        reveal_strlit(",");
        let head = sensor_members(statuses, (count - 1) as nat);
        lemma_ascii_concat(head, ","@);
        lemma_ascii_concat(head + ","@, sensor_status_json(status_order(count - 1), statuses[count - 1]));
    }
}

/// The status body is ASCII and fits a buffer.
proof fn lemma_status_bounds(uptime_ms: u64, statuses: Seq<HistoryStatus>)
    ensures
        all_ascii(status_json(uptime_ms, statuses)),
        status_json(uptime_ms, statuses).len() <= BUFFER_CAPACITY,
{
    reveal_strlit("{\"uptime_ms\":");
    reveal_strlit(",\"window_ms\":");
    reveal_strlit(",\"sensors\":{");
    reveal_strlit("}}");
    lemma_decimal_bounds(uptime_ms as nat);
    lemma_decimal_bounds(HISTORY_WINDOW_MS as nat);
    lemma_members_bounds(statuses, 4);
    let t0 = "{\"uptime_ms\":"@;
    lemma_ascii_concat(t0, decimal(uptime_ms as nat));
    let t1 = t0 + decimal(uptime_ms as nat);
    lemma_ascii_concat(t1, ",\"window_ms\":"@);
    let t2 = t1 + ",\"window_ms\":"@;
    lemma_ascii_concat(t2, decimal(HISTORY_WINDOW_MS as nat));
    let t3 = t2 + decimal(HISTORY_WINDOW_MS as nat);
    lemma_ascii_concat(t3, ",\"sensors\":{"@);
    let t4 = t3 + ",\"sensors\":{"@;
    lemma_ascii_concat(t4, sensor_members(statuses, 4));
    let t5 = t4 + sensor_members(statuses, 4);
    lemma_ascii_concat(t5, "}}"@);
    let t6 = t5 + "}}"@;
    assert(t6 == status_json(uptime_ms, statuses));
}

/// Build the `/api/status` body.
pub fn status_body(uptime_ms: u64, statuses: &[HistoryStatus; 4]) -> (body: heapless::String<2048>)
    ensures
        buffer_text(body) == status_json(uptime_ms, statuses@),
{
    proof {
        lemma_status_bounds(uptime_ms, statuses@);
    }
    buffer_of(&status_chars(uptime_ms, statuses))
}

/// The head of a readings page is ASCII and fits a buffer.
proof fn lemma_readings_head_bounds(kind: SensorKind, uptime_ms: u64, status: HistoryStatus, page: Page)
    ensures
        all_ascii(readings_head_json(kind, uptime_ms, status, page)),
        readings_head_json(kind, uptime_ms, status, page).len() <= BUFFER_CAPACITY,
{
    reveal_strlit("{\"sensor\":\"");
    reveal_strlit("\",\"uptime_ms\":");
    reveal_strlit(",\"interval_ms\":");
    reveal_strlit(",\"capacity\":");
    reveal_strlit(",\"first_sequence\":");
    reveal_strlit(",\"next_sequence\":");
    reveal_strlit(",\"from\":");
    reveal_strlit(",\"count\":");
    reveal_strlit(",\"readings\":[");
    lemma_name_bounds(kind);
    lemma_decimal_bounds(uptime_ms as nat);
    lemma_decimal_bounds(status.interval_ms as nat);
    lemma_decimal_bounds(status.capacity as nat);
    lemma_decimal_bounds(status.first_sequence as nat);
    lemma_decimal_bounds(status.next_sequence as nat);
    lemma_decimal_bounds(page.from as nat);
    lemma_decimal_bounds(page.count as nat);
    let t0 = "{\"sensor\":\""@;
    lemma_ascii_concat(t0, sensor_name(kind));
    let t1 = t0 + sensor_name(kind);
    lemma_ascii_concat(t1, "\",\"uptime_ms\":"@);
    let t2 = t1 + "\",\"uptime_ms\":"@;
    lemma_ascii_concat(t2, decimal(uptime_ms as nat));
    let t3 = t2 + decimal(uptime_ms as nat);
    lemma_ascii_concat(t3, ",\"interval_ms\":"@);
    let t4 = t3 + ",\"interval_ms\":"@;
    lemma_ascii_concat(t4, decimal(status.interval_ms as nat));
    let t5 = t4 + decimal(status.interval_ms as nat);
    lemma_ascii_concat(t5, ",\"capacity\":"@);
    let t6 = t5 + ",\"capacity\":"@;
    lemma_ascii_concat(t6, decimal(status.capacity as nat));
    let t7 = t6 + decimal(status.capacity as nat);
    lemma_ascii_concat(t7, ",\"first_sequence\":"@);
    let t8 = t7 + ",\"first_sequence\":"@;
    lemma_ascii_concat(t8, decimal(status.first_sequence as nat));
    let t9 = t8 + decimal(status.first_sequence as nat);
    lemma_ascii_concat(t9, ",\"next_sequence\":"@);
    let t10 = t9 + ",\"next_sequence\":"@;
    lemma_ascii_concat(t10, decimal(status.next_sequence as nat));
    let t11 = t10 + decimal(status.next_sequence as nat);
    lemma_ascii_concat(t11, ",\"from\":"@);
    let t12 = t11 + ",\"from\":"@;
    lemma_ascii_concat(t12, decimal(page.from as nat));
    let t13 = t12 + decimal(page.from as nat);
    lemma_ascii_concat(t13, ",\"count\":"@);
    let t14 = t13 + ",\"count\":"@;
    lemma_ascii_concat(t14, decimal(page.count as nat));
    let t15 = t14 + decimal(page.count as nat);
    lemma_ascii_concat(t15, ",\"readings\":["@);
    let t16 = t15 + ",\"readings\":["@;
    assert(t16 == readings_head_json(kind, uptime_ms, status, page));
}

/// Build the part of an `/api/readings` page before its first reading.
pub fn readings_head(kind: SensorKind, uptime_ms: u64, status: &HistoryStatus, page: &Page) -> (head:
    heapless::String<2048>)
    ensures
        buffer_text(head) == readings_head_json(kind, uptime_ms, *status, *page),
{
    proof {
        lemma_readings_head_bounds(kind, uptime_ms, *status, *page);
    }
    buffer_of(&readings_head_chars(kind, uptime_ms, status, page))
}

/// Build the `/api/thermal` body of a camera without an image.
pub fn thermal_unavailable_body(uptime_ms: u64) -> (body: heapless::String<2048>)
    ensures
        buffer_text(body) == thermal_unavailable_json(uptime_ms),
{
    proof {
        reveal_strlit("{\"uptime_ms\":");
        reveal_strlit(",\"available\":false,\"width\":");
        reveal_strlit(",\"height\":");
        reveal_strlit(",\"pixels\":[]}");
        lemma_decimal_bounds(uptime_ms as nat);
        lemma_decimal_bounds(32);
        lemma_decimal_bounds(24);
    }
    buffer_of(&thermal_unavailable_chars(uptime_ms))
}

/// Build the header of a `200 OK` JSON response of known length.
pub fn ok_header(body_len: usize) -> (header: heapless::String<2048>)
    ensures
        buffer_text(header) == ok_header_json(body_len),
{
    proof {
        reveal_strlit("HTTP/1.1 200 OK\r\nContent-Type: application/json\r\nContent-Length: ");
        reveal_strlit("\r\nCache-Control: no-store\r\nConnection: close\r\n\r\n");
        lemma_decimal_bounds(body_len as nat);
    }
    buffer_of(&ok_header_chars(body_len))
}

/// Build the header of the web page's `200 OK` response.
pub fn page_header(body_len: usize) -> (header: heapless::String<2048>)
    ensures
        buffer_text(header) == page_header_text(body_len),
{
    proof {
        reveal_strlit("HTTP/1.1 200 OK\r\nContent-Type: text/html; charset=utf-8\r\nContent-Length: ");
        reveal_strlit("\r\nCache-Control: no-store\r\nConnection: close\r\n\r\n");
        lemma_decimal_bounds(body_len as nat);
    }
    buffer_of(&page_header_chars(body_len))
}

} // verus!
