//! The read-only HTTP API: reading a request, routing it, and working out
//! which readings a page holds.
//!
//! Every resource is `GET` only:
//!
//! * `/` and `/index.html`: the web page.
//! * `/api/status`: the device uptime and the state of every history.
//! * `/api/readings`: one page of the readings of `scd41`, `sps30`,
//!   `bme690` or `as7343`; any other sensor is answered `400 Bad Request`.
//! * `/api/thermal`: the newest thermal image.
//!
//! A request with any other method is answered `405 Method Not Allowed`, an
//! unknown path `404 Not Found`, and a header block that does not fit the
//! 512-byte request buffer `431 Request Header Fields Too Large`.

use vstd::prelude::*;
use vstd::utf8::{valid_utf8, decode_utf8};
use crate::text::{
    after_first_token, decode_text, find_char, first_index, first_token, lemma_first_index,
    leading_whitespace, leading_word,
    parse_u64, parse_unsigned, range_equals, skip_whitespace, skip_word,
};
use crate::shared_state::HistoryStatus;

verus! {

/// Size of the buffer a request's header block has to fit in.
pub const REQUEST_BUFFER_LEN: usize = 512;

/// Largest number of readings one `/api/readings` request may return.
pub const MAX_PAGE_READINGS: usize = 2000;

/// Whether `data` contains the blank line that ends a header block.
pub open spec fn has_header_end(data: Seq<u8>) -> bool {
    exists|i: int|
        0 <= i && i + 4 <= data.len() && #[trigger] data[i] == 13 && data[i + 1] == 10 && data[i
            + 2] == 13 && data[i + 3] == 10
}

/// Whether the first `filled` bytes of `data` contain `\r\n\r\n`.
pub fn contains_header_end(data: &[u8], filled: usize) -> (found: bool)
    requires
        filled <= data.len(),
    ensures
        found == has_header_end(data@.subrange(0, filled as int)),
{
    let ghost head = data@.subrange(0, filled as int);
    if filled < 4 {
        return false;
    }
    let mut i: usize = 0;
    while i <= filled - 4
        invariant
            filled >= 4,
            filled <= data.len(),
            head == data@.subrange(0, filled as int),
            forall|j: int|
                0 <= j < i ==> !(#[trigger] head[j] == 13 && head[j + 1] == 10 && head[j + 2] == 13
                    && head[j + 3] == 10),
        decreases filled - i,
    {
        if data[i] == 13 && data[i + 1] == 10 && data[i + 2] == 13 && data[i + 3] == 10 {
            assert(head[i as int] == 13);
            return true;
        }
        i = i + 1;
    }
    false
}

/// What to do after one read from the client.
#[derive(Debug, Clone, Copy, PartialEq, Eq)]
pub enum ReadOutcome {
    /// The client closed the connection before finishing its request.
    Closed,
    /// The header block is complete; route the request.
    Complete,
    /// The buffer is full without the header block having ended.
    TooLarge,
    /// Read again.
    NeedMore,
}

/// Decide how to go on after a read of `count` bytes left `filled` bytes of
/// `request` holding the request so far.
pub fn after_read(request: &[u8], filled: usize, count: usize) -> (outcome: ReadOutcome)
    requires
        filled <= request.len(),
    ensures
        outcome == if count == 0 {
            ReadOutcome::Closed
        } else if has_header_end(request@.subrange(0, filled as int)) {
            ReadOutcome::Complete
        } else if filled == request.len() {
            ReadOutcome::TooLarge
        } else {
            ReadOutcome::NeedMore
        },
{
    if count == 0 {
        ReadOutcome::Closed
    } else if contains_header_end(request, filled) {
        ReadOutcome::Complete
    } else if filled == request.len() {
        ReadOutcome::TooLarge
    } else {
        ReadOutcome::NeedMore
    }
}

/// `GET`.
pub open spec fn get_method() -> Seq<char> {
    seq!['G', 'E', 'T']
}

/// `/`.
pub open spec fn root_path() -> Seq<char> {
    seq!['/']
}

/// `/index.html`.
pub open spec fn index_path() -> Seq<char> {
    seq!['/', 'i', 'n', 'd', 'e', 'x', '.', 'h', 't', 'm', 'l']
}

/// `/api/status`.
pub open spec fn status_path() -> Seq<char> {
    seq!['/', 'a', 'p', 'i', '/', 's', 't', 'a', 't', 'u', 's']
}

/// `/api/readings`.
pub open spec fn readings_path() -> Seq<char> {
    seq!['/', 'a', 'p', 'i', '/', 'r', 'e', 'a', 'd', 'i', 'n', 'g', 's']
}

/// `/api/thermal`.
pub open spec fn thermal_path() -> Seq<char> {
    seq!['/', 'a', 'p', 'i', '/', 't', 'h', 'e', 'r', 'm', 'a', 'l']
}

/// The method of a request: its first whitespace-separated token.
pub open spec fn request_method(text: Seq<char>) -> Seq<char> {
    first_token(text)
}

/// The target of a request: its second whitespace-separated token.
pub open spec fn request_target(text: Seq<char>) -> Seq<char> {
    first_token(after_first_token(text))
}

/// The part of a target before the first `?`.
pub open spec fn target_path(target: Seq<char>) -> Seq<char> {
    target.take(first_index(target, '?') as int)
}

/// The part of a target after the first `?`, or nothing if there is no `?`.
pub open spec fn target_query(target: Seq<char>) -> Seq<char> {
    let mark = first_index(target, '?');
    if mark < target.len() {
        target.skip(mark as int + 1)
    } else {
        Seq::empty()
    }
}

/// Where a request goes.
#[derive(Debug, Clone, PartialEq, Eq)]
pub enum Route {
    /// Anything but `GET`: answered `405 Method Not Allowed`.
    MethodNotAllowed,
    /// A path that is not served: answered `404 Not Found`.
    NotFound,
    /// `GET /` or `GET /index.html`: the web page.
    Page,
    /// `GET /api/status`.
    Status,
    /// `GET /api/readings`, with the query string that came with it.
    Readings { query: Vec<char> },
    /// `GET /api/thermal`.
    Thermal,
}

/// Where the request whose header text is `text` goes.
pub open spec fn routes_to(text: Seq<char>, route: Route) -> bool {
    let target = request_target(text);
    let path = target_path(target);
    if request_method(text) != get_method() {
        route == Route::MethodNotAllowed
    } else if path == root_path() || path == index_path() {
        route == Route::Page
    } else if path == status_path() {
        route == Route::Status
    } else if path == readings_path() {
        route matches Route::Readings { query } && query@ == target_query(target)
    } else if path == thermal_path() {
        route == Route::Thermal
    } else {
        route == Route::NotFound
    }
}

/// Copy `s[start..end]`.
pub fn copy_range(s: &[char], start: usize, end: usize) -> (copy: Vec<char>)
    requires
        start <= end <= s.len(),
    ensures
        copy@ == s@.subrange(start as int, end as int),
{
    let mut copy: Vec<char> = Vec::new();
    let mut i = start;
    while i < end
        invariant
            start <= i <= end <= s.len(),
            copy@ == s@.subrange(start as int, i as int),
        decreases end - i,
    {
        copy.push(s[i]);
        assert(s@.subrange(start as int, i as int + 1) =~= s@.subrange(start as int, i as int).push(s@[i as int]));
        i = i + 1;
    }
    copy
}

/// Where the first two tokens of `s` sit, given the positions the scans
/// found.
proof fn lemma_token_positions(s: Seq<char>, a: int, b: int, c: int, d: int)
    requires
        0 <= a <= b <= c <= d <= s.len(),
        a == leading_whitespace(s.skip(0)),
        b == a + leading_word(s.skip(a)),
        c == b + leading_whitespace(s.skip(b)),
        d == c + leading_word(s.skip(c)),
    ensures
        request_method(s) == s.subrange(a, b),
        request_target(s) == s.subrange(c, d),
{
    assert(s.skip(0) =~= s);
    assert(s.skip(a).take(b - a) =~= s.subrange(a, b));
    assert(s.skip(a).skip(b - a) =~= s.skip(b));
    assert(s.skip(b).skip(c - b) =~= s.skip(c));
    assert(s.skip(c).take(d - c) =~= s.subrange(c, d));
}

/// Route the request whose header block is `head`.
///
/// The header is read as UTF-8 text; a header that is not valid UTF-8 is
/// treated as empty, so it has no method and is answered `405`. The method
/// and the target are the first two whitespace-separated tokens, and the
/// target's path is everything before its first `?`.
pub fn route_request(head: &[u8]) -> (route: Route)
    ensures
        routes_to(
            if valid_utf8(head@) {
                decode_utf8(head@)
            } else {
                Seq::<char>::empty()
            },
            route,
        ),
{
    let chars = decode_text(head);
    let ghost s = chars@;
    let a = skip_whitespace(&chars, 0);
    let b = skip_word(&chars, a);
    let c = skip_whitespace(&chars, b);
    let d = skip_word(&chars, c);
    proof {
        lemma_token_positions(s, a as int, b as int, c as int, d as int);
    }
    let get = ['G', 'E', 'T'];
    assert(get@ =~= get_method());
    if !range_equals(chars.as_slice(), a, b, &get) {
        return Route::MethodNotAllowed;
    }
    let q = find_char(chars.as_slice(), c, d, '?');
    let ghost target = s.subrange(c as int, d as int);
    assert(target_path(target) =~= s.subrange(c as int, q as int));
    let root = ['/'];
    assert(root@ =~= root_path());
    let index = ['/', 'i', 'n', 'd', 'e', 'x', '.', 'h', 't', 'm', 'l'];
    assert(index@ =~= index_path());
    let status = ['/', 'a', 'p', 'i', '/', 's', 't', 'a', 't', 'u', 's'];
    assert(status@ =~= status_path());
    let readings = ['/', 'a', 'p', 'i', '/', 'r', 'e', 'a', 'd', 'i', 'n', 'g', 's'];
    assert(readings@ =~= readings_path());
    let thermal = ['/', 'a', 'p', 'i', '/', 't', 'h', 'e', 'r', 'm', 'a', 'l'];
    assert(thermal@ =~= thermal_path());
    if range_equals(chars.as_slice(), c, q, &root) || range_equals(chars.as_slice(), c, q, &index) {
        Route::Page
    } else if range_equals(chars.as_slice(), c, q, &status) {
        Route::Status
    } else if range_equals(chars.as_slice(), c, q, &readings) {
        let query = if q < d {
            assert(target_query(target) =~= s.subrange(q as int + 1, d as int));
            copy_range(chars.as_slice(), q + 1, d)
        } else {
            assert(target_query(target) =~= Seq::<char>::empty());
            Vec::new()
        };
        Route::Readings { query }
    } else if range_equals(chars.as_slice(), c, q, &thermal) {
        Route::Thermal
    } else {
        Route::NotFound
    }
}

/// The value the first `name=value` pair of a `&`-separated query gives
/// `name`. A pair without `=` names nothing.
pub open spec fn query_lookup(query: Seq<char>, name: Seq<char>) -> Option<Seq<char>>
    decreases query.len(),
{
    let amp = first_index(query, '&');
    let pair = query.take(amp as int);
    let eq = first_index(pair, '=');
    if eq < pair.len() && pair.take(eq as int) == name {
        Some(pair.skip(eq as int + 1))
    } else if amp >= query.len() {
        None
    } else {
        proof {
            lemma_first_index(query, '&');
        }
        query_lookup(query.skip(amp as int + 1), name)
    }
}

/// Value of `name` in a `key=value&key=value` query string.
///
/// Percent-escapes are not decoded: every parameter the server accepts is a
/// bare number or one of a fixed set of sensor names, none of which can
/// contain a character that needs escaping.
pub fn query_param(query: &[char], name: &[char]) -> (value: Option<Vec<char>>)
    ensures
        match value {
            Some(v) => query_lookup(query@, name@) == Some(v@),
            None => query_lookup(query@, name@) is None,
        },
{
    let len = query.len();
    let mut start: usize = 0;
    assert(query@.skip(0) =~= query@);
    loop
        invariant
            start <= len,
            len == query@.len(),
            query_lookup(query@, name@) == query_lookup(query@.skip(start as int), name@),
        decreases len - start,
    {
        let ghost rest = query@.skip(start as int);
        let amp = find_char(query, start, len, '&');
        assert(query@.subrange(start as int, len as int) =~= rest);
        let eq = find_char(query, start, amp, '=');
        proof {
            lemma_first_index(rest, '&');
            assert(rest.take(amp - start) =~= query@.subrange(start as int, amp as int));
            assert(query@.subrange(start as int, eq as int) =~= rest.take(amp - start).take(eq - start));
        }
        if eq < amp && range_equals(query, start, eq, name) {
            assert(rest.take(amp - start).skip(eq - start + 1) =~= query@.subrange(eq + 1, amp as int));
            return Some(copy_range(query, eq + 1, amp));
        }
        if amp == len {
            return None;
        }
        assert(rest.skip(amp - start + 1) =~= query@.skip(amp + 1));
        start = amp + 1;
    }
}

/// The sensors whose histories the API serves: SCD41, SPS30, BME690 and
/// AS7343.
#[derive(Debug, Clone, Copy, PartialEq, Eq)]
pub enum SensorKind {
    Scd41,
    Sps30,
    Bme690,
    As7343,
}

/// The name a sensor goes by in the API.
pub open spec fn sensor_name(kind: SensorKind) -> Seq<char> {
    match kind {
        SensorKind::Scd41 => seq!['s', 'c', 'd', '4', '1'],
        SensorKind::Sps30 => seq!['s', 'p', 's', '3', '0'],
        SensorKind::Bme690 => seq!['b', 'm', 'e', '6', '9', '0'],
        SensorKind::As7343 => seq!['a', 's', '7', '3', '4', '3'],
    }
}

/// `sensor`.
pub open spec fn sensor_key() -> Seq<char> {
    seq!['s', 'e', 'n', 's', 'o', 'r']
}

/// `from`.
pub open spec fn from_key() -> Seq<char> {
    seq!['f', 'r', 'o', 'm']
}

/// `limit`.
pub open spec fn limit_key() -> Seq<char> {
    seq!['l', 'i', 'm', 'i', 't']
}

impl SensorKind {
    /// The sensor a name in the API refers to.
    pub fn from_name(name: &[char]) -> (kind: Option<SensorKind>)
        ensures
            match kind {
                Some(k) => sensor_name(k) == name@,
                None => forall|k: SensorKind| sensor_name(k) != name@,
            },
    {
        let scd41 = ['s', 'c', 'd', '4', '1'];
        let sps30 = ['s', 'p', 's', '3', '0'];
        let bme690 = ['b', 'm', 'e', '6', '9', '0'];
        let as7343 = ['a', 's', '7', '3', '4', '3'];
        assert(scd41@ =~= sensor_name(SensorKind::Scd41));
        assert(sps30@ =~= sensor_name(SensorKind::Sps30));
        assert(bme690@ =~= sensor_name(SensorKind::Bme690));
        assert(as7343@ =~= sensor_name(SensorKind::As7343));
        let len = name.len();
        if range_equals(name, 0, len, &scd41) {
            assert(name@.subrange(0, len as int) =~= name@);
            Some(SensorKind::Scd41)
        } else if range_equals(name, 0, len, &sps30) {
            assert(name@.subrange(0, len as int) =~= name@);
            Some(SensorKind::Sps30)
        } else if range_equals(name, 0, len, &bme690) {
            assert(name@.subrange(0, len as int) =~= name@);
            Some(SensorKind::Bme690)
        } else if range_equals(name, 0, len, &as7343) {
            assert(name@.subrange(0, len as int) =~= name@);
            Some(SensorKind::As7343)
        } else {
            assert(name@.subrange(0, len as int) =~= name@);
            assert forall|k: SensorKind| sensor_name(k) != name@ by {
                match k {
                    SensorKind::Scd41 => {},
                    SensorKind::Sps30 => {},
                    SensorKind::Bme690 => {},
                    SensorKind::As7343 => {},
                }
            }
            None
        }
    }
}

/// The sensor a readings query asks for: its `sensor` parameter, which must
/// name one of the served sensors; anything else is answered `400`.
pub open spec fn requested_sensor(query: Seq<char>) -> Option<SensorKind> {
    match query_lookup(query, sensor_key()) {
        Some(name) => if exists|k: SensorKind| sensor_name(k) == name {
            Some(choose|k: SensorKind| sensor_name(k) == name)
        } else {
            None
        },
        None => None,
    }
}

/// The sensor the `sensor` parameter of a readings query names, if any.
pub fn sensor_from_query(query: &[char]) -> (kind: Option<SensorKind>)
    ensures
        match kind {
            Some(k) => query_lookup(query@, sensor_key()) == Some(sensor_name(k)),
            None => requested_sensor(query@) is None,
        },
{
    let key = ['s', 'e', 'n', 's', 'o', 'r'];
    assert(key@ =~= sensor_key());
    match query_param(query, &key) {
        Some(name) => SensorKind::from_name(name.as_slice()),
        None => None,
    }
}

/// Which readings one page holds: sequence numbers `from .. from + count`.
#[derive(Debug, Clone, Copy, PartialEq, Eq)]
pub struct Page {
    /// Sequence number of the first reading of the page.
    pub from: u64,
    /// Number of readings in the page.
    pub count: usize,
}

/// The `from` a query asks for: its `from` parameter as a number, or 0 when
/// it is missing or not a number.
pub open spec fn requested_from(query: Seq<char>) -> nat {
    match query_lookup(query, from_key()) {
        Some(value) => match parse_unsigned(value, u64::MAX as nat) {
            Some(v) => v,
            None => 0,
        },
        None => 0,
    }
}

/// The limit a query asks for: its `limit` parameter as a number, or
/// [`MAX_PAGE_READINGS`] when it is missing or not a number; never more than
/// [`MAX_PAGE_READINGS`].
pub open spec fn requested_limit(query: Seq<char>) -> nat {
    let asked = match query_lookup(query, limit_key()) {
        Some(value) => match parse_unsigned(value, usize::MAX as nat) {
            Some(v) => v,
            None => MAX_PAGE_READINGS as nat,
        },
        None => MAX_PAGE_READINGS as nat,
    };
    if asked < MAX_PAGE_READINGS {
        asked
    } else {
        MAX_PAGE_READINGS as nat
    }
}

/// Work out the page a readings query asks for, against a sensor's status.
///
/// A `from` that names an already overwritten reading is raised to the oldest
/// reading still retained, so the page reports the `from` it actually used;
/// unparsable values fall back to the defaults rather than failing the
/// request.
pub fn readings_page(query: &[char], status: HistoryStatus) -> (page: Page)
    ensures
        page.from == if requested_from(query@) < status.first_sequence {
            status.first_sequence as nat
        } else {
            requested_from(query@)
        },
        page.count == if status.next_sequence <= page.from {
            0
        } else if status.next_sequence - page.from < requested_limit(query@) {
            (status.next_sequence - page.from) as nat
        } else {
            requested_limit(query@)
        },
        page.count <= MAX_PAGE_READINGS,
{
    let from_name = ['f', 'r', 'o', 'm'];
    assert(from_name@ =~= from_key());
    let limit_name = ['l', 'i', 'm', 'i', 't'];
    assert(limit_name@ =~= limit_key());
    let requested: u64 = match query_param(query, &from_name) {
        Some(value) => match parse_u64(value.as_slice()) {
            Some(v) => v,
            None => 0,
        },
        None => 0,
    };
    let asked: usize = match query_param(query, &limit_name) {
        Some(value) => match parse_u64(value.as_slice()) {
            Some(v) => if v <= usize::MAX as u64 {
                v as usize
            } else {
                MAX_PAGE_READINGS
            },
            None => MAX_PAGE_READINGS,
        },
        None => MAX_PAGE_READINGS,
    };
    let limit = if asked < MAX_PAGE_READINGS { asked } else { MAX_PAGE_READINGS };
    let from = if requested < status.first_sequence { status.first_sequence } else { requested };
    let available = if status.next_sequence <= from { 0 } else { status.next_sequence - from };
    let count = if available < limit as u64 { available as usize } else { limit };
    Page { from, count }
}

/// Every reading a page names was retained when the status was taken, and
/// the page covers them in order: element `i` has sequence number
/// `from + i`.
pub proof fn lemma_page_within_history(query: Seq<char>, status: HistoryStatus, page: Page, i: int)
    requires
        status.next_sequence == status.first_sequence + status.len,
        page.from == if requested_from(query) < status.first_sequence {
            status.first_sequence as nat
        } else {
            requested_from(query)
        },
        page.count == if status.next_sequence <= page.from {
            0
        } else if status.next_sequence - page.from < requested_limit(query) {
            (status.next_sequence - page.from) as nat
        } else {
            requested_limit(query)
        },
        0 <= i < page.count,
    ensures
        status.first_sequence <= page.from + i < status.next_sequence,
        page.count <= status.len,
{
}

} // verus!
