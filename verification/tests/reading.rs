use rustweb::buffer::{write_charged, write_timeout, Buffer};
use rustweb::multipart::{get_multipart, is_line, Multipart, PartStage, PartStep};
use rustweb::request::{HeadState, HeadStep, Headers, Stage};
use rustweb::share::{Query, SharedState};

fn state(limit: [u64; 4]) -> SharedState {
    SharedState::new(String::new(), String::new(), limit, false, false, false)
}

fn buffer(limit: [u64; 4]) -> (SharedState, Buffer) {
    let mut ss = state(limit);
    let br = Buffer::new(&mut ss, "1.2.3.4".to_string());
    (ss, br)
}

#[test]
fn new_buffer_counts_one_request() {
    let (ss, br) = buffer([100, 200, 300, 400]);
    let u = br.usage();
    assert_eq!(u.used, [1, 0, 0, 0]);
    assert_eq!(u.limit, [100, 200, 300, 400]);
    assert_eq!(br.identity(), "1.2.3.4");
    assert_eq!(ss.usage("1.2.3.4").unwrap().limit, [100, 200, 300, 400]);
}

#[test]
fn fill_timeout_is_budget_by_kilobytes() {
    let (_ss, mut br) = buffer([100, 1_000_000, 100, 100]);
    // Nothing read yet: the divisor is the buffer alone, two kilobytes.
    assert_eq!(br.fill_timeout(0).unwrap(), 500_000 * 1_000_000);
    assert_eq!(br.fill_timeout(1_500_000).unwrap(), 500_000 * 1_000_000 - 1_500_000);
    br.fill(&[7u8; 2048]).unwrap();
    // 2048 read and 2048 to come: four kilobytes.
    assert_eq!(br.fill_timeout(0).unwrap(), 250_000 * 1_000_000);
    br.fill(&[7u8; 1000]).unwrap();
    // 3048 read and 2048 to come: still four whole kilobytes.
    assert_eq!(br.fill_timeout(0).unwrap(), 250_000 * 1_000_000);
    br.fill(&[7u8; 1000]).unwrap();
    assert_eq!(br.fill_timeout(0).unwrap(), 200_000 * 1_000_000);
}

#[test]
fn fill_timeout_fails_when_the_time_is_over() {
    let (_ss, br) = buffer([100, 1000, 100, 100]);
    assert_eq!(br.fill_timeout(499_999_999).unwrap(), 1);
    assert_eq!(br.fill_timeout(500_000_000).unwrap_err().code, 429);
    assert_eq!(br.fill_timeout(u128::MAX).unwrap_err().code, 429);
}

#[test]
fn fill_timeout_fails_at_once_without_budget() {
    let mut ss = state([1, 100, 100, 100]);
    ss.u_budget("1.2.3.4".to_string());
    ss.u_inc("1.2.3.4", [1, 0, 0, 0]);
    let br = Buffer::new(&mut ss, "1.2.3.4".to_string());
    assert_eq!(br.usage().limit, [0, 0, 0, 0]);
    assert_eq!(br.fill_timeout(0).unwrap_err().code, 429);
}

#[test]
fn fill_with_nothing_is_the_end_of_the_stream() {
    let (_ss, mut br) = buffer([100; 4]);
    assert_eq!(br.fill(&[]).unwrap_err().code, 0);
}

#[test]
fn read_until_stops_after_the_delimiter() {
    let (_ss, mut br) = buffer([100; 4]);
    br.fill(b"GET /x HTTP").unwrap();
    let mut to = Vec::new();
    assert!(br.read_until(b' ', &mut to));
    assert_eq!(to, b"GET ".to_vec());
    let mut to = b"kept:".to_vec();
    assert!(br.read_until(b' ', &mut to));
    assert_eq!(to, b"kept:/x ".to_vec());
    let mut to = Vec::new();
    assert!(!br.read_until(b'\n', &mut to));
    assert_eq!(to, b"HTTP".to_vec());
    assert!(!br.read_until(b'\n', &mut to));
    assert_eq!(to, b"HTTP".to_vec());
    br.fill(b"/1.1\r\nrest").unwrap();
    assert!(br.read_until(b'\n', &mut to));
    assert_eq!(to, b"HTTP/1.1\r\n".to_vec());
}

#[test]
fn read_takes_the_number_of_bytes() {
    let (_ss, mut br) = buffer([100; 4]);
    br.fill(b"abcdef").unwrap();
    let mut to = Vec::new();
    assert!(br.read(4, &mut to));
    assert_eq!(to, b"abcd".to_vec());
    let mut to = Vec::new();
    assert!(!br.read(5, &mut to));
    assert_eq!(to, b"ef".to_vec());
    br.fill(b"ghijk").unwrap();
    assert!(br.read(5, &mut to));
    assert_eq!(to, b"efghi".to_vec());
    let mut none = Vec::new();
    assert!(br.read(0, &mut none));
    assert!(none.is_empty());
    let mut rest = Vec::new();
    assert!(br.read(2, &mut rest));
    assert_eq!(rest, b"jk".to_vec());
}

#[test]
fn read_complete_charges_time_by_kilobytes() {
    let (_ss, mut br) = buffer([100; 4]);
    br.fill(&[0u8; 2048]).unwrap();
    br.fill(&[0u8; 2048]).unwrap();
    br.fill(&[0u8; 100]).unwrap();
    // 4196 bytes are five kilobytes begun, nine milliseconds are ten begun.
    br.read_complete(9);
    assert_eq!(br.usage().used, [1, 50, 0, 0]);
    // The count of bytes started again: nothing more is charged.
    br.read_complete(1000);
    assert_eq!(br.usage().used, [1, 50, 0, 0]);
}

#[test]
fn read_complete_charges_every_read() {
    let (_ss, mut br) = buffer([100; 4]);
    br.fill(&[0u8; 1023]).unwrap();
    br.read_complete(50);
    assert_eq!(br.usage().used, [1, 51, 0, 0]);
    let (_ss, mut br) = buffer([100; 4]);
    br.fill(&[0u8; 1]).unwrap();
    br.read_complete(0);
    assert_eq!(br.usage().used, [1, 1, 0, 0]);
    let (_ss, mut br) = buffer([100; 4]);
    br.fill(&[0u8; 1024]).unwrap();
    br.read_complete(0);
    assert_eq!(br.usage().used, [1, 1, 0, 0]);
    let (_ss, mut br) = buffer([100; 4]);
    br.fill(&[0u8; 1025]).unwrap();
    br.read_complete(u64::MAX);
    assert_eq!(br.usage().used, [1, u64::MAX, 0, 0]);
}

#[test]
fn read_complete_without_a_read_charges_nothing() {
    let (_ss, mut br) = buffer([100; 4]);
    br.read_complete(500);
    assert_eq!(br.usage().used, [1, 0, 0, 0]);
}

#[test]
fn finish_charges_the_identity_once() {
    let (mut ss, mut br) = buffer([100, 1000, 1000, 1000]);
    br.fill(&[0u8; 2048]).unwrap();
    br.set_used(2, 77);
    br.set_used(3, 5);
    br.finish(&mut ss, 4);
    assert_eq!(ss.usage("1.2.3.4").unwrap().used, [1, 10, 77, 5]);
    assert_eq!(ss.u_budget("1.2.3.4".to_string()), [99, 990, 923, 995]);
}

#[test]
fn set_identity_moves_the_account() {
    let (mut ss, mut br) = buffer([100, 200, 300, 400]);
    ss.u_budget("9.9.9.9".to_string());
    ss.u_inc("9.9.9.9", [10, 0, 0, 0]);
    br.set_identity(&mut ss, "9.9.9.9".to_string()).unwrap();
    assert_eq!(br.identity(), "9.9.9.9");
    assert_eq!(br.usage().limit, [90, 200, 300, 400]);
    assert_eq!(br.usage().used, [1, 0, 0, 0]);
    ss.u_inc("9.9.9.9", [90, 0, 0, 0]);
    assert_eq!(br.set_identity(&mut ss, "9.9.9.9".to_string()).unwrap_err().code, 429);
}

#[test]
fn write_timeout_is_budget_left_by_kilobytes_and_one() {
    assert_eq!(write_timeout(0, 1000, 0), 1000);
    assert_eq!(write_timeout(1023, 1000, 0), 1000);
    assert_eq!(write_timeout(1024, 1000, 0), 500);
    assert_eq!(write_timeout(10 * 1024, 1000, 120), 80);
    assert_eq!(write_timeout(10, 1000, 1000), 0);
    assert_eq!(write_timeout(10, 1000, 2000), 0);
}

#[test]
fn write_charged_is_time_by_kilobytes() {
    assert_eq!(write_charged(4096, 3, 10), 22);
    assert_eq!(write_charged(1000, 3, 10), 10);
    assert_eq!(write_charged(4096, 0, 10), 10);
    assert_eq!(write_charged(4096, u64::MAX, 10), u64::MAX);
    assert_eq!(write_charged(2048, 5, u64::MAX - 3), u64::MAX);
}

fn read_head(chunks: &[&[u8]]) -> (HeadState, Vec<String>, bool) {
    let (_ss, mut br) = buffer([100; 4]);
    let mut st = HeadState::new();
    let mut ids = Vec::new();
    let mut i = 0;
    loop {
        match Headers::get(&mut br, &mut st) {
            HeadStep::Pending => {
                if i == chunks.len() {
                    return (st, ids, false);
                }
                br.fill(chunks[i]).unwrap();
                i += 1;
            }
            HeadStep::Identity(ip) => ids.push(ip),
            HeadStep::Done => return (st, ids, true),
            HeadStep::Failed(e) => panic!("failed with {}", e.code),
        }
    }
}

#[test]
fn head_is_read_in_one_piece() {
    let head = b"POST /save?x=1 HTTP/1.1\r\nHost: example.org\r\nCookie: a=1; b=2\r\n\
Content-Type: application/x-www-form-urlencoded\r\nContent-Length: 11\r\nAccept: */*\r\n\r\nbody";
    let (st, ids, done) = read_head(&[head]);
    assert!(done);
    assert!(ids.is_empty());
    assert_eq!(st.head.method, b"POST".to_vec());
    assert_eq!(st.head.path, "/save");
    assert_eq!(st.head.args.get("x").unwrap(), "1");
    assert_eq!(st.head.host, "example.org");
    assert_eq!(st.head.cookies.get("a").unwrap(), "1");
    assert_eq!(st.head.cookies.get("b").unwrap(), "2");
    assert_eq!(st.head.content_type, b"application/x-www-form-urlencoded".to_vec());
    assert_eq!(st.head.content_length, "11");
}

#[test]
fn head_is_the_same_read_byte_by_byte() {
    let head = b"GET /a?k=v HTTP/1.1\r\nhOsT:h\r\nX-Real-IP: 5.6.7.8\r\ncontent-length:  3\r\n\r\n";
    let chunks: Vec<&[u8]> = head.chunks(1).collect();
    let (st, ids, done) = read_head(&chunks);
    assert!(done);
    assert_eq!(ids, vec!["5.6.7.8".to_string()]);
    assert_eq!(st.head.method, b"GET".to_vec());
    assert_eq!(st.head.path, "/a");
    assert_eq!(st.head.args.get("k").unwrap(), "v");
    assert_eq!(st.head.host, "h");
    assert_eq!(st.head.content_length, "3");
    assert!(st.head.content_type.is_empty());
    let (whole, ids2, _) = read_head(&[head]);
    assert_eq!(ids2, ids);
    assert_eq!(whole.head.path, st.head.path);
    assert_eq!(whole.head.host, st.head.host);
}

#[test]
fn head_that_is_cut_off_stays_pending() {
    let (st, _, done) = read_head(&[b"GET /a HTTP/1.1\r\nHost: exam"]);
    assert!(!done);
    assert_eq!(st.stage, Stage::Lines);
    assert_eq!(st.token, b"Host: exam".to_vec());
    assert_eq!(st.head.host, "");
}

#[test]
fn short_header_lines_are_passed_over() {
    let (st, _, done) = read_head(&[b"GET / HTTP/1.1\r\nab\r\nc\r\nho\r\n\r\n"]);
    assert!(done);
    assert_eq!(st.head.host, "");
}

#[test]
fn head_with_bad_bytes_fails() {
    let (_ss, mut br) = buffer([100; 4]);
    let mut st = HeadState::new();
    br.fill(&[b'G', b' ', b'/', 0xff, b' ']).unwrap();
    assert!(matches!(Headers::get(&mut br, &mut st), HeadStep::Failed(e) if e.code == 400));
    let (_ss, mut br) = buffer([100; 4]);
    let mut st = HeadState::new();
    br.fill(b"GET / HTTP/1.1\r\nHost: \xff\r\n\r\n").unwrap();
    assert!(matches!(Headers::get(&mut br, &mut st), HeadStep::Failed(e) if e.code == 400));
}

fn read_parts(chunks: &[&[u8]]) -> (Query, PartStep) {
    let (_ss, mut br) = buffer([100; 4]);
    let mut st = Multipart::new();
    let mut q = Query::new(0);
    let mut i = 0;
    loop {
        match get_multipart(&mut br, &mut st, &mut q) {
            PartStep::Pending => {
                if i == chunks.len() {
                    return (q, PartStep::Pending);
                }
                br.fill(chunks[i]).unwrap();
                i += 1;
            }
            step => return (q, step),
        }
    }
}

const UPLOAD: &[u8] = b"------WebKitFormBoundaryAhgB6VordnzCD84Z\r\n\
Content-Disposition: form-data; name=\"submit\"\r\n\
\r\n\
Save\r\n\
------WebKitFormBoundaryAhgB6VordnzCD84Z\r\n\
Content-Disposition: form-data; name=\"file\"; filename=\"logo.png\"\r\n\
Content-Type: image/png\r\n\
\r\n\
\x89PNG\r\n\x1a\n\x00\xff\r\n\
------WebKitFormBoundaryAhgB6VordnzCD84Z--\r\n";

#[test]
fn multipart_field_and_file() {
    let (q, step) = read_parts(&[UPLOAD]);
    assert!(matches!(step, PartStep::Done));
    assert_eq!(q.form.len(), 1);
    assert_eq!(q.form.get("submit").unwrap(), "Save");
    assert_eq!(q.parts.len(), 1);
    assert_eq!(q.parts[0].name, "file");
    assert_eq!(q.parts[0].file_name, "logo.png");
    assert_eq!(q.parts[0].content_type, "image/png");
    assert_eq!(q.parts[0].data, b"\x89PNG\r\n\x1a\n\x00\xff".to_vec());
}

#[test]
fn multipart_is_the_same_in_small_pieces() {
    let chunks: Vec<&[u8]> = UPLOAD.chunks(7).collect();
    let (q, step) = read_parts(&chunks);
    assert!(matches!(step, PartStep::Done));
    assert_eq!(q.form.get("submit").unwrap(), "Save");
    assert_eq!(q.parts.len(), 1);
    assert_eq!(q.parts[0].file_name, "logo.png");
    assert_eq!(q.parts[0].data, b"\x89PNG\r\n\x1a\n\x00\xff".to_vec());
}

#[test]
fn multipart_without_the_last_boundary_stays_pending() {
    let n = UPLOAD.len() - 6;
    let (q, step) = read_parts(&[&UPLOAD[..n]]);
    assert!(matches!(step, PartStep::Pending));
    assert_eq!(q.form.get("submit").unwrap(), "Save");
    assert!(q.parts.is_empty());
}

#[test]
fn multipart_edge_cases() {
    let (_, step) = read_parts(&[b"-\r\n"]);
    assert!(matches!(step, PartStep::Failed(e) if e.code == 0));
    let (q, step) = read_parts(&[b"--b\r\n\r\n--b--\r\n"]);
    assert!(matches!(step, PartStep::Done));
    assert_eq!(q.form.get("").unwrap(), "");
    let (_, step) = read_parts(&[b"--b\r\nContent-Type: \xff\r\n"]);
    assert!(matches!(step, PartStep::Failed(e) if e.code == 400));
    let (_, step) = read_parts(&[b"--b\r\n\r\n\xff\r\n--b--\r\n"]);
    assert!(matches!(step, PartStep::Failed(e) if e.code == 400));
    let (q, step) = read_parts(&[b"--b\r\nContent-Disposition: other; name=x\r\n\r\nv\r\n--b--\r\n"]);
    assert!(matches!(step, PartStep::Done));
    assert_eq!(q.form.get("").unwrap(), "v");
}

#[test]
fn line_that_only_begins_with_the_boundary_is_data() {
    let body = b"--B\r\n\r\nfirst\r\n--Bxy\r\n--B\n\n--B-\r\n\r\n--B\r\n\r\nsecond\r\n--B--\r\n";
    let (q, step) = read_parts(&[body]);
    assert!(matches!(step, PartStep::Done));
    assert_eq!(q.form.len(), 2);
    assert_eq!(q.form.entry(0).1, "first\r\n--Bxy\r\n--B\n\n--B-\r\n");
    assert_eq!(q.form.entry(1).1, "second");
}

#[test]
fn boundary_lines_are_told_exactly() {
    assert!(is_line(b"--B\r\n", b"--B", false));
    assert!(is_line(b"--B--\r\n", b"--B", true));
    assert!(!is_line(b"--B--\r\n", b"--B", false));
    assert!(!is_line(b"--B\r\n", b"--B", true));
    assert!(!is_line(b"--Bxy\r\n", b"--B", true));
    assert!(!is_line(b"--B-\r\n", b"--B", false));
    assert!(!is_line(b"--B\n\n", b"--B", false));
    assert!(!is_line(b"--C\r\n", b"--B", false));
    assert!(!is_line(b"--", b"--B", false));
    assert!(is_line(b"\r\n", b"", false));
}

#[test]
fn multipart_starts_at_the_boundary() {
    let st = Multipart::new();
    assert_eq!(st.stage, PartStage::Boundary);
    assert!(st.boundary.is_empty());
}
