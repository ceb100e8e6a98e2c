use rustweb::fields::Fields;
use rustweb::request::{
    bad, cookie_map, disposition_fields, eof, form_fields, header, is_multipart, line_is, lower,
    push_decimal, split_cd, tmr, tos, Headers,
};
use rustweb::share::Trans;

#[test]
fn error_codes() {
    assert_eq!(eof().code, 0);
    assert_eq!(tmr().code, 429);
    assert_eq!(bad().code, 400);
}

#[test]
fn errors_of_other_kinds_become_http_errors() {
    let io = std::io::Error::new(std::io::ErrorKind::Other, "broken pipe");
    assert_eq!(rustweb::share::Error::from(io).code, 500);
    let bytes: Vec<u8> = vec![0xff];
    let utf8 = std::str::from_utf8(&bytes).unwrap_err();
    assert_eq!(rustweb::share::Error::from(utf8).code, 400);
    let decode = serde_urlencoded::from_str::<Vec<(u8, u8)>>("a=b").unwrap_err();
    assert_eq!(rustweb::share::Error::from(decode).code, 400);
}

#[test]
fn error_as_text() {
    assert_eq!(tmr().text(), "429");
    assert_eq!(eof().text(), "0");
    assert_eq!(rustweb::share::Error { code: 65535 }.text(), "65535");
}

#[test]
fn lower_maps_only_upper_case_letters() {
    assert_eq!(lower(b'A'), b'a');
    assert_eq!(lower(b'Z'), b'z');
    assert_eq!(lower(b'a'), b'a');
    assert_eq!(lower(b'@'), b'@');
    assert_eq!(lower(b'['), b'[');
    assert_eq!(lower(b'-'), b'-');
    assert_eq!(lower(200), 200);
}

#[test]
fn line_is_finds_the_value_in_any_case() {
    assert_eq!(line_is(b"Content-Type: text/html", b"content-type"), Some(&b"text/html"[..]));
    assert_eq!(line_is(b"HOST:example.org", b"host"), Some(&b"example.org"[..]));
    assert_eq!(line_is(b"host:    a b ", b"host"), Some(&b"a b "[..]));
    assert_eq!(line_is(b"host:", b"host"), Some(&b""[..]));
}

#[test]
fn line_is_refuses_other_lines() {
    assert_eq!(line_is(b"hosts: x", b"host"), None);
    assert_eq!(line_is(b"host", b"host"), None);
    assert_eq!(line_is(b"hos", b"host"), None);
    assert_eq!(line_is(b"", b"host"), None);
    assert_eq!(line_is(b"cookie: x", b"host"), None);
    assert_eq!(line_is(b"host x", b"host"), None);
}

#[test]
fn tos_reads_utf8_and_refuses_other_bytes() {
    assert_eq!(tos(b"hello").unwrap(), "hello");
    assert_eq!(tos("comt\u{e9}".as_bytes()).unwrap(), "comt\u{e9}");
    assert_eq!(tos(b"").unwrap(), "");
    assert_eq!(tos(&[0xff, 0xfe]).unwrap_err().code, 400);
    assert_eq!(tos(&[b'a', 0xc3]).unwrap_err().code, 400);
}

#[test]
fn cookie_map_splits_on_semicolon_and_equals() {
    let map = cookie_map(b"a=1; b=2;c=3").unwrap();
    assert_eq!(map.len(), 3);
    assert_eq!(map.get("a").unwrap(), "1");
    assert_eq!(map.get("b").unwrap(), "2");
    assert_eq!(map.get("c").unwrap(), "3");
    assert!(map.get("d").is_none());
    assert!(!map.contains(" b"));
}

#[test]
fn cookie_map_later_value_wins() {
    let map = cookie_map(b"a=1; a=2").unwrap();
    assert_eq!(map.get("a").unwrap(), "2");
}

#[test]
fn cookie_map_edge_cases() {
    assert_eq!(cookie_map(b"").unwrap().len(), 0);
    let bare = cookie_map(b"token").unwrap();
    assert_eq!(bare.get("token").unwrap(), "");
    let empty = cookie_map(b"k=").unwrap();
    assert_eq!(empty.get("k").unwrap(), "");
    let spaced = cookie_map(b"  k=v w").unwrap();
    assert_eq!(spaced.get("k").unwrap(), "v w");
    assert_eq!(cookie_map(&[b'k', b'=', 0xff]).unwrap_err().code, 400);
    assert_eq!(cookie_map(&[0xff, b'=', b'v']).unwrap_err().code, 400);
}

#[test]
fn is_multipart_checks_the_prefix() {
    assert!(is_multipart(b"multipart/form-data"));
    assert!(is_multipart(b"multipart/form-data; boundary=xyz"));
    assert!(!is_multipart(b"multipart/form-dat"));
    assert!(!is_multipart(b""));
    assert!(!is_multipart(b"application/x-www-form-urlencoded"));
    assert!(!is_multipart(b"Multipart/form-data; boundary=xyz"));
}

#[test]
fn form_fields_decodes_pairs() {
    let f = form_fields(b"bread=baguette&cheese=comt%C3%A9&a+b=c+d").unwrap();
    assert_eq!(f.len(), 3);
    assert_eq!(f.get("bread").unwrap(), "baguette");
    assert_eq!(f.get("cheese").unwrap(), "comt\u{e9}");
    assert_eq!(f.get("a b").unwrap(), "c d");
    assert_eq!(form_fields(b"").unwrap().len(), 0);
    let twice = form_fields(b"k=1&k=2").unwrap();
    assert_eq!(twice.get("k").unwrap(), "2");
}

#[test]
fn split_cd_reads_name_and_file_name() {
    let (name, file) = split_cd(b"form-data; name=\"file\"; filename=\"logo.png\"").unwrap();
    assert_eq!(name, "file");
    assert_eq!(file, "logo.png");
    let (name, file) = split_cd(b"form-data; name=\"submit\"").unwrap();
    assert_eq!(name, "submit");
    assert_eq!(file, "");
    let (name, file) = split_cd(b"form-data").unwrap();
    assert_eq!(name, "");
    assert_eq!(file, "");
    let (name, _) = split_cd(b"Form-Data; NAME=x").unwrap();
    assert_eq!(name, "x");
}

#[test]
fn split_cd_refuses_other_dispositions() {
    assert!(split_cd(b"attachment; name=\"a\"").is_none());
    assert!(split_cd(b"").is_none());
    assert!(split_cd(&[0xff]).is_none());
    assert!(split_cd(b"form-data; name").is_none());
}

#[test]
fn disposition_fields_needs_form_data() {
    let got = disposition_fields(
        Some("form-data".to_string()),
        Some("n".to_string()),
        None,
    );
    assert_eq!(got, Some(("n".to_string(), String::new())));
    assert_eq!(disposition_fields(Some("mixed".to_string()), Some("n".to_string()), None), None);
    assert_eq!(disposition_fields(None, Some("n".to_string()), Some("f".to_string())), None);
}

#[test]
fn split_pq_parts_path_and_query() {
    let mut h = Headers::new();
    h.split_pq(b"/menu?a=1&b=two").unwrap();
    assert_eq!(h.path, "/menu");
    assert_eq!(h.args.get("a").unwrap(), "1");
    assert_eq!(h.args.get("b").unwrap(), "two");
    let mut h = Headers::new();
    h.split_pq(b"/plain").unwrap();
    assert_eq!(h.path, "/plain");
    assert_eq!(h.args.len(), 0);
    let mut h = Headers::new();
    h.split_pq(b"/q?").unwrap();
    assert_eq!(h.path, "/q");
    assert_eq!(h.args.len(), 0);
    let mut h = Headers::new();
    h.split_pq(b"/a?x=1?y").unwrap();
    assert_eq!(h.path, "/a");
    assert_eq!(h.args.get("x").unwrap(), "1?y");
    let mut h = Headers::new();
    assert_eq!(h.split_pq(&[b'/', 0xff]).unwrap_err().code, 400);
    assert_eq!(h.path, "");
}

#[test]
fn decimal_digits() {
    let mut v = b"n=".to_vec();
    push_decimal(&mut v, 0);
    push_decimal(&mut v, 7);
    push_decimal(&mut v, 10);
    push_decimal(&mut v, 1905);
    push_decimal(&mut v, u64::MAX);
    assert_eq!(v, b"n=0710190518446744073709551615".to_vec());
}

#[test]
fn header_of_a_plain_answer() {
    let mut st = Trans::new(0);
    st.rp.output = b"<p>Hello</p>".to_vec();
    assert_eq!(header(&st), b"HTTP/1.1 200\r\nContent-Length: 12\r\n\r\n".to_vec());
}

#[test]
fn header_lists_the_response_headers_in_order() {
    let mut st = Trans::new(0);
    st.rp.status_code = 404;
    st.rp.headers.push(("Content-Type".to_string(), "text/plain".to_string()));
    st.rp.headers.push(("Set-Cookie".to_string(), "a=b".to_string()));
    assert_eq!(
        header(&st),
        b"HTTP/1.1 404\r\nContent-Type:text/plain\r\nSet-Cookie:a=b\r\nContent-Length: 0\r\n\r\n"
            .to_vec()
    );
}

#[test]
fn fields_keep_order_and_last_value() {
    let mut f = Fields::new();
    assert_eq!(f.len(), 0);
    assert!(f.get("a").is_none());
    f.insert("a".to_string(), "1".to_string());
    f.insert("b".to_string(), "2".to_string());
    f.insert("a".to_string(), "3".to_string());
    assert_eq!(f.len(), 3);
    assert_eq!(f.get("a").unwrap(), "3");
    assert_eq!(f.get("b").unwrap(), "2");
    assert!(f.contains("a"));
    assert!(!f.contains("c"));
    let (name, value) = f.entry(1);
    assert_eq!(name, "b");
    assert_eq!(value, "2");
    let g = Fields::from_pairs(vec![("x".to_string(), "y".to_string())]);
    assert_eq!(g.get("x").unwrap(), "y");
}
