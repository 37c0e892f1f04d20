use wasi_shim::get_status_text;

#[test]
fn common_codes() {
    assert_eq!(get_status_text(200), "OK");
    assert_eq!(get_status_text(201), "Created");
    assert_eq!(get_status_text(204), "No Content");
    assert_eq!(get_status_text(301), "Moved Permanently");
    assert_eq!(get_status_text(304), "Not Modified");
    assert_eq!(get_status_text(400), "Bad Request");
    assert_eq!(get_status_text(403), "Forbidden");
    assert_eq!(get_status_text(404), "Not Found");
    assert_eq!(get_status_text(418), "I'm a teapot");
    assert_eq!(get_status_text(429), "Too Many Requests");
    assert_eq!(get_status_text(500), "Internal Server Error");
    assert_eq!(get_status_text(503), "Service Unavailable");
}

#[test]
fn unknown_codes() {
    assert_eq!(get_status_text(0), "Unknown");
    assert_eq!(get_status_text(199), "Unknown");
    assert_eq!(get_status_text(600), "Unknown");
    assert_eq!(get_status_text(u16::MAX), "Unknown");
}
