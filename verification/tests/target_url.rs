use revproxy::msg::ProxyError;
use revproxy::target::build_target_url;
use revproxy::target::concat_bytes;

#[test]
fn concat_appends_byte_for_byte() {
    let a = b"http://127.0.0.1:3000".to_vec();
    let b = b"/a?b=c".to_vec();
    assert_eq!(concat_bytes(&a, &b), b"http://127.0.0.1:3000/a?b=c".to_vec());
}

#[test]
fn concat_with_empty_sides() {
    let a = b"abc".to_vec();
    let e = Vec::new();
    assert_eq!(concat_bytes(&a, &e), b"abc".to_vec());
    assert_eq!(concat_bytes(&e, &a), b"abc".to_vec());
}

#[test]
fn target_root_path() {
    let base = b"http://127.0.0.1:3000".to_vec();
    let pq = b"/".to_vec();
    assert_eq!(
        build_target_url(&base, &pq),
        Ok(b"http://127.0.0.1:3000/".to_vec())
    );
}

#[test]
fn target_path_with_query() {
    let base = b"http://127.0.0.1:3000".to_vec();
    let pq = b"/a?b=c".to_vec();
    assert_eq!(
        build_target_url(&base, &pq),
        Ok(b"http://127.0.0.1:3000/a?b=c".to_vec())
    );
}

#[test]
fn target_path_with_special_characters() {
    let base = b"http://127.0.0.1:3000".to_vec();
    let pq = b"/files/a%20b/x-y_z.txt?q=1&r=2".to_vec();
    assert_eq!(
        build_target_url(&base, &pq),
        Ok(b"http://127.0.0.1:3000/files/a%20b/x-y_z.txt?q=1&r=2".to_vec())
    );
}

#[test]
fn target_empty_path_query() {
    let base = b"http://127.0.0.1:3000".to_vec();
    let pq = Vec::new();
    assert_eq!(build_target_url(&base, &pq), Ok(b"http://127.0.0.1:3000".to_vec()));
}

#[test]
fn target_invalid_concatenation_is_rejected() {
    let base = b"http://127.0.0.1:3000".to_vec();
    let pq = b"/a b".to_vec();
    assert_eq!(build_target_url(&base, &pq), Err(ProxyError::InvalidTargetUrl));
}

#[test]
fn target_invalid_base_is_rejected() {
    let base = b"not a url".to_vec();
    let pq = b"/".to_vec();
    assert_eq!(build_target_url(&base, &pq), Err(ProxyError::InvalidTargetUrl));
}
