use interprocess::{
    local_socket_name_to_ud_socket_path, name_type_support_query,
    str_to_local_socket_name, string_to_local_socket_name, to_local_socket_name_osstr,
    to_local_socket_name_osstring, LocalSocketName, NameError, NamePayload, NameTypeSupport,
    ToLocalSocketName, UdSocketPath, NAME_TYPE_ALWAYS_SUPPORTED,
};

#[test]
fn support_predicates() {
    assert!(NameTypeSupport::OnlyPaths.paths_supported());
    assert!(!NameTypeSupport::OnlyPaths.namespace_supported());
    assert!(!NameTypeSupport::OnlyNamespaced.paths_supported());
    assert!(NameTypeSupport::OnlyNamespaced.namespace_supported());
    assert!(NameTypeSupport::Both.paths_supported());
    assert!(NameTypeSupport::Both.namespace_supported());
}

#[test]
fn query_matches_floor() {
    assert_eq!(NameTypeSupport::query(), NameTypeSupport::ALWAYS_AVAILABLE);
    assert_eq!(name_type_support_query(), NAME_TYPE_ALWAYS_SUPPORTED);
    assert_eq!(NameTypeSupport::query(), NameTypeSupport::Both);
}

#[test]
fn plain_text_is_path() {
    let name = str_to_local_socket_name("/tmp/test.sock");
    assert!(name.is_path());
    assert!(!name.is_namespaced());
    assert_eq!(name.inner(), b"/tmp/test.sock");
}

#[test]
fn at_text_is_namespaced() {
    let name = str_to_local_socket_name("@myapp");
    assert!(name.is_namespaced());
    assert!(!name.is_path());
    assert_eq!(name.inner(), b"myapp");
}

#[test]
fn lone_at_is_empty_namespaced() {
    let name = str_to_local_socket_name("@");
    assert!(name.is_namespaced());
    assert_eq!(name.inner(), b"");
    let owned = string_to_local_socket_name(String::from("@"));
    assert!(owned.is_namespaced());
    assert_eq!(owned.into_inner(), Vec::<u8>::new());
}

#[test]
fn only_first_at_is_stripped() {
    let name = to_local_socket_name_osstr(b"@@x");
    assert!(name.is_namespaced());
    assert_eq!(name.inner(), b"@x");
    let owned = to_local_socket_name_osstring(b"@@x".to_vec());
    assert!(owned.is_namespaced());
    assert_eq!(owned.inner(), b"@x");
}

#[test]
fn empty_text_is_empty_path() {
    let name = to_local_socket_name_osstr(b"");
    assert!(name.is_path());
    assert_eq!(name.inner(), b"");
}

#[test]
fn owned_string_conversion() {
    let name = string_to_local_socket_name(String::from("@server"));
    assert!(name.is_namespaced());
    assert_eq!(name.inner(), b"server");
    let name = string_to_local_socket_name(String::from("/run/x.sock"));
    assert!(name.is_path());
    assert_eq!(name.into_inner(), b"/run/x.sock".to_vec());
}

#[test]
fn non_ascii_text_keeps_utf8_bytes() {
    let name = string_to_local_socket_name(String::from("@caf\u{e9}"));
    assert!(name.is_namespaced());
    assert_eq!(name.inner(), &[0x63u8, 0x61, 0x66, 0xc3, 0xa9][..]);
}

#[test]
fn borrowed_conversion_does_not_copy() {
    let text: &[u8] = b"@abc";
    let name = to_local_socket_name_osstr(text);
    match name.inner_cow() {
        NamePayload::Borrowed(b) => assert_eq!(*b, b"abc"),
        NamePayload::Owned(_) => panic!("payload was copied"),
    }
}

#[test]
fn path_inputs_are_never_namespaced() {
    let name = LocalSocketName::from_path(b"@not-a-namespace");
    assert!(name.is_path());
    assert_eq!(name.inner(), b"@not-a-namespace");
    let owned = LocalSocketName::from_path_buf(b"@x".to_vec());
    assert!(owned.is_path());
    assert_eq!(owned.into_inner(), b"@x".to_vec());
}

#[test]
fn supported_for_all_combinations() {
    let ns = str_to_local_socket_name("@a");
    let path = str_to_local_socket_name("a");
    // The platform supports both name types.
    assert!(ns.is_supported());
    assert!(path.is_supported());
    assert!(ns.is_always_supported());
    assert!(path.is_always_supported());
}

#[test]
fn c_string_valid_utf8() {
    let name = LocalSocketName::from_c_str(b"@sock\0").unwrap();
    assert!(name.is_namespaced());
    assert_eq!(name.inner(), b"sock\0");
    let owned = LocalSocketName::from_c_string(b"/tmp/a\0".to_vec()).unwrap();
    assert!(owned.is_path());
    assert_eq!(owned.inner(), b"/tmp/a\0");
}

#[test]
fn c_string_invalid_utf8() {
    assert!(matches!(
        LocalSocketName::from_c_str(&[0x40, 0xff, 0x00]),
        Err(NameError::InvalidData)
    ));
    assert!(matches!(
        LocalSocketName::from_c_string(vec![0xc3, 0x28, 0x00]),
        Err(NameError::InvalidData)
    ));
}

#[test]
fn generic_round_trip() {
    let name = str_to_local_socket_name("@myapp");
    let mut text = vec![b'@'];
    text.extend_from_slice(name.inner());
    let again = to_local_socket_name_osstring(text);
    assert_eq!(again.is_namespaced(), name.is_namespaced());
    assert_eq!(again.inner(), name.inner());

    let name = str_to_local_socket_name("plain");
    let again = to_local_socket_name_osstr(name.inner());
    assert_eq!(again.is_namespaced(), name.is_namespaced());
    assert_eq!(again.inner(), name.inner());
}

#[test]
fn trait_conversions() {
    let a = "@x".to_local_socket_name().unwrap();
    assert!(a.is_namespaced());
    let b = String::from("y").to_local_socket_name().unwrap();
    assert!(b.is_path());
    let c = (&b"@z"[..]).to_local_socket_name().unwrap();
    assert!(c.is_namespaced());
    assert_eq!(c.inner(), b"z");
    let d = b"w".to_vec().to_local_socket_name().unwrap();
    assert_eq!(d.inner(), b"w");
}

#[test]
fn dispatch_appends_nul() {
    let name = str_to_local_socket_name("/tmp/test.sock");
    let path = local_socket_name_to_ud_socket_path(name, NameTypeSupport::Both).unwrap();
    assert!(matches!(path, UdSocketPath::File(_)));
    assert_eq!(path.as_bytes_with_nul(), b"/tmp/test.sock\0");
}

#[test]
fn dispatch_keeps_trailing_nul() {
    let name = LocalSocketName::from_c_str(b"@app\0").unwrap();
    let path = local_socket_name_to_ud_socket_path(name, NameTypeSupport::Both).unwrap();
    assert!(path.is_namespaced());
    assert_eq!(path.as_bytes_with_nul(), b"app\0");
    let owned = LocalSocketName::from_c_string(b"/tmp/b\0".to_vec()).unwrap();
    let path = local_socket_name_to_ud_socket_path(owned, NameTypeSupport::Both).unwrap();
    assert!(!path.is_namespaced());
    assert_eq!(path.as_bytes_with_nul(), b"/tmp/b\0");
}

#[test]
fn dispatch_rejects_interior_nul() {
    let name = to_local_socket_name_osstr(b"a\0b");
    assert!(matches!(
        local_socket_name_to_ud_socket_path(name, NameTypeSupport::Both),
        Err(NameError::InvalidInput)
    ));
    let name = to_local_socket_name_osstring(b"ab\0\0".to_vec());
    assert!(matches!(
        local_socket_name_to_ud_socket_path(name, NameTypeSupport::Both),
        Err(NameError::InvalidInput)
    ));
}

#[test]
fn dispatch_routes_by_support() {
    let ns = || str_to_local_socket_name("@n");
    let path = || str_to_local_socket_name("p");
    let both = NameTypeSupport::Both;
    let only_paths = NameTypeSupport::OnlyPaths;
    let only_ns = NameTypeSupport::OnlyNamespaced;
    assert!(local_socket_name_to_ud_socket_path(ns(), both).unwrap().is_namespaced());
    assert!(!local_socket_name_to_ud_socket_path(path(), both).unwrap().is_namespaced());
    let forwarded = local_socket_name_to_ud_socket_path(ns(), only_paths).unwrap();
    assert!(!forwarded.is_namespaced());
    assert_eq!(forwarded.as_bytes_with_nul(), b"n\0");
    let routed = local_socket_name_to_ud_socket_path(path(), only_ns).unwrap();
    assert!(routed.is_namespaced());
    assert_eq!(routed.as_bytes_with_nul(), b"p\0");
}
