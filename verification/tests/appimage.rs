use appimagezip::appimage::{
    archive_member_name, executable_mode, UpdateEndpoint, EXECUTABLE_BITS,
};

#[test]
fn zsync_endpoint_text() {
    let endpoint = UpdateEndpoint::Zsync { url: String::from("https://example.org/app.zsync") };
    assert_eq!(endpoint.to_string(), "zsync|https://example.org/app.zsync");
}

#[test]
fn bintray_endpoint_text() {
    let endpoint = UpdateEndpoint::BintrayZsync {
        username: String::from("user"),
        repository: String::from("repo"),
        package: String::from("pkg"),
        path: String::from("app-_latestVersion-x86_64.AppImage.zsync"),
    };
    assert_eq!(
        endpoint.to_string(),
        "bintray-zsync|user|repo|pkg|app-_latestVersion-x86_64.AppImage.zsync"
    );
}

#[test]
fn endpoint_with_empty_fields() {
    assert_eq!(UpdateEndpoint::Zsync { url: String::new() }.to_string(), "zsync|");
    let endpoint = UpdateEndpoint::BintrayZsync {
        username: String::new(),
        repository: String::new(),
        package: String::new(),
        path: String::new(),
    };
    assert_eq!(endpoint.to_string(), "bintray-zsync||||");
}

#[test]
fn directories_are_stored_with_a_trailing_separator() {
    assert_eq!(archive_member_name("usr/bin", true), "usr/bin/");
    assert_eq!(archive_member_name("usr/bin/tool", false), "usr/bin/tool");
    assert_eq!(archive_member_name("", true), "/");
    assert_eq!(archive_member_name("", false), "");
}

#[test]
fn finished_image_is_executable_by_everyone() {
    assert_eq!(EXECUTABLE_BITS, 0o111);
    assert_eq!(executable_mode(0o644), 0o755);
    assert_eq!(executable_mode(0o600), 0o711);
    assert_eq!(executable_mode(0o100644), 0o100755);
    assert_eq!(executable_mode(0o755), 0o755);
    assert_eq!(executable_mode(0), 0o111);
}
