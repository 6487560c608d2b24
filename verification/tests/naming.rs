use omniforge::naming::generate_image_name;
use omniforge::naming::get_platform;
use omniforge::naming::sanitize_docker_name;

#[test]
fn sanitize_lowers_and_replaces() {
    assert_eq!(sanitize_docker_name("My App"), "my-app");
    assert_eq!(sanitize_docker_name("Hello_World-2.0"), "hello_world-2.0");
    assert_eq!(sanitize_docker_name("API/Server!"), "api-server-");
    assert_eq!(sanitize_docker_name(""), "");
    assert_eq!(sanitize_docker_name("already-ok.name_1"), "already-ok.name_1");
}

#[test]
fn sanitize_folds_each_non_ascii_byte() {
    // A two-byte character becomes two hyphens.
    assert_eq!(sanitize_docker_name("caff\u{e8}"), "caff--");
}

#[test]
fn image_name_uses_config_name_and_version() {
    assert_eq!(
        generate_image_name(Some("My App"), "fallback", Some("1.0")),
        "my-app-devcontainer:1.0"
    );
}

#[test]
fn image_name_falls_back_to_directory_and_latest() {
    assert_eq!(
        generate_image_name(None, "My Project", None),
        "my-project-devcontainer:latest"
    );
}

#[test]
fn platform_labels() {
    assert_eq!(get_platform("windows"), "windows");
    assert_eq!(get_platform("macos"), "darwin");
    assert_eq!(get_platform("linux"), "linux");
    assert_eq!(get_platform("freebsd"), "linux");
    assert_eq!(get_platform(""), "linux");
}
