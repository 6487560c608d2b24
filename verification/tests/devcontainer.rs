use omniforge::devcontainer::build_devcontainer_config;
use omniforge::devcontainer::lookup_feature_urls;
use omniforge::devcontainer::ImageInfo;
use omniforge::models::ComponentStatus;
use omniforge::models::DeployPermissions;
use omniforge::models::InstallationStatus;

fn feature_table() -> Vec<(String, String)> {
    vec![
        ("rs".to_string(), "ghcr.io/devcontainers/features/rust:latest".to_string()),
        ("py".to_string(), "ghcr.io/devcontainers/features/python:latest".to_string()),
        ("js".to_string(), "ghcr.io/devcontainers/features/node:latest".to_string()),
        ("ts".to_string(), "ghcr.io/devcontainers/features/node:latest".to_string()),
    ]
}

#[test]
fn image_info_deduplicates_file_types() {
    let mut info = ImageInfo::new();
    assert!(info.insert_file_type("rs".to_string()));
    assert!(info.insert_file_type("py".to_string()));
    assert!(!info.insert_file_type("rs".to_string()));
    assert_eq!(info.file_types, vec!["rs".to_string(), "py".to_string()]);
}

#[test]
fn lookup_maps_known_types_in_order() {
    let types = vec!["py".to_string(), "md".to_string(), "rs".to_string()];
    let urls = lookup_feature_urls(&types, &feature_table());
    assert_eq!(
        urls,
        vec![
            "ghcr.io/devcontainers/features/python:latest".to_string(),
            "ghcr.io/devcontainers/features/rust:latest".to_string(),
        ]
    );
}

#[test]
fn lookup_of_unknown_types_is_empty() {
    let types = vec!["md".to_string(), "txt".to_string()];
    let urls = lookup_feature_urls(&types, &feature_table());
    assert!(urls.is_empty());
}

#[test]
fn devcontainer_config_pins_latest_features() {
    let urls = vec![
        "ghcr.io/devcontainers/features/rust:latest".to_string(),
        "ghcr.io/devcontainers/features/node:latest".to_string(),
    ];
    let dc = build_devcontainer_config(&urls);
    assert_eq!(dc.name, "My Dev Container");
    assert_eq!(dc.image, "ubuntu:latest");
    assert_eq!(dc.features.len(), 2);
    assert_eq!(dc.features[0].0, urls[0]);
    let data = dc.features[1].1.as_ref().unwrap();
    assert_eq!(data.version.as_deref(), Some("latest"));
}

#[test]
fn deploy_permissions_default_file_count() {
    let p = DeployPermissions::default();
    assert_eq!(p.max_file_count(), 4500);
}

#[test]
fn status_records_hold_their_fields() {
    let status = InstallationStatus {
        node: true,
        npm: true,
        docker: false,
        devcontainers: false,
    };
    assert!(status.node && status.npm);
    assert!(!status.docker && !status.devcontainers);

    let row = ComponentStatus {
        name: "Web Frontend".to_string(),
        status: "Running".to_string(),
        replicas: "3/3".to_string(),
        cpu: "450m".to_string(),
        memory: "768Mi".to_string(),
    };
    assert_eq!(row.name, "Web Frontend");
    assert_eq!(row.replicas, "3/3");
}
