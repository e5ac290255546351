use onedrive_api::auth::{Auth, Permission as AuthPermission, Tenant};
use onedrive_api::authorization::Permission;
use onedrive_api::resource::{DriveField, DriveId, DriveItemField};
use onedrive_api::util::{api_path, api_url, DriveLocation, FileName, ItemLocation};

#[test]
fn test_scope_string() {
    for &write in &[false, true] {
        for &shared in &[false, true] {
            for &offline in &[false, true] {
                assert_eq!(
                    Permission::new_read()
                        .write(write)
                        .access_shared(shared)
                        .offline_access(offline)
                        .to_scope_str(),
                    format!(
                        "{}{}{}",
                        if offline { "offline_access " } else { "" },
                        if write { "files.readwrite" } else { "files.read" },
                        if shared { ".all" } else { "" },
                    ),
                    "When testing write={}, shared={}, offline={}",
                    write,
                    shared,
                    offline,
                );
            }
        }
    }
}

#[test]
fn test_api_url() {
    let mut segments = vec!["a".to_owned()];
    segments.extend(DriveLocation::me().path_segments());
    segments.push("b".to_owned());
    let url = api_url(&segments).unwrap();
    assert_eq!(url::Url::parse(&url).unwrap().path(), "/v1.0/a/drive/b");

    let mock_drive_id = DriveId::new("1234".to_owned());
    assert_eq!(
        api_path(&DriveLocation::from_id(mock_drive_id).path_segments()).unwrap(),
        "/drives/1234",
    );

    assert_eq!(
        api_path(&ItemLocation::from_path("/dir/file name").unwrap().path_segments()).unwrap(),
        "/root:%2Fdir%2Ffile%20name:",
    );
}

#[test]
fn test_path_name_check() {
    let invalid_names = ["", ".*?", "a|b", "a<b>b", ":run", "/", "\\"];
    let valid_names = [
        "QAQ",
        "0",
        ".",
        "a-a：", // Unicode colon "\u{ff1a}"
        "魔理沙",
    ];

    let check_name = |s: &str| FileName::new(s).is_some();
    let check_path = |s: &str| ItemLocation::from_path(s).is_some();

    for s in &valid_names {
        assert!(check_name(s), "{}", s);
        let path = format!("/{}", s);
        assert!(check_path(&path), "{}", path);

        for s2 in &valid_names {
            let mut path = format!("/{}/{}", s, s2);
            assert!(check_path(&path), "{}", path);
            path.push('/'); // Trailing
            assert!(check_path(&path), "{}", path);
        }
    }

    for s in &invalid_names {
        assert!(!check_name(s), "{}", s);

        // `/` and `/xx/` is valid and is tested below.
        if s.is_empty() {
            continue;
        }

        let path = format!("/{}", s);
        assert!(!check_path(&path), "{}", path);

        for s2 in &valid_names {
            let path = format!("/{}/{}", s2, s);
            assert!(!check_path(&path), "{}", path);
        }
    }

    assert!(check_path("/"));
    assert!(check_path("/a"));
    assert!(check_path("/a/"));
    assert!(check_path("/a/b"));
    assert!(check_path("/a/b/"));

    assert!(!check_path(""));
    assert!(!check_path("/a/b//"));
    assert!(!check_path("a"));
    assert!(!check_path("a/"));
    assert!(!check_path("//"));
}

#[test]
fn test_raw_name() {
    assert_eq!(DriveField::id.raw_name(), "id");
    assert_eq!(DriveField::drive_type.raw_name(), "driveType");
    assert_eq!(DriveField::owner.raw_name(), "owner");
    assert_eq!(DriveField::web_url.raw_name(), "webUrl");

    assert_eq!(DriveItemField::id.raw_name(), "id");
    assert_eq!(
        DriveItemField::file_system_info.raw_name(),
        "fileSystemInfo"
    );
    assert_eq!(DriveItemField::size.raw_name(), "size");
    assert_eq!(DriveItemField::web_dav_url.raw_name(), "webDavUrl");
    assert_eq!(DriveItemField::web_url.raw_name(), "webUrl");
}

#[test]
fn auth_url() {
    let perm = AuthPermission::new_read().write(true).offline_access(true);
    let auth = Auth::new(
        "some-client-id",
        perm,
        "http://example.com",
        Tenant::Consumers,
    )
    .unwrap();
    assert_eq!(
        auth.code_auth_url().unwrap().as_str(),
        "https://login.microsoftonline.com/consumers/oauth2/v2.0/authorize?client_id=some-client-id&scope=files.readwrite+offline_access&redirect_uri=http%3A%2F%2Fexample.com&response_type=code",
    );
}
