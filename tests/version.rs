use pihole_api::version::{parse_git_version, parse_web_version, read_core_version, Version};

#[test]
fn test_parse_web_version_dev() {
    assert_eq!(
        parse_web_version(" development d2037fd"),
        Some(Version {
            tag: "".to_owned(),
            branch: "development".to_owned(),
            hash: "d2037fd".to_owned()
        })
    )
}

#[test]
fn test_parse_web_version_release() {
    assert_eq!(
        parse_web_version("v1.0.0 master abcdefg"),
        Some(Version {
            tag: "v1.0.0".to_owned(),
            branch: "master".to_owned(),
            hash: "abcdefg".to_owned()
        })
    )
}

#[test]
fn test_parse_web_version_invalid() {
    assert_eq!(parse_web_version("invalid data"), None)
}

#[test]
fn test_parse_web_version_newline() {
    assert_eq!(
        parse_web_version(" development d2037fd\n"),
        Some(Version {
            tag: "".to_owned(),
            branch: "development".to_owned(),
            hash: "d2037fd".to_owned()
        })
    )
}

#[test]
fn test_read_core_version_valid() {
    assert_eq!(
        read_core_version(
            "v3.3.1-219-g6689e00 v3.3-190-gf7e1a28 vDev-d06deca",
            "development devel tweak/getClientNames"
        ),
        Some(Version {
            tag: "".to_owned(),
            branch: "development".to_owned(),
            hash: "6689e00".to_owned()
        })
    )
}

#[test]
fn test_read_core_version_invalid() {
    assert_eq!(
        read_core_version(
            "invalid v3.3-190-gf7e1a28 vDev-d06deca",
            "development devel tweak/getClientNames"
        ),
        None
    )
}

#[test]
fn test_parse_git_version_release() {
    assert_eq!(
        parse_git_version("v3.3.1-0-gfbee18e", "master"),
        Some(Version {
            tag: "v3.3.1".to_owned(),
            branch: "master".to_owned(),
            hash: "fbee18e".to_owned()
        })
    )
}

#[test]
fn test_parse_git_version_dev() {
    assert_eq!(
        parse_git_version("v3.3.1-222-gd9c924b", "development"),
        Some(Version {
            tag: "".to_owned(),
            branch: "development".to_owned(),
            hash: "d9c924b".to_owned()
        })
    )
}

#[test]
fn test_parse_git_version_invalid() {
    assert_eq!(parse_git_version("invalid data", "branch"), None)
}

#[test]
fn web_version_several_newlines_and_pieces() {
    assert_eq!(
        parse_web_version("v5 master abc\n\n"),
        Some(Version {
            tag: "v5".to_owned(),
            branch: "master".to_owned(),
            hash: "abc".to_owned()
        })
    );
    assert_eq!(parse_web_version("a b c d"), None);
    assert_eq!(parse_web_version(""), None);
    assert_eq!(
        parse_web_version("  "),
        Some(Version {
            tag: "".to_owned(),
            branch: "".to_owned(),
            hash: "".to_owned()
        })
    );
}

#[test]
fn git_version_edge_hashes() {
    assert_eq!(
        parse_git_version("v1-0-", "b"),
        Some(Version {
            tag: "v1".to_owned(),
            branch: "b".to_owned(),
            hash: "".to_owned()
        })
    );
    assert_eq!(
        parse_git_version("v1-3-\u{e9}abc", "b"),
        Some(Version {
            tag: "".to_owned(),
            branch: "b".to_owned(),
            hash: "".to_owned()
        })
    );
    assert_eq!(parse_git_version("a-b-c-d", "b"), None);
}

#[test]
fn core_version_empty_files() {
    assert_eq!(read_core_version("", ""), None);
    assert_eq!(
        read_core_version("v2.0-0-gabc123", ""),
        Some(Version {
            tag: "v2.0".to_owned(),
            branch: "".to_owned(),
            hash: "abc123".to_owned()
        })
    );
}
