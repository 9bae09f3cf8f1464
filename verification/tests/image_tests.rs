use container_fixtures::DockerImage;
use container_fixtures::Version;

#[test]
fn can_parse_local_image_name() {
    assert_eq!(
        DockerImage::from_str("rust").unwrap(),
        DockerImage::new("rust", None, "rust", Version::Any)
    );
    assert_eq!(
        DockerImage::from_str("myname:latest").unwrap(),
        DockerImage::new(
            "myname:latest",
            None,
            "myname",
            Version::Tag("latest".into())
        )
    );
    assert_eq!(
        DockerImage::from_str("repo/my-name:1.0").unwrap(),
        DockerImage::new(
            "repo/my-name:1.0",
            None,
            "repo/my-name",
            Version::Tag("1.0".into())
        )
    );
    assert_eq!(
        DockerImage::from_str("registry.foo.com:1234/my-name:1.0").unwrap(),
        DockerImage::new(
            "registry.foo.com:1234/my-name:1.0",
            Some("registry.foo.com:1234"),
            "my-name",
            Version::Tag("1.0".into())
        )
    );
    assert_eq!(
        DockerImage::from_str("registry.foo.com/my-name:1.0").unwrap(),
        DockerImage::new(
            "registry.foo.com/my-name:1.0",
            Some("registry.foo.com"),
            "my-name",
            Version::Tag("1.0".into())
        )
    );
    assert_eq!(
        DockerImage::from_str("registry.foo.com:1234/repo_here/my-name:1.0").unwrap(),
        DockerImage::new(
            "registry.foo.com:1234/repo_here/my-name:1.0",
            Some("registry.foo.com:1234"),
            "repo_here/my-name",
            Version::Tag("1.0".into())
        )
    );
    assert_eq!(
        DockerImage::from_str(
            "registry.foo.com:1234/repo-here/my-name@sha256:1234abcd1234abcd1234abcd1234abcd"
        )
        .unwrap(),
        DockerImage::new(
            "registry.foo.com:1234/repo-here/my-name@sha256:1234abcd1234abcd1234abcd1234abcd",
            Some("registry.foo.com:1234"),
            "repo-here/my-name",
            Version::Sha256("1234abcd1234abcd1234abcd1234abcd".into())
        )
    );
    assert_eq!(
        DockerImage::from_str(
            "registry.foo.com:1234/my-name@sha256:1234abcd1234abcd1234abcd1234abcd"
        )
        .unwrap(),
        DockerImage::new(
            "registry.foo.com:1234/my-name@sha256:1234abcd1234abcd1234abcd1234abcd",
            Some("registry.foo.com:1234"),
            "my-name",
            Version::Sha256("1234abcd1234abcd1234abcd1234abcd".into())
        )
    );
    assert_eq!(
        DockerImage::from_str("1.2.3.4/my-name:1.0").unwrap(),
        DockerImage::new(
            "1.2.3.4/my-name:1.0",
            Some("1.2.3.4"),
            "my-name",
            Version::Tag("1.0".into())
        )
    );
    assert_eq!(
        DockerImage::from_str("1.2.3.4:1234/my-name:1.0").unwrap(),
        DockerImage::new(
            "1.2.3.4:1234/my-name:1.0",
            Some("1.2.3.4:1234"),
            "my-name",
            Version::Tag("1.0".into())
        )
    );
    assert_eq!(
        DockerImage::from_str("1.2.3.4/repo-here/my-name:1.0").unwrap(),
        DockerImage::new(
            "1.2.3.4/repo-here/my-name:1.0",
            Some("1.2.3.4"),
            "repo-here/my-name",
            Version::Tag("1.0".into())
        )
    );
    assert_eq!(
        DockerImage::from_str("1.2.3.4:1234/repo-here/my-name:1.0").unwrap(),
        DockerImage::new(
            "1.2.3.4:1234/repo-here/my-name:1.0",
            Some("1.2.3.4:1234"),
            "repo-here/my-name",
            Version::Tag("1.0".into())
        )
    );
}

#[test]
fn cant_parse_invalid_version() {
    assert_eq!(
        DockerImage::from_str("rust@invalid"),
        Err("invalid repository name: rust@invalid".into())
    );
    assert_eq!(
        DockerImage::from_str("repo:rust:invalid"),
        Err("invalid tag version: rust:invalid".into())
    );
}

#[test]
fn cant_parse_invalid_digest() {
    assert_eq!(
        DockerImage::from_str("repo/name@sha256:123abc"),
        Err("invalid sha256 hash version: 123abc".into())
    );
    assert_eq!(
        DockerImage::from_str("repo/name@sha256:zzzzzzzzzzzzzzzzzzzzzzzzzzzzzzzzzz"),
        Err("invalid sha256 hash version: zzzzzzzzzzzzzzzzzzzzzzzzzzzzzzzzzz".into())
    );
}

#[test]
fn localhost_prefix_is_a_registry() {
    assert_eq!(
        DockerImage::from_str("localhost/my-name:1.0").unwrap(),
        DockerImage::new(
            "localhost/my-name:1.0",
            Some("localhost"),
            "my-name",
            Version::Tag("1.0".into())
        )
    );
    assert_eq!(
        DockerImage::from_str("plain/my-name").unwrap(),
        DockerImage::new("plain/my-name", None, "plain/my-name", Version::Any)
    );
}

#[test]
fn full_name_is_kept_verbatim() {
    let img = DockerImage::from_str("registry.foo.com/app:2.1").unwrap();
    assert_eq!(img.get_full_name(), "registry.foo.com/app:2.1".to_string());
}

#[test]
fn overlong_tag_is_rejected() {
    let tag: String = "a".repeat(129);
    let reference = format!("repo:{tag}");
    assert_eq!(
        DockerImage::from_str(&reference),
        Err(format!("invalid tag version: {tag}"))
    );
}
