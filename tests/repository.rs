use deployer::repository::{url_fmt, RepositoryError};

#[test]
fn test_valid_url_fmt() {
    let url = "github.com/Makefolder/deployer";
    let branch = "master";
    let repository_info = url_fmt(url, branch).unwrap();
    assert_eq!(
        repository_info.url,
        "https://api.github.com/repos/Makefolder/deployer/commits/master"
    );
    assert_eq!(repository_info.author, "Makefolder");
    assert_eq!(repository_info.name, "deployer");
}

#[test]
fn test_invalid_domain_url_fmt() {
    let url = "gitlab.com/Makefolder/deployer";
    let branch = "master";
    assert!(matches!(url_fmt(url, branch), Err(RepositoryError::InvalidRepositoryDomain)));
}

#[test]
fn test_invalid_author_url_fmt() {
    let url = "github.com//deployer";
    let branch = "master";
    assert!(matches!(url_fmt(url, branch), Err(RepositoryError::InvalidRepositoryUrl)));
}

#[test]
fn test_invalid_name_url_fmt() {
    let url = "github.com/Makefolder/";
    let branch = "master";
    assert!(matches!(url_fmt(url, branch), Err(RepositoryError::InvalidRepositoryUrl)));
}

#[test]
fn api_url_for_other_triple() {
    let info = url_fmt("github.com/someone/some-repo", "release/v2").unwrap();
    assert_eq!(info.url, "https://api.github.com/repos/someone/some-repo/commits/release/v2");
    assert_eq!(info.author, "someone");
    assert_eq!(info.name, "some-repo");
}

#[test]
fn clone_url_of_reference() {
    let info = url_fmt("github.com/Makefolder/deployer", "master").unwrap();
    assert_eq!(info.clone_url(), "https://github.com/Makefolder/deployer.git");
}

#[test]
fn too_few_pieces_is_invalid_url() {
    assert!(matches!(url_fmt("github.com/Makefolder", "master"), Err(RepositoryError::InvalidRepositoryUrl)));
    assert!(matches!(url_fmt("", "master"), Err(RepositoryError::InvalidRepositoryUrl)));
}

#[test]
fn too_many_pieces_is_invalid_url() {
    assert!(matches!(
        url_fmt("github.com/Makefolder/deployer/extra", "master"),
        Err(RepositoryError::InvalidRepositoryUrl)
    ));
    assert!(matches!(
        url_fmt("github.com/Makefolder/deployer/", "master"),
        Err(RepositoryError::InvalidRepositoryUrl)
    ));
}

#[test]
fn empty_branch_is_missing() {
    assert!(matches!(url_fmt("github.com/Makefolder/deployer", ""), Err(RepositoryError::MissingBranch)));
}

#[test]
fn domain_checked_before_empty_pieces() {
    assert!(matches!(url_fmt("gitlab.com//", "master"), Err(RepositoryError::InvalidRepositoryDomain)));
}
