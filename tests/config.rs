use deployer::config::{check_config, validate_config, validate_path, ConfigError, ConfigFile, Service};
use deployer::repository::RepositoryError;

fn config(token: &str, repository: &str, branch: &str, services: usize) -> ConfigFile {
    let mut c = ConfigFile::default();
    c.token = token.to_string();
    c.repository = repository.to_string();
    c.branch = branch.to_string();
    c.services.clear();
    for _ in 0..services {
        c.services.push(Service::default());
    }
    c
}

fn all_found(c: &ConfigFile) -> Vec<bool> {
    vec![true; c.services.len()]
}

#[test]
fn validate_path_appends_file_name() {
    let mut p = String::from("/etc/deployer");
    validate_path(&mut p);
    assert_eq!(p, "/etc/deployer/deployer-config.jsonc");
    let mut q = String::from("/etc/deployer/");
    validate_path(&mut q);
    assert_eq!(q, "/etc/deployer/deployer-config.jsonc");
    let mut r = String::from("./deployer-config.jsonc");
    validate_path(&mut r);
    assert_eq!(r, "./deployer-config.jsonc");
    let mut e = String::new();
    validate_path(&mut e);
    assert_eq!(e, "/deployer-config.jsonc");
}

#[test]
fn default_config_holds_placeholders() {
    let c = ConfigFile::default();
    assert_eq!(c.branch, "main");
    assert_eq!(c.repository, "github.com/your-repository/link");
    assert_eq!(c.token, "YOUR-GITHUB-TOKEN-HERE");
    assert_eq!(c.pull_dir, "/var/www");
    assert_eq!(c.services.len(), 1);
    assert_eq!(c.services[0].name, "service-name");
    assert_eq!(c.services[0].root_dir, "/var/www/your_repository/backend/my_service");
    assert_eq!(c.services[0].build_dir, "/var/www/my_service");
}

#[test]
fn valid_config_gives_reference() {
    let c = config("abc", "github.com/Makefolder/deployer", "master", 2);
    let info = check_config(&c, true, &all_found(&c)).unwrap();
    assert_eq!(info.url, "https://api.github.com/repos/Makefolder/deployer/commits/master");
}

#[test]
fn placeholder_token_refused() {
    let c = config("YOUR-GITHUB-TOKEN-HERE", "github.com/Makefolder/deployer", "master", 1);
    assert!(matches!(check_config(&c, true, &all_found(&c)), Err(ConfigError::MissingToken)));
    let d = config("", "github.com/Makefolder/deployer", "master", 1);
    assert!(matches!(check_config(&d, true, &all_found(&d)), Err(ConfigError::MissingToken)));
}

#[test]
fn placeholder_repository_refused() {
    let c = config("abc", "github.com/your-repository/link", "master", 1);
    assert!(matches!(check_config(&c, true, &all_found(&c)), Err(ConfigError::MissingRepository)));
    let d = config("abc", "", "master", 1);
    assert!(matches!(check_config(&d, true, &all_found(&d)), Err(ConfigError::MissingRepository)));
}

#[test]
fn bad_reference_refused() {
    let c = config("abc", "gitlab.com/Makefolder/deployer", "master", 1);
    assert!(matches!(
        check_config(&c, true, &all_found(&c)),
        Err(ConfigError::Repository(RepositoryError::InvalidRepositoryDomain))
    ));
}

#[test]
fn missing_directory_refused() {
    let c = config("abc", "github.com/Makefolder/deployer", "master", 1);
    assert!(matches!(check_config(&c, false, &all_found(&c)), Err(ConfigError::MissingDirectory)));
}

#[test]
fn empty_services_refused() {
    let c = config("abc", "github.com/Makefolder/deployer", "master", 0);
    assert!(matches!(check_config(&c, true, &all_found(&c)), Err(ConfigError::NoServices)));
}

#[test]
fn validate_config_looks_up_pull_dir() {
    let mut c = config("abc", "github.com/Makefolder/deployer", "master", 1);
    c.pull_dir = String::from("/");
    c.services[0].build_dir = String::from("/");
    assert!(validate_config(&c).is_ok());
    c.pull_dir = String::from("/no/such/directory/for/deployer/tests");
    assert!(matches!(validate_config(&c), Err(ConfigError::MissingDirectory)));
}

#[test]
fn missing_destination_refused() {
    let c = config("abc", "github.com/Makefolder/deployer", "master", 3);
    assert!(matches!(check_config(&c, true, &vec![true, false, false]), Err(ConfigError::MissingDestination(1))));
    assert!(matches!(check_config(&c, true, &vec![true, true]), Err(ConfigError::MissingDestination(2))));
    assert!(check_config(&c, true, &vec![true, true, true]).is_ok());
}

#[test]
fn validate_config_looks_up_destinations() {
    let mut c = config("abc", "github.com/Makefolder/deployer", "master", 2);
    c.pull_dir = String::from("/");
    c.services[0].build_dir = String::from("/");
    c.services[1].build_dir = String::from("/no/such/directory/for/deployer/tests");
    assert!(matches!(validate_config(&c), Err(ConfigError::MissingDestination(1))));
}
