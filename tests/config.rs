use aws_health_exporter::config::{
    check_region, log_level, normalize_regions, normalize_services, role_arn_verdict, tls_config, validate_file_path,
    validate_region, validate_role_arn, LogLevel,
};
use aws_health_exporter::Error;

fn strings(v: &[&str]) -> Vec<String> {
    v.iter().map(|s| s.to_string()).collect()
}

#[test]
fn regions_get_global_sorted_and_deduplicated() {
    let r = normalize_regions(strings(&["us-east-1", "eu-west-3", "us-east-1"]));
    assert_eq!(r, strings(&["eu-west-3", "global", "us-east-1"]));
    let r = normalize_regions(strings(&["global"]));
    assert_eq!(r, strings(&["global"]));
    let r = normalize_regions(vec![]);
    assert_eq!(r, strings(&["global"]));
}

#[test]
fn services_are_sorted_and_deduplicated() {
    let r = normalize_services(strings(&["S3", "EC2", "S3", "CLOUDFRONT"]));
    assert_eq!(r, strings(&["CLOUDFRONT", "EC2", "S3"]));
    assert_eq!(normalize_services(vec![]), Vec::<String>::new());
    let r = normalize_services(strings(&["b", "ab", "a", "é", "z"]));
    assert_eq!(r, strings(&["a", "ab", "b", "z", "é"]));
}

#[test]
fn log_levels() {
    assert_eq!(log_level(2, false, false), LogLevel::Trace);
    assert_eq!(log_level(3, true, true), LogLevel::Trace);
    assert_eq!(log_level(1, false, false), LogLevel::Debug);
    assert_eq!(log_level(0, true, true), LogLevel::Debug);
    assert_eq!(log_level(0, true, false), LogLevel::Warn);
    assert_eq!(log_level(0, false, false), LogLevel::Info);
}

#[test]
fn tls_needs_both_paths() {
    let t = tls_config(Some("key.pem".to_string()), Some("cert.pem".to_string())).unwrap();
    assert_eq!(t.key, "key.pem");
    assert_eq!(t.cert, "cert.pem");
    assert!(tls_config(Some("key.pem".to_string()), None).is_none());
    assert!(tls_config(None, Some("cert.pem".to_string())).is_none());
}

#[test]
fn known_regions_pass() {
    assert_eq!(validate_region("all".to_string()), Ok(()));
    assert_eq!(validate_region("eu-west-3".to_string()), Ok(()));
    assert_eq!(validate_region("US-EAST-1".to_string()), Ok(()));
}

#[test]
fn unknown_region_gives_parser_message() {
    assert_eq!(
        validate_region("mars-north-1".to_string()),
        Err("Not a valid AWS region: mars-north-1".to_string())
    );
    match check_region(&"moon-1".to_string()) {
        Err(Error::InvalidRegion(m)) => assert_eq!(m, "Not a valid AWS region: moon-1"),
        r => panic!("expected an invalid region, got {:?}", r),
    }
    assert!(check_region(&"eu-west-3".to_string()).is_ok());
}

#[test]
fn role_arns() {
    assert_eq!(validate_role_arn("arn:aws:iam::123456789012:role/exporter".to_string()), Ok(()));
    assert_eq!(validate_role_arn("ARN:AWS:IAM::123456789012:ROLE/Exporter".to_string()), Ok(()));
    assert_eq!(
        validate_role_arn("arn:aws".to_string()),
        Err("Must have length greater than or equal to 20".to_string())
    );
    assert_eq!(
        validate_role_arn("arn:aws:iam::1234:role/exporter".to_string()),
        Err("must be of the form `arn:aws:iam::123456789012:role/something`".to_string())
    );
}

#[test]
fn role_arn_verdicts() {
    assert_eq!(role_arn_verdict(Some(true)), Ok(()));
    assert!(role_arn_verdict(Some(false)).is_err());
    assert!(role_arn_verdict(None).is_err());
}

#[test]
fn missing_file_is_refused() {
    assert_eq!(
        validate_file_path("/no/such/dir/key.pem".to_string()),
        Err("/no/such/dir/key.pem is not a file".to_string())
    );
    assert_eq!(validate_file_path("/".to_string()), Err("/ is not a file".to_string()));
}
