use s3::region::Region;
use std::str::FromStr;

fn known() -> Vec<(Region, &'static str, &'static str)> {
    vec![
        (Region::UsEast1, "us-east-1", "s3.amazonaws.com"),
        (Region::UsEast2, "us-east-2", "s3-us-east-2.amazonaws.com"),
        (Region::UsWest1, "us-west-1", "s3-us-west-1.amazonaws.com"),
        (Region::UsWest2, "us-west-2", "s3-us-west-2.amazonaws.com"),
        (Region::CaCentral1, "ca-central-1", "s3-ca-central-1.amazonaws.com"),
        (Region::ApSouth1, "ap-south-1", "s3-ap-south-1.amazonaws.com"),
        (Region::ApNortheast1, "ap-northeast-1", "s3-ap-northeast-1.amazonaws.com"),
        (Region::ApNortheast2, "ap-northeast-2", "s3-ap-northeast-2.amazonaws.com"),
        (Region::ApSoutheast1, "ap-southeast-1", "s3-ap-southeast-1.amazonaws.com"),
        (Region::ApSoutheast2, "ap-southeast-2", "s3-ap-southeast-2.amazonaws.com"),
        (Region::EuCentral1, "eu-central-1", "s3-eu-central-1.amazonaws.com"),
        (Region::EuWest1, "eu-west-1", "s3-eu-west-1.amazonaws.com"),
        (Region::EuWest2, "eu-west-2", "s3-eu-west-2.amazonaws.com"),
        (Region::EuWest3, "eu-west-3", "s3-eu-west-3.amazonaws.com"),
        (Region::SaEast1, "sa-east-1", "s3-sa-east-1.amazonaws.com"),
        (Region::DoNyc3, "nyc3", "nyc3.digitaloceanspaces.com"),
        (Region::DoAms3, "ams3", "ams3.digitaloceanspaces.com"),
        (Region::DoSgp1, "sgp1", "sgp1.digitaloceanspaces.com"),
    ]
}

#[test]
fn known_names_round_trip() {
    for (region, name, _) in known() {
        assert_eq!(region.to_string(), name);
        assert_eq!(Region::parse(&region.to_string()), region);
        assert_eq!(Region::parse(name), region);
    }
}

#[test]
fn known_endpoints_and_hosts() {
    for (region, _, host) in known() {
        assert_eq!(region.endpoint(), host);
        assert_eq!(region.host(), host);
        assert_eq!(region.endpoint(), region.host());
        assert_eq!(region.scheme(), "https");
    }
}

#[test]
fn unknown_name_is_custom() {
    let r = Region::parse("not-a-real-region");
    assert_eq!(r, Region::Custom("not-a-real-region".to_string()));
    assert_eq!(r.endpoint(), "not-a-real-region");
    assert_eq!(r.scheme(), "https");
    assert_eq!(r.host(), "not-a-real-region");
}

#[test]
fn custom_origin_splits_scheme_and_host() {
    let r = Region::parse("http://minio.local:9000");
    assert!(matches!(r, Region::Custom(_)));
    assert_eq!(r.scheme(), "http");
    assert_eq!(r.host(), "minio.local:9000");
    assert_eq!(r.endpoint(), "http://minio.local:9000");
}

#[test]
fn custom_bare_host_defaults_to_https() {
    let r = Region::parse("minio.local:9000");
    assert!(matches!(r, Region::Custom(_)));
    assert_eq!(r.scheme(), "https");
    assert_eq!(r.host(), "minio.local:9000");
    assert_eq!(r.endpoint(), "minio.local:9000");
}

#[test]
fn custom_displays_as_custom() {
    for payload in ["", "custom", "us-east-1", "http://minio.local:9000", "x"] {
        assert_eq!(Region::Custom(payload.to_string()).to_string(), "custom");
    }
}

#[test]
fn parsing_is_case_sensitive() {
    let r = Region::parse("US-EAST-1");
    assert_ne!(r, Region::UsEast1);
    assert_eq!(r, Region::Custom("US-EAST-1".to_string()));
    assert_eq!(r.host(), "US-EAST-1");
}

#[test]
fn split_is_at_first_separator() {
    let r = Region::parse("a://b://c");
    assert_eq!(r.scheme(), "a");
    assert_eq!(r.host(), "b://c");
}

#[test]
fn empty_scheme_and_empty_host() {
    let r = Region::parse("://");
    assert_eq!(r.scheme(), "");
    assert_eq!(r.host(), "");
    let e = Region::parse("");
    assert_eq!(e, Region::Custom(String::new()));
    assert_eq!(e.scheme(), "https");
    assert_eq!(e.host(), "");
}

#[test]
fn partial_separator_is_no_separator() {
    let r = Region::parse("http:/host:/");
    assert_eq!(r.scheme(), "https");
    assert_eq!(r.host(), "http:/host:/");
}

#[test]
fn non_ascii_payload_splits_on_characters() {
    let r = Region::parse("ünï://hôst.example");
    assert_eq!(r.scheme(), "ünï");
    assert_eq!(r.host(), "hôst.example");
}

#[test]
fn equality_compares_variant_and_payload() {
    assert_eq!(Region::EuWest2, Region::EuWest2);
    assert_ne!(Region::EuWest2, Region::EuWest3);
    assert_ne!(Region::Custom("eu-west-2".to_string()), Region::EuWest2);
    assert_ne!(Region::Custom("a".to_string()), Region::Custom("b".to_string()));
    assert_eq!(Region::Custom("a".to_string()), Region::Custom("a".to_string()).clone());
}

#[test]
fn from_str_never_fails() {
    assert_eq!(Region::from_str("us-east-1").unwrap(), Region::UsEast1);
    let r: Region = "eu-west-2".parse().unwrap();
    assert_eq!(r, Region::EuWest2);
    let c: Region = "minio".parse().unwrap();
    assert_eq!(c, Region::Custom("minio".to_string()));
}
