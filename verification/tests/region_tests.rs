use trae_accounts::client::TraeApiClient;
use trae_accounts::octets::{append, equal};
use trae_accounts::text::contains;
use trae_accounts::region::{
    detect_api_base_from_cookies, RegionEndpoint, API_BASE_SG, API_BASE_UG, API_BASE_US,
};

#[test]
fn target_useast_marker_selects_us() {
    let cookie = "sid=abc; trae-target-idc=useast; lang=en";
    assert_eq!(detect_api_base_from_cookies(cookie), RegionEndpoint::Us);
}

#[test]
fn store_useast_marker_selects_us() {
    assert_eq!(detect_api_base_from_cookies("store-idc=useast"), RegionEndpoint::Us);
}

#[test]
fn alisg_markers_select_sg() {
    assert_eq!(detect_api_base_from_cookies("a=1; store-idc=alisg"), RegionEndpoint::Sg);
    assert_eq!(detect_api_base_from_cookies("trae-target-idc=alisg; b=2"), RegionEndpoint::Sg);
}

#[test]
fn no_marker_selects_sg() {
    assert_eq!(detect_api_base_from_cookies(""), RegionEndpoint::Sg);
    assert_eq!(detect_api_base_from_cookies("sid=abc; lang=en"), RegionEndpoint::Sg);
}

#[test]
fn us_marker_wins_over_sg_marker() {
    let cookie = "store-idc=alisg; trae-target-idc=useast";
    assert_eq!(detect_api_base_from_cookies(cookie), RegionEndpoint::Us);
    let cookie = "trae-target-idc=alisg; store-idc=useast";
    assert_eq!(detect_api_base_from_cookies(cookie), RegionEndpoint::Us);
}

#[test]
fn broken_marker_does_not_select_us() {
    assert_eq!(detect_api_base_from_cookies("store-idc=useas"), RegionEndpoint::Sg);
    assert_eq!(detect_api_base_from_cookies("store-idc =useast"), RegionEndpoint::Sg);
    assert_eq!(detect_api_base_from_cookies("STORE-IDC=USEAST"), RegionEndpoint::Sg);
}

#[test]
fn marker_among_other_scripts_is_found() {
    let cookie = "名字=值; store-idc=useast; é=ü";
    assert_eq!(detect_api_base_from_cookies(cookie), RegionEndpoint::Us);
}

#[test]
fn client_detects_like_the_free_function() {
    assert_eq!(
        TraeApiClient::detect_api_base_from_cookies("x; trae-target-idc=useast"),
        RegionEndpoint::Us
    );
    assert_eq!(TraeApiClient::detect_api_base_from_cookies("x"), RegionEndpoint::Sg);
}

#[test]
fn endpoint_bases_are_the_fixed_urls() {
    assert_eq!(RegionEndpoint::Us.base(), "https://api-us-east.trae.ai");
    assert_eq!(RegionEndpoint::Sg.base(), "https://api-sg-central.trae.ai");
    assert_eq!(API_BASE_US, "https://api-us-east.trae.ai");
    assert_eq!(API_BASE_SG, "https://api-sg-central.trae.ai");
    assert_eq!(API_BASE_UG, "https://ug-normal.trae.ai");
}

#[test]
fn other_endpoint_is_the_other_member() {
    assert_eq!(RegionEndpoint::Us.other(), RegionEndpoint::Sg);
    assert_eq!(RegionEndpoint::Sg.other(), RegionEndpoint::Us);
    assert_eq!(RegionEndpoint::Sg.other().other(), RegionEndpoint::Sg);
}

fn chars(text: &str) -> Vec<char> {
    text.chars().collect()
}

#[test]
fn contains_finds_parts_at_every_place() {
    assert!(contains(&chars("abcdef"), &chars("abc")));
    assert!(contains(&chars("abcdef"), &chars("cde")));
    assert!(contains(&chars("abcdef"), &chars("def")));
    assert!(contains(&chars("abcdef"), &chars("abcdef")));
    assert!(contains(&chars("abcdef"), &chars("")));
    assert!(contains(&chars(""), &chars("")));
    assert!(!contains(&chars("abcdef"), &chars("abd")));
    assert!(!contains(&chars("abc"), &chars("abcd")));
    assert!(!contains(&chars(""), &chars("a")));
    assert!(contains(&chars("aaab"), &chars("aab")));
    assert!(contains(&chars("名字=值"), &chars("字=")));
}

#[test]
fn equal_compares_bytes() {
    assert!(equal(b"", b""));
    assert!(equal(b"abc", b"abc"));
    assert!(!equal(b"abc", b"abd"));
    assert!(!equal(b"abc", b"ab"));
}

#[test]
fn append_adds_the_tail() {
    let mut bytes = vec![1u8, 2];
    append(&mut bytes, &[3, 4, 5]);
    assert_eq!(bytes, vec![1u8, 2, 3, 4, 5]);
    append(&mut bytes, &[]);
    assert_eq!(bytes, vec![1u8, 2, 3, 4, 5]);
}
