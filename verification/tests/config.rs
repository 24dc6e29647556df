use jitsi_openid::clock::jwt_numeric_date;
use jitsi_openid::config::{
    default_http_connect_timeout_seconds, default_http_timeout_seconds, default_jwt_max_age_seconds,
    default_listen_addr, default_session_max_age_seconds, path_array, split_on_spaces, string_array,
    string_array2,
};

fn strings(v: &[&str]) -> Vec<String> {
    v.iter().map(|s| s.to_string()).collect()
}

#[test]
fn defaults_match_documented_values() {
    assert_eq!(default_session_max_age_seconds(), 1800);
    assert_eq!(default_jwt_max_age_seconds(), 300);
    assert_eq!(default_http_timeout_seconds(), 15);
    assert_eq!(default_http_connect_timeout_seconds(), 5);
    assert_eq!(default_listen_addr(), ([127, 0, 0, 1], 3000));
}

#[test]
fn lists_split_at_single_spaces() {
    assert_eq!(
        string_array2(Some("openid email jitsi".to_string())),
        Some(strings(&["openid", "email", "jitsi"]))
    );
    assert_eq!(string_array2(Some("a  b".to_string())), Some(strings(&["a", "", "b"])));
    assert_eq!(string_array2(Some("".to_string())), Some(strings(&[""])));
    assert_eq!(string_array2(Some(" x ".to_string())), Some(strings(&["", "x", ""])));
    assert_eq!(string_array2(None), None);
}

#[test]
fn acr_values_and_paths_split_like_other_lists() {
    assert_eq!(string_array(Some("password email".to_string())), Some(strings(&["password", "email"])));
    assert_eq!(string_array(None), None);
    assert_eq!(
        path_array(Some("/certs/a.pem /certs/b.pem".to_string())),
        Some(strings(&["/certs/a.pem", "/certs/b.pem"]))
    );
    assert_eq!(path_array(None), None);
}

#[test]
fn split_pieces_join_back_to_the_input() {
    for input in ["", " ", "a", "a b c", "  two  spaces ", "Räk smör gås"] {
        let pieces = split_on_spaces(input);
        assert_eq!(pieces.join(" "), input);
        assert!(pieces.iter().all(|p| !p.contains(' ')));
        assert_eq!(pieces, input.split(' ').map(|s| s.to_string()).collect::<Vec<_>>());
    }
}

#[test]
fn numeric_dates_round_down_to_whole_seconds() {
    assert_eq!(jwt_numeric_date(0), 0);
    assert_eq!(jwt_numeric_date(1_500_000_000), 1);
    assert_eq!(jwt_numeric_date(1_700_000_000_999_999_999), 1_700_000_000);
    assert_eq!(jwt_numeric_date(-1), -1);
    assert_eq!(jwt_numeric_date(-1_000_000_000), -1);
    assert_eq!(jwt_numeric_date(-1_000_000_001), -2);
}
