use exalta::client::auth::err::AuthError;
use exalta::client::auth::steamworks::{credentials_params, encode_hex, Credentials};
use exalta::client::auth::{
    account_params, check_access_token_response, check_account_response,
    check_forgot_password_response, forgot_password_params, is_error_response,
    is_success_response, verify_access_token_params, AuthInfo,
};
use exalta::client::download::err::UpdateError;
use exalta::client::download::{
    build_file_url, build_release_path, checksum_matches, compressed_file_name, digest_matches,
    failed_download_error, unpack_download, FetchOutcome, RetryState,
    RetryStep,
};
use exalta::client::misc::init_params;
use exalta::client::{
    coll_to_owned, get_base_url_force, service_url, get_base_url_from_build_type, set_build_force,
    set_client_token, set_steamid_game_net_play_platform, Build, CoreState, Params,
};

fn pairs(p: &Params) -> Vec<(&str, &str)> {
    p.iter().map(|(k, v)| (k.as_str(), v.as_str())).collect()
}

fn creds() -> Credentials {
    Credentials {
        guid: "steamworks:7656".to_string(),
        secret: "s3cret".to_string(),
        platform_token: "ptok".to_string(),
        name: "Name".to_string(),
        name_chosen: "true".to_string(),
        access_token: "tok".to_string(),
        access_token_timestamp: "ts".to_string(),
        access_token_expiration: "exp".to_string(),
    }
}

#[test]
fn fresh_session_has_default_params() {
    let state = CoreState::new();
    assert_eq!(state.build, Build::Production);
    assert_eq!(state.client_token, "");
    assert_eq!(
        pairs(&state.default_params),
        vec![("game_net", "Unity"), ("play_platform", "Unity"), ("game_net_user_id", "")]
    );
}

#[test]
fn test_set_steam() {
    let mut state = CoreState::new();
    set_steamid_game_net_play_platform(&mut state, "sdsdkj");
    assert_eq!(
        pairs(&state.default_params),
        vec![
            ("game_net", "Unity_steam"),
            ("play_platform", "Unity_steam"),
            ("game_net_user_id", "sdsdkj"),
            ("steamid", "sdsdkj"),
        ]
    );
}

#[test]
fn base_url_follows_build() {
    let mut state = CoreState::new();
    assert_eq!(get_base_url_force(&state), "https://www.realmofthemadgod.com/");
    set_build_force(&mut state, Build::Testing);
    assert_eq!(get_base_url_force(&state), "https://test.realmofthemadgod.com/");
    assert_eq!(get_base_url_from_build_type(&Build::Production), "https://www.realmofthemadgod.com/");
    assert_eq!(Build::Testing.to_string(), "Testing");
    assert_eq!(Build::Production.to_string(), "Production");
}

#[test]
fn client_token_is_set() {
    let mut state = CoreState::new();
    set_client_token(&mut state, "abc123");
    assert_eq!(state.client_token, "abc123");
}

#[test]
fn coll_to_owned_keeps_order() {
    let owned = coll_to_owned(vec![("a", "1"), ("b", "2")]);
    assert_eq!(pairs(&owned), vec![("a", "1"), ("b", "2")]);
    assert!(coll_to_owned(vec![]).is_empty());
}

#[test]
fn username_password_sign_in_params() {
    let state = CoreState::new();
    let auth = AuthInfo::default().username_password("user@x.com", "pw");
    let p = account_params(&auth, "ctok", &state.default_params).unwrap();
    assert_eq!(
        pairs(&p),
        vec![
            ("clientToken", "ctok"),
            ("game_net", "Unity"),
            ("play_platform", "Unity"),
            ("game_net_user_id", ""),
            ("guid", "user@x.com"),
            ("password", "pw"),
        ]
    );
}

#[test]
fn steam_sign_in_params() {
    let state = CoreState::new();
    let auth = AuthInfo::default().steamworks_credentials(creds());
    let p = account_params(&auth, "ctok", &state.default_params).unwrap();
    assert_eq!(
        pairs(&p),
        vec![
            ("guid", "steamworks:7656"),
            ("secret", "s3cret"),
            ("clientToken", "ctok"),
            ("game_net", "Unity"),
            ("play_platform", "Unity"),
            ("game_net_user_id", ""),
        ]
    );
}

#[test]
fn password_takes_precedence_over_steam() {
    let auth = AuthInfo::default().steamworks_credentials(creds()).username_password("u", "p");
    let p = account_params(&auth, "c", &Vec::new()).unwrap();
    assert_eq!(pairs(&p), vec![("clientToken", "c"), ("guid", "u"), ("password", "p")]);
}

#[test]
fn no_credentials_is_refused() {
    let auth = AuthInfo::default().username_password("user", "");
    let e = account_params(&auth, "c", &Vec::new()).unwrap_err();
    assert_eq!(e.0, "No Credentials");
    let e = account_params(&AuthInfo::default(), "c", &Vec::new()).unwrap_err();
    assert_eq!(e.0, "No Credentials");
}

#[test]
fn sign_in_reply_judged() {
    let e = check_account_response("<Error>WebChangePasswordDialog.passwordError</Error>").unwrap_err();
    assert_eq!(e.0, "Credentials Incorrect");
    assert!(check_account_response("<ERROR>x</ERROR>").is_err());
    assert!(check_account_response("<Account><Credits>5</Credits></Account>").is_ok());
    assert!(check_account_response("").is_ok());
    assert!(is_error_response("<error>"));
    assert!(!is_error_response("<erro"));
}

#[test]
fn forgot_password_reply_judged() {
    assert!(check_forgot_password_response("<Success/>").is_ok());
    assert!(check_forgot_password_response("SUCCESS").is_ok());
    let e = check_forgot_password_response("<Error>Unknown email</Error>").unwrap_err();
    assert_eq!(e.0, "Unknown email");
    let p = forgot_password_params("a@b.com", &CoreState::new().default_params);
    assert_eq!(pairs(&p)[0], ("guid", "a@b.com"));
    assert_eq!(p.len(), 4);
}

#[test]
fn access_token_reply_judged() {
    assert_eq!(check_access_token_response("<Success />").unwrap(), true);
    let e = check_access_token_response("<Error>nope</Error>").unwrap_err();
    assert_eq!(e.0, "Invalid access token!");
    assert!(is_success_response("xxsuccessxx"));
    assert!(!is_success_response("succes"));
    let p = verify_access_token_params("c", "a", &Vec::new());
    assert_eq!(pairs(&p), vec![("clientToken", "c"), ("accessToken", "a")]);
}

#[test]
fn credentials_request_params() {
    let p = credentials_params("ticket", &CoreState::new().default_params);
    assert_eq!(pairs(&p)[0], ("sessionticket", "ticket"));
    assert_eq!(pairs(&p)[1], ("game_net", "Unity"));
}

#[test]
fn auth_error_message() {
    assert_eq!(AuthError("No Credentials".to_string()).to_string(), "AuthError: No Credentials");
    assert_eq!(UpdateError("x".to_string()).to_string(), "UpdateError: x");
}

#[test]
fn hex_encoding() {
    assert_eq!(encode_hex(&[]), "");
    assert_eq!(encode_hex(&[0x00, 0xab, 0x10, 0xff]), "00ab10ff");
}

#[test]
fn settings_request_params() {
    let defaults = CoreState::new().default_params;
    let p = init_params(None, None, &defaults);
    assert_eq!(pairs(&p), pairs(&defaults));
    let p = init_params(Some("rotmg"), Some("tok"), &defaults);
    assert_eq!(
        pairs(&p),
        vec![
            ("accessToken", "tok"),
            ("rotmg", "Unity"),
            ("play_platform", "Unity"),
            ("game_net_user_id", ""),
        ]
    );
}

#[test]
fn checksums_compare_md5() {
    assert!(checksum_matches("d41d8cd98f00b204e9800998ecf8427e", b""));
    assert!(checksum_matches("900150983cd24fb0d6963f7d28e17f72", b"abc"));
    assert!(!checksum_matches("900150983CD24FB0D6963F7D28E17F72", b"abc"));
    assert!(!checksum_matches("d41d8cd98f00b204e9800998ecf8427e", b"abc"));
    assert!(digest_matches("00ff", &[0x00, 0xff]));
}

#[test]
fn download_locations() {
    assert_eq!(compressed_file_name("RotMG Exalt.exe"), "RotMG Exalt.exe.gz");
    assert_eq!(
        build_release_path("abc", "rotmg-exalt-win-64", "checksum.json"),
        "build-release/abc/rotmg-exalt-win-64/checksum.json"
    );
    assert_eq!(failed_download_error("a.dll").0, "Failed to download a.dll");
    assert_eq!(
        build_file_url("abc", "rotmg-exalt-win-64", "checksum.json"),
        "https://rotmg-build.decagames.com/build-release/abc/rotmg-exalt-win-64/checksum.json"
    );
    let mut state = CoreState::new();
    assert_eq!(service_url(&state, "account/verify"), "https://www.realmofthemadgod.com/account/verify");
    set_build_force(&mut state, Build::Testing);
    assert_eq!(service_url(&state, "account/verify"), "https://test.realmofthemadgod.com/account/verify");
}

#[test]
fn unpacking_downloads() {
    let gz: Vec<u8> = vec![
        31, 139, 8, 0, 0, 0, 0, 0, 2, 3, 203, 72, 205, 201, 201, 87, 72, 79, 204, 77, 5, 0, 103,
        7, 16, 198, 10, 0, 0, 0,
    ];
    assert_eq!(unpack_download(&gz).unwrap(), b"hello game".to_vec());
    let e = unpack_download(b"not gzip").unwrap_err();
    let mut out = Vec::new();
    let expected = std::io::Read::read_to_end(
        &mut flate2::read::MultiGzDecoder::new(&b"not gzip"[..]),
        &mut out,
    )
    .unwrap_err()
    .to_string();
    assert_eq!(e, expected);
    assert!(!e.is_empty());
}

fn run(outcomes: &[FetchOutcome]) -> (Vec<RetryStep>, RetryState) {
    let mut s = RetryState::new();
    let mut steps = Vec::new();
    for o in outcomes {
        steps.push(s.next(*o));
    }
    (steps, s)
}

#[test]
fn valid_file_is_done_at_once() {
    let (steps, _) = run(&[FetchOutcome::AlreadyValid]);
    assert_eq!(steps, vec![RetryStep::Done]);
}

#[test]
fn replaced_file_is_checked_again() {
    let (steps, s) = run(&[FetchOutcome::Replaced, FetchOutcome::AlreadyValid]);
    assert_eq!(steps, vec![RetryStep::Fetch, RetryStep::Done]);
    assert_eq!(s, RetryState { attempt: 0, check: 1 });
}

#[test]
fn file_never_matching_is_given_up_after_six_fetches() {
    let (steps, s) = run(&[FetchOutcome::Replaced; 6]);
    assert_eq!(
        steps,
        vec![
            RetryStep::Fetch,
            RetryStep::Fetch,
            RetryStep::Fetch,
            RetryStep::Fetch,
            RetryStep::Fetch,
            RetryStep::GiveUp { unverified: true },
        ]
    );
    assert_eq!(s, RetryState { attempt: 2, check: 1 });
}

#[test]
fn failing_fetch_is_given_up_after_three_attempts() {
    let (steps, _) = run(&[FetchOutcome::Failed; 3]);
    assert_eq!(
        steps,
        vec![RetryStep::Fetch, RetryStep::Fetch, RetryStep::GiveUp { unverified: false }]
    );
}
