use exalta::client::Build;
use exalta::launcher::config::AppConfig as CliConfig;
use exalta::launcher::launchargs::{
    build_folder, encode_str, game_executable, launch_data_argument, wine_command, LaunchArgs,
};
use exalta::launcher::login::{check_reset_email, reset_email_verdict};
use exalta::launcher::main_ext::{
    device_token, device_token_source, extract_serial_number, strip_zero_bytes, with_index,
    LauncherAuth, SavedLauncherAuth,
};
use exalta::launcher::pages::config::AppConfig;
use exalta::launcher::pages::{page_for, toggle_settings, HistoryVec, Route};
use exalta::launcher::registries::{
    build_id_registry_value, find_build_id, find_build_id_key, registry_string,
};
use exalta::launcher::update::{
    check_build_hash, download_failed_error, update_available_error, update_check_failed_error,
    UpdateCheck,
};

#[test]
fn history_set_get_revert() {
    let mut h = HistoryVec::new(1);
    assert_eq!(*h.get(), 1);
    assert_eq!(h.revert(), None);
    assert_eq!(*h.get(), 1);
    h.set(2);
    h.set(3);
    assert_eq!(*h.get(), 3);
    let (past, cur) = h.history();
    assert_eq!(past, &[1, 2]);
    assert_eq!(*cur, 3);
    assert_eq!(h.revert(), Some(3));
    assert_eq!(*h.get(), 2);
    assert_eq!(h.revert(), Some(2));
    assert_eq!(h.revert(), None);
    assert_eq!(*h.get(), 1);
}

#[test]
fn settings_button_toggles() {
    let mut r = HistoryVec::new(Route::Login);
    toggle_settings(&mut r);
    assert_eq!(*r.get(), Route::Config);
    toggle_settings(&mut r);
    assert_eq!(*r.get(), Route::Login);
    assert!(r.history.is_empty());
}

#[test]
fn play_page_needs_account() {
    let mut r = HistoryVec::new(Route::Login);
    r.set(Route::Play);
    assert_eq!(page_for(&mut r, true), Some(Route::Play));
    assert_eq!(page_for(&mut r, false), None);
    assert_eq!(*r.get(), Route::Login);
    assert_eq!(page_for(&mut r, false), Some(Route::Login));
}

#[test]
fn first_start_settings() {
    let c = AppConfig::defaults_with_location(Some("/home/u/Documents/RealmOfTheMadGod/"));
    assert!(!c.dark);
    assert!(c.save_login);
    assert_eq!(c.build_hash, "");
    assert_eq!(c.game_folder_path, "/home/u/Documents/RealmOfTheMadGod/");
    assert_eq!(AppConfig::defaults_with_location(None).game_folder_path, "");
    assert!(!CliConfig::default().dark);
}

#[test]
fn deca_launch_args() {
    let a = LaunchArgs::for_account("user@x.com", "tok", "ts", "exp", None);
    assert_eq!(a.platform, "Deca");
    assert_eq!(a.guid, "dXNlckB4LmNvbQ==");
    assert_eq!(a.token, "dG9r");
    assert_eq!(a.token_timestamp, "dHM=");
    assert_eq!(a.token_expiration, "ZXhw");
    assert_eq!(a.env, 4);
    assert_eq!(a.server_name, "");
    assert!(a.platform_token.is_none());
    assert!(a.steam_id.is_none());
}

#[test]
fn steam_launch_args() {
    let a = LaunchArgs::for_account("steamworks:7656", "tok", "ts", "exp", Some("ptok"));
    assert_eq!(a.platform, "Steam");
    assert_eq!(a.guid, "c3RlYW13b3Jrczo3NjU2");
    assert_eq!(a.platform_token.as_deref(), Some("cHRvaw=="));
    assert_eq!(a.steam_id.as_deref(), Some("NzY1Ng=="));
    assert_eq!(encode_str(""), "");
}

#[test]
fn launch_argument_strings() {
    assert_eq!(launch_data_argument("{\"platform\":\"Deca\",\"env\":4}"), "data:{platform:Deca,env:4}");
    assert!(!launch_data_argument("\"\"\"").contains('"'));
    assert_eq!(wine_command("/g/RotMG Exalt.exe", "data:x"), "wine \"/g/RotMG Exalt.exe\" \"data:x\"");
    assert_eq!(game_executable(Build::Production), "Production/RotMG Exalt.exe");
    assert_eq!(build_folder(Build::Testing), "Testing/");
}

#[test]
fn reset_needs_email() {
    assert!(check_reset_email("someone@example.com").is_ok());
    let e = check_reset_email("bob").unwrap_err();
    assert_eq!(e.0, "bob is not a valid email!");
    assert!(check_reset_email("Someone@Example.com").is_err());
    assert_eq!(reset_email_verdict("x", None).unwrap_err().0, "invalid e-mail pattern");
    assert!(reset_email_verdict("x", Some(true)).is_ok());
}

#[test]
fn device_token_hashes_serials() {
    assert_eq!(device_token_source(None, None, None), "None0");
    assert_eq!(device_token_source(Some(""), Some(""), Some("P")), "None0P");
    assert_eq!(device_token_source(Some("BB123"), Some("SYS456"), Some("PID789")), "BB123SYS456PID789");
    assert_eq!(device_token(None, None, None), "78940ef5d9ca96f87c7a6c728e58dbe2f0770f78");
    let t = device_token(Some("x"), None, None);
    assert_eq!(t.len(), 40);
    assert!(t.chars().all(|c| c.is_ascii_hexdigit() && !c.is_ascii_uppercase()));
    assert_eq!(
        device_token(Some("BB123"), Some("SYS456"), Some("PID789")),
        "cf520bfdb90c718f6960f2634a22c23e714e76a8"
    );
}

#[test]
fn serial_number_from_wmic_output() {
    let text = "SerialNumber  \r\n00330-80000-00000-AA123  \r\n\r\n";
    let mut utf16 = Vec::new();
    for b in text.bytes() {
        utf16.push(b);
        utf16.push(0);
    }
    assert_eq!(strip_zero_bytes(&utf16), text.as_bytes().to_vec());
    assert_eq!(extract_serial_number(&utf16).as_deref(), Some("00330-80000-00000-AA123"));
    assert_eq!(extract_serial_number(b"nothing here"), None);
}

#[test]
fn saved_sign_in_in_use() {
    let mut saved = SavedLauncherAuth::default();
    assert!(saved.current_auth().is_none());
    saved.saved.push(LauncherAuth { guid: "a".to_string(), password: "b".to_string() });
    assert_eq!(saved.current_auth().unwrap().guid, "a");
    saved.current = 1;
    assert!(saved.current_auth().is_none());
    assert_eq!(LauncherAuth::default().guid, "");
}

#[test]
fn counting_predicate() {
    let mut p = with_index(|i: usize, x: &i32| (i as i32) == *x);
    assert!(p.call(&0));
    assert!(!p.call(&5));
    assert!(p.call(&2));
    assert_eq!(p.index, 3);
    let answers = p.call_all(&vec![3, 0, 5]);
    assert_eq!(answers, vec![true, false, true]);
    assert_eq!(p.index, 6);
}

#[test]
fn registry_build_id() {
    let values = vec![
        ("other".to_string(), b"x".to_vec()),
        ("buildId_v2_Production_h123".to_string(), b"first\0".to_vec()),
        ("buildId_v2_Production_h456".to_string(), b"abc\0def\0".to_vec()),
    ];
    assert_eq!(find_build_id(&values).as_deref(), Some("abcdef"));
    assert_eq!(find_build_id(&vec![("other".to_string(), vec![])]), None);
    let keys = vec!["a".to_string(), "buildId_v2_Production_h1".to_string(), "b".to_string()];
    assert_eq!(find_build_id_key(&keys).as_deref(), Some("buildId_v2_Production_h1"));
    assert_eq!(find_build_id_key(&vec![]), None);
    assert_eq!(build_id_registry_value("abc"), "abc\0");
    assert_eq!(registry_string("a\0b\0"), "ab");
}

#[test]
fn registry_build_id_round_trip() {
    let written = build_id_registry_value("5f3a9c");
    let mut utf16 = Vec::new();
    for u in written.encode_utf16().chain(Some(0)) {
        utf16.extend_from_slice(&u.to_le_bytes());
    }
    let values = vec![("buildId_v2_Production_x".to_string(), utf16)];
    assert_eq!(find_build_id(&values).as_deref(), Some("5f3a9c"));
}

#[test]
fn base64_padding() {
    assert_eq!(encode_str("a"), "YQ==");
    assert_eq!(encode_str("ab"), "YWI=");
    assert_eq!(encode_str("abc"), "YWJj");
    assert_eq!(encode_str("ÿ?>"), base64::encode("ÿ?>"));
}

#[test]
fn update_decisions() {
    assert_eq!(check_build_hash("h1", "", "h1", false), UpdateCheck::UpToDate);
    assert_eq!(check_build_hash("h0", "", "h1", false), UpdateCheck::UpdateAvailable);
    assert_eq!(check_build_hash("", "", "h1", false), UpdateCheck::UpdateAvailable);
    assert_eq!(check_build_hash("", "h1", "h1", true), UpdateCheck::AdoptNewHash);
    assert_eq!(check_build_hash("", "h0", "h1", true), UpdateCheck::UpdateAvailable);
    assert_eq!(check_build_hash("h0", "h1", "h1", true), UpdateCheck::AdoptNewHash);
    assert_eq!(check_build_hash("h1", "h0", "h1", true), UpdateCheck::UpToDate);
    assert_eq!(check_build_hash("h0", "h2", "h1", true), UpdateCheck::UpdateAvailable);
    assert_eq!(update_check_failed_error().to_string(), "UpdateError: Failed to check for updates.");
    assert_eq!(download_failed_error().to_string(), "UpdateError: Download Failed!");
    assert!(update_available_error().to_string().starts_with("UpdateError: An update for the game"));
    assert_eq!(exalta::launcher::update::UpdateError("m".to_string()).to_string(), "m");
    assert!(update_available_error().0.starts_with("An update for the game"));
}
