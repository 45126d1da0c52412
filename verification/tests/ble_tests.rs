use switchboard::ble::{
    configured_bd_addr, env_file_addr, is_connected_status, parse_bd_addr, start_notice,
    status_str, BleError, LinkStatus, BD_ADDR_ENV, WM_BLE_CONNECTION_CHANGED,
};

#[test]
fn test_ble_error_display_not_paired() {
    let s = BleError::NotPaired.message();
    assert!(!s.contains("0x"), "NotPaired display must not include any hex literal: {}", s);
    assert!(s.contains("not paired"), "NotPaired display should indicate pairing issue: {}", s);
}

#[test]
fn test_ble_error_display_not_configured() {
    let s = BleError::NotConfigured.message();
    assert!(s.contains(BD_ADDR_ENV), "NotConfigured display should name the env var: {}", s);
    assert!(s.contains(".env"), "NotConfigured display should mention the .env fallback: {}", s);
}

#[test]
fn test_ble_error_display_winrt_failure() {
    let e = BleError::WinRTFailure { api: "FromBluetoothAddressAsync", hr: 0x80070002u32 as i32 };
    let s = e.message();
    assert!(s.contains("FromBluetoothAddressAsync"), "WinRTFailure display should contain API name: {}", s);
    assert!(s.contains("0x80070002"), "WinRTFailure display should contain HRESULT: {}", s);
}

#[test]
fn test_ble_error_from_windows_error() {
    let ble_err = BleError::from_hresult(0x80004005u32 as i32);
    match ble_err {
        BleError::WinRTFailure { api, hr } => {
            assert_eq!(api, "WinRT call");
            assert_eq!(hr, 0x80004005u32 as i32);
        }
        _ => panic!("From<Error> must produce WinRTFailure"),
    }
}

#[test]
fn ble_error_exact_texts() {
    assert_eq!(
        BleError::NotConfigured.message(),
        "Nuphy BD_ADDR not configured (set SWITCHBOARD_NUPHY_BD_ADDR env var or add it to .env)"
    );
    assert_eq!(BleError::NotPaired.message(), "Nuphy not paired on this machine");
    assert_eq!(
        BleError::WinRTFailure { api: "CoInitializeEx", hr: 1 }.message(),
        "CoInitializeEx failed (HRESULT 0x1)"
    );
}

#[test]
fn co_initialize_and_pairing_checks() {
    assert!(BleError::from_co_initialize(0).is_none());
    assert!(BleError::from_co_initialize(1).is_none());
    match BleError::from_co_initialize(0x80010106u32 as i32) {
        Some(BleError::WinRTFailure { api, hr }) => {
            assert_eq!(api, "CoInitializeEx");
            assert_eq!(hr, 0x80010106u32 as i32);
        }
        _ => panic!("expected a CoInitializeEx failure"),
    }
    assert!(BleError::check_paired(Some(0x0123_4567_89AB)).is_ok());
    assert!(matches!(BleError::check_paired(Some(0)), Err(BleError::NotPaired)));
    assert!(matches!(BleError::check_paired(None), Err(BleError::NotPaired)));
}

#[test]
fn start_notices() {
    assert_eq!(
        start_notice(&BleError::NotConfigured),
        "Nuphy BD_ADDR not configured — internal keyboard will stay enabled. See README."
    );
    assert_eq!(
        start_notice(&BleError::NotPaired),
        "Nuphy not paired — internal keyboard will stay enabled this session."
    );
    assert_eq!(
        start_notice(&BleError::WinRTFailure { api: "x", hr: 0 }),
        "BLE initialization failed — see log."
    );
}

#[test]
fn connection_status_reads() {
    assert!(is_connected_status(Ok(LinkStatus::Connected)));
    assert!(!is_connected_status(Ok(LinkStatus::Disconnected)));
    assert!(!is_connected_status(Ok(LinkStatus::Other)));
    assert!(!is_connected_status(Err(0x80004005u32 as i32)));
    assert_eq!(status_str(LinkStatus::Connected), "Connected");
    assert_eq!(status_str(LinkStatus::Disconnected), "Disconnected");
    assert_eq!(status_str(LinkStatus::Other), "Unknown");
    assert_eq!(WM_BLE_CONNECTION_CHANGED, 0x8001);
}

#[test]
fn test_parse_bd_addr_hex_prefix() {
    assert_eq!(parse_bd_addr("0x0123456789AB"), Some(0x0123_4567_89ABu64));
}

#[test]
fn test_parse_bd_addr_hex_prefix_lowercase() {
    assert_eq!(parse_bd_addr("0x0123456789ab"), Some(0x0123_4567_89ABu64));
}

#[test]
fn test_parse_bd_addr_hex_prefix_uppercase_x() {
    assert_eq!(parse_bd_addr("0X0123456789AB"), Some(0x0123_4567_89ABu64));
}

#[test]
fn test_parse_bd_addr_bare_hex() {
    assert_eq!(parse_bd_addr("0123456789AB"), Some(0x0123_4567_89ABu64));
}

#[test]
fn test_parse_bd_addr_colon_separated() {
    assert_eq!(parse_bd_addr("01:23:45:67:89:AB"), Some(0x0123_4567_89ABu64));
}

#[test]
fn test_parse_bd_addr_hyphen_separated() {
    assert_eq!(parse_bd_addr("01-23-45-67-89-AB"), Some(0x0123_4567_89ABu64));
}

#[test]
fn test_parse_bd_addr_strips_whitespace() {
    assert_eq!(parse_bd_addr("  0123456789AB  "), Some(0x0123_4567_89ABu64));
}

#[test]
fn test_parse_bd_addr_too_short() {
    assert_eq!(parse_bd_addr("0123456789A"), None);
}

#[test]
fn test_parse_bd_addr_too_long() {
    assert_eq!(parse_bd_addr("0123456789ABC"), None);
}

#[test]
fn test_parse_bd_addr_empty() {
    assert_eq!(parse_bd_addr(""), None);
}

#[test]
fn test_parse_bd_addr_non_hex() {
    assert_eq!(parse_bd_addr("ZZZZZZZZZZZZ"), None);
}

#[test]
fn test_parse_bd_addr_zero_rejected() {
    assert_eq!(parse_bd_addr("00:00:00:00:00:00"), None);
}

#[test]
fn parse_bd_addr_edge_cases() {
    assert_eq!(parse_bd_addr("FF:FF:FF:FF:FF:FF"), Some(0xFFFF_FFFF_FFFF));
    assert_eq!(parse_bd_addr("0x00000000000001"), None);
    assert_eq!(parse_bd_addr("0x000000000001"), Some(1));
    assert_eq!(parse_bd_addr("0x01:23:45:67:89:ab"), Some(0x0123_4567_89AB));
    assert_eq!(parse_bd_addr("0x0x0123456789"), None);
    assert_eq!(parse_bd_addr("+0123456789A"), None);
    assert_eq!(parse_bd_addr("\t0123456789ab\n"), Some(0x0123_4567_89AB));
}

#[test]
fn parse_bd_addr_rejects_misplaced_separators() {
    assert_eq!(parse_bd_addr("0123:4567:89AB"), None);
    assert_eq!(parse_bd_addr("01:23:45-67:89:AB"), None);
    assert_eq!(parse_bd_addr("01:23:45:67:89AB"), None);
    assert_eq!(parse_bd_addr("012:345:678:9AB"), None);
    assert_eq!(parse_bd_addr("01::23:45:67:89:AB"), None);
    assert_eq!(parse_bd_addr("01:23:45:67:89:A:"), None);
    assert_eq!(parse_bd_addr("01.23.45.67.89.AB"), None);
    assert_eq!(parse_bd_addr("01-23-45-67-89-GG"), None);
    assert_eq!(parse_bd_addr("00-00-00-00-00-00"), None);
}

#[test]
fn bd_addr_written_back_parses() {
    let a: u64 = 0x00A1_B2C3_D4E5;
    assert_eq!(parse_bd_addr(&format!("{:012X}", a)), Some(a));
    assert_eq!(parse_bd_addr(&format!("{:012x}", a)), Some(a));
}

#[test]
fn test_env_file_simple_assignment() {
    assert_eq!(env_file_addr("SWITCHBOARD_NUPHY_BD_ADDR=0x0123456789AB\n"), Some(0x0123_4567_89ABu64));
}

#[test]
fn test_env_file_export_prefix() {
    assert_eq!(env_file_addr("export SWITCHBOARD_NUPHY_BD_ADDR=0123456789AB\n"), Some(0x0123_4567_89ABu64));
}

#[test]
fn test_env_file_double_quoted_value() {
    assert_eq!(env_file_addr("SWITCHBOARD_NUPHY_BD_ADDR=\"01:23:45:67:89:AB\"\n"), Some(0x0123_4567_89ABu64));
}

#[test]
fn test_env_file_single_quoted_value() {
    assert_eq!(env_file_addr("SWITCHBOARD_NUPHY_BD_ADDR='0x0123456789AB'\n"), Some(0x0123_4567_89ABu64));
}

#[test]
fn test_env_file_ignores_comments_and_other_keys() {
    let body = "\
        # A comment\n\
        \n\
        UNRELATED=value\n\
        SWITCHBOARD_NUPHY_BD_ADDR=0x0123456789AB\n\
        ANOTHER=value2\n";
    assert_eq!(env_file_addr(body), Some(0x0123_4567_89ABu64));
}

#[test]
fn test_env_file_missing_key_returns_none() {
    assert_eq!(env_file_addr("OTHER=value\n"), None);
}

#[test]
fn test_env_file_unparseable_value_returns_none() {
    assert_eq!(env_file_addr("SWITCHBOARD_NUPHY_BD_ADDR=not-a-mac\n"), None);
}

#[test]
fn env_file_line_without_equals_stops_reading() {
    assert_eq!(env_file_addr("garbage\nSWITCHBOARD_NUPHY_BD_ADDR=0x0123456789AB\n"), None);
}

#[test]
fn env_file_first_parseable_value_wins() {
    let body = "SWITCHBOARD_NUPHY_BD_ADDR=bad\nSWITCHBOARD_NUPHY_BD_ADDR = 11:22:33:44:55:66 \n";
    assert_eq!(env_file_addr(body), Some(0x1122_3344_5566));
}

#[test]
fn env_file_crlf_and_no_trailing_newline() {
    assert_eq!(env_file_addr("# x\r\nSWITCHBOARD_NUPHY_BD_ADDR=0123456789AB"), Some(0x0123_4567_89AB));
    assert_eq!(env_file_addr(""), None);
}

#[test]
fn env_file_mismatched_quotes_are_kept() {
    assert_eq!(env_file_addr("SWITCHBOARD_NUPHY_BD_ADDR=\"0123456789AB'\n"), None);
}

#[test]
fn configured_address_precedence() {
    let file = "SWITCHBOARD_NUPHY_BD_ADDR=11:22:33:44:55:66\n";
    let cwd = "SWITCHBOARD_NUPHY_BD_ADDR=AA:BB:CC:DD:EE:FF\n";
    assert_eq!(configured_bd_addr(Some("0x0123456789AB"), Some(file), Some(cwd)), Some(0x0123_4567_89AB));
    assert_eq!(configured_bd_addr(Some("junk"), Some(file), Some(cwd)), Some(0x1122_3344_5566));
    assert_eq!(configured_bd_addr(None, Some("OTHER=1\n"), Some(cwd)), Some(0xAABB_CCDD_EEFF));
    assert_eq!(configured_bd_addr(None, None, None), None);
}
