use controller::clients::mgmt::client::{i8_decimal, HttpReply, MgmtEndpoint};
use controller::clients::mgmt::MGMTClient;
use controller::clients::mgmt::MGMTError;
use controller::crd::v1alpha6::EboAdminPasswordStatus;

#[test]
fn test_hex_to_ascii() {
    // Test all digits from 0 to 9
    assert_eq!(MGMTClient::hex_to_ascii(0), '0');
    assert_eq!(MGMTClient::hex_to_ascii(1), '1');
    assert_eq!(MGMTClient::hex_to_ascii(5), '5');
    assert_eq!(MGMTClient::hex_to_ascii(9), '9');
    assert_eq!(MGMTClient::hex_to_ascii(10), 'a');
    assert_eq!(MGMTClient::hex_to_ascii(11), 'b');
    assert_eq!(MGMTClient::hex_to_ascii(14), 'e');
    assert_eq!(MGMTClient::hex_to_ascii(15), 'f');
    assert_eq!(MGMTClient::hex_to_ascii(16), '0');
    assert_eq!(MGMTClient::hex_to_ascii(u8::MAX), '0'); // Test the maximum u8 value
}

#[test]
fn test_ascii_to_hex() {
    // Digits
    assert_eq!(MGMTClient::ascii_to_hex('0'), 0);
    assert_eq!(MGMTClient::ascii_to_hex('1'), 1);
    assert_eq!(MGMTClient::ascii_to_hex('5'), 5);
    assert_eq!(MGMTClient::ascii_to_hex('9'), 9);
    // Lowercase
    assert_eq!(MGMTClient::ascii_to_hex('a'), 10);
    assert_eq!(MGMTClient::ascii_to_hex('b'), 11);
    assert_eq!(MGMTClient::ascii_to_hex('e'), 14);
    assert_eq!(MGMTClient::ascii_to_hex('f'), 15);
    // Uppercase
    assert_eq!(MGMTClient::ascii_to_hex('A'), 10);
    assert_eq!(MGMTClient::ascii_to_hex('B'), 11);
    assert_eq!(MGMTClient::ascii_to_hex('E'), 14);
    assert_eq!(MGMTClient::ascii_to_hex('F'), 15);
}

#[test]
fn test_ascii_to_hex_invalid_input() {
    // Test inputs that are not valid hex characters
    assert_eq!(MGMTClient::ascii_to_hex('g'), 0);
    assert_eq!(MGMTClient::ascii_to_hex('G'), 0);
    assert_eq!(MGMTClient::ascii_to_hex('*'), 0);
    assert_eq!(MGMTClient::ascii_to_hex(' '), 0);
}

#[test]
fn test_encode_server_id() {
    // test valid encode
    assert_eq!(MGMTClient::encode_server_id("4f4819d7-a343-4f3e-a889-474f363bbe37"), "f59c9044");
    assert_eq!(MGMTClient::encode_server_id("92aeb7e6-3bb7-44ba-bf59-f8a632db4d82"), "81e78084");
}

fn reply(status: u16, body: &str) -> Result<HttpReply, String> {
    Ok(HttpReply {
        status,
        status_text: format!("{status} Whatever"),
        body: body.to_string(),
    })
}

#[test]
fn hex_round_trip_for_every_digit_value() {
    for v in 0u8..16 {
        assert_eq!(MGMTClient::ascii_to_hex(MGMTClient::hex_to_ascii(v)), v);
    }
}

#[test]
fn encoded_server_id_is_eight_lowercase_hex_digits() {
    let code = MGMTClient::encode_server_id("00000000-0000-0000-0000-000000000000");
    assert_eq!(code, "00000000");
    let code = MGMTClient::encode_server_id("ffffffff-ffff-ffff-ffff-ffffffffffff");
    // xor of sixteen 0xff is 0, sum is 16 * 255 = 4080 = 0x0ff0, 128 set bits = 0x80
    assert_eq!(code, "000ff008");
    assert!(code.chars().all(|c| c.is_ascii_hexdigit() && !c.is_ascii_uppercase()));
}

#[test]
fn encode_server_id_reads_uppercase_digits_alike() {
    assert_eq!(
        MGMTClient::encode_server_id("4F4819D7-A343-4F3E-A889-474F363BBE37"),
        MGMTClient::encode_server_id("4f4819d7-a343-4f3e-a889-474f363bbe37")
    );
}

#[test]
fn endpoint_urls_point_at_the_server_service() {
    assert_eq!(
        MGMTClient::url(MgmtEndpoint::AdminPasswordStatus, "ebo1", "ns1"),
        "http://ebo1.ns1.svc.cluster.local:8080/adminpassword/status"
    );
    assert_eq!(
        MGMTClient::url(MgmtEndpoint::BackupList, "a", "b"),
        "http://a.b.svc.cluster.local:8080/external/backup_list"
    );
    assert_eq!(
        MGMTClient::url(MgmtEndpoint::LicensesRefresh, "a", "b"),
        "http://a.b.svc.cluster.local:8080/licenses/refresh"
    );
}

#[test]
fn admin_password_answers_are_read_after_trimming() {
    assert_eq!(
        MGMTClient::admin_password_status_from(reply(200, "  Expired\n")),
        Ok(EboAdminPasswordStatus::Expired)
    );
    assert_eq!(
        MGMTClient::admin_password_status_from(reply(200, "Active")),
        Ok(EboAdminPasswordStatus::Active)
    );
    assert_eq!(
        MGMTClient::admin_password_status_from(reply(200, "Temporary")),
        Ok(EboAdminPasswordStatus::Temporary)
    );
    assert_eq!(
        MGMTClient::admin_password_status_from(reply(200, "anything")),
        Ok(EboAdminPasswordStatus::Temporary)
    );
}

#[test]
fn admin_password_refusal_carries_status_and_body() {
    assert_eq!(
        MGMTClient::admin_password_status_from(reply(500, "boom")),
        Err(MGMTError::CheckAdminPasswordFailed("status 500 Whatever: boom".to_string()))
    );
    assert_eq!(
        MGMTClient::admin_password_status_from(Err("no route".to_string())),
        Err(MGMTError::CheckAdminPasswordFailed("no route".to_string()))
    );
}

#[test]
fn backup_status_accepts_plain_and_prefixed_one() {
    assert_eq!(MGMTClient::backup_status_from(reply(200, "1")), Ok(true));
    assert_eq!(MGMTClient::backup_status_from(reply(200, " Status: 1 \n")), Ok(true));
    assert_eq!(MGMTClient::backup_status_from(reply(200, "Status:0")), Ok(false));
    assert_eq!(MGMTClient::backup_status_from(reply(200, "0")), Ok(false));
    assert_eq!(MGMTClient::backup_status_from(reply(200, "11")), Ok(false));
    assert!(matches!(
        MGMTClient::backup_status_from(reply(404, "")),
        Err(MGMTError::BackupStatusError(_))
    ));
}

#[test]
fn backup_list_is_read_as_json() {
    assert_eq!(
        MGMTClient::list_backups_from(reply(200, r#"["ebo1_010101-0101", "x"]"#)),
        Ok(vec!["ebo1_010101-0101".to_string(), "x".to_string()])
    );
    assert!(matches!(
        MGMTClient::list_backups_from(reply(200, "not json")),
        Err(MGMTError::BackupListError(_))
    ));
    assert!(matches!(
        MGMTClient::list_backups_from(reply(503, "[]")),
        Err(MGMTError::BackupListError(_))
    ));
}

#[test]
fn create_backup_accepts_any_success() {
    assert_eq!(MGMTClient::create_backup_from(reply(202, "")), Ok(true));
    assert_eq!(
        MGMTClient::create_backup_from(reply(400, "bad")),
        Err(MGMTError::BackupFailed("status 400 Whatever: bad".to_string()))
    );
}

#[test]
fn license_refresh_needs_exactly_ok() {
    assert_eq!(MGMTClient::refresh_licenses_from(Ok(200), "x".to_string()), Ok(true));
    assert_eq!(
        MGMTClient::refresh_licenses_from(Ok(503), "rejected".to_string()),
        Err(MGMTError::LicenseRefreshFailed("rejected".to_string()))
    );
    assert_eq!(
        MGMTClient::refresh_licenses_from(Err("down".to_string()), String::new()),
        Err(MGMTError::LicenseRefreshFailed("down".to_string()))
    );
}

#[test]
fn backup_url_carries_name_and_count() {
    assert_eq!(
        MGMTClient::backup_url("ebo1", "ns1", "ebo1_010101-0101", 3).unwrap(),
        "http://ebo1.ns1.svc.cluster.local:8080/external/backup?name=ebo1_010101-0101&backups=3"
    );
    assert_eq!(
        MGMTClient::backup_url("ebo1", "ns1", "a b&c", -5).unwrap(),
        "http://ebo1.ns1.svc.cluster.local:8080/external/backup?name=a+b%26c&backups=-5"
    );
    assert!(matches!(MGMTClient::backup_url("bad host", "ns1", "x", 1), Err(MGMTError::BackupFailed(_))));
}

#[test]
fn i8_decimal_matches_to_string() {
    for v in i8::MIN..=i8::MAX {
        assert_eq!(i8_decimal(v), v.to_string());
    }
}
