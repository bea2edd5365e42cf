//! The client of the management API that each server exposes: the
//! addresses it calls, how it reads the answers, and the encoding of server
//! identifiers.

use vstd::prelude::*;

use crate::crd::v1alpha6::EboAdminPasswordStatus;
use crate::strings::{concat, seq_starts_with, starts_with, str_eq, trim, trim_spec};
use super::config::MGMTConfig;
use super::error::MGMTError;

verus! {

/// The value of a hexadecimal digit, either case; 0 for any other character.
pub open spec fn hex_value(c: char) -> u8 {
    if '0' <= c <= '9' {
        (c as u32 - '0' as u32) as u8
    } else if 'a' <= c <= 'f' {
        (c as u32 - 'a' as u32 + 10) as u8
    } else if 'A' <= c <= 'F' {
        (c as u32 - 'A' as u32 + 10) as u8
    } else {
        0
    }
}

/// The lowercase hexadecimal digit of a value below 16; `0` for any other
/// value.
pub open spec fn hex_digit(v: u8) -> char {
    if v <= 9 {
        (v + '0' as u32) as char
    } else if v <= 15 {
        (v - 10 + 'a' as u32) as char
    } else {
        '0'
    }
}

/// The positions in a GUID's text of the low digits of its sixteen bytes,
/// the hyphens skipped; each byte's high digit follows its low one.
pub open spec fn guid_positions() -> Seq<int> {
    seq![0, 2, 4, 6, 9, 11, 14, 16, 19, 21, 24, 26, 28, 30, 32, 34]
}

/// The sixteen bytes of a GUID, each read from its two digits, low digit
/// first.
pub open spec fn guid_bytes(g: Seq<char>) -> Seq<u8> {
    Seq::new(
        16,
        |i: int|
            (16 * hex_value(g[guid_positions()[i] + 1]) + hex_value(g[guid_positions()[i]])) as u8,
    )
}

/// Exclusive or of all the bytes.
pub open spec fn xor_all(b: Seq<u8>) -> u8
    decreases b.len(),
{
    if b.len() == 0 {
        0
    } else {
        xor_all(b.drop_last()) ^ b.last()
    }
}

/// Sum of all the bytes.
pub open spec fn sum_all(b: Seq<u8>) -> int
    decreases b.len(),
{
    if b.len() == 0 {
        0
    } else {
        sum_all(b.drop_last()) + b.last()
    }
}

/// Number of set bits among the lowest `j` bits of `x`.
pub open spec fn ones_below(x: u8, j: u8) -> int
    decreases j,
{
    if j == 0 {
        0
    } else {
        ones_below(x, (j - 1) as u8) + if (x >> ((j - 1) as u8)) & 1u8 != 0 {
            1int
        } else {
            0int
        }
    }
}

/// Number of set bits in all the bytes.
pub open spec fn ones_all(b: Seq<u8>) -> int
    decreases b.len(),
{
    if b.len() == 0 {
        0
    } else {
        ones_all(b.drop_last()) + ones_below(b.last(), 8)
    }
}

/// The eight-character code of a GUID: the two digits of the exclusive or
/// of its bytes, the four digits of their sum, the two digits of their count
/// of set bits, each value written from its lowest digit up.
pub open spec fn encode_server_id_spec(g: Seq<char>) -> Seq<char> {
    let b = guid_bytes(g);
    let x = xor_all(b);
    let s = sum_all(b) as u16;
    let n = ones_all(b) as u8;
    seq![
        hex_digit(x & 15u8),
        hex_digit((x >> 4u8) & 15u8),
        hex_digit((s & 15u16) as u8),
        hex_digit(((s >> 4u16) & 15u16) as u8),
        hex_digit(((s >> 8u16) & 15u16) as u8),
        hex_digit(((s >> 12u16) & 15u16) as u8),
        hex_digit(n & 15u8),
        hex_digit((n >> 4u8) & 15u8),
    ]
}

fn guid_position(i: usize) -> (p: usize)
    requires
        i < 16,
    ensures
        p == guid_positions()[i as int],
{
    match i {
        0 => 0,
        1 => 2,
        2 => 4,
        3 => 6,
        4 => 9,
        5 => 11,
        6 => 14,
        7 => 16,
        8 => 19,
        9 => 21,
        10 => 24,
        11 => 26,
        12 => 28,
        13 => 30,
        14 => 32,
        15 => 34,
        _ => 34,
    }
}

fn hex_digit_str(v: u8) -> (s: &'static str)
    requires
        v < 16,
    ensures
        s@ == seq![hex_digit(v)],
{
    match v {
        0 => {
            proof {
                reveal_strlit("0");
            }
            "0"
        },
        1 => {
            proof {
                reveal_strlit("1");
            }
            "1"
        },
        2 => {
            proof {
                reveal_strlit("2");
            }
            "2"
        },
        3 => {
            proof {
                reveal_strlit("3");
            }
            "3"
        },
        4 => {
            proof {
                reveal_strlit("4");
            }
            "4"
        },
        5 => {
            proof {
                reveal_strlit("5");
            }
            "5"
        },
        6 => {
            proof {
                reveal_strlit("6");
            }
            "6"
        },
        7 => {
            proof {
                reveal_strlit("7");
            }
            "7"
        },
        8 => {
            proof {
                reveal_strlit("8");
            }
            "8"
        },
        9 => {
            proof {
                reveal_strlit("9");
            }
            "9"
        },
        10 => {
            proof {
                reveal_strlit("a");
            }
            "a"
        },
        11 => {
            proof {
                reveal_strlit("b");
            }
            "b"
        },
        12 => {
            proof {
                reveal_strlit("c");
            }
            "c"
        },
        13 => {
            proof {
                reveal_strlit("d");
            }
            "d"
        },
        14 => {
            proof {
                reveal_strlit("e");
            }
            "e"
        },
        15 => {
            proof {
                reveal_strlit("f");
            }
            "f"
        },
        _ => {
            proof {
                reveal_strlit("f");
            }
            "f"
        },
    }
}

proof fn lemma_sum_bound(b: Seq<u8>)
    ensures
        0 <= sum_all(b) <= 255 * b.len(),
    decreases b.len(),
{
    if b.len() > 0 {
        lemma_sum_bound(b.drop_last());
    }
}

proof fn lemma_ones_below_bound(x: u8, j: u8)
    requires
        j <= 8,
    ensures
        0 <= ones_below(x, j) <= j,
    decreases j,
{
    if j > 0 {
        lemma_ones_below_bound(x, (j - 1) as u8);
    }
}

proof fn lemma_ones_bound(b: Seq<u8>)
    ensures
        0 <= ones_all(b) <= 8 * b.len(),
    decreases b.len(),
{
    if b.len() > 0 {
        lemma_ones_bound(b.drop_last());
        lemma_ones_below_bound(b.last(), 8);
    }
}

/// A lowercase hexadecimal digit.
pub open spec fn is_lower_hex(c: char) -> bool {
    ('0' <= c <= '9') || ('a' <= c <= 'f')
}

/// Reading back a written digit gives the value: for every value below 16,
/// the value of its digit is the value itself.
pub proof fn lemma_hex_round_trip(v: u8)
    requires
        v < 16,
    ensures
        is_lower_hex(hex_digit(v)),
        hex_value(hex_digit(v)) == v,
{
}

/// Writing a read digit gives the digit back, in lowercase: for every
/// lowercase hexadecimal digit, the digit of its value is itself.
pub proof fn lemma_hex_digit_of_value(c: char)
    requires
        is_lower_hex(c),
    ensures
        hex_value(c) < 16,
        hex_digit(hex_value(c)) == c,
{
}

/// The code of every GUID is eight lowercase hexadecimal digits.
pub proof fn lemma_encoded_id_is_lower_hex(g: Seq<char>)
    ensures
        encode_server_id_spec(g).len() == 8,
        forall|i: int| 0 <= i < 8 ==> is_lower_hex(#[trigger] encode_server_id_spec(g)[i]),
{
    let b = guid_bytes(g);
    let x = xor_all(b);
    let s = sum_all(b) as u16;
    let n = ones_all(b) as u8;
    assert(x & 15u8 < 16 && (x >> 4u8) & 15u8 < 16 && n & 15u8 < 16 && (n >> 4u8) & 15u8 < 16)
        by (bit_vector);
    assert((s & 15u16) < 16 && ((s >> 4u16) & 15u16) < 16 && ((s >> 8u16) & 15u16) < 16 && ((s
        >> 12u16) & 15u16) < 16) by (bit_vector);
    lemma_hex_round_trip(x & 15u8);
    lemma_hex_round_trip((x >> 4u8) & 15u8);
    lemma_hex_round_trip((s & 15u16) as u8);
    lemma_hex_round_trip(((s >> 4u16) & 15u16) as u8);
    lemma_hex_round_trip(((s >> 8u16) & 15u16) as u8);
    lemma_hex_round_trip(((s >> 12u16) & 15u16) as u8);
    lemma_hex_round_trip(n & 15u8);
    lemma_hex_round_trip((n >> 4u8) & 15u8);
}

/// The client's side of the management API: its settings. Requests are sent
/// by the caller; this type says where to and how to read the answers.
#[derive(Debug, Clone)]
pub struct MGMTClient {
    pub cfg: MGMTConfig,
}

/// The endpoints of the management API.
#[derive(Debug, Clone, Copy, PartialEq, Eq, Structural)]
pub enum MgmtEndpoint {
    LicensesRefresh,
    AdminPasswordStatus,
    Backup,
    BackupStatus,
    BackupList,
}

/// The path of an endpoint.
pub open spec fn endpoint_path(e: MgmtEndpoint) -> Seq<char> {
    match e {
        MgmtEndpoint::LicensesRefresh => "/licenses/refresh"@,
        MgmtEndpoint::AdminPasswordStatus => "/adminpassword/status"@,
        MgmtEndpoint::Backup => "/external/backup"@,
        MgmtEndpoint::BackupStatus => "/external/backup_status"@,
        MgmtEndpoint::BackupList => "/external/backup_list"@,
    }
}

/// The address of an endpoint of the server `name` in `ns`: its service in
/// the cluster, on port 8080.
pub open spec fn endpoint_url(e: MgmtEndpoint, name: Seq<char>, ns: Seq<char>) -> Seq<char> {
    "http://"@ + name + "."@ + ns + ".svc.cluster.local:8080"@ + endpoint_path(e)
}

/// An HTTP answer: status code, the code as printed (with its reason), and
/// the body.
#[derive(Debug, Clone)]
pub struct HttpReply {
    pub status: u16,
    pub status_text: String,
    pub body: String,
}

/// The answer's status is a success (2xx).
pub open spec fn is_success(status: u16) -> bool {
    200 <= status <= 299
}

/// The message of a refusal: `status`, the printed code, `: `, the body.
pub open spec fn refusal_text(r: HttpReply) -> Seq<char> {
    "status "@ + r.status_text@ + ": "@ + r.body@
}

/// How a trimmed admin-password answer reads: `Expired` and `Active` as
/// such, anything else as temporary.
pub open spec fn password_status_of(text: Seq<char>) -> EboAdminPasswordStatus {
    if text == "Expired"@ {
        EboAdminPasswordStatus::Expired
    } else if text == "Active"@ {
        EboAdminPasswordStatus::Active
    } else {
        EboAdminPasswordStatus::Temporary
    }
}

/// How a trimmed backup-status answer reads: running when it is `1`, or
/// `Status:` followed by `1` (spaces around it allowed).
pub open spec fn backup_running_of(text: Seq<char>) -> bool {
    if seq_starts_with(text, "Status:"@) {
        trim_spec(text.subrange(7, text.len() as int)) == "1"@
    } else {
        text == "1"@
    }
}

/// What a JSON text denotes when it is an array of strings.
pub uninterp spec fn json_string_array(text: Seq<char>) -> Option<Seq<Seq<char>>>;

/// Calls `serde_json::from_str` for a `Vec<String>`. The result is the named
/// reading of the text: the strings of the array when it is one, an error
/// otherwise.
#[verifier::external_body]
fn parse_json_string_array(text: &str) -> (r: Result<Vec<String>, serde_json::Error>)
    ensures
        match r {
            Ok(v) => json_string_array(text@) == Some(v@.map_values(|s: String| s@)),
            Err(_) => json_string_array(text@) is None,
        },
{
    serde_json::from_str::<Vec<String>>(text)
}

/// Calls `Display::to_string` on a `serde_json::Error`; what the message
/// says is not stated.
#[verifier::external_body]
fn json_error_text(e: &serde_json::Error) -> (s: String) {
    e.to_string()
}

/// `serde_json`'s error type.
#[verifier::external_type_specification]
#[verifier::external_body]
pub struct ExJsonError(serde_json::Error);

fn refusal(r: &HttpReply) -> (s: String)
    ensures
        s@ == refusal_text(*r),
{
    let a = concat("status ", r.status_text.as_str());
    let b = concat(a.as_str(), ": ");
    concat(b.as_str(), r.body.as_str())
}

/// The decimal text of a natural number, without leading zeros.
pub open spec fn nat_decimal(n: nat) -> Seq<char>
    decreases n,
{
    if n < 10 {
        seq![hex_digit(n as u8)]
    } else {
        nat_decimal(n / 10).push(hex_digit((n % 10) as u8))
    }
}

/// The decimal text of an integer: a `-` in front of a negative one.
pub open spec fn int_decimal(v: int) -> Seq<char> {
    if v < 0 {
        seq!['-'] + nat_decimal((-v) as nat)
    } else {
        nat_decimal(v as nat)
    }
}

/// The decimal text of `v`, as `to_string` writes it.
pub fn i8_decimal(v: i8) -> (r: String)
    ensures
        r@ == int_decimal(v as int),
{
    let n: u8 = if v < 0 {
        (0i16 - v as i16) as u8
    } else {
        v as u8
    };
    let mut r = if v < 0 {
        proof {
            reveal_strlit("-");
        }
        String::from_str("-")
    } else {
        String::new()
    };
    let ghost start = r@;
    if n >= 100 {
        r.append(hex_digit_str(n / 100));
        r.append(hex_digit_str((n / 10) % 10));
        r.append(hex_digit_str(n % 10));
        proof {
            let m = n as nat;
            assert(nat_decimal(m / 100) == seq![hex_digit((n / 100) as u8)]);
            assert(nat_decimal(m / 10) == nat_decimal(m / 100).push(hex_digit(((m / 10) % 10) as u8)));
            assert(nat_decimal(m) == nat_decimal(m / 10).push(hex_digit((m % 10) as u8)));
            assert(r@ =~= start + nat_decimal(m));
        }
    } else if n >= 10 {
        r.append(hex_digit_str(n / 10));
        r.append(hex_digit_str(n % 10));
        proof {
            let m = n as nat;
            assert(nat_decimal(m / 10) == seq![hex_digit((n / 10) as u8)]);
            assert(nat_decimal(m) == nat_decimal(m / 10).push(hex_digit((m % 10) as u8)));
            assert(r@ =~= start + nat_decimal(m));
        }
    } else {
        r.append(hex_digit_str(n));
        proof {
            assert(r@ =~= start + nat_decimal(n as nat));
        }
    }
    r
}

/// A license refresh answer that is handled: no answer, `200`, or an error
/// status (`4xx` or `5xx`), whose text is the rejection. Any other status
/// carries no error to report.
pub open spec fn refresh_status_handled(reply: Result<u16, String>) -> bool {
    match reply {
        Ok(status) => status == 200 || (400 <= status && status <= 599),
        Err(_) => true,
    }
}

/// What the `url` crate makes of `url` with the query pairs `k1=v1` and
/// then `k2=v2` appended, form-encoded; none when `url` does not parse.
pub uninterp spec fn url_with_query_pairs(
    url: Seq<char>,
    k1: Seq<char>,
    v1: Seq<char>,
    k2: Seq<char>,
    v2: Seq<char>,
) -> Option<Seq<char>>;

/// Calls `Url::parse` (the `url` crate, as `reqwest` exports it) and
/// `query_pairs_mut().append_pair` for each of the two pairs, and gives the
/// serialization. The result is the named one; the text of a parse error
/// is not stated.
#[verifier::external_body]
fn append_query_pairs(url: &str, k1: &str, v1: &str, k2: &str, v2: &str) -> (r: Result<
    String,
    String,
>)
    ensures
        match r {
            Ok(u) => url_with_query_pairs(url@, k1@, v1@, k2@, v2@) == Some(u@),
            Err(_) => url_with_query_pairs(url@, k1@, v1@, k2@, v2@) is None,
        },
{
    match reqwest::Url::parse(url) {
        Ok(mut u) => {
            u.query_pairs_mut().append_pair(k1, v1);
            u.query_pairs_mut().append_pair(k2, v2);
            Ok(String::from(u.as_str()))
        },
        Err(e) => Err(e.to_string()),
    }
}

impl MGMTClient {
    /// A client with the given settings.
    pub fn new(cfg: MGMTConfig) -> (c: MGMTClient)
        ensures
            c.cfg == cfg,
    {
        MGMTClient { cfg }
    }

    /// Whether the client is enabled.
    pub fn is_enabled(&self) -> (r: bool)
        ensures
            r == self.cfg.enabled,
    {
        self.cfg.enabled
    }

    /// The address of `endpoint` on the server `name` in `ns`.
    pub fn url(endpoint: MgmtEndpoint, name: &str, ns: &str) -> (u: String)
        ensures
            u@ == endpoint_url(endpoint, name@, ns@),
    {
        let path = match endpoint {
            MgmtEndpoint::LicensesRefresh => "/licenses/refresh",
            MgmtEndpoint::AdminPasswordStatus => "/adminpassword/status",
            MgmtEndpoint::Backup => "/external/backup",
            MgmtEndpoint::BackupStatus => "/external/backup_status",
            MgmtEndpoint::BackupList => "/external/backup_list",
        };
        let a = concat("http://", name);
        let b = concat(a.as_str(), ".");
        let c = concat(b.as_str(), ns);
        let d = concat(c.as_str(), ".svc.cluster.local:8080");
        concat(d.as_str(), path)
    }

    /// The address of a backup request for the server `name` in `ns`: the
    /// backup endpoint with the backup's `name` and the number of `backups`
    /// to keep as query pairs. An address that does not parse fails the
    /// backup.
    pub fn backup_url(name: &str, ns: &str, backup_name: &str, backups: i8) -> (r: Result<
        String,
        MGMTError,
    >)
        ensures
            match url_with_query_pairs(
                endpoint_url(MgmtEndpoint::Backup, name@, ns@),
                "name"@,
                backup_name@,
                "backups"@,
                int_decimal(backups as int),
            ) {
                Some(u) => r matches Ok(s) && s@ == u,
                None => r matches Err(MGMTError::BackupFailed(_)),
            },
    {
        let base = MGMTClient::url(MgmtEndpoint::Backup, name, ns);
        let count = i8_decimal(backups);
        match append_query_pairs(base.as_str(), "name", backup_name, "backups", count.as_str()) {
            Ok(u) => Ok(u),
            Err(t) => Err(MGMTError::BackupFailed(t)),
        }
    }

    /// The outcome of a license refresh: the transport error's text, a
    /// refusal (an error status) with `rejection` as its text, or success
    /// (status 200).
    pub fn refresh_licenses_from(reply: Result<u16, String>, rejection: String) -> (r: Result<
        bool,
        MGMTError,
    >)
        requires
            refresh_status_handled(reply),
        ensures
            match reply {
                Err(t) => r == Err::<bool, MGMTError>(MGMTError::LicenseRefreshFailed(t)),
                Ok(status) => if status == 200 {
                    r == Ok::<bool, MGMTError>(true)
                } else {
                    r == Err::<bool, MGMTError>(MGMTError::LicenseRefreshFailed(rejection))
                },
            },
    {
        match reply {
            Err(t) => Err(MGMTError::LicenseRefreshFailed(t)),
            Ok(status) => if status == 200 {
                Ok(true)
            } else {
                Err(MGMTError::LicenseRefreshFailed(rejection))
            },
        }
    }

    /// The admin password status from the API's answer: a failure to get an
    /// answer or a refusal is an error; otherwise the trimmed body decides.
    pub fn admin_password_status_from(reply: Result<HttpReply, String>) -> (r: Result<
        EboAdminPasswordStatus,
        MGMTError,
    >)
        ensures
            match reply {
                Err(t) => r == Err::<EboAdminPasswordStatus, MGMTError>(
                    MGMTError::CheckAdminPasswordFailed(t),
                ),
                Ok(rep) => if is_success(rep.status) {
                    r == Ok::<EboAdminPasswordStatus, MGMTError>(
                        password_status_of(trim_spec(rep.body@)),
                    )
                } else {
                    r matches Err(MGMTError::CheckAdminPasswordFailed(m)) && m@ == refusal_text(rep)
                },
            },
    {
        match reply {
            Err(t) => Err(MGMTError::CheckAdminPasswordFailed(t)),
            Ok(rep) => {
                if !(200 <= rep.status && rep.status <= 299) {
                    return Err(MGMTError::CheckAdminPasswordFailed(refusal(&rep)));
                }
                let normalized = trim(rep.body.as_str());
                if str_eq(normalized, "Expired") {
                    Ok(EboAdminPasswordStatus::Expired)
                } else if str_eq(normalized, "Active") {
                    Ok(EboAdminPasswordStatus::Active)
                } else {
                    Ok(EboAdminPasswordStatus::Temporary)
                }
            },
        }
    }

    /// Whether a backup request was accepted: a failure to get an answer or
    /// a refusal is an error, any success an acceptance.
    pub fn create_backup_from(reply: Result<HttpReply, String>) -> (r: Result<bool, MGMTError>)
        ensures
            match reply {
                Err(t) => r == Err::<bool, MGMTError>(MGMTError::BackupFailed(t)),
                Ok(rep) => if is_success(rep.status) {
                    r == Ok::<bool, MGMTError>(true)
                } else {
                    r matches Err(MGMTError::BackupFailed(m)) && m@ == refusal_text(rep)
                },
            },
    {
        match reply {
            Err(t) => Err(MGMTError::BackupFailed(t)),
            Ok(rep) => if 200 <= rep.status && rep.status <= 299 {
                Ok(true)
            } else {
                Err(MGMTError::BackupFailed(refusal(&rep)))
            },
        }
    }

    /// Whether a backup is running, from the API's answer: a failure to get
    /// an answer or a refusal is an error; otherwise the trimmed body says.
    pub fn backup_status_from(reply: Result<HttpReply, String>) -> (r: Result<bool, MGMTError>)
        ensures
            match reply {
                Err(t) => r == Err::<bool, MGMTError>(MGMTError::BackupStatusError(t)),
                Ok(rep) => if is_success(rep.status) {
                    r == Ok::<bool, MGMTError>(backup_running_of(trim_spec(rep.body@)))
                } else {
                    r matches Err(MGMTError::BackupStatusError(m)) && m@ == refusal_text(rep)
                },
            },
    {
        match reply {
            Err(t) => Err(MGMTError::BackupStatusError(t)),
            Ok(rep) => {
                if !(200 <= rep.status && rep.status <= 299) {
                    return Err(MGMTError::BackupStatusError(refusal(&rep)));
                }
                let normalized = trim(rep.body.as_str());
                let n = normalized.unicode_len();
                let is_ok = if starts_with(normalized, "Status:") {
                    proof {
                        reveal_strlit("Status:");
                    }
                    let rest = normalized.substring_char(7, n);
                    str_eq(trim(rest), "1")
                } else {
                    str_eq(normalized, "1")
                };
                Ok(is_ok)
            },
        }
    }

    /// The names of the server's backups, from the API's answer: a failure
    /// to get an answer, a refusal or a body that is not a JSON array of
    /// strings is an error.
    pub fn list_backups_from(reply: Result<HttpReply, String>) -> (r: Result<
        Vec<String>,
        MGMTError,
    >)
        ensures
            match reply {
                Err(t) => r == Err::<Vec<String>, MGMTError>(MGMTError::BackupListError(t)),
                Ok(rep) => if !is_success(rep.status) {
                    r matches Err(MGMTError::BackupListError(m)) && m@ == refusal_text(rep)
                } else {
                    match json_string_array(rep.body@) {
                        Some(names) => r matches Ok(v) && v@.map_values(|s: String| s@) == names,
                        None => r matches Err(MGMTError::BackupListError(_)),
                    }
                },
            },
    {
        match reply {
            Err(t) => Err(MGMTError::BackupListError(t)),
            Ok(rep) => {
                if !(200 <= rep.status && rep.status <= 299) {
                    return Err(MGMTError::BackupListError(refusal(&rep)));
                }
                match parse_json_string_array(rep.body.as_str()) {
                    Ok(v) => Ok(v),
                    Err(e) => Err(MGMTError::BackupListError(json_error_text(&e))),
                }
            },
        }
    }

    /// The value of a hexadecimal digit, either case; 0 for any other
    /// character.
    pub fn ascii_to_hex(c: char) -> (v: u8)
        ensures
            v == hex_value(c),
    {
        if '0' <= c && c <= '9' {
            (c as u32 - '0' as u32) as u8
        } else if 'a' <= c && c <= 'f' {
            (c as u32 - 'a' as u32 + 10) as u8
        } else if 'A' <= c && c <= 'F' {
            (c as u32 - 'A' as u32 + 10) as u8
        } else {
            0
        }
    }

    /// The lowercase hexadecimal digit of a value below 16; `0` for any
    /// other value.
    pub fn hex_to_ascii(hex: u8) -> (c: char)
        ensures
            c == hex_digit(hex),
    {
        if hex <= 9 {
            (hex + 48u8) as char
        } else if hex <= 15 {
            (hex - 10 + 97u8) as char
        } else {
            '0'
        }
    }

    /// The eight-character code of a server's GUID (see
    /// `encode_server_id_spec`). The GUID is read at its digit positions, up
    /// to the 36th character.
    pub fn encode_server_id(guid: &str) -> (code: String)
        requires
            guid@.len() >= 36,
        ensures
            code@ == encode_server_id_spec(guid@),
    {
        let ghost g = guid@;
        let ghost bytes = guid_bytes(g);
        let mut xor_byte: u8 = 0;
        let mut check_sum: u16 = 0;
        let mut no_of_one_bits: u8 = 0;
        let mut i: usize = 0;
        while i < 16
            invariant
                g == guid@,
                g.len() >= 36,
                bytes == guid_bytes(g),
                i <= 16,
                xor_byte == xor_all(bytes.subrange(0, i as int)),
                check_sum as int == sum_all(bytes.subrange(0, i as int)),
                no_of_one_bits as int == ones_all(bytes.subrange(0, i as int)),
            decreases 16 - i,
        {
            let p = guid_position(i);
            let hi = Self::ascii_to_hex(guid.get_char(p + 1));
            let lo = Self::ascii_to_hex(guid.get_char(p));
            let byte: u8 = hi * 16 + lo;
            assert(byte == bytes[i as int]);
            proof {
                let next = bytes.subrange(0, i + 1);
                assert(next.drop_last() =~= bytes.subrange(0, i as int));
                lemma_sum_bound(bytes.subrange(0, i as int));
                lemma_ones_bound(bytes.subrange(0, i as int));
            }
            xor_byte = xor_byte ^ byte;
            check_sum = check_sum + byte as u16;
            let mut j: u8 = 0;
            let ghost ones_before = no_of_one_bits as int;
            while j < 8
                invariant
                    j <= 8,
                    i < 16,
                    ones_before <= 8 * i,
                    no_of_one_bits as int == ones_before + ones_below(byte, j),
                decreases 8 - j,
            {
                proof {
                    lemma_ones_below_bound(byte, j);
                }
                if (byte >> j) & 0x01 != 0 {
                    no_of_one_bits = no_of_one_bits + 1;
                }
                j = j + 1;
            }
            i = i + 1;
        }
        assert(bytes.subrange(0, 16) =~= bytes);
        let x0 = xor_byte & 0x0f;
        let x1 = (xor_byte >> 4) & 0x0f;
        let c0 = check_sum & 0x000f;
        let c1 = (check_sum >> 4) & 0x000f;
        let c2 = (check_sum >> 8) & 0x000f;
        let c3 = (check_sum >> 12) & 0x000f;
        let n0 = no_of_one_bits & 0x0f;
        let n1 = (no_of_one_bits >> 4) & 0x0f;
        assert(x0 < 16 && x1 < 16 && n0 < 16 && n1 < 16) by (bit_vector)
            requires
                x0 == xor_byte & 0x0f,
                x1 == (xor_byte >> 4) & 0x0f,
                n0 == no_of_one_bits & 0x0f,
                n1 == (no_of_one_bits >> 4) & 0x0f,
        ;
        assert(c0 < 16 && c1 < 16 && c2 < 16 && c3 < 16) by (bit_vector)
            requires
                c0 == check_sum & 0x000f,
                c1 == (check_sum >> 4) & 0x000f,
                c2 == (check_sum >> 8) & 0x000f,
                c3 == (check_sum >> 12) & 0x000f,
        ;
        let mut code = String::new();
        code.append(hex_digit_str(x0));
        code.append(hex_digit_str(x1));
        code.append(hex_digit_str(c0 as u8));
        code.append(hex_digit_str(c1 as u8));
        code.append(hex_digit_str(c2 as u8));
        code.append(hex_digit_str(c3 as u8));
        code.append(hex_digit_str(n0));
        code.append(hex_digit_str(n1));
        assert(code@ =~= encode_server_id_spec(g));
        code
    }
}

} // verus!
