use shook::config::TcpOrUnix;
use shook::identity::{find_group_id, find_user_id, IdLookupError};
use shook::payload::verify;
use shook::provision::{provision_plan, ProvisionStep};
use shook::signature::VerifyError;

const GROUP_DB: &str = "root:x:0:\ndaemon:x:1:\nwww-data:x:33:\nstaff:x:50:alice,bob\n";
const PASSWD_DB: &str = "root:x:0:0:root:/root:/bin/bash\nwww-data:x:33:33:www-data:/var/www:/usr/sbin/nologin\nalice:x:1000:1000:Alice:/home/alice:/bin/zsh\n";

#[test]
fn group_lookup_finds_the_id() {
    assert_eq!(find_group_id(GROUP_DB.as_bytes(), b"www-data"), Ok(33));
    assert_eq!(find_group_id(GROUP_DB.as_bytes(), b"root"), Ok(0));
    assert_eq!(find_group_id(GROUP_DB.as_bytes(), b"staff"), Ok(50));
}

#[test]
fn user_lookup_finds_the_id() {
    assert_eq!(find_user_id(PASSWD_DB.as_bytes(), b"www-data"), Ok(33));
    assert_eq!(find_user_id(PASSWD_DB.as_bytes(), b"alice"), Ok(1000));
}

#[test]
fn absent_name_is_not_found() {
    assert_eq!(
        find_group_id(GROUP_DB.as_bytes(), b"nginx"),
        Err(IdLookupError::NotFound)
    );
    assert_eq!(
        find_user_id(PASSWD_DB.as_bytes(), b"nobody"),
        Err(IdLookupError::NotFound)
    );
}

#[test]
fn malformed_record_is_a_hard_error() {
    // a passwd record with too few fields fails even before the name matches
    let db = "broken:x:0\nwww-data:x:33:33:www-data:/var/www:/usr/sbin/nologin\n";
    assert_eq!(
        find_user_id(db.as_bytes(), b"www-data"),
        Err(IdLookupError::MalformedEntry)
    );
    // a group record with a non-numeric id fails
    let db = "grp:x:abc:\n";
    assert_eq!(
        find_group_id(db.as_bytes(), b"grp"),
        Err(IdLookupError::MalformedEntry)
    );
}

#[test]
fn first_matching_record_wins() {
    let db = "dup:x:1:\ndup:x:2:\n";
    assert_eq!(find_group_id(db.as_bytes(), b"dup"), Ok(1));
}

#[test]
fn tcp_address_binds_directly() {
    let addr = TcpOrUnix::Tcp("0.0.0.0:8080".to_string());
    let steps = provision_plan(
        &addr,
        &PASSWD_DB.as_bytes().to_vec(),
        &GROUP_DB.as_bytes().to_vec(),
        &"www-data".to_string(),
        &"www-data".to_string(),
    )
    .unwrap();
    assert_eq!(steps, vec![ProvisionStep::BindTcp("0.0.0.0:8080".to_string())]);
}

#[test]
fn unix_socket_is_provisioned_in_order() {
    let path = "/var/run/shook.sock".to_string();
    let addr = TcpOrUnix::Unix(path.clone());
    let steps = provision_plan(
        &addr,
        &PASSWD_DB.as_bytes().to_vec(),
        &GROUP_DB.as_bytes().to_vec(),
        &"www-data".to_string(),
        &"www-data".to_string(),
    )
    .unwrap();
    assert_eq!(
        steps,
        vec![
            ProvisionStep::RemoveStale(path.clone()),
            ProvisionStep::EnsureParentDir(path.clone()),
            ProvisionStep::BindUnix(path.clone()),
            ProvisionStep::Chown(path.clone(), 33, 33),
            ProvisionStep::Chmod(path, 0o666),
        ]
    );
}

#[test]
fn missing_group_fails_before_any_bind() {
    // the configured group is not in the group database: startup fails with
    // a named lookup error and no step, so the listener never binds
    let group_db = "root:x:0:\ndaemon:x:1:\n";
    let addr = TcpOrUnix::Unix("/var/run/shook.sock".to_string());
    let r = provision_plan(
        &addr,
        &PASSWD_DB.as_bytes().to_vec(),
        &group_db.as_bytes().to_vec(),
        &"www-data".to_string(),
        &"www-data".to_string(),
    );
    assert_eq!(r, Err(IdLookupError::NotFound));
}

#[test]
fn verify_builds_the_payload() {
    let body: Vec<u8> = b"{\"sender\":null,\"zen\":\"hi\"}".to_vec();
    let payload = verify(
        7,
        None,
        None,
        &None,
        &body,
        "application/json",
        "ping",
    )
    .expect("unsigned ping should verify and decode");
    assert_eq!(payload.guid, 7);
    assert_eq!(payload.signature_sha1, None);
    assert_eq!(payload.signature_sha256, None);
    match payload.event {
        shook::events::Event::Ping { zen, .. } => assert_eq!(zen, "hi".to_string()),
        other => panic!("wrong variant: {:?}", other),
    }
}

#[test]
fn verify_folds_decode_failures_into_event_parse_error() {
    let body: Vec<u8> = b"{\"zen\":\"hi\"}".to_vec();
    let r = verify(7, None, None, &None, &body, "application/json", "zing");
    assert_eq!(r, Err(VerifyError::EventParseError));
}
