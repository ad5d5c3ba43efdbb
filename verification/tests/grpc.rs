use construct_tui::auth::{AuthTokens, DevicePublicKeys};
use construct_tui::config::TransportConfig;
use construct_tui::grpc::{
    bearer, channel_plan, find_user, get_pre_key_bundle_json, join_poll_result, join_request,
    link_request, register_request, search_results, upload_pre_keys, ChannelPlan, FindUserReply,
    JoinPollResult, JoinStatus, PreKeyBundle,
};

fn keys() -> DevicePublicKeys {
    DevicePublicKeys {
        verifying_key: "v".to_string(),
        identity_public: "i".to_string(),
        signed_prekey_public: "p".to_string(),
        signed_prekey_signature: "s".to_string(),
        crypto_suite: "c".to_string(),
    }
}

fn tokens() -> AuthTokens {
    AuthTokens {
        user_id: "u".to_string(),
        access_token: "a".to_string(),
        refresh_token: "r".to_string(),
        expires_at: 1,
    }
}

#[test]
fn channel_follows_the_transport() {
    let server = "https://construct.cc";
    assert!(matches!(
        channel_plan(server, &TransportConfig::Direct, false),
        ChannelPlan::Direct { url } if url == server
    ));
    let cdn = TransportConfig::CdnFront {
        cdn_endpoint: "https://cdn".to_string(),
        sni_host: "sni".to_string(),
        real_host: "real".to_string(),
    };
    assert!(matches!(
        channel_plan(server, &cdn, false),
        ChannelPlan::Direct { url } if url == "https://cdn"
    ));
    let obfs4 = TransportConfig::Obfs4 { bridge_line: "b".to_string() };
    assert!(matches!(channel_plan("relay:1", &obfs4, false), ChannelPlan::Unsupported));
    assert!(matches!(
        channel_plan("relay:1", &obfs4, true),
        ChannelPlan::Ice { url, bridge_line } if url == "https://relay:1" && bridge_line == "b"
    ));
    let tls = TransportConfig::Obfs4Tls {
        bridge_line: "b".to_string(),
        tls_server_name: "n".to_string(),
    };
    assert!(matches!(channel_plan("relay:1", &tls, false), ChannelPlan::Unsupported));
    assert!(matches!(channel_plan("relay:1", &tls, true), ChannelPlan::Ice { .. }));
}

#[test]
fn join_request_is_polled() {
    assert!(matches!(join_poll_result(None, None), Ok(JoinPollResult::Pending)));
    assert!(matches!(
        join_poll_result(Some(JoinStatus::Pending), None),
        Ok(JoinPollResult::Pending)
    ));
    assert!(matches!(
        join_poll_result(Some(JoinStatus::Rejected), None),
        Ok(JoinPollResult::Rejected)
    ));
    assert!(matches!(
        join_poll_result(Some(JoinStatus::Expired), None),
        Ok(JoinPollResult::Expired)
    ));
    assert!(matches!(
        join_poll_result(Some(JoinStatus::Approved), Some(tokens())),
        Ok(JoinPollResult::Approved(t)) if t.access_token == "a"
    ));
    assert!(matches!(
        join_poll_result(Some(JoinStatus::Approved), None),
        Err(e) if e == "APPROVED status but no tokens in response"
    ));
}

#[test]
fn requests_carry_the_public_keys() {
    let join = join_request("d", &keys(), "pi", "linux");
    assert_eq!(join.pending_device_id, "d");
    assert_eq!(join.identity_public_b64, "i");
    assert_eq!(join.verifying_key_b64, "v");
    assert_eq!(join.signed_prekey_public_b64, "p");
    assert_eq!(join.signed_prekey_signature_b64, "s");
    assert_eq!((join.device_name.as_str(), join.platform.as_str()), ("pi", "linux"));
    let link = link_request("t", "d", keys());
    assert_eq!((link.link_token.as_str(), link.device_id.as_str()), ("t", "d"));
    assert_eq!(link.public_keys.identity_public, "i");
    let reg = register_request(Some("neo"), "d", keys(), "ch".to_string(), 5, "h".to_string());
    assert_eq!(reg.username.as_deref(), Some("neo"));
    assert_eq!(reg.device_id, "d");
    assert_eq!(reg.pow_solution.challenge, "ch");
    assert_eq!(reg.pow_solution.nonce, 5);
    assert_eq!(reg.pow_solution.hash, "h");
    assert!(register_request(None, "d", keys(), String::new(), 0, String::new())
        .username
        .is_none());
}

#[test]
fn requests_carry_the_token() {
    assert_eq!(
        bearer("tok", "user"),
        vec![
            ("authorization", "Bearer tok".to_string()),
            ("x-user-id", "user".to_string()),
        ]
    );
}

#[test]
fn user_is_found_or_not() {
    assert_eq!(find_user(FindUserReply::Found("u".to_string())), Ok(Some("u".to_string())));
    assert_eq!(find_user(FindUserReply::NotFound), Ok(None));
    assert_eq!(
        find_user(FindUserReply::Failed {
            message: "down".to_string(),
            code: "Unavailable".to_string(),
        }),
        Err("FindUser RPC failed: down (Unavailable)".to_string())
    );
    let found = search_results("neo", Some("u".to_string()));
    assert_eq!(found.len(), 1);
    assert_eq!(found[0].user_id, "u");
    assert_eq!(found[0].username, "neo");
    assert_eq!(found[0].display_name, "neo");
    assert!(search_results("neo", None).is_empty());
}

#[test]
fn bundle_is_written_as_json() {
    let json = get_pre_key_bundle_json(Some(PreKeyBundle {
        identity_key: vec![1, 2],
        signed_pre_key: vec![3],
        signed_pre_key_signature: vec![255],
        verifying_key: vec![],
        one_time_pre_key: None,
        one_time_pre_key_id: Some(7),
        spk_uploaded_at: 9,
        spk_rotation_epoch: 2,
    }))
    .unwrap();
    let value: serde_json::Value = serde_json::from_str(&json).unwrap();
    let object = value.as_object().unwrap();
    assert_eq!(object.len(), 9);
    assert_eq!(object["identity_public"].to_string(), "[1,2]");
    assert_eq!(object["signed_prekey_public"].to_string(), "[3]");
    assert_eq!(object["signature"].to_string(), "[255]");
    assert_eq!(object["verifying_key"].to_string(), "[]");
    assert_eq!(object["suite_id"].as_u64(), Some(1));
    assert!(object["one_time_prekey_public"].is_null());
    assert_eq!(object["one_time_prekey_id"].as_u64(), Some(7));
    assert_eq!(object["spk_uploaded_at"].as_u64(), Some(9));
    assert_eq!(object["spk_rotation_epoch"].as_u64(), Some(2));
    assert_eq!(
        get_pre_key_bundle_json(None),
        Err("no bundle in response".to_string())
    );
}

#[test]
fn pre_keys_are_added_to_those_there() {
    let req = upload_pre_keys("d", vec![(1, vec![10]), (2, vec![20])]);
    assert_eq!(req.device_id, "d");
    assert_eq!(req.pre_keys.len(), 2);
    assert_eq!(req.pre_keys[1].key_id, 2);
    assert_eq!(req.pre_keys[1].public_key, vec![20]);
    assert!(!req.replace_existing);
}
