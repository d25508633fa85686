use nadeo_api::presets::{
    as_comma_list, provider_from_str, to_list, AccountRequest, Provider, ToRequest,
};
use nadeo_api::request::{Method, NadeoRequest, NadeoRequestBuilderError};
use nadeo_api::session::AuthType;

#[test]
fn lists_join_with_single_commas() {
    assert_eq!(to_list(&[]), "");
    assert_eq!(to_list(&["a".to_string()]), "a");
    assert_eq!(
        to_list(&["a".to_string(), "b".to_string(), "c".to_string()]),
        "a,b,c"
    );
    assert_eq!(
        as_comma_list(&vec!["x".to_string(), "y".to_string()]),
        "x,y"
    );
}

#[test]
fn club_tag_preset_builds_its_url() {
    let ids = vec![
        "29e75531-1a9d-4880-98da-e2acfe17c578".to_string(),
        "0e857451-2718-4141-b8bb-30c9d5e4ceb5".to_string(),
    ];
    let req = AccountRequest::GetClubTags { account_ids: ids.clone() }.to_request();
    assert_eq!(
        req.url,
        "https://prod.trackmania.core.nadeo.online/accounts/clubTags/?accountIdList=29e75531-1a9d-4880-98da-e2acfe17c578,0e857451-2718-4141-b8bb-30c9d5e4ceb5"
    );
    assert_eq!(req.method, Method::Get);
    assert_eq!(req.auth_type, AuthType::NadeoServices);
    assert!(req.headers.is_empty());
    assert!(req.body.is_none());

    let direct = NadeoRequest::get_club_tags(&ids);
    assert_eq!(direct.url, req.url);
}

#[test]
fn other_account_presets_build_their_urls() {
    let ids = vec!["one".to_string()];
    let req = AccountRequest::GetWebIdentities { account_ids: ids.clone() }.to_request();
    assert_eq!(
        req.url,
        "https://prod.trackmania.core.nadeo.online/webidentities/?accountIdList=one"
    );
    let req = AccountRequest::GetPlayerZones { account_ids: ids.clone() }.to_request();
    assert_eq!(
        req.url,
        "https://prod.trackmania.core.nadeo.online/accounts/zones/?accountIdList=one"
    );
    let req = NadeoRequest::get_map_infos(&["uid1".to_string(), "uid2".to_string()]);
    assert_eq!(
        req.url,
        "https://prod.trackmania.core.nadeo.online/maps/?mapUidList=uid1,uid2"
    );
}

#[test]
fn builder_reports_the_first_missing_part() {
    let r = NadeoRequest::builder().build();
    assert!(matches!(r, Err(NadeoRequestBuilderError::MissingUrl)));
    let r = NadeoRequest::builder().url("https://example.invalid/").build();
    assert!(matches!(r, Err(NadeoRequestBuilderError::MissingHttpMethod)));
    let r = NadeoRequest::builder()
        .url("https://example.invalid/")
        .method(Method::Post)
        .build();
    assert!(matches!(r, Err(NadeoRequestBuilderError::MissingAuthType)));
}

#[test]
fn builder_carries_every_part_into_the_request() {
    let req = NadeoRequest::builder()
        .url("https://example.invalid/x")
        .method(Method::Post)
        .auth_type(AuthType::NadeoLiveServices)
        .header("Accept", "application/json")
        .body("{}")
        .build()
        .unwrap();
    assert_eq!(req.url, "https://example.invalid/x");
    assert_eq!(req.method, Method::Post);
    assert_eq!(req.auth_type, AuthType::NadeoLiveServices);
    assert_eq!(
        req.headers,
        vec![("Accept".to_string(), "application/json".to_string())]
    );
    assert_eq!(req.body.as_deref(), Some("{}"));
}

#[test]
fn insert_header_replaces_only_the_first_match() {
    let mut req = NadeoRequest::new(
        Method::Get,
        "https://example.invalid/".to_string(),
        AuthType::NadeoServices,
    );
    req.insert_header("A", "1".to_string());
    req.insert_header("B", "2".to_string());
    req.insert_header("A", "3".to_string());
    assert_eq!(
        req.headers,
        vec![
            ("A".to_string(), "3".to_string()),
            ("B".to_string(), "2".to_string()),
        ]
    );
}

#[test]
fn method_names_match_the_wire() {
    assert_eq!(Method::Get.name(), "GET");
    assert_eq!(Method::Post.name(), "POST");
    assert_eq!(Method::Put.name(), "PUT");
    assert_eq!(Method::Patch.name(), "PATCH");
    assert_eq!(Method::Delete.name(), "DELETE");
    assert_eq!(Method::Head.name(), "HEAD");
}

#[test]
fn providers_parse_and_print() {
    assert_eq!(provider_from_str("ubiServices"), Some(Provider::UbiServices));
    assert_eq!(provider_from_str("uplay"), Some(Provider::UPlay));
    assert_eq!(provider_from_str("steam"), None);
    assert_eq!(Provider::UbiServices.name(), "ubiServices");
    assert_eq!(Provider::UPlay.name(), "uplay");
}
