use launcher_core::auth::{
    complete_login, find_account, login_step, pending_device_code, poll_device_token,
    poll_device_token_request, poll_interval, refresh_account, request_device_code, save_account,
    user_hash, DeviceCodeResponse, LoginFlow, LoginReply, LoginStage, LoginStep,
    MinecraftAccount, MinecraftAuthResponse, MinecraftProfile, MinecraftSkin, TokenErrorResponse,
    TokenResponse, XblAuthResponse, CLIENT_ID, SCOPE,
};
use launcher_core::error::LauncherError;
use launcher_core::http::{HttpBody, HttpMethod, HttpRequest};

fn form_of(r: &HttpRequest) -> Vec<(String, String)> {
    match &r.body {
        HttpBody::Form(f) => f.clone(),
        other => panic!("expected a form, got {:?}", other),
    }
}

fn json_of(r: &HttpRequest) -> String {
    match &r.body {
        HttpBody::Json(t) => t.clone(),
        other => panic!("expected JSON, got {:?}", other),
    }
}

fn pair(a: &str, b: &str) -> (String, String) {
    (a.to_string(), b.to_string())
}

fn device(interval: u64) -> DeviceCodeResponse {
    DeviceCodeResponse {
        device_code: "dev".into(),
        user_code: "ABCD".into(),
        verification_uri: "https://microsoft.com/link".into(),
        expires_in: 900,
        interval,
    }
}

fn account(uuid: &str, name: &str) -> MinecraftAccount {
    MinecraftAccount {
        mc_uuid: uuid.into(),
        mc_username: name.into(),
        mc_access_token: "tok".into(),
        ms_refresh_token: "ref".into(),
        skin_url: None,
    }
}

fn xbl(token: &str, claims: Vec<Vec<(String, String)>>) -> XblAuthResponse {
    XblAuthResponse { token: token.into(), xui: claims }
}

#[test]
fn poll_interval_is_at_least_two_seconds() {
    assert_eq!(poll_interval(&device(0)), 2);
    assert_eq!(poll_interval(&device(1)), 2);
    assert_eq!(poll_interval(&device(2)), 2);
    assert_eq!(poll_interval(&device(5)), 5);
}

#[test]
fn device_code_request_asks_for_xbox_scope() {
    let r = request_device_code();
    assert_eq!(r.method, HttpMethod::Post);
    assert_eq!(r.url, "https://login.microsoftonline.com/consumers/oauth2/v2.0/devicecode");
    assert_eq!(form_of(&r), vec![pair("client_id", CLIENT_ID), pair("scope", SCOPE)]);
    assert_eq!(SCOPE, "XboxLive.signin offline_access");
}

#[test]
fn poll_request_carries_device_code() {
    let r = poll_device_token_request("DC");
    assert_eq!(r.url, "https://login.microsoftonline.com/consumers/oauth2/v2.0/token");
    assert_eq!(
        form_of(&r),
        vec![
            pair("grant_type", "urn:ietf:params:oauth:grant-type:device_code"),
            pair("client_id", CLIENT_ID),
            pair("device_code", "DC"),
        ]
    );
}

#[test]
fn poll_reads_tokens_pending_and_refusals() {
    let tok = TokenResponse { access_token: "A".into(), refresh_token: "R".into(), expires_in: 3600 };
    assert_eq!(poll_device_token(200, Some(tok), None), Ok(Some(("A".to_string(), "R".to_string()))));
    let pending = TokenErrorResponse { error: "authorization_pending".into() };
    assert_eq!(poll_device_token(400, None, Some(pending)), Ok(None));
    let slow = TokenErrorResponse { error: "slow_down".into() };
    assert_eq!(poll_device_token(400, None, Some(slow)), Ok(None));
    let expired = TokenErrorResponse { error: "expired_token".into() };
    let err = poll_device_token(400, None, Some(expired)).unwrap_err();
    assert_eq!(err, LauncherError::MicrosoftAuth("expired_token".into()));
    assert_eq!(err.message(), "échec auth Microsoft: expired_token");
    assert_eq!(poll_device_token(200, None, None), Err(LauncherError::MalformedReply));
    assert_eq!(poll_device_token(400, None, None), Err(LauncherError::MalformedReply));
}

#[test]
fn refresh_request_sends_saved_refresh_token() {
    let r = refresh_account(&account("u", "n"));
    assert_eq!(
        form_of(&r),
        vec![
            pair("grant_type", "refresh_token"),
            pair("client_id", CLIENT_ID),
            pair("refresh_token", "ref"),
            pair("scope", SCOPE),
        ]
    );
}

#[test]
fn user_hash_is_first_claim_set_uhs() {
    let r = xbl("T", vec![vec![pair("x", "1"), pair("uhs", "H1")], vec![pair("uhs", "H2")]]);
    assert_eq!(user_hash(&r), Some("H1".to_string()));
    assert_eq!(user_hash(&xbl("T", vec![])), None);
    assert_eq!(user_hash(&xbl("T", vec![vec![], vec![pair("uhs", "H2")]])), None);
}

fn expect_send(step: LoginStep) -> (LoginFlow, HttpRequest) {
    match step {
        LoginStep::Send(f, r) => (f, r),
        LoginStep::Done(r) => panic!("sign-in ended early: {:?}", r),
    }
}

#[test]
fn full_sign_in_builds_account() {
    let (flow, req) = complete_login("ACCESS", "REFRESH");
    assert_eq!(flow.stage, LoginStage::XboxLive);
    assert_eq!(req.url, "https://user.auth.xboxlive.com/user/authenticate");
    assert_eq!(
        json_of(&req),
        "{\"Properties\":{\"AuthMethod\":\"RPS\",\"RpsTicket\":\"d=ACCESS\",\"SiteName\":\"user.auth.xboxlive.com\"},\"RelyingParty\":\"http://auth.xboxlive.com\",\"TokenType\":\"JWT\"}"
    );

    let (flow, req) = expect_send(login_step(
        flow,
        LoginReply::XboxLive(200, String::new(), Some(xbl("XBL", vec![vec![pair("uhs", "UHS")]]))),
    ));
    assert_eq!(flow.stage, LoginStage::Xsts { user_hash: "UHS".into() });
    assert_eq!(req.url, "https://xsts.auth.xboxlive.com/xsts/authorize");
    assert_eq!(
        json_of(&req),
        "{\"Properties\":{\"SandboxId\":\"RETAIL\",\"UserTokens\":[\"XBL\"]},\"RelyingParty\":\"rp://api.minecraftservices.com/\",\"TokenType\":\"JWT\"}"
    );

    let (flow, req) = expect_send(login_step(flow, LoginReply::Xsts(200, String::new(), Some(xbl("XSTS", vec![])))));
    assert_eq!(flow.stage, LoginStage::MinecraftToken);
    assert_eq!(req.url, "https://api.minecraftservices.com/authentication/login_with_xbox");
    assert_eq!(json_of(&req), "{\"identityToken\":\"XBL3.0 x=UHS;XSTS\"}");

    let (flow, req) = expect_send(login_step(
        flow,
        LoginReply::MinecraftToken(200, String::new(), Some(MinecraftAuthResponse { access_token: "MC".into() })),
    ));
    assert_eq!(req.method, HttpMethod::Get);
    assert_eq!(req.url, "https://api.minecraftservices.com/minecraft/profile");
    assert_eq!(req.bearer_token, Some("MC".to_string()));
    assert_eq!(req.body, HttpBody::Empty);

    let profile = MinecraftProfile {
        id: "uuid-1".into(),
        name: "Steve".into(),
        skins: vec![
            MinecraftSkin { url: "old".into(), state: "INACTIVE".into() },
            MinecraftSkin { url: "current".into(), state: "ACTIVE".into() },
            MinecraftSkin { url: "other".into(), state: "ACTIVE".into() },
        ],
    };
    match login_step(flow, LoginReply::Profile(200, String::new(), Some(profile))) {
        LoginStep::Done(Ok(acc)) => {
            assert_eq!(acc.mc_uuid, "uuid-1");
            assert_eq!(acc.mc_username, "Steve");
            assert_eq!(acc.mc_access_token, "MC");
            assert_eq!(acc.ms_refresh_token, "REFRESH");
            assert_eq!(acc.skin_url, Some("current".to_string()));
        },
        other => panic!("unexpected step {:?}", matches!(other, LoginStep::Send(..))),
    }
}

#[test]
fn token_text_is_escaped_in_json_bodies() {
    let (_, req) = complete_login("a\"b\\c", "R");
    let body = json_of(&req);
    assert!(body.contains("\"RpsTicket\":\"d=a\\\"b\\\\c\""), "{}", body);
}

#[test]
fn control_characters_are_escaped_in_json_bodies() {
    let (_, req) = complete_login("a\nb\u{1}\u{1f}\té", "R");
    let body = json_of(&req);
    assert!(body.contains("\"RpsTicket\":\"d=a\\nb\\u0001\\u001f\\té\""), "{}", body);
}

fn done_err(step: LoginStep) -> LauncherError {
    match step {
        LoginStep::Done(Err(e)) => e,
        LoginStep::Done(Ok(_)) => panic!("unexpected success"),
        LoginStep::Send(..) => panic!("unexpected request"),
    }
}

fn flow_at(stage: LoginStage) -> LoginFlow {
    LoginFlow { stage, ms_refresh_token: "R".into() }
}

#[test]
fn sign_in_errors() {
    let e = done_err(login_step(flow_at(LoginStage::XboxLive), LoginReply::XboxLive(200, String::new(), Some(xbl("X", vec![])))));
    assert_eq!(e, LauncherError::MissingUserHash);
    assert_eq!(e.message(), "uhs manquant dans la réponse Xbox Live");

    let e = done_err(login_step(
        flow_at(LoginStage::Xsts { user_hash: "U".into() }),
        LoginReply::Xsts(401, String::new(), None),
    ));
    assert_eq!(e, LauncherError::XboxAccountRestricted);
    assert_eq!(
        e.message(),
        "compte Xbox invalide ou restreint (vérifie qu'un profil Xbox existe pour ce compte)"
    );

    let e = done_err(login_step(
        flow_at(LoginStage::Profile { mc_token: "M".into() }),
        LoginReply::Profile(404, String::new(), None),
    ));
    assert_eq!(e, LauncherError::NoMinecraftLicense);
    assert_eq!(e.message(), "ce compte Microsoft ne possède pas Minecraft");

    let report = "HTTP status server error (503 Service Unavailable) for url (https://api.minecraftservices.com/authentication/login_with_xbox)";
    let e = done_err(login_step(
        flow_at(LoginStage::MinecraftToken),
        LoginReply::MinecraftToken(503, report.to_string(), None),
    ));
    assert_eq!(e, LauncherError::HttpStatus(503, report.to_string()));
    assert_eq!(e.message(), report);

    let e = done_err(login_step(flow_at(LoginStage::MinecraftToken), LoginReply::MinecraftToken(200, String::new(), None)));
    assert_eq!(e, LauncherError::MalformedReply);
    assert_eq!(e.message(), "error decoding response body");

    let e = done_err(login_step(flow_at(LoginStage::XboxLive), LoginReply::Xsts(200, String::new(), Some(xbl("X", vec![])))));
    assert_eq!(e, LauncherError::UnexpectedReply);
    assert_eq!(e.message(), "réponse inattendue pour cette étape");
}

#[test]
fn refresh_token_is_kept_through_sign_in() {
    let (flow, _) = complete_login("A", "KEEP");
    let (flow, _) = expect_send(login_step(flow, LoginReply::XboxLive(200, String::new(), Some(xbl("X", vec![vec![pair("uhs", "U")]])))));
    assert_eq!(flow.ms_refresh_token, "KEEP");
    let (flow, _) = expect_send(login_step(flow, LoginReply::Xsts(200, String::new(), Some(xbl("S", vec![])))));
    assert_eq!(flow.ms_refresh_token, "KEEP");
}

#[test]
fn saving_replaces_same_uuid_and_appends() {
    let list = vec![account("u1", "old"), account("u2", "other"), account("u3", "third")];
    let saved = save_account(list, &account("u1", "new"));
    let names: Vec<&str> = saved.iter().map(|a| a.mc_username.as_str()).collect();
    assert_eq!(names, vec!["other", "third", "new"]);
    let again = save_account(saved.clone(), &account("u1", "new"));
    assert_eq!(again, saved);
    let fresh = save_account(Vec::new(), &account("u9", "n"));
    assert_eq!(fresh.len(), 1);
}

#[test]
fn find_account_by_uuid() {
    let list = vec![account("u1", "a"), account("u2", "b")];
    assert_eq!(find_account(&list, "u2").unwrap().mc_username, "b");
    let e = find_account(&list, "u3").unwrap_err();
    assert_eq!(e, LauncherError::AccountNotFound);
    assert_eq!(e.message(), "compte introuvable");
}

#[test]
fn pending_login_required() {
    assert_eq!(pending_device_code(&Some("dc".into())), Ok("dc".to_string()));
    let e = pending_device_code(&None).unwrap_err();
    assert_eq!(e.message(), "aucune connexion en cours");
}
