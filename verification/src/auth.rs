//! Microsoft sign-in for Minecraft: the OAuth 2.0 device authorization grant,
//! then Xbox Live, XSTS and Minecraft Services, and the saved accounts.
//!
//! 1. ask for a device code (the user enters it at microsoft.com/link);
//! 2. poll the token endpoint until the user has approved;
//! 3. exchange the Microsoft token for an Xbox Live token;
//! 4. exchange the Xbox Live token for an XSTS token;
//! 5. exchange the XSTS token for a Minecraft (Bearer) token;
//! 6. read the Minecraft profile (uuid, name, skin).

use vstd::prelude::*;
use crate::error::LauncherError;
use crate::http::{
    error_status, field, get_request, is_error_status, is_success_status, post_request,
    spec_get, spec_post, success_status, HttpBody, HttpBodyView, HttpRequest, HttpRequestView,
};
use crate::json::{json_str, json_text_of_str};
use crate::text::{cat, str_eq};

verus! {

#[derive(Debug, Clone, PartialEq, Eq)]
pub struct MinecraftAccount {
    pub mc_uuid: String,
    pub mc_username: String,
    pub mc_access_token: String,
    pub ms_refresh_token: String,
    pub skin_url: Option<String>,
}

pub struct MinecraftAccountView {
    pub mc_uuid: Seq<char>,
    pub mc_username: Seq<char>,
    pub mc_access_token: Seq<char>,
    pub ms_refresh_token: Seq<char>,
    pub skin_url: Option<Seq<char>>,
}

impl View for MinecraftAccount {
    type V = MinecraftAccountView;

    open spec fn view(&self) -> MinecraftAccountView {
        MinecraftAccountView {
            mc_uuid: self.mc_uuid@,
            mc_username: self.mc_username@,
            mc_access_token: self.mc_access_token@,
            ms_refresh_token: self.ms_refresh_token@,
            skin_url: self.skin_url.deep_view(),
        }
    }
}

#[derive(Debug, Clone, PartialEq, Eq)]
pub struct DeviceCodeResponse {
    pub device_code: String,
    pub user_code: String,
    pub verification_uri: String,
    pub expires_in: u64,
    pub interval: u64,
}

/// The Azure AD application (public client) the launcher signs in as.
pub const CLIENT_ID: &'static str = "REMPLACE_MOI_PAR_TON_CLIENT_ID_AZURE";
pub const SCOPE: &'static str = "XboxLive.signin offline_access";
pub const DEVICE_CODE_URL: &'static str = "https://login.microsoftonline.com/consumers/oauth2/v2.0/devicecode";
pub const TOKEN_URL: &'static str = "https://login.microsoftonline.com/consumers/oauth2/v2.0/token";
pub const XBOX_LIVE_URL: &'static str = "https://user.auth.xboxlive.com/user/authenticate";
pub const XSTS_URL: &'static str = "https://xsts.auth.xboxlive.com/xsts/authorize";
pub const MINECRAFT_LOGIN_URL: &'static str = "https://api.minecraftservices.com/authentication/login_with_xbox";
pub const MINECRAFT_PROFILE_URL: &'static str = "https://api.minecraftservices.com/minecraft/profile";

/// Seconds to wait between two polls of the token endpoint: the interval the
/// service asked for, but at least 2.
pub fn poll_interval(resp: &DeviceCodeResponse) -> (r: u64)
    ensures
        r == if resp.interval >= 2 { resp.interval } else { 2 },
{
    if resp.interval >= 2 {
        resp.interval
    } else {
        2
    }
}

pub open spec fn form(fields: Seq<(Seq<char>, Seq<char>)>) -> HttpBodyView {
    HttpBodyView::Form(fields)
}

/// Step 1: ask for a code to show to the user.
pub fn request_device_code() -> (r: HttpRequest)
    ensures
        r@ == spec_post(DEVICE_CODE_URL@, form(seq![("client_id"@, CLIENT_ID@), ("scope"@, SCOPE@)])),
{
    let mut fields: Vec<(String, String)> = Vec::new();
    fields.push(field("client_id", CLIENT_ID));
    fields.push(field("scope", SCOPE));
    assert(fields.deep_view() =~= seq![("client_id"@, CLIENT_ID@), ("scope"@, SCOPE@)]);
    let r = post_request(DEVICE_CODE_URL.to_owned(), HttpBody::Form(fields));
    assert(r@.body == form(seq![("client_id"@, CLIENT_ID@), ("scope"@, SCOPE@)]));
    r
}

/// A token issued by the Microsoft token endpoint.
#[derive(Debug, Clone, PartialEq, Eq)]
pub struct TokenResponse {
    pub access_token: String,
    pub refresh_token: String,
    pub expires_in: u64,
}

/// The error the Microsoft token endpoint answers with.
#[derive(Debug, Clone, PartialEq, Eq)]
pub struct TokenErrorResponse {
    pub error: String,
}

pub open spec fn spec_poll_request(device_code: Seq<char>) -> HttpRequestView {
    spec_post(TOKEN_URL@, form(seq![
        ("grant_type"@, "urn:ietf:params:oauth:grant-type:device_code"@),
        ("client_id"@, CLIENT_ID@),
        ("device_code"@, device_code),
    ]))
}

/// Step 2, the request: one poll of the token endpoint for `device_code`.
pub fn poll_device_token_request(device_code: &str) -> (r: HttpRequest)
    ensures
        r@ == spec_poll_request(device_code@),
{
    let mut fields: Vec<(String, String)> = Vec::new();
    fields.push(field("grant_type", "urn:ietf:params:oauth:grant-type:device_code"));
    fields.push(field("client_id", CLIENT_ID));
    fields.push(field("device_code", device_code));
    assert(fields.deep_view() =~= seq![
        ("grant_type"@, "urn:ietf:params:oauth:grant-type:device_code"@),
        ("client_id"@, CLIENT_ID@),
        ("device_code"@, device_code@),
    ]);
    let r = post_request(TOKEN_URL.to_owned(), HttpBody::Form(fields));
    assert(r@ == spec_poll_request(device_code@));
    r
}

/// Step 2, the answer: the (access, refresh) tokens once the user has approved,
/// `None` while the approval is pending (or the service asks to slow down),
/// and an error when the service refuses for good.
pub open spec fn spec_poll_device_token(
    status: u16,
    token: Option<TokenResponse>,
    error: Option<TokenErrorResponse>,
) -> Result<Option<(Seq<char>, Seq<char>)>, LauncherError> {
    if is_success_status(status) {
        match token {
            Some(t) => Ok(Some((t.access_token@, t.refresh_token@))),
            None => Err(LauncherError::MalformedReply),
        }
    } else {
        match error {
            Some(e) => if e.error@ == "authorization_pending"@ || e.error@ == "slow_down"@ {
                Ok(None)
            } else {
                Err(LauncherError::MicrosoftAuth(e.error))
            },
            None => Err(LauncherError::MalformedReply),
        }
    }
}

/// Reads one answer of the token endpoint: `token` is the body parsed as a
/// token, `error` the body parsed as an error (each `None` when it does not parse).
pub fn poll_device_token(
    status: u16,
    token: Option<TokenResponse>,
    error: Option<TokenErrorResponse>,
) -> (r: Result<Option<(String, String)>, LauncherError>)
    ensures
        ({
            let expected = spec_poll_device_token(status, token, error);
            match r {
                Ok(Some(pair)) => expected == Ok::<Option<(Seq<char>, Seq<char>)>, LauncherError>(
                    Some((pair.0@, pair.1@)),
                ),
                Ok(None) => expected == Ok::<Option<(Seq<char>, Seq<char>)>, LauncherError>(None),
                Err(e) => expected == Err::<Option<(Seq<char>, Seq<char>)>, LauncherError>(e),
            }
        }),
{
    if success_status(status) {
        match token {
            Some(t) => Ok(Some((t.access_token, t.refresh_token))),
            None => Err(LauncherError::MalformedReply),
        }
    } else {
        match error {
            Some(e) => {
                if str_eq(e.error.as_str(), "authorization_pending") || str_eq(e.error.as_str(), "slow_down") {
                    Ok(None)
                } else {
                    Err(LauncherError::MicrosoftAuth(e.error))
                }
            },
            None => Err(LauncherError::MalformedReply),
        }
    }
}

/// The exchange of a saved refresh token for a new Microsoft token.
pub open spec fn spec_refresh_request(refresh_token: Seq<char>) -> HttpRequestView {
    spec_post(TOKEN_URL@, form(seq![
        ("grant_type"@, "refresh_token"@),
        ("client_id"@, CLIENT_ID@),
        ("refresh_token"@, refresh_token),
        ("scope"@, SCOPE@),
    ]))
}

/// The request that refreshes an expired Microsoft token of `account`; the
/// answer's tokens then start a new [`complete_login`].
pub fn refresh_account(account: &MinecraftAccount) -> (r: HttpRequest)
    ensures
        r@ == spec_refresh_request(account.ms_refresh_token@),
{
    let mut fields: Vec<(String, String)> = Vec::new();
    fields.push(field("grant_type", "refresh_token"));
    fields.push(field("client_id", CLIENT_ID));
    fields.push(field("refresh_token", account.ms_refresh_token.as_str()));
    fields.push(field("scope", SCOPE));
    assert(fields.deep_view() =~= seq![
        ("grant_type"@, "refresh_token"@),
        ("client_id"@, CLIENT_ID@),
        ("refresh_token"@, account.ms_refresh_token@),
        ("scope"@, SCOPE@),
    ]);
    let r = post_request(TOKEN_URL.to_owned(), HttpBody::Form(fields));
    assert(r@ == spec_refresh_request(account.ms_refresh_token@));
    r
}

/// The Xbox Live (and XSTS) token answer; `xui` holds the display claims, each
/// claim set as its (name, value) pairs.
#[derive(Debug, Clone, PartialEq, Eq)]
pub struct XblAuthResponse {
    pub token: String,
    pub xui: Vec<Vec<(String, String)>>,
}

#[derive(Debug, Clone, PartialEq, Eq)]
pub struct MinecraftAuthResponse {
    pub access_token: String,
}

#[derive(Debug, Clone, PartialEq, Eq)]
pub struct MinecraftSkin {
    pub url: String,
    pub state: String,
}

#[derive(Debug, Clone, PartialEq, Eq)]
pub struct MinecraftProfile {
    pub id: String,
    pub name: String,
    pub skins: Vec<MinecraftSkin>,
}

/// The value of the first claim named `key`.
pub open spec fn claim_value(claims: Seq<(String, String)>, key: Seq<char>) -> Option<Seq<char>>
    decreases claims.len(),
{
    if claims.len() == 0 {
        None
    } else if claims[0].0@ == key {
        Some(claims[0].1@)
    } else {
        claim_value(claims.drop_first(), key)
    }
}

/// The value of a claim is that of the first claim with its name: there is one
/// exactly when some claim has the name, and no claim before it has.
pub proof fn lemma_claim_value(claims: Seq<(String, String)>, key: Seq<char>)
    ensures
        claim_value(claims, key) is None <==> forall|i: int| 0 <= i < claims.len() ==> #[trigger] claims[i].0@ != key,
        claim_value(claims, key) matches Some(v) ==> exists|i: int|
            0 <= i < claims.len() && #[trigger] claims[i].1@ == v && claims[i].0@ == key
                && forall|j: int| 0 <= j < i ==> claims[j].0@ != key,
    decreases claims.len(),
{
    if claims.len() > 0 {
        let t = claims.drop_first();
        lemma_claim_value(t, key);
        if claims[0].0@ == key {
            assert(claims[0].1@ == claims[0].1@);
        } else {
            match claim_value(t, key) {
                Some(v) => {
                    let k = choose|i: int|
                        0 <= i < t.len() && #[trigger] t[i].1@ == v && t[i].0@ == key
                            && forall|j: int| 0 <= j < i ==> t[j].0@ != key;
                    assert(claims[k + 1] == t[k]);
                    assert forall|j: int| 0 <= j < k + 1 implies claims[j].0@ != key by {
                        if j > 0 {
                            assert(claims[j] == t[j - 1]);
                        }
                    }
                    assert(claims[k + 1].1@ == v);
                },
                None => {
                    assert forall|i: int| 0 <= i < claims.len() implies #[trigger] claims[i].0@ != key by {
                        if i > 0 {
                            assert(claims[i] == t[i - 1]);
                        }
                    }
                },
            }
        }
    }
}

/// The user hash (`uhs`) of the first claim set.
pub open spec fn spec_user_hash(resp: XblAuthResponse) -> Option<Seq<char>> {
    if resp.xui@.len() == 0 {
        None
    } else {
        claim_value(resp.xui@[0]@, "uhs"@)
    }
}

/// The user hash (`uhs`) of the first claim set of an Xbox Live answer.
pub fn user_hash(resp: &XblAuthResponse) -> (r: Option<String>)
    ensures
        r.deep_view() == spec_user_hash(*resp),
{
    if resp.xui.len() == 0 {
        return None;
    }
    let claims = &resp.xui[0];
    let mut i: usize = 0;
    assert(claims@.skip(0) == claims@);
    while i < claims.len()
        invariant
            i <= claims@.len(),
            *claims == resp.xui@[0],
            resp.xui@.len() > 0,
            claim_value(claims@.skip(i as int), "uhs"@) == spec_user_hash(*resp),
        decreases claims@.len() - i,
    {
        assert(claims@.skip(i as int)[0] == claims@[i as int]);
        assert(claims@.skip(i as int).drop_first() == claims@.skip(i + 1));
        if str_eq(claims[i].0.as_str(), "uhs") {
            return Some(claims[i].1.clone());
        }
        i = i + 1;
    }
    None
}

/// The url of the first skin whose state is `ACTIVE`.
pub open spec fn active_skin(skins: Seq<MinecraftSkin>) -> Option<Seq<char>>
    decreases skins.len(),
{
    if skins.len() == 0 {
        None
    } else if skins[0].state@ == "ACTIVE"@ {
        Some(skins[0].url@)
    } else {
        active_skin(skins.drop_first())
    }
}

/// The active skin is the first skin whose state is `ACTIVE`: there is one
/// exactly when some skin is active, and no skin before it is.
pub proof fn lemma_active_skin(skins: Seq<MinecraftSkin>)
    ensures
        active_skin(skins) is None <==> forall|i: int| 0 <= i < skins.len() ==> #[trigger] skins[i].state@ != "ACTIVE"@,
        active_skin(skins) matches Some(u) ==> exists|i: int|
            0 <= i < skins.len() && #[trigger] skins[i].url@ == u && skins[i].state@ == "ACTIVE"@
                && forall|j: int| 0 <= j < i ==> skins[j].state@ != "ACTIVE"@,
    decreases skins.len(),
{
    if skins.len() > 0 {
        let t = skins.drop_first();
        lemma_active_skin(t);
        if skins[0].state@ == "ACTIVE"@ {
            assert(skins[0].url@ == skins[0].url@);
        } else {
            match active_skin(t) {
                Some(u) => {
                    let k = choose|i: int|
                        0 <= i < t.len() && #[trigger] t[i].url@ == u && t[i].state@ == "ACTIVE"@
                            && forall|j: int| 0 <= j < i ==> t[j].state@ != "ACTIVE"@;
                    assert(skins[k + 1] == t[k]);
                    assert forall|j: int| 0 <= j < k + 1 implies skins[j].state@ != "ACTIVE"@ by {
                        if j > 0 {
                            assert(skins[j] == t[j - 1]);
                        }
                    }
                    assert(skins[k + 1].url@ == u);
                },
                None => {
                    assert forall|i: int| 0 <= i < skins.len() implies #[trigger] skins[i].state@ != "ACTIVE"@ by {
                        if i > 0 {
                            assert(skins[i] == t[i - 1]);
                        }
                    }
                },
            }
        }
    }
}

/// The url of the profile's active skin.
pub fn active_skin_url(profile: &MinecraftProfile) -> (r: Option<String>)
    ensures
        r.deep_view() == active_skin(profile.skins@),
{
    let mut i: usize = 0;
    assert(profile.skins@.skip(0) == profile.skins@);
    while i < profile.skins.len()
        invariant
            i <= profile.skins@.len(),
            active_skin(profile.skins@.skip(i as int)) == active_skin(profile.skins@),
        decreases profile.skins@.len() - i,
    {
        assert(profile.skins@.skip(i as int)[0] == profile.skins@[i as int]);
        assert(profile.skins@.skip(i as int).drop_first() == profile.skins@.skip(i + 1));
        if str_eq(profile.skins[i].state.as_str(), "ACTIVE") {
            return Some(profile.skins[i].url.clone());
        }
        i = i + 1;
    }
    None
}

pub open spec fn json_body(text: Seq<char>) -> HttpBodyView {
    HttpBodyView::Json(text)
}

/// Step 3: the Xbox Live authentication of a Microsoft access token.
pub open spec fn spec_xbox_live_request(ms_access_token: Seq<char>) -> HttpRequestView {
    spec_post(XBOX_LIVE_URL@, json_body(
        "{\"Properties\":{\"AuthMethod\":\"RPS\",\"RpsTicket\":"@
            + json_text_of_str("d="@ + ms_access_token)
            + ",\"SiteName\":\"user.auth.xboxlive.com\"},\"RelyingParty\":\"http://auth.xboxlive.com\",\"TokenType\":\"JWT\"}"@,
    ))
}

/// Step 4: the XSTS authorization of an Xbox Live token for Minecraft services.
pub open spec fn spec_xsts_request(xbl_token: Seq<char>) -> HttpRequestView {
    spec_post(XSTS_URL@, json_body(
        "{\"Properties\":{\"SandboxId\":\"RETAIL\",\"UserTokens\":["@ + json_text_of_str(xbl_token)
            + "]},\"RelyingParty\":\"rp://api.minecraftservices.com/\",\"TokenType\":\"JWT\"}"@,
    ))
}

/// Step 5: the exchange of the XSTS token for a Minecraft token.
pub open spec fn spec_minecraft_request(user_hash: Seq<char>, xsts_token: Seq<char>) -> HttpRequestView {
    spec_post(MINECRAFT_LOGIN_URL@, json_body(
        "{\"identityToken\":"@ + json_text_of_str("XBL3.0 x="@ + user_hash + ";"@ + xsts_token) + "}"@,
    ))
}

/// Step 6: the Minecraft profile of a Minecraft token.
pub open spec fn spec_profile_request(mc_token: Seq<char>) -> HttpRequestView {
    HttpRequestView { bearer_token: Some(mc_token), ..spec_get(MINECRAFT_PROFILE_URL@) }
}

fn xbox_live_request(ms_access_token: &str) -> (r: HttpRequest)
    ensures
        r@ == spec_xbox_live_request(ms_access_token@),
{
    let ticket = cat("d=", ms_access_token);
    let mut body = "{\"Properties\":{\"AuthMethod\":\"RPS\",\"RpsTicket\":".to_owned();
    body.append(json_str(ticket.as_str()).as_str());
    body.append(",\"SiteName\":\"user.auth.xboxlive.com\"},\"RelyingParty\":\"http://auth.xboxlive.com\",\"TokenType\":\"JWT\"}");
    post_request(XBOX_LIVE_URL.to_owned(), HttpBody::Json(body))
}

fn xsts_request(xbl_token: &str) -> (r: HttpRequest)
    ensures
        r@ == spec_xsts_request(xbl_token@),
{
    let mut body = "{\"Properties\":{\"SandboxId\":\"RETAIL\",\"UserTokens\":[".to_owned();
    body.append(json_str(xbl_token).as_str());
    body.append("]},\"RelyingParty\":\"rp://api.minecraftservices.com/\",\"TokenType\":\"JWT\"}");
    post_request(XSTS_URL.to_owned(), HttpBody::Json(body))
}

fn minecraft_request(user_hash: &str, xsts_token: &str) -> (r: HttpRequest)
    ensures
        r@ == spec_minecraft_request(user_hash@, xsts_token@),
{
    let mut identity = cat("XBL3.0 x=", user_hash);
    identity.append(";");
    identity.append(xsts_token);
    let mut body = "{\"identityToken\":".to_owned();
    body.append(json_str(identity.as_str()).as_str());
    body.append("}");
    post_request(MINECRAFT_LOGIN_URL.to_owned(), HttpBody::Json(body))
}

fn profile_request(mc_token: &str) -> (r: HttpRequest)
    ensures
        r@ == spec_profile_request(mc_token@),
{
    let mut r = get_request(MINECRAFT_PROFILE_URL.to_owned());
    r.bearer_token = Some(mc_token.to_owned());
    r
}

/// Where a sign-in stands: which answer it waits for.
#[derive(Debug, Clone, PartialEq, Eq)]
pub enum LoginStage {
    XboxLive,
    Xsts { user_hash: String },
    MinecraftToken,
    Profile { mc_token: String },
}

/// A sign-in in progress, carrying the Microsoft refresh token to save.
#[derive(Debug, Clone, PartialEq, Eq)]
pub struct LoginFlow {
    pub stage: LoginStage,
    pub ms_refresh_token: String,
}

/// An answer to the request a sign-in sent: its status, the HTTP client's
/// report of that status when it is an error, and its body parsed as the
/// expected document (`None` when it does not parse).
pub enum LoginReply {
    XboxLive(u16, String, Option<XblAuthResponse>),
    Xsts(u16, String, Option<XblAuthResponse>),
    MinecraftToken(u16, String, Option<MinecraftAuthResponse>),
    Profile(u16, String, Option<MinecraftProfile>),
}

/// What a sign-in does next: send a request and wait, or finish.
pub enum LoginStep {
    Send(LoginFlow, HttpRequest),
    Done(Result<MinecraftAccount, LauncherError>),
}

pub enum LoginStageView {
    XboxLive,
    Xsts { user_hash: Seq<char> },
    MinecraftToken,
    Profile { mc_token: Seq<char> },
}

pub struct LoginFlowView {
    pub stage: LoginStageView,
    pub ms_refresh_token: Seq<char>,
}

pub enum LoginStepView {
    Send(LoginFlowView, HttpRequestView),
    Done(Result<MinecraftAccountView, LauncherError>),
}

impl View for LoginFlow {
    type V = LoginFlowView;

    open spec fn view(&self) -> LoginFlowView {
        LoginFlowView {
            stage: match self.stage {
                LoginStage::XboxLive => LoginStageView::XboxLive,
                LoginStage::Xsts { user_hash } => LoginStageView::Xsts { user_hash: user_hash@ },
                LoginStage::MinecraftToken => LoginStageView::MinecraftToken,
                LoginStage::Profile { mc_token } => LoginStageView::Profile { mc_token: mc_token@ },
            },
            ms_refresh_token: self.ms_refresh_token@,
        }
    }
}

impl View for LoginStep {
    type V = LoginStepView;

    open spec fn view(&self) -> LoginStepView {
        match self {
            LoginStep::Send(flow, req) => LoginStepView::Send(flow@, req@),
            LoginStep::Done(Ok(account)) => LoginStepView::Done(Ok(account@)),
            LoginStep::Done(Err(e)) => LoginStepView::Done(Err(*e)),
        }
    }
}

/// Starts the sign-in once the Microsoft tokens are known: the flow waits for
/// Xbox Live, to which the access token is sent.
pub fn complete_login(ms_access_token: &str, ms_refresh_token: &str) -> (r: (LoginFlow, HttpRequest))
    ensures
        r.0@ == (LoginFlowView { stage: LoginStageView::XboxLive, ms_refresh_token: ms_refresh_token@ }),
        r.1@ == spec_xbox_live_request(ms_access_token@),
{
    (
        LoginFlow { stage: LoginStage::XboxLive, ms_refresh_token: ms_refresh_token.to_owned() },
        xbox_live_request(ms_access_token),
    )
}

pub open spec fn failed(e: LauncherError) -> LoginStepView {
    LoginStepView::Done(Err(e))
}

pub open spec fn send(stage: LoginStageView, refresh: Seq<char>, req: HttpRequestView) -> LoginStepView {
    LoginStepView::Send(LoginFlowView { stage, ms_refresh_token: refresh }, req)
}

/// One step of the sign-in: an error status ends it with that error (XSTS's
/// 401 meaning a missing or restricted Xbox account, the profile's 404 an
/// account without Minecraft), an unreadable body ends it too; otherwise the
/// next request is sent, and the profile finishes it with the account.
pub open spec fn spec_login_step(flow: LoginFlow, reply: LoginReply) -> LoginStepView {
    let refresh = flow.ms_refresh_token@;
    match (flow.stage, reply) {
        (LoginStage::XboxLive, LoginReply::XboxLive(status, report, body)) => {
            if is_error_status(status) {
                failed(LauncherError::HttpStatus(status, report))
            } else {
                match body {
                    None => failed(LauncherError::MalformedReply),
                    Some(resp) => match spec_user_hash(resp) {
                        None => failed(LauncherError::MissingUserHash),
                        Some(uhs) => send(
                            LoginStageView::Xsts { user_hash: uhs },
                            refresh,
                            spec_xsts_request(resp.token@),
                        ),
                    },
                }
            }
        },
        (LoginStage::Xsts { user_hash }, LoginReply::Xsts(status, report, body)) => {
            if status == 401 {
                failed(LauncherError::XboxAccountRestricted)
            } else if is_error_status(status) {
                failed(LauncherError::HttpStatus(status, report))
            } else {
                match body {
                    None => failed(LauncherError::MalformedReply),
                    Some(resp) => send(
                        LoginStageView::MinecraftToken,
                        refresh,
                        spec_minecraft_request(user_hash@, resp.token@),
                    ),
                }
            }
        },
        (LoginStage::MinecraftToken, LoginReply::MinecraftToken(status, report, body)) => {
            if is_error_status(status) {
                failed(LauncherError::HttpStatus(status, report))
            } else {
                match body {
                    None => failed(LauncherError::MalformedReply),
                    Some(resp) => send(
                        LoginStageView::Profile { mc_token: resp.access_token@ },
                        refresh,
                        spec_profile_request(resp.access_token@),
                    ),
                }
            }
        },
        (LoginStage::Profile { mc_token }, LoginReply::Profile(status, report, body)) => {
            if status == 404 {
                failed(LauncherError::NoMinecraftLicense)
            } else if is_error_status(status) {
                failed(LauncherError::HttpStatus(status, report))
            } else {
                match body {
                    None => failed(LauncherError::MalformedReply),
                    Some(profile) => LoginStepView::Done(Ok(MinecraftAccountView {
                        mc_uuid: profile.id@,
                        mc_username: profile.name@,
                        mc_access_token: mc_token@,
                        ms_refresh_token: refresh,
                        skin_url: active_skin(profile.skins@),
                    })),
                }
            }
        },
        _ => failed(LauncherError::UnexpectedReply),
    }
}

/// Advances a sign-in with the answer to its pending request.
pub fn login_step(flow: LoginFlow, reply: LoginReply) -> (r: LoginStep)
    ensures
        r@ == spec_login_step(flow, reply),
{
    let ghost g_flow = flow;
    let ghost g_reply = reply;
    let refresh = flow.ms_refresh_token;
    match (flow.stage, reply) {
        (LoginStage::XboxLive, LoginReply::XboxLive(status, report, body)) => {
            if error_status(status) {
                LoginStep::Done(Err(LauncherError::HttpStatus(status, report)))
            } else {
                match body {
                    None => LoginStep::Done(Err(LauncherError::MalformedReply)),
                    Some(resp) => match user_hash(&resp) {
                        None => LoginStep::Done(Err(LauncherError::MissingUserHash)),
                        Some(uhs) => {
                            let req = xsts_request(resp.token.as_str());
                            LoginStep::Send(
                                LoginFlow { stage: LoginStage::Xsts { user_hash: uhs }, ms_refresh_token: refresh },
                                req,
                            )
                        },
                    },
                }
            }
        },
        (LoginStage::Xsts { user_hash }, LoginReply::Xsts(status, report, body)) => {
            if status == 401 {
                LoginStep::Done(Err(LauncherError::XboxAccountRestricted))
            } else if error_status(status) {
                LoginStep::Done(Err(LauncherError::HttpStatus(status, report)))
            } else {
                match body {
                    None => LoginStep::Done(Err(LauncherError::MalformedReply)),
                    Some(resp) => {
                        let req = minecraft_request(user_hash.as_str(), resp.token.as_str());
                        LoginStep::Send(
                            LoginFlow { stage: LoginStage::MinecraftToken, ms_refresh_token: refresh },
                            req,
                        )
                    },
                }
            }
        },
        (LoginStage::MinecraftToken, LoginReply::MinecraftToken(status, report, body)) => {
            if error_status(status) {
                LoginStep::Done(Err(LauncherError::HttpStatus(status, report)))
            } else {
                match body {
                    None => LoginStep::Done(Err(LauncherError::MalformedReply)),
                    Some(resp) => {
                        let req = profile_request(resp.access_token.as_str());
                        LoginStep::Send(
                            LoginFlow {
                                stage: LoginStage::Profile { mc_token: resp.access_token },
                                ms_refresh_token: refresh,
                            },
                            req,
                        )
                    },
                }
            }
        },
        (LoginStage::Profile { mc_token }, LoginReply::Profile(status, report, body)) => {
            if status == 404 {
                LoginStep::Done(Err(LauncherError::NoMinecraftLicense))
            } else if error_status(status) {
                LoginStep::Done(Err(LauncherError::HttpStatus(status, report)))
            } else {
                match body {
                    None => LoginStep::Done(Err(LauncherError::MalformedReply)),
                    Some(profile) => {
                        let skin_url = active_skin_url(&profile);
                        LoginStep::Done(Ok(MinecraftAccount {
                            mc_uuid: profile.id,
                            mc_username: profile.name,
                            mc_access_token: mc_token,
                            ms_refresh_token: refresh,
                            skin_url,
                        }))
                    },
                }
            }
        },
        _ => LoginStep::Done(Err(LauncherError::UnexpectedReply)),
    }
}

/// Position of a sign-in stage in the flow (Xbox Live, XSTS, Minecraft, profile).
pub open spec fn stage_rank(stage: LoginStageView) -> int {
    match stage {
        LoginStageView::XboxLive => 0,
        LoginStageView::Xsts { .. } => 1,
        LoginStageView::MinecraftToken => 2,
        LoginStageView::Profile { .. } => 3,
    }
}

pub open spec fn reply_status(reply: LoginReply) -> u16 {
    match reply {
        LoginReply::XboxLive(s, _, _) => s,
        LoginReply::Xsts(s, _, _) => s,
        LoginReply::MinecraftToken(s, _, _) => s,
        LoginReply::Profile(s, _, _) => s,
    }
}

/// A sign-in only moves forward, one stage per answer, and keeps the Microsoft
/// refresh token it started with; an answer with an error status ends it with
/// an error, so a sign-in ends after at most four answers; a finished account
/// carries that refresh token.
pub proof fn lemma_login_progress(flow: LoginFlow, reply: LoginReply)
    ensures
        spec_login_step(flow, reply) matches LoginStepView::Send(next, _) ==> {
            &&& stage_rank(next.stage) == stage_rank(flow@.stage) + 1
            &&& next.ms_refresh_token == flow.ms_refresh_token@
        },
        spec_login_step(flow, reply) matches LoginStepView::Done(Ok(account)) ==> {
            &&& account.ms_refresh_token == flow.ms_refresh_token@
            &&& flow@.stage matches LoginStageView::Profile { mc_token } && account.mc_access_token == mc_token
        },
        is_error_status(reply_status(reply)) ==> spec_login_step(flow, reply) is Done
            && !(spec_login_step(flow, reply) matches LoginStepView::Done(Ok(_))),
{
}

/// Each request of the sign-in carries what the answer before it gave: the Xbox
/// Live token goes to XSTS with the user hash kept for later; the user hash and
/// the XSTS token go to Minecraft; the Minecraft token goes to the profile
/// request and into the account, whose UUID and name are the profile's.
pub proof fn lemma_login_chain(flow: LoginFlow, reply: LoginReply)
    requires
        200 <= reply_status(reply) < 300,
    ensures
        match (flow.stage, reply) {
            (LoginStage::XboxLive, LoginReply::XboxLive(_, _, Some(resp))) => spec_user_hash(resp) matches Some(uhs)
                ==> (spec_login_step(flow, reply) matches LoginStepView::Send(next, req)
                && next.stage == LoginStageView::Xsts { user_hash: uhs }
                && req == spec_xsts_request(resp.token@)),
            (LoginStage::Xsts { user_hash }, LoginReply::Xsts(_, _, Some(resp))) =>
                spec_login_step(flow, reply) matches LoginStepView::Send(next, req)
                && next.stage == LoginStageView::MinecraftToken
                && req == spec_minecraft_request(user_hash@, resp.token@),
            (LoginStage::MinecraftToken, LoginReply::MinecraftToken(_, _, Some(resp))) =>
                spec_login_step(flow, reply) matches LoginStepView::Send(next, req)
                && next.stage == LoginStageView::Profile { mc_token: resp.access_token@ }
                && req.bearer_token == Some(resp.access_token@)
                && req == spec_profile_request(resp.access_token@),
            (LoginStage::Profile { mc_token }, LoginReply::Profile(_, _, Some(profile))) =>
                spec_login_step(flow, reply) matches LoginStepView::Done(Ok(account))
                && account.mc_uuid == profile.id@
                && account.mc_username == profile.name@
                && account.mc_access_token == mc_token@
                && account.ms_refresh_token == flow.ms_refresh_token@
                && account.skin_url == active_skin(profile.skins@),
            _ => true,
        },
{
}

/// The saved list after saving `account`: any account with the same UUID is
/// replaced, and `account` comes last.
pub open spec fn spec_save_account(accounts: Seq<MinecraftAccountView>, account: MinecraftAccountView) -> Seq<MinecraftAccountView> {
    accounts.filter(|a: MinecraftAccountView| a.mc_uuid != account.mc_uuid).push(account)
}

pub open spec fn accounts_view(v: Seq<MinecraftAccount>) -> Seq<MinecraftAccountView> {
    v.map_values(|a: MinecraftAccount| a@)
}

fn opt_string_copy(o: &Option<String>) -> (r: Option<String>)
    ensures
        r.deep_view() == o.deep_view(),
{
    match o {
        Some(s) => Some(s.clone()),
        None => None,
    }
}

impl MinecraftAccount {
    /// A copy of this account.
    pub fn duplicate(&self) -> (r: MinecraftAccount)
        ensures
            r@ == self@,
    {
        MinecraftAccount {
            mc_uuid: self.mc_uuid.clone(),
            mc_username: self.mc_username.clone(),
            mc_access_token: self.mc_access_token.clone(),
            ms_refresh_token: self.ms_refresh_token.clone(),
            skin_url: opt_string_copy(&self.skin_url),
        }
    }
}

/// The list of saved accounts once `account` is saved in it (the application
/// reads and writes the accounts file around this).
pub fn save_account(accounts: Vec<MinecraftAccount>, account: &MinecraftAccount) -> (r: Vec<MinecraftAccount>)
    ensures
        accounts_view(r@) == spec_save_account(accounts_view(accounts@), account@),
{
    let ghost old_v = accounts_view(accounts@);
    let ghost pred = |a: MinecraftAccountView| a.mc_uuid != account.mc_uuid@;
    let mut rest = accounts;
    let mut kept: Vec<MinecraftAccount> = Vec::new();
    let ghost mut i: int = 0;
    while rest.len() > 0
        invariant
            0 <= i <= old_v.len(),
            pred == (|a: MinecraftAccountView| a.mc_uuid != account.mc_uuid@),
            rest@.len() == old_v.len() - i,
            accounts_view(rest@) == old_v.skip(i),
            accounts_view(kept@) == old_v.take(i).filter(pred),
        decreases rest@.len(),
    {
        let ghost before = rest@;
        let a = rest.remove(0);
        let ghost av = a@;
        proof {
            assert(accounts_view(before)[0] == before[0]@);
            assert(old_v.skip(i)[0] == old_v[i]);
            assert forall|k: int| 0 <= k < rest@.len() implies #[trigger] accounts_view(rest@)[k] == old_v.skip(i + 1)[k] by {
                assert(rest@[k] == before[k + 1]);
                assert(accounts_view(before)[k + 1] == before[k + 1]@);
                assert(old_v.skip(i)[k + 1] == old_v[i + 1 + k]);
            }
            assert(accounts_view(rest@) =~= old_v.skip(i + 1));
        }
        let ghost kept_before = accounts_view(kept@);
        let keep = !str_eq(a.mc_uuid.as_str(), account.mc_uuid.as_str());
        assert(keep == pred(av));
        if keep {
            kept.push(a);
            assert(accounts_view(kept@) =~= kept_before.push(av));
        }
        proof {
            reveal(Seq::filter);
            let t = old_v.take(i + 1);
            assert(t.drop_last() == old_v.take(i));
            assert(t.last() == av);
            i = i + 1;
            assert(old_v.take(i) == t);
        }
    }
    proof {
        assert(old_v.take(i) =~= old_v);
    }
    let ghost kept_v = accounts_view(kept@);
    kept.push(account.duplicate());
    assert(accounts_view(kept@) =~= kept_v.push(account@));
    kept
}

/// After saving, the account is the only one with its UUID, in last place;
/// the accounts with other UUIDs keep their order; saving it again changes nothing.
pub proof fn lemma_save_account(accounts: Seq<MinecraftAccountView>, account: MinecraftAccountView)
    ensures
        spec_save_account(accounts, account).last() == account,
        forall|j: int| 0 <= j < spec_save_account(accounts, account).len() - 1
            ==> #[trigger] spec_save_account(accounts, account)[j].mc_uuid != account.mc_uuid,
        spec_save_account(accounts, account).drop_last()
            == accounts.filter(|a: MinecraftAccountView| a.mc_uuid != account.mc_uuid),
        spec_save_account(spec_save_account(accounts, account), account) == spec_save_account(accounts, account),
{
    let pred = |a: MinecraftAccountView| a.mc_uuid != account.mc_uuid;
    let kept = accounts.filter(pred);
    let out = spec_save_account(accounts, account);
    assert(out.drop_last() == kept);
    assert forall|j: int| 0 <= j < out.len() - 1 implies #[trigger] out[j].mc_uuid != account.mc_uuid by {
        assert(out[j] == kept[j]);
        accounts.lemma_filter_pred(pred, j);
    }
    reveal(Seq::filter);
    assert(out.filter(pred) == kept.filter(pred));
    crate::lists::lemma_filter_keeps_all(kept, pred);
}

/// Index of the first saved account with UUID `uuid`, or -1.
pub open spec fn index_of_account(accounts: Seq<MinecraftAccount>, uuid: Seq<char>) -> int
    decreases accounts.len(),
{
    if accounts.len() == 0 {
        -1
    } else {
        let k = index_of_account(accounts.drop_last(), uuid);
        if k >= 0 {
            k
        } else if accounts.last().mc_uuid@ == uuid {
            accounts.len() - 1
        } else {
            -1
        }
    }
}

pub proof fn lemma_index_of_account(accounts: Seq<MinecraftAccount>, uuid: Seq<char>)
    ensures
        -1 <= index_of_account(accounts, uuid) < accounts.len(),
        index_of_account(accounts, uuid) >= 0 ==> accounts[index_of_account(accounts, uuid)].mc_uuid@ == uuid,
        forall|j: int| 0 <= j < accounts.len()
            && (index_of_account(accounts, uuid) < 0 || j < index_of_account(accounts, uuid))
            ==> #[trigger] accounts[j].mc_uuid@ != uuid,
    decreases accounts.len(),
{
    if accounts.len() > 0 {
        lemma_index_of_account(accounts.drop_last(), uuid);
        assert forall|j: int| 0 <= j < accounts.len()
            && (index_of_account(accounts, uuid) < 0 || j < index_of_account(accounts, uuid))
            implies #[trigger] accounts[j].mc_uuid@ != uuid by {
            if j < accounts.len() - 1 {
                assert(accounts[j] == accounts.drop_last()[j]);
            }
        }
    }
}

/// The first saved account with UUID `uuid`, or an error when there is none.
pub fn find_account<'a>(accounts: &'a Vec<MinecraftAccount>, uuid: &str) -> (r: Result<&'a MinecraftAccount, LauncherError>)
    ensures
        ({
            let k = index_of_account(accounts@, uuid@);
            if k >= 0 {
                r is Ok && *r->Ok_0 == accounts@[k]
            } else {
                r == Err::<&MinecraftAccount, LauncherError>(LauncherError::AccountNotFound)
            }
        }),
{
    let mut i: usize = 0;
    while i < accounts.len()
        invariant
            i <= accounts.len(),
            index_of_account(accounts@.take(i as int), uuid@) == -1,
        decreases accounts.len() - i,
    {
        assert(accounts@.take(i + 1).drop_last() == accounts@.take(i as int));
        if str_eq(accounts[i].mc_uuid.as_str(), uuid) {
            proof {
                lemma_index_of_account(accounts@, uuid@);
                lemma_index_of_account(accounts@.take(i as int), uuid@);
                let k = index_of_account(accounts@, uuid@);
                if 0 <= k < i {
                    assert(accounts@.take(i as int)[k] == accounts@[k]);
                    assert(accounts@.take(i as int)[k].mc_uuid@ != uuid@);
                }
                if k < 0 || k > i {
                    assert(accounts@[i as int].mc_uuid@ != uuid@);
                }
                assert(k == i);
            }
            return Ok(&accounts[i]);
        }
        i = i + 1;
    }
    proof {
        assert(accounts@.take(accounts.len() as int) == accounts@);
    }
    Err(LauncherError::AccountNotFound)
}

/// Where a poll of the device-code sign-in stands.
pub enum PollStage {
    /// The token endpoint's answer.
    Polling,
    /// The answers of the sign-in, once the user has approved.
    SigningIn(LoginFlow),
    /// The saving of the signed-in account.
    Saving(MinecraftAccount),
}

/// What the application reports back: the token endpoint's answer (its status,
/// and its body parsed as a token and as an error), a sign-in answer, or that
/// the account was saved.
pub enum PollEvent {
    TokenReply(u16, Option<TokenResponse>, Option<TokenErrorResponse>),
    Login(LoginReply),
    Saved,
}

/// What the poll does next: send a request, save the account among the saved
/// ones, or end with its outcome (`None` while the user has not approved) and
/// whether the pending sign-in is over (its device code to be forgotten).
pub enum PollAction {
    Send(PollStage, HttpRequest),
    Save(PollStage, MinecraftAccount),
    Done(Result<Option<MinecraftAccount>, LauncherError>, bool),
}

pub open spec fn poll_fails_with(r: PollAction, e: LauncherError) -> bool {
    r matches PollAction::Done(Err(x), clear) && x == e && !clear
}

/// A poll first checks that a sign-in is pending, and only then asks the token
/// endpoint.
pub open spec fn spec_start_poll(pending: Option<String>, r: PollAction) -> bool {
    match pending {
        None => poll_fails_with(r, LauncherError::NoPendingLogin),
        Some(code) => {
            &&& r matches PollAction::Send(stage, req)
            &&& stage is Polling
            &&& req@ == spec_poll_request(code@)
        },
    }
}

/// One step of a poll: while the user has not approved, the poll ends with
/// `None`; once approved, the sign-in runs step by step; its account is saved,
/// and only after the saving does the poll end with the account and forget the
/// pending sign-in. An error ends the poll and keeps the sign-in pending.
pub open spec fn spec_poll_step(stage: PollStage, event: PollEvent, r: PollAction) -> bool {
    match (stage, event) {
        (PollStage::Polling, PollEvent::TokenReply(status, token, error)) => {
            match spec_poll_device_token(status, token, error) {
                Err(e) => poll_fails_with(r, e),
                Ok(None) => r matches PollAction::Done(Ok(None), clear) && !clear,
                Ok(Some((access, refresh))) => {
                    &&& r matches PollAction::Send(next, req)
                    &&& next matches PollStage::SigningIn(flow)
                    &&& flow@ == (LoginFlowView { stage: LoginStageView::XboxLive, ms_refresh_token: refresh })
                    &&& req@ == spec_xbox_live_request(access)
                },
            }
        },
        (PollStage::SigningIn(flow), PollEvent::Login(reply)) => match spec_login_step(flow, reply) {
            LoginStepView::Send(f, q) => {
                &&& r matches PollAction::Send(next, req)
                &&& next matches PollStage::SigningIn(flow2)
                &&& flow2@ == f
                &&& req@ == q
            },
            LoginStepView::Done(Err(e)) => poll_fails_with(r, e),
            LoginStepView::Done(Ok(account)) => {
                &&& r matches PollAction::Save(next, a)
                &&& next matches PollStage::Saving(held)
                &&& held@ == account
                &&& a@ == account
            },
        },
        (PollStage::Saving(account), PollEvent::Saved) => {
            &&& r matches PollAction::Done(Ok(Some(a)), clear)
            &&& a@ == account@
            &&& clear
        },
        _ => poll_fails_with(r, LauncherError::UnexpectedReply),
    }
}

/// Starts a poll of the pending sign-in (`None` when there is none).
pub fn start_poll(pending: &Option<String>) -> (r: PollAction)
    ensures
        spec_start_poll(*pending, r),
{
    match pending_device_code(pending) {
        Err(e) => PollAction::Done(Err(e), false),
        Ok(code) => PollAction::Send(PollStage::Polling, poll_device_token_request(code.as_str())),
    }
}

/// Advances a poll with what the application reports.
pub fn poll_step(stage: PollStage, event: PollEvent) -> (r: PollAction)
    ensures
        spec_poll_step(stage, event, r),
{
    match (stage, event) {
        (PollStage::Polling, PollEvent::TokenReply(status, token, error)) => {
            match poll_device_token(status, token, error) {
                Err(e) => PollAction::Done(Err(e), false),
                Ok(None) => PollAction::Done(Ok(None), false),
                Ok(Some((access, refresh))) => {
                    let (flow, req) = complete_login(access.as_str(), refresh.as_str());
                    PollAction::Send(PollStage::SigningIn(flow), req)
                },
            }
        },
        (PollStage::SigningIn(flow), PollEvent::Login(reply)) => match login_step(flow, reply) {
            LoginStep::Send(next, req) => PollAction::Send(PollStage::SigningIn(next), req),
            LoginStep::Done(Err(e)) => PollAction::Done(Err(e), false),
            LoginStep::Done(Ok(account)) => {
                let copy = account.duplicate();
                PollAction::Save(PollStage::Saving(account), copy)
            },
        },
        (PollStage::Saving(account), PollEvent::Saved) => PollAction::Done(Ok(Some(account)), true),
        _ => PollAction::Done(Err(LauncherError::UnexpectedReply), false),
    }
}

/// Once the token endpoint answers with tokens, the sign-in the poll starts
/// sends the Microsoft access token to Xbox Live, and keeps the refresh token
/// in the flow for the account, never the other way round.
pub proof fn lemma_poll_sends_access_token(
    status: u16,
    token: TokenResponse,
    error: Option<TokenErrorResponse>,
    r: PollAction,
)
    requires
        200 <= status < 300,
        spec_poll_step(PollStage::Polling, PollEvent::TokenReply(status, Some(token), error), r),
    ensures
        match r {
            PollAction::Send(PollStage::SigningIn(flow), req) => {
                &&& req@ == spec_xbox_live_request(token.access_token@)
                &&& flow@.ms_refresh_token == token.refresh_token@
                &&& flow@.stage == LoginStageView::XboxLive
            },
            _ => false,
        },
{
}

/// A poll sends nothing when no sign-in is pending; the account is saved only
/// once the sign-in produced it; the pending sign-in is forgotten only right
/// after the account was saved, and the poll returns an account only then.
pub proof fn lemma_poll_order(pending: Option<String>, start: PollAction, stage: PollStage, event: PollEvent, r: PollAction)
    requires
        spec_start_poll(pending, start),
        spec_poll_step(stage, event, r),
    ensures
        pending is None ==> (start matches PollAction::Done(Err(_), clear) && !clear),
        !(start is Save),
        r is Save ==> stage is SigningIn && event is Login,
        (r matches PollAction::Done(_, clear) && clear) ==> stage is Saving && event is Saved,
        r matches PollAction::Done(Ok(Some(_)), _) ==> stage is Saving && event is Saved,
{
}

/// The device code of the sign-in waiting for the user, or an error when none is.
pub fn pending_device_code(pending: &Option<String>) -> (r: Result<String, LauncherError>)
    ensures
        match *pending {
            Some(code) => r is Ok && r->Ok_0@ == code@,
            None => r == Err::<String, LauncherError>(LauncherError::NoPendingLogin),
        },
{
    match pending {
        Some(code) => Ok(code.clone()),
        None => Err(LauncherError::NoPendingLogin),
    }
}

} // verus!
