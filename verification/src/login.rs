//! The login handshake and the session it leads to.
use vstd::prelude::*;
use vstd::string::*;
use crate::device::{uuid_of_text, DeviceToken, DeviceTokenErr};
use crate::error::{
    err_view, result_view, text_of, LoginErr, LoginErrView, RefreshTokenErr,
    RefreshTokenErrView, RobinhoodErr, RobinhoodErrView, TransportError, TransportErrorView,
};
use crate::json::{
    insert_member, into_object, json_model, member, member_of, object_value, text_member_of,
    text_value, Json,
};
use crate::req::{agent_headers, set_req_headers, HttpRequest, HttpRequestView, ReqKind};
use crate::wire::{
    check_invalid_creds, check_invalid_grant, refuses_credentials, refuses_refresh_token,
    GrantType, LogInPayload, LogInPayloadView, LoginSuccess, LoginSuccessView,
    RefreshTokenPayload, RefreshTokenPayloadView, Scope, TokenType,
};
use crate::{
    CLIENT_ID, EXPIRES_IN, LOG_IN_PATH, RETRY_BACKOFF_MILLIS, ROBINHOOD_API_URL, USER_AGENT,
};

verus! {

/// What a requestor shows of itself on every request.
pub trait AgentToken {
    /// The user agent.
    spec fn agent(&self) -> Seq<char>;

    /// The bearer token, if the requestor has one.
    spec fn bearer(&self) -> Option<Seq<char>>;

    fn get_user_agent(&self) -> (agent: &str)
        ensures
            agent@ == self.agent(),
    ;

    fn get_token(&self) -> (token: Option<&str>)
        ensures
            match token {
                Some(t) => self.bearer() == Some(t@),
                None => self.bearer() is None,
            },
    ;
}

/// What came back for a request: the JSON body of the response, or the
/// failure of the transport.
pub open spec fn reply_view(
    reply: Result<serde_json::Value, TransportError>,
) -> Result<Json, TransportErrorView> {
    match reply {
        Ok(body) => Ok(json_model(body)),
        Err(cause) => Err(cause@),
    }
}

/// The address of the token endpoint.
pub open spec fn login_url() -> Seq<char> {
    ROBINHOOD_API_URL@ + LOG_IN_PATH@
}

/// The address of the token endpoint.
pub fn log_in_url() -> (url: String)
    ensures
        url@ == login_url(),
{
    String::from_str(ROBINHOOD_API_URL).concat(LOG_IN_PATH)
}

/// A login that waits for its code: the credentials and the device they
/// were sent from.
pub struct MfaLogin {
    username: String,
    password: String,
    device_token: DeviceToken,
    user_agent: String,
    client_id: String,
}

pub struct MfaLoginView {
    pub username: Seq<char>,
    pub password: Seq<char>,
    pub device_token: DeviceToken,
    pub user_agent: Seq<char>,
    pub client_id: Seq<char>,
}

impl View for MfaLogin {
    type V = MfaLoginView;

    closed spec fn view(&self) -> MfaLoginView {
        MfaLoginView {
            username: self.username@,
            password: self.password@,
            device_token: self.device_token,
            user_agent: self.user_agent@,
            client_id: self.client_id@,
        }
    }
}

impl MfaLoginView {
    /// The password grant that the login asks for.
    pub open spec fn login_payload(self) -> LogInPayloadView {
        LogInPayloadView {
            client_id: self.client_id,
            device_token: self.device_token,
            expires_in: EXPIRES_IN,
            grant_type: GrantType::Password,
            scope: Scope::Internal,
            username: self.username,
            password: self.password,
        }
    }

    /// The request that asks the server to send out a login code.
    pub open spec fn code_request(self) -> HttpRequestView {
        HttpRequestView {
            kind: ReqKind::Post,
            url: login_url(),
            headers: agent_headers(self.user_agent, None),
            payload: Some(self.login_payload().json()),
        }
    }

    /// The request that redeems a login code: the password grant with the
    /// code as one more member, `mfa_code`.
    pub open spec fn redeem_request(self, mfa_code: Seq<char>) -> HttpRequestView {
        HttpRequestView {
            kind: ReqKind::Post,
            url: login_url(),
            headers: agent_headers(self.user_agent, None),
            payload: Some(
                Json::Object(self.login_payload().members().insert("mfa_code"@, Json::Text(mfa_code))),
            ),
        }
    }

    /// The session that a successful login leads to: it refreshes its token
    /// by itself and does not send a failed request again.
    pub open spec fn session(self, success: LoginSuccessView) -> RobinhoodView {
        RobinhoodView {
            username: Some(self.username),
            password: Some(self.password),
            token_expires_in: success.expires_in,
            token: success.access_token,
            refresh_token: success.refresh_token,
            device_token: self.device_token,
            user_agent: self.user_agent,
            auto_refresh: true,
            retry: false,
            backoff_millis: RETRY_BACKOFF_MILLIS,
        }
    }

    /// What the reply to a request for a login code means: the credentials
    /// were refused exactly where the body says so; any other body means
    /// that the code is on its way.
    pub open spec fn code_outcome(
        reply: Result<Json, TransportErrorView>,
    ) -> Result<(), RobinhoodErrView> {
        match reply {
            Ok(body) => if refuses_credentials(body) {
                Err(RobinhoodErrView::InvalidCredentials)
            } else {
                Ok(())
            },
            Err(cause) => Err(RobinhoodErrView::RequestError(cause)),
        }
    }

    /// What the reply to the redemption of a login code means.
    pub open spec fn login_outcome(
        self,
        reply: Result<Json, TransportErrorView>,
    ) -> Result<RobinhoodView, LoginErrView> {
        match reply {
            Ok(body) => if refuses_credentials(body) {
                Err(LoginErrView::InvalidCredentials)
            } else {
                match LoginSuccessView::of_json(body) {
                    Ok(success) => Ok(self.session(success)),
                    Err(fault) => Err(LoginErrView::BadResponseBody(fault.message())),
                }
            },
            Err(cause) => Err(LoginErrView::RequestError(cause)),
        }
    }
}

/// Adds a login code to a login payload, as the member `mfa_code`. The
/// payload must be a JSON object: anything else is refused as
/// `EmptyLoginBody`. `MissingMfaCode` would tell that the member is not
/// there after it was added, and never comes.
pub fn add_mfa_code(
    payload: serde_json::Value,
    mfa_code: String,
) -> (extended: Result<serde_json::Value, LoginErr>)
    ensures
        match extended {
            Ok(value) => json_model(payload) matches Json::Object(members) && json_model(value)
                == Json::Object(members.insert("mfa_code"@, Json::Text(mfa_code@))),
            Err(error) => !(json_model(payload) is Object) && error@
                == LoginErrView::EmptyLoginBody,
        },
{
    let mut object = match into_object(payload) {
        Ok(object) => object,
        Err(_) => { return Err(LoginErr::EmptyLoginBody); },
    };
    insert_member(&mut object, "mfa_code".to_owned(), text_value(mfa_code));
    let extended = object_value(object);
    if member(&extended, "mfa_code").is_none() {
        return Err(LoginErr::MissingMfaCode);
    }
    Ok(extended)
}

impl MfaLogin {
    /// A login for the given credentials, from a device with a fresh random
    /// token: a UUID of version 4.
    pub fn new(username: String, password: String) -> (login: MfaLogin)
        ensures
            login@.username == username@,
            login@.password == password@,
            login@.user_agent == USER_AGENT@,
            login@.client_id == CLIENT_ID@,
            (login@.device_token.value >> 76) & 0xf == 4,
            (login@.device_token.value >> 62) & 0x3 == 2,
    {
        MfaLogin {
            username,
            password,
            device_token: DeviceToken::random(),
            user_agent: USER_AGENT.to_owned(),
            client_id: CLIENT_ID.to_owned(),
        }
    }

    /// The password grant that the login asks for.
    pub fn build_login_payload(&self) -> (payload: LogInPayload)
        ensures
            payload@ == self@.login_payload(),
    {
        LogInPayload {
            client_id: self.client_id.clone(),
            username: self.username.clone(),
            password: self.password.clone(),
            expires_in: EXPIRES_IN,
            scope: Scope::Internal,
            grant_type: GrantType::Password,
            device_token: self.device_token,
        }
    }

    /// The request that asks the server to send out a login code.
    pub fn code_request(&self) -> (request: HttpRequest)
        ensures
            request@ == self@.code_request(),
    {
        let payload = self.build_login_payload().to_value();
        let url = log_in_url();
        set_req_headers(self, HttpRequest::new(ReqKind::Post, url.as_str(), Some(payload)))
    }

    /// What the reply to `code_request` means.
    pub fn request_mfa_code(
        &self,
        reply: Result<serde_json::Value, TransportError>,
    ) -> (outcome: Result<(), RobinhoodErr>)
        ensures
            err_view(outcome) == MfaLoginView::code_outcome(reply_view(reply)),
    {
        match reply {
            Ok(body) => {
                if check_invalid_creds(&body) {
                    return Err(RobinhoodErr::InvalidCredentials);
                }
                Ok(())
            },
            Err(cause) => Err(RobinhoodErr::RequestError(cause)),
        }
    }

    /// The request that redeems the login code `mfa_code`. It is always
    /// made: the password grant is an object, and the code is in it once it
    /// was added.
    pub fn redeem_request(&self, mfa_code: String) -> (request: Result<HttpRequest, LoginErr>)
        ensures
            request matches Ok(made) && made@ == self@.redeem_request(mfa_code@),
    {
        let payload = match add_mfa_code(self.build_login_payload().to_value(), mfa_code) {
            Ok(payload) => payload,
            Err(error) => { return Err(error); },
        };
        let url = log_in_url();
        Ok(set_req_headers(self, HttpRequest::new(ReqKind::Post, url.as_str(), Some(payload))))
    }

    /// What the reply to `redeem_request` means: a session, where the body
    /// is a successful login and does not say that the credentials were
    /// refused.
    pub fn log_in(
        self,
        reply: Result<serde_json::Value, TransportError>,
    ) -> (outcome: Result<Robinhood, LoginErr>)
        ensures
            result_view(outcome) == self@.login_outcome(reply_view(reply)),
    {
        let body = match reply {
            Ok(body) => body,
            Err(cause) => { return Err(LoginErr::RequestError(cause)); },
        };
        if check_invalid_creds(&body) {
            return Err(LoginErr::InvalidCredentials);
        }
        let success = match LoginSuccess::from_value(&body) {
            Ok(success) => success,
            Err(fault) => { return Err(LoginErr::BadResponseBody(fault.to_message())); },
        };
        Ok(
            Robinhood {
                device_token: self.device_token,
                password: Some(self.password),
                username: Some(self.username),
                user_agent: self.user_agent,
                token: success.access_token,
                refresh_token: success.refresh_token,
                token_expires_in: success.expires_in,
                auto_refresh: true,
                retry: false,
                backoff_millis: RETRY_BACKOFF_MILLIS,
            },
        )
    }

    /// Changes the username and the password.
    pub fn set_credentials(&mut self, username: String, password: String)
        ensures
            final(self)@ == (MfaLoginView { username: username@, password: password@, ..old(self)@ }),
    {
        self.username = username;
        self.password = password;
    }

    /// Ties the login to another device.
    pub fn change_device_token(&mut self, device_token: DeviceToken)
        ensures
            final(self)@ == (MfaLoginView { device_token, ..old(self)@ }),
    {
        self.device_token = device_token;
    }

    /// Ties the login to the device whose token `device_token` spells; a
    /// text that spells none leaves the login as it was.
    pub fn change_device_token_str(
        &mut self,
        device_token: String,
    ) -> (changed: Result<(), DeviceTokenErr>)
        ensures
            match changed {
                Ok(_) => uuid_of_text(device_token@) matches Some(value) && final(self)@ == (
                    MfaLoginView { device_token: DeviceToken { value }, ..old(self)@ }
                ),
                Err(_) => uuid_of_text(device_token@) is None && final(self)@ == old(self)@,
            },
    {
        match DeviceToken::parse(device_token.as_str()) {
            Ok(new_device_token) => {
                self.device_token = new_device_token;
                Ok(())
            },
            Err(error) => Err(error),
        }
    }

    /// Changes the user agent.
    pub fn change_agent(&mut self, user_agent: String)
        ensures
            final(self)@ == (MfaLoginView { user_agent: user_agent@, ..old(self)@ }),
    {
        self.user_agent = user_agent;
    }
}

impl AgentToken for MfaLogin {
    open spec fn agent(&self) -> Seq<char> {
        self@.user_agent
    }

    open spec fn bearer(&self) -> Option<Seq<char>> {
        None
    }

    fn get_user_agent(&self) -> (agent: &str) {
        self.user_agent.as_str()
    }

    fn get_token(&self) -> (token: Option<&str>) {
        None
    }
}

/// The reply to a request for a login code, and to the redemption of one,
/// means that the credentials were refused exactly where its body says so.
pub proof fn law_refusal_follows_the_body(pending: MfaLoginView, body: Json)
    ensures
        MfaLoginView::code_outcome(Ok(body)) == Err::<(), RobinhoodErrView>(
            RobinhoodErrView::InvalidCredentials,
        ) <==> refuses_credentials(body),
        !refuses_credentials(body) ==> MfaLoginView::code_outcome(Ok(body)) is Ok,
        pending.login_outcome(Ok(body)) == Err::<RobinhoodView, LoginErrView>(
            LoginErrView::InvalidCredentials,
        ) <==> refuses_credentials(body),
{
}

/// The request that redeems a login code holds the code under `mfa_code`,
/// and every other member as the password grant has it.
pub proof fn law_redeem_request_holds_the_code(pending: MfaLoginView, mfa_code: Seq<char>)
    ensures
        pending.redeem_request(mfa_code).payload matches Some(payload) && {
            &&& text_member_of(payload, "mfa_code"@) == Some(mfa_code)
            &&& forall|key: Seq<char>|
                key != "mfa_code"@ ==> member_of(payload, key) == member_of(
                    pending.login_payload().json(),
                    key,
                )
        },
{
}

/// The pair of tokens that a refresh brought.
#[derive(Debug, Clone, PartialEq, Eq)]
pub struct NewToken {
    pub token: String,
    pub refresh_token: String,
}

pub struct NewTokenView {
    pub token: Seq<char>,
    pub refresh_token: Seq<char>,
}

impl View for NewToken {
    type V = NewTokenView;

    open spec fn view(&self) -> NewTokenView {
        NewTokenView { token: self.token@, refresh_token: self.refresh_token@ }
    }
}

/// An authenticated session.
pub struct Robinhood {
    username: Option<String>,
    password: Option<String>,
    token_expires_in: u32,
    token: String,
    refresh_token: String,
    device_token: DeviceToken,
    user_agent: String,
    auto_refresh: bool,
    retry: bool,
    backoff_millis: u64,
}

pub struct RobinhoodView {
    pub username: Option<Seq<char>>,
    pub password: Option<Seq<char>>,
    pub token_expires_in: u32,
    pub token: Seq<char>,
    pub refresh_token: Seq<char>,
    pub device_token: DeviceToken,
    pub user_agent: Seq<char>,
    /// Whether a refused access token is answered by a refresh.
    pub auto_refresh: bool,
    /// Whether a request is sent again after a failure that may pass.
    pub retry: bool,
    /// How long to wait before a request is sent again, in milliseconds.
    pub backoff_millis: u64,
}

impl View for Robinhood {
    type V = RobinhoodView;

    closed spec fn view(&self) -> RobinhoodView {
        RobinhoodView {
            username: text_of(self.username),
            password: text_of(self.password),
            token_expires_in: self.token_expires_in,
            token: self.token@,
            refresh_token: self.refresh_token@,
            device_token: self.device_token,
            user_agent: self.user_agent@,
            auto_refresh: self.auto_refresh,
            retry: self.retry,
            backoff_millis: self.backoff_millis,
        }
    }
}

impl RobinhoodView {
    /// Whether a refresh goes ahead: always where the caller names no
    /// refresh token, and else only where the token named is still the
    /// session's own.
    pub open spec fn refresh_due(self, expected: Option<Seq<char>>) -> bool {
        expected matches Some(token) ==> token == self.refresh_token
    }

    /// The refresh grant that the session asks for.
    pub open spec fn refresh_payload(self) -> RefreshTokenPayloadView {
        RefreshTokenPayloadView {
            token_type: TokenType::Bearer,
            scope: Scope::Internal,
            refresh_token: self.refresh_token,
            grant_type: GrantType::RefreshToken,
            client_id: CLIENT_ID@,
            device_token: self.device_token,
        }
    }

    /// The request that asks for new tokens. It carries the headers of the
    /// session as it is, the access token among them.
    pub open spec fn refresh_request(self) -> HttpRequestView {
        HttpRequestView {
            kind: ReqKind::Post,
            url: login_url(),
            headers: agent_headers(self.user_agent, Some(self.token)),
            payload: Some(self.refresh_payload().json()),
        }
    }

    /// The tokens that a reply to a refresh brings, where it brings any.
    pub open spec fn granted(reply: Result<Json, TransportErrorView>) -> Option<LoginSuccessView> {
        match reply {
            Ok(body) => if refuses_refresh_token(body) {
                None
            } else {
                match LoginSuccessView::of_json(body) {
                    Ok(success) => Some(success),
                    Err(_) => None,
                }
            },
            Err(_) => None,
        }
    }

    /// The session after a refresh: with the access token, the refresh token
    /// and the lifetime that the reply brought, all three or none.
    pub open spec fn refreshed(
        self,
        expected: Option<Seq<char>>,
        reply: Result<Json, TransportErrorView>,
    ) -> RobinhoodView {
        if self.refresh_due(expected) && Self::granted(reply) is Some {
            let success = Self::granted(reply)->0;
            RobinhoodView {
                token: success.access_token,
                refresh_token: success.refresh_token,
                token_expires_in: success.expires_in,
                ..self
            }
        } else {
            self
        }
    }

    /// What a refresh returns.
    pub open spec fn refresh_outcome(
        self,
        expected: Option<Seq<char>>,
        reply: Result<Json, TransportErrorView>,
    ) -> Result<Option<NewTokenView>, RefreshTokenErrView> {
        if !self.refresh_due(expected) {
            Ok(None)
        } else {
            match reply {
                Ok(body) => if refuses_refresh_token(body) {
                    Err(RefreshTokenErrView::BadRefreshToken(self.refresh_token))
                } else {
                    match LoginSuccessView::of_json(body) {
                        Ok(success) => Ok(
                            Some(
                                NewTokenView {
                                    token: success.access_token,
                                    refresh_token: success.refresh_token,
                                },
                            ),
                        ),
                        Err(fault) => Err(RefreshTokenErrView::WrongResponseBody(fault.message())),
                    }
                },
                Err(cause) => Err(RefreshTokenErrView::RequestError(cause)),
            }
        }
    }
}

/// The outcome of a refresh, seen through views.
pub open spec fn refresh_result_view(
    outcome: Result<Option<NewToken>, RefreshTokenErr>,
) -> Result<Option<NewTokenView>, RefreshTokenErrView> {
    match outcome {
        Ok(Some(pair)) => Ok(Some(pair@)),
        Ok(None) => Ok(None),
        Err(error) => Err(error@),
    }
}

impl Robinhood {
    /// Closes the first step of a login: hands the pending login on where
    /// the reply to its `code_request` says that the code is on its way.
    pub fn mfa_login(
        mfa_client: MfaLogin,
        reply: Result<serde_json::Value, TransportError>,
    ) -> (outcome: Result<MfaLogin, RobinhoodErr>)
        ensures
            match outcome {
                Ok(client) => client == mfa_client && MfaLoginView::code_outcome(
                    reply_view(reply),
                ) is Ok,
                Err(error) => MfaLoginView::code_outcome(reply_view(reply)) == Err::<
                    (),
                    RobinhoodErrView,
                >(error@),
            },
    {
        match mfa_client.request_mfa_code(reply) {
            Ok(_) => Ok(mfa_client),
            Err(error) => Err(error),
        }
    }

    /// A session from tokens that are already at hand. It knows no
    /// credentials, refreshes its token by itself and does not send a failed
    /// request again.
    pub fn token_login(
        token: String,
        refresh_token: String,
        device_token: DeviceToken,
    ) -> (session: Robinhood)
        ensures
            session@ == (RobinhoodView {
                username: None,
                password: None,
                token_expires_in: EXPIRES_IN,
                token: token@,
                refresh_token: refresh_token@,
                device_token,
                user_agent: USER_AGENT@,
                auto_refresh: true,
                retry: false,
                backoff_millis: RETRY_BACKOFF_MILLIS,
            }),
    {
        Robinhood {
            device_token,
            password: None,
            username: None,
            user_agent: USER_AGENT.to_owned(),
            token,
            refresh_token,
            token_expires_in: EXPIRES_IN,
            auto_refresh: true,
            retry: false,
            backoff_millis: RETRY_BACKOFF_MILLIS,
        }
    }

    /// Changes the user agent.
    pub fn change_agent(&mut self, user_agent: String)
        ensures
            final(self)@ == (RobinhoodView { user_agent: user_agent@, ..old(self)@ }),
    {
        self.user_agent = user_agent;
    }

    /// Changes the username and the password.
    pub fn set_credentials(&mut self, username: String, password: String)
        ensures
            final(self)@ == (RobinhoodView {
                username: Some(username@),
                password: Some(password@),
                ..old(self)@
            }),
    {
        self.username = Some(username);
        self.password = Some(password);
    }

    /// Ties the session to another device. The tokens stay as they are.
    pub fn change_device_token(&mut self, device_token: DeviceToken)
        ensures
            final(self)@ == (RobinhoodView { device_token, ..old(self)@ }),
    {
        self.device_token = device_token;
    }

    /// Ties the session to the device whose token `device_token` spells; a
    /// text that spells none leaves the session as it was.
    pub fn change_device_token_str(
        &mut self,
        device_token: String,
    ) -> (changed: Result<(), DeviceTokenErr>)
        ensures
            match changed {
                Ok(_) => uuid_of_text(device_token@) matches Some(value) && final(self)@ == (
                    RobinhoodView { device_token: DeviceToken { value }, ..old(self)@ }
                ),
                Err(_) => uuid_of_text(device_token@) is None && final(self)@ == old(self)@,
            },
    {
        match DeviceToken::parse(device_token.as_str()) {
            Ok(new_device_token) => {
                self.device_token = new_device_token;
                Ok(())
            },
            Err(error) => Err(error),
        }
    }

    pub fn set_token(&mut self, token: String)
        ensures
            final(self)@ == (RobinhoodView { token: token@, ..old(self)@ }),
    {
        self.token = token;
    }

    pub fn set_refresh_token(&mut self, refresh_token: String)
        ensures
            final(self)@ == (RobinhoodView { refresh_token: refresh_token@, ..old(self)@ }),
    {
        self.refresh_token = refresh_token;
    }

    pub fn get_device_token(&self) -> (device_token: DeviceToken)
        ensures
            device_token == self@.device_token,
    {
        self.device_token
    }

    pub fn get_refresh_token(&self) -> (refresh_token: String)
        ensures
            refresh_token@ == self@.refresh_token,
    {
        self.refresh_token.clone()
    }

    pub fn get_token(&self) -> (token: String)
        ensures
            token@ == self@.token,
    {
        self.token.clone()
    }

    /// The lifetime of the access token, in seconds, as the server gave it.
    pub fn get_token_expires_in(&self) -> (seconds: u32)
        ensures
            seconds == self@.token_expires_in,
    {
        self.token_expires_in
    }

    /// Whether a refused access token is answered by a refresh.
    pub fn get_auto_refresh(&self) -> (auto_refresh: bool)
        ensures
            auto_refresh == self@.auto_refresh,
    {
        self.auto_refresh
    }

    /// Whether a request is sent again after a failure that may pass.
    pub fn get_retry(&self) -> (retry: bool)
        ensures
            retry == self@.retry,
    {
        self.retry
    }

    /// How long the session waits before it sends a request again, in
    /// milliseconds.
    pub fn get_backoff_millis(&self) -> (millis: u64)
        ensures
            millis == self@.backoff_millis,
    {
        self.backoff_millis
    }

    /// Says whether a refused access token is answered by a refresh.
    pub fn set_auto_refresh(&mut self, auto_refresh: bool)
        ensures
            final(self)@ == (RobinhoodView { auto_refresh, ..old(self)@ }),
    {
        self.auto_refresh = auto_refresh;
    }

    /// Says whether a request is sent again after a failure that may pass,
    /// and how long to wait before that, in milliseconds.
    pub fn set_retry(&mut self, retry: bool, backoff_millis: u64)
        ensures
            final(self)@ == (RobinhoodView { retry, backoff_millis, ..old(self)@ }),
    {
        self.retry = retry;
        self.backoff_millis = backoff_millis;
    }

    /// Whether a refresh goes ahead for a caller that saw the refresh token
    /// `old_refresh_token`.
    pub fn refresh_due(&self, old_refresh_token: &Option<String>) -> (due: bool)
        ensures
            due == self@.refresh_due(text_of(*old_refresh_token)),
    {
        match old_refresh_token {
            Some(old_token) => self.refresh_token == *old_token,
            None => true,
        }
    }

    /// The request that asks for new tokens, or `None` where the refresh
    /// token has moved on since the caller saw it.
    pub fn refresh_request(
        &self,
        old_refresh_token: &Option<String>,
    ) -> (request: Option<HttpRequest>)
        ensures
            match request {
                Some(made) => self@.refresh_due(text_of(*old_refresh_token))
                    && made@ == self@.refresh_request(),
                None => !self@.refresh_due(text_of(*old_refresh_token)),
            },
    {
        if !self.refresh_due(old_refresh_token) {
            return None;
        }
        let payload = (RefreshTokenPayload {
            client_id: CLIENT_ID.to_owned(),
            device_token: self.device_token,
            grant_type: GrantType::RefreshToken,
            refresh_token: self.refresh_token.clone(),
            scope: Scope::Internal,
            token_type: TokenType::Bearer,
        }).to_value();
        let url = log_in_url();
        Some(set_req_headers(self, HttpRequest::new(ReqKind::Post, url.as_str(), Some(payload))))
    }

    /// Takes in the reply to `refresh_request`. Where the refresh token has
    /// moved on since the caller saw it, nothing happens and `None` comes
    /// back. Else the session takes the tokens and the lifetime that the
    /// reply brings, and hands the new pair out; a reply that brings none
    /// leaves the session as it was.
    pub fn refresh_token(
        &mut self,
        old_refresh_token: Option<String>,
        reply: Result<serde_json::Value, TransportError>,
    ) -> (outcome: Result<Option<NewToken>, RefreshTokenErr>)
        ensures
            final(self)@ == old(self)@.refreshed(
                text_of(old_refresh_token),
                reply_view(reply),
            ),
            refresh_result_view(outcome) == old(self)@.refresh_outcome(
                text_of(old_refresh_token),
                reply_view(reply),
            ),
    {
        if !self.refresh_due(&old_refresh_token) {
            return Ok(None);
        }
        let body = match reply {
            Ok(body) => body,
            Err(cause) => { return Err(RefreshTokenErr::RequestError(cause)); },
        };
        if check_invalid_grant(&body) {
            return Err(RefreshTokenErr::BadRefreshToken(self.refresh_token.clone()));
        }
        let success = match LoginSuccess::from_value(&body) {
            Ok(success) => success,
            Err(fault) => { return Err(RefreshTokenErr::WrongResponseBody(fault.to_message())); },
        };
        let pair = NewToken {
            token: success.access_token.clone(),
            refresh_token: success.refresh_token.clone(),
        };
        self.refresh_token = success.refresh_token;
        self.token = success.access_token;
        self.token_expires_in = success.expires_in;
        Ok(Some(pair))
    }
}

/// A refresh on behalf of a caller who saw a refresh token that the session
/// no longer holds does nothing: it returns `None` and leaves the session,
/// its tokens among the rest, as it was, whatever the reply.
pub proof fn law_stale_refresh_is_skipped(
    session: RobinhoodView,
    stale_token: Seq<char>,
    reply: Result<Json, TransportErrorView>,
)
    requires
        stale_token != session.refresh_token,
    ensures
        session.refresh_outcome(Some(stale_token), reply) == Ok::<
            Option<NewTokenView>,
            RefreshTokenErrView,
        >(None),
        session.refreshed(Some(stale_token), reply) == session,
{
}

/// Of two callers that saw the same refresh token, the one that comes after
/// a refresh which brought another refresh token is turned away: its own
/// refresh returns `None` and leaves in place the tokens that the first one
/// brought.
pub proof fn law_refresh_after_refresh(
    session: RobinhoodView,
    first_reply: Result<Json, TransportErrorView>,
    second_reply: Result<Json, TransportErrorView>,
)
    requires
        session.refresh_outcome(Some(session.refresh_token), first_reply) matches Ok(Some(pair))
            && pair.refresh_token != session.refresh_token,
    ensures
        ({
            let seen = Some(session.refresh_token);
            let moved = session.refreshed(seen, first_reply);
            &&& moved.refresh_outcome(seen, second_reply) == Ok::<
                Option<NewTokenView>,
                RefreshTokenErrView,
            >(None)
            &&& moved.refreshed(seen, second_reply) == moved
        }),
{
}

/// A reply that says `invalid_grant` to a refresh that went ahead gives
/// `BadRefreshToken` with the refresh token that was refused, and leaves
/// the session, its tokens among the rest, as it was.
pub proof fn law_invalid_grant_keeps_tokens(
    session: RobinhoodView,
    expected: Option<Seq<char>>,
    body: Json,
)
    requires
        session.refresh_due(expected),
        refuses_refresh_token(body),
    ensures
        session.refresh_outcome(expected, Ok(body)) == Err::<
            Option<NewTokenView>,
            RefreshTokenErrView,
        >(RefreshTokenErrView::BadRefreshToken(session.refresh_token)),
        session.refreshed(expected, Ok(body)) == session,
{
}

/// A refresh changes the access token only together with the refresh token
/// and the lifetime, to what one reply brought; nothing else in the session
/// changes.
pub proof fn law_refresh_moves_tokens_together(
    session: RobinhoodView,
    expected: Option<Seq<char>>,
    reply: Result<Json, TransportErrorView>,
)
    ensures
        ({
            let after = session.refreshed(expected, reply);
            match session.refresh_outcome(expected, reply) {
                Ok(Some(pair)) => {
                    &&& after.token == pair.token
                    &&& after.refresh_token == pair.refresh_token
                    &&& after == (RobinhoodView {
                        token: after.token,
                        refresh_token: after.refresh_token,
                        token_expires_in: after.token_expires_in,
                        ..session
                    })
                },
                _ => after == session,
            }
        }),
{
}

impl AgentToken for Robinhood {
    open spec fn agent(&self) -> Seq<char> {
        self@.user_agent
    }

    open spec fn bearer(&self) -> Option<Seq<char>> {
        Some(self@.token)
    }

    fn get_user_agent(&self) -> (agent: &str) {
        self.user_agent.as_str()
    }

    fn get_token(&self) -> (token: Option<&str>) {
        Some(self.token.as_str())
    }
}

} // verus!
