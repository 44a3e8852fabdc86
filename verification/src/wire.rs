//! What goes over the wire: the grant requests, the answer to a grant, and
//! the marks by which the server refuses.
use vstd::prelude::*;
use vstd::string::*;
use crate::device::{canonical_text, uuid_of_text, DeviceToken};
use crate::json::{
    insert_member, json_members, json_model, new_object, number_value, object_value,
    optional_member, optional_member_of, optional_text_member, optional_text_member_of,
    text_member, text_member_of, text_value, u32_member, u32_member_of, Json,
};
use crate::error::text_of;
use crate::req::payload_of;
use crate::text::{contains, occurs_in, same_text};

verus! {

/// The kind of grant that a request asks for.
#[derive(Debug, Clone, Copy, PartialEq, Eq, Structural)]
pub enum GrantType {
    Password,
    RefreshToken,
}

/// The scope of a grant.
#[derive(Debug, Clone, Copy, PartialEq, Eq, Structural)]
pub enum Scope {
    Internal,
}

/// The type of an access token.
#[derive(Debug, Clone, Copy, PartialEq, Eq, Structural)]
pub enum TokenType {
    Bearer,
}

impl Default for Scope {
    fn default() -> (scope: Scope)
        ensures
            scope == Scope::Internal,
    {
        Scope::Internal
    }
}

impl Default for TokenType {
    fn default() -> (token_type: TokenType)
        ensures
            token_type == TokenType::Bearer,
    {
        TokenType::Bearer
    }
}

impl GrantType {
    /// The name of the grant type on the wire.
    pub open spec fn wire(self) -> Seq<char> {
        match self {
            GrantType::Password => "password"@,
            GrantType::RefreshToken => "refresh_token"@,
        }
    }

    /// The grant type that goes by `name` on the wire.
    pub open spec fn of_wire(name: Seq<char>) -> Option<GrantType> {
        if name == "password"@ {
            Some(GrantType::Password)
        } else if name == "refresh_token"@ {
            Some(GrantType::RefreshToken)
        } else {
            None
        }
    }

    pub fn wire_name(&self) -> (name: &'static str)
        ensures
            name@ == self.wire(),
    {
        match self {
            GrantType::Password => "password",
            GrantType::RefreshToken => "refresh_token",
        }
    }

    pub fn from_wire_name(name: &str) -> (found: Option<GrantType>)
        ensures
            found == GrantType::of_wire(name@),
    {
        if same_text(name, "password") {
            Some(GrantType::Password)
        } else if same_text(name, "refresh_token") {
            Some(GrantType::RefreshToken)
        } else {
            None
        }
    }
}

impl Scope {
    /// The name of the scope on the wire.
    pub open spec fn wire(self) -> Seq<char> {
        "internal"@
    }

    /// The scope that goes by `name` on the wire.
    pub open spec fn of_wire(name: Seq<char>) -> Option<Scope> {
        if name == "internal"@ {
            Some(Scope::Internal)
        } else {
            None
        }
    }

    pub fn wire_name(&self) -> (name: &'static str)
        ensures
            name@ == self.wire(),
    {
        "internal"
    }

    pub fn from_wire_name(name: &str) -> (found: Option<Scope>)
        ensures
            found == Scope::of_wire(name@),
    {
        if same_text(name, "internal") {
            Some(Scope::Internal)
        } else {
            None
        }
    }
}

impl TokenType {
    /// The name of the token type on the wire.
    pub open spec fn wire(self) -> Seq<char> {
        "Bearer"@
    }

    /// The token type that goes by `name` on the wire.
    pub open spec fn of_wire(name: Seq<char>) -> Option<TokenType> {
        if name == "Bearer"@ {
            Some(TokenType::Bearer)
        } else {
            None
        }
    }

    pub fn wire_name(&self) -> (name: &'static str)
        ensures
            name@ == self.wire(),
    {
        "Bearer"
    }

    pub fn from_wire_name(name: &str) -> (found: Option<TokenType>)
        ensures
            found == TokenType::of_wire(name@),
    {
        if same_text(name, "Bearer") {
            Some(TokenType::Bearer)
        } else {
            None
        }
    }
}

/// Every grant type is read back from its wire name.
pub proof fn lemma_grant_type_wire(grant_type: GrantType)
    ensures
        GrantType::of_wire(grant_type.wire()) == Some(grant_type),
{
    reveal_strlit("password");
    reveal_strlit("refresh_token");
    assert("password"@.len() != "refresh_token"@.len());
}

/// A request for tokens against a username and a password.
#[derive(Debug, Clone, PartialEq, Eq)]
pub struct LogInPayload {
    pub client_id: String,
    pub device_token: DeviceToken,
    pub expires_in: u32,
    pub grant_type: GrantType,
    pub scope: Scope,
    pub username: String,
    pub password: String,
}

pub struct LogInPayloadView {
    pub client_id: Seq<char>,
    pub device_token: DeviceToken,
    pub expires_in: u32,
    pub grant_type: GrantType,
    pub scope: Scope,
    pub username: Seq<char>,
    pub password: Seq<char>,
}

impl View for LogInPayload {
    type V = LogInPayloadView;

    open spec fn view(&self) -> LogInPayloadView {
        LogInPayloadView {
            client_id: self.client_id@,
            device_token: self.device_token,
            expires_in: self.expires_in,
            grant_type: self.grant_type,
            scope: self.scope,
            username: self.username@,
            password: self.password@,
        }
    }
}

impl LogInPayloadView {
    /// The members of the payload on the wire.
    pub open spec fn members(self) -> Map<Seq<char>, Json> {
        Map::<Seq<char>, Json>::empty().insert("client_id"@, Json::Text(self.client_id)).insert(
            "device_token"@,
            Json::Text(canonical_text(self.device_token.value)),
        ).insert("expires_in"@, Json::Integer(self.expires_in as int)).insert(
            "grant_type"@,
            Json::Text(self.grant_type.wire()),
        ).insert("scope"@, Json::Text(self.scope.wire())).insert(
            "username"@,
            Json::Text(self.username),
        ).insert("password"@, Json::Text(self.password))
    }

    /// The payload on the wire: a JSON object of seven members.
    pub open spec fn json(self) -> Json {
        Json::Object(self.members())
    }

    /// The payload that a JSON document stands for, where it stands for one:
    /// an object that holds each of the seven members in its own form.
    /// Members beyond those are passed over.
    pub open spec fn of_json(json: Json) -> Option<LogInPayloadView> {
        match (
            text_member_of(json, "client_id"@),
            text_member_of(json, "device_token"@),
            u32_member_of(json, "expires_in"@),
            text_member_of(json, "grant_type"@),
            text_member_of(json, "scope"@),
            text_member_of(json, "username"@),
            text_member_of(json, "password"@),
        ) {
            (
                Some(client_id),
                Some(device_text),
                Some(expires_in),
                Some(grant_name),
                Some(scope_name),
                Some(username),
                Some(password),
            ) => match (
                uuid_of_text(device_text),
                GrantType::of_wire(grant_name),
                Scope::of_wire(scope_name),
            ) {
                (Some(value), Some(grant_type), Some(scope)) => Some(
                    LogInPayloadView {
                        client_id,
                        device_token: DeviceToken { value },
                        expires_in,
                        grant_type,
                        scope,
                        username,
                        password,
                    },
                ),
                _ => None,
            },
            _ => None,
        }
    }
}

/// The names of the members of a login payload differ from each other, and
/// from the name under which a login code is added.
pub proof fn lemma_login_keys_differ()
    ensures
        "client_id"@ != "device_token"@,
        "client_id"@ != "expires_in"@,
        "client_id"@ != "grant_type"@,
        "client_id"@ != "scope"@,
        "client_id"@ != "username"@,
        "client_id"@ != "password"@,
        "client_id"@ != "mfa_code"@,
        "device_token"@ != "expires_in"@,
        "device_token"@ != "grant_type"@,
        "device_token"@ != "scope"@,
        "device_token"@ != "username"@,
        "device_token"@ != "password"@,
        "device_token"@ != "mfa_code"@,
        "expires_in"@ != "grant_type"@,
        "expires_in"@ != "scope"@,
        "expires_in"@ != "username"@,
        "expires_in"@ != "password"@,
        "expires_in"@ != "mfa_code"@,
        "grant_type"@ != "scope"@,
        "grant_type"@ != "username"@,
        "grant_type"@ != "password"@,
        "grant_type"@ != "mfa_code"@,
        "scope"@ != "username"@,
        "scope"@ != "password"@,
        "scope"@ != "mfa_code"@,
        "username"@ != "password"@,
        "username"@ != "mfa_code"@,
        "password"@ != "mfa_code"@,
{
    reveal_strlit("client_id");
    reveal_strlit("device_token");
    reveal_strlit("expires_in");
    reveal_strlit("grant_type");
    reveal_strlit("scope");
    reveal_strlit("username");
    reveal_strlit("password");
    reveal_strlit("mfa_code");
    assert("client_id"@.len() == 9);
    assert("device_token"@.len() == 12);
    assert("expires_in"@.len() == 10);
    assert("grant_type"@.len() == 10);
    assert("scope"@.len() == 5);
    assert("username"@.len() == 8);
    assert("password"@.len() == 8);
    assert("mfa_code"@.len() == 8);
    assert("expires_in"@[0] != "grant_type"@[0]);
    assert("username"@[0] != "password"@[0]);
    assert("username"@[0] != "mfa_code"@[0]);
    assert("password"@[0] != "mfa_code"@[0]);
}

/// A login payload is read back from its wire form, given that the device
/// token is read back from its canonical text.
proof fn lemma_login_payload_round_trip(payload: LogInPayloadView)
    requires
        uuid_of_text(canonical_text(payload.device_token.value)) == Some(
            payload.device_token.value,
        ),
    ensures
        LogInPayloadView::of_json(payload.json()) == Some(payload),
{
    lemma_login_keys_differ();
    lemma_grant_type_wire(payload.grant_type);
}

impl LogInPayload {
    /// The payload as a JSON value. Reading the value back gives the payload
    /// again, field by field.
    pub fn to_value(&self) -> (value: serde_json::Value)
        ensures
            json_model(value) == self@.json(),
            LogInPayloadView::of_json(json_model(value)) == Some(self@),
    {
        let mut object = new_object();
        assert(json_members(object) =~= Map::<Seq<char>, Json>::empty());
        insert_member(&mut object, "client_id".to_owned(), text_value(self.client_id.clone()));
        insert_member(&mut object, "device_token".to_owned(), text_value(self.device_token.to_text()));
        insert_member(&mut object, "expires_in".to_owned(), number_value(self.expires_in));
        insert_member(
            &mut object,
            "grant_type".to_owned(),
            text_value(self.grant_type.wire_name().to_owned()),
        );
        insert_member(&mut object, "scope".to_owned(), text_value(self.scope.wire_name().to_owned()));
        insert_member(&mut object, "username".to_owned(), text_value(self.username.clone()));
        insert_member(&mut object, "password".to_owned(), text_value(self.password.clone()));
        proof {
            lemma_login_payload_round_trip(self@);
        }
        object_value(object)
    }

    /// Reads a payload from a JSON value: `Some` exactly where the value
    /// stands for a payload.
    pub fn from_value(value: &serde_json::Value) -> (payload: Option<LogInPayload>)
        ensures
            match payload {
                Some(p) => LogInPayloadView::of_json(json_model(*value)) == Some(p@),
                None => LogInPayloadView::of_json(json_model(*value)) is None,
            },
    {
        let client_id = match text_member(value, "client_id") {
            Some(text) => text.to_owned(),
            None => { return None; },
        };
        let device_token = match text_member(value, "device_token") {
            Some(text) => match DeviceToken::parse(text) {
                Ok(token) => token,
                Err(_) => { return None; },
            },
            None => { return None; },
        };
        let expires_in = match u32_member(value, "expires_in") {
            Some(number) => number,
            None => { return None; },
        };
        let grant_type = match text_member(value, "grant_type") {
            Some(text) => match GrantType::from_wire_name(text) {
                Some(grant_type) => grant_type,
                None => { return None; },
            },
            None => { return None; },
        };
        let scope = match text_member(value, "scope") {
            Some(text) => match Scope::from_wire_name(text) {
                Some(scope) => scope,
                None => { return None; },
            },
            None => { return None; },
        };
        let username = match text_member(value, "username") {
            Some(text) => text.to_owned(),
            None => { return None; },
        };
        let password = match text_member(value, "password") {
            Some(text) => text.to_owned(),
            None => { return None; },
        };
        Some(
            LogInPayload {
                client_id,
                device_token,
                expires_in,
                grant_type,
                scope,
                username,
                password,
            },
        )
    }
}

/// A request for new tokens against a refresh token.
#[derive(Debug, Clone, PartialEq, Eq)]
pub struct RefreshTokenPayload {
    pub token_type: TokenType,
    pub scope: Scope,
    pub refresh_token: String,
    pub grant_type: GrantType,
    pub client_id: String,
    pub device_token: DeviceToken,
}

pub struct RefreshTokenPayloadView {
    pub token_type: TokenType,
    pub scope: Scope,
    pub refresh_token: Seq<char>,
    pub grant_type: GrantType,
    pub client_id: Seq<char>,
    pub device_token: DeviceToken,
}

impl View for RefreshTokenPayload {
    type V = RefreshTokenPayloadView;

    open spec fn view(&self) -> RefreshTokenPayloadView {
        RefreshTokenPayloadView {
            token_type: self.token_type,
            scope: self.scope,
            refresh_token: self.refresh_token@,
            grant_type: self.grant_type,
            client_id: self.client_id@,
            device_token: self.device_token,
        }
    }
}

impl RefreshTokenPayloadView {
    /// The members of the payload on the wire.
    pub open spec fn members(self) -> Map<Seq<char>, Json> {
        Map::<Seq<char>, Json>::empty().insert(
            "token_type"@,
            Json::Text(self.token_type.wire()),
        ).insert("scope"@, Json::Text(self.scope.wire())).insert(
            "refresh_token"@,
            Json::Text(self.refresh_token),
        ).insert("grant_type"@, Json::Text(self.grant_type.wire())).insert(
            "client_id"@,
            Json::Text(self.client_id),
        ).insert("device_token"@, Json::Text(canonical_text(self.device_token.value)))
    }

    /// The payload on the wire: a JSON object of six members.
    pub open spec fn json(self) -> Json {
        Json::Object(self.members())
    }
}

impl RefreshTokenPayload {
    /// The payload as a JSON value.
    pub fn to_value(&self) -> (value: serde_json::Value)
        ensures
            json_model(value) == self@.json(),
    {
        let mut object = new_object();
        assert(json_members(object) =~= Map::<Seq<char>, Json>::empty());
        insert_member(
            &mut object,
            "token_type".to_owned(),
            text_value(self.token_type.wire_name().to_owned()),
        );
        insert_member(&mut object, "scope".to_owned(), text_value(self.scope.wire_name().to_owned()));
        insert_member(
            &mut object,
            "refresh_token".to_owned(),
            text_value(self.refresh_token.clone()),
        );
        insert_member(
            &mut object,
            "grant_type".to_owned(),
            text_value(self.grant_type.wire_name().to_owned()),
        );
        insert_member(&mut object, "client_id".to_owned(), text_value(self.client_id.clone()));
        insert_member(&mut object, "device_token".to_owned(), text_value(self.device_token.to_text()));
        object_value(object)
    }
}

/// What the server answers to a grant request that it accepts.
#[derive(Debug, Clone, PartialEq, Eq)]
pub struct LoginSuccess {
    pub access_token: String,
    pub expires_in: u32,
    pub token_type: TokenType,
    pub scope: Scope,
    pub refresh_token: String,
    pub mfa_code: Option<String>,
    pub backup_code: Option<serde_json::Value>,
}

pub struct LoginSuccessView {
    pub access_token: Seq<char>,
    pub expires_in: u32,
    pub token_type: TokenType,
    pub scope: Scope,
    pub refresh_token: Seq<char>,
    pub mfa_code: Option<Seq<char>>,
    pub backup_code: Option<Json>,
}

impl View for LoginSuccess {
    type V = LoginSuccessView;

    open spec fn view(&self) -> LoginSuccessView {
        LoginSuccessView {
            access_token: self.access_token@,
            expires_in: self.expires_in,
            token_type: self.token_type,
            scope: self.scope,
            refresh_token: self.refresh_token@,
            mfa_code: text_of(self.mfa_code),
            backup_code: payload_of(self.backup_code),
        }
    }
}

/// How a response body falls short of a successful login, by the first
/// member that is missing or of the wrong form.
#[derive(Debug, Clone, Copy, PartialEq, Eq, Structural)]
pub enum LoginBodyFault {
    AccessToken,
    ExpiresIn,
    TokenType,
    Scope,
    RefreshToken,
    MfaCode,
}

impl LoginBodyFault {
    /// The name of the member at fault.
    pub open spec fn member(self) -> Seq<char> {
        match self {
            LoginBodyFault::AccessToken => "access_token"@,
            LoginBodyFault::ExpiresIn => "expires_in"@,
            LoginBodyFault::TokenType => "token_type"@,
            LoginBodyFault::Scope => "scope"@,
            LoginBodyFault::RefreshToken => "refresh_token"@,
            LoginBodyFault::MfaCode => "mfa_code"@,
        }
    }

    /// What an error says of a body with this fault.
    pub open spec fn message(self) -> Seq<char> {
        "Failed to serialize successful login response body: (missing or malformed member `"@
            + self.member() + "`)"@
    }

    pub fn member_name(&self) -> (name: &'static str)
        ensures
            name@ == self.member(),
    {
        match self {
            LoginBodyFault::AccessToken => "access_token",
            LoginBodyFault::ExpiresIn => "expires_in",
            LoginBodyFault::TokenType => "token_type",
            LoginBodyFault::Scope => "scope",
            LoginBodyFault::RefreshToken => "refresh_token",
            LoginBodyFault::MfaCode => "mfa_code",
        }
    }

    /// What an error says of a body with this fault.
    pub fn to_message(&self) -> (text: String)
        ensures
            text@ == self.message(),
    {
        String::from_str(
            "Failed to serialize successful login response body: (missing or malformed member `",
        ).concat(self.member_name()).concat("`)")
    }
}

impl LoginSuccessView {
    /// The successful login that a response body stands for, or the first
    /// member at which it falls short. The body must be an object with the
    /// texts `access_token` and `refresh_token`, the number `expires_in`
    /// within 32 bits, `token_type` "Bearer" and `scope` "internal";
    /// `mfa_code` is a text, null or left out, `backup_code` is anything.
    /// Members beyond those are passed over.
    pub open spec fn of_json(json: Json) -> Result<LoginSuccessView, LoginBodyFault> {
        if text_member_of(json, "access_token"@) is None {
            Err(LoginBodyFault::AccessToken)
        } else if u32_member_of(json, "expires_in"@) is None {
            Err(LoginBodyFault::ExpiresIn)
        } else if !(text_member_of(json, "token_type"@) matches Some(name) && TokenType::of_wire(
            name,
        ) is Some) {
            Err(LoginBodyFault::TokenType)
        } else if !(text_member_of(json, "scope"@) matches Some(name) && Scope::of_wire(name)
            is Some) {
            Err(LoginBodyFault::Scope)
        } else if text_member_of(json, "refresh_token"@) is None {
            Err(LoginBodyFault::RefreshToken)
        } else if optional_text_member_of(json, "mfa_code"@) is None {
            Err(LoginBodyFault::MfaCode)
        } else {
            Ok(
                LoginSuccessView {
                    access_token: text_member_of(json, "access_token"@)->0,
                    expires_in: u32_member_of(json, "expires_in"@)->0,
                    token_type: TokenType::Bearer,
                    scope: Scope::Internal,
                    refresh_token: text_member_of(json, "refresh_token"@)->0,
                    mfa_code: optional_text_member_of(json, "mfa_code"@)->0,
                    backup_code: optional_member_of(json, "backup_code"@),
                },
            )
        }
    }
}

impl LoginSuccess {
    /// Reads a successful login from a response body.
    pub fn from_value(body: &serde_json::Value) -> (read: Result<LoginSuccess, LoginBodyFault>)
        ensures
            match read {
                Ok(success) => LoginSuccessView::of_json(json_model(*body)) == Ok::<
                    LoginSuccessView,
                    LoginBodyFault,
                >(success@),
                Err(fault) => LoginSuccessView::of_json(json_model(*body)) == Err::<
                    LoginSuccessView,
                    LoginBodyFault,
                >(fault),
            },
    {
        let access_token = match text_member(body, "access_token") {
            Some(text) => text.to_owned(),
            None => { return Err(LoginBodyFault::AccessToken); },
        };
        let expires_in = match u32_member(body, "expires_in") {
            Some(number) => number,
            None => { return Err(LoginBodyFault::ExpiresIn); },
        };
        let token_type = match text_member(body, "token_type") {
            Some(text) => match TokenType::from_wire_name(text) {
                Some(token_type) => token_type,
                None => { return Err(LoginBodyFault::TokenType); },
            },
            None => { return Err(LoginBodyFault::TokenType); },
        };
        let scope = match text_member(body, "scope") {
            Some(text) => match Scope::from_wire_name(text) {
                Some(scope) => scope,
                None => { return Err(LoginBodyFault::Scope); },
            },
            None => { return Err(LoginBodyFault::Scope); },
        };
        let refresh_token = match text_member(body, "refresh_token") {
            Some(text) => text.to_owned(),
            None => { return Err(LoginBodyFault::RefreshToken); },
        };
        let mfa_code = match optional_text_member(body, "mfa_code") {
            Ok(code) => code,
            Err(_) => { return Err(LoginBodyFault::MfaCode); },
        };
        let backup_code = optional_member(body, "backup_code");
        Ok(
            LoginSuccess {
                access_token,
                expires_in,
                token_type,
                scope,
                refresh_token,
                mfa_code,
                backup_code,
            },
        )
    }
}

/// The text by which the server says that it refused the username or the
/// password.
pub const INVALID_CREDENTIALS_DETAIL: &'static str = "Unable to log in with provided credentials";

/// The text by which the server says that it refused the refresh token.
pub const INVALID_GRANT: &'static str = "invalid_grant";

/// Whether a response body says that the credentials were refused: it is an
/// object whose member `detail` is a text in which the refusal stands.
pub open spec fn refuses_credentials(body: Json) -> bool {
    text_member_of(body, "detail"@) matches Some(detail) && occurs_in(
        detail,
        INVALID_CREDENTIALS_DETAIL@,
    )
}

/// Whether a response body says that the refresh token was refused: it is
/// an object whose member `error` is the text `invalid_grant`.
pub open spec fn refuses_refresh_token(body: Json) -> bool {
    text_member_of(body, "error"@) == Some(INVALID_GRANT@)
}

pub fn check_invalid_creds(body: &serde_json::Value) -> (refused: bool)
    ensures
        refused == refuses_credentials(json_model(*body)),
{
    match text_member(body, "detail") {
        Some(detail) => contains(detail, INVALID_CREDENTIALS_DETAIL),
        None => false,
    }
}

pub fn check_invalid_grant(body: &serde_json::Value) -> (refused: bool)
    ensures
        refused == refuses_refresh_token(json_model(*body)),
{
    match text_member(body, "error") {
        Some(error) => same_text(error, INVALID_GRANT),
        None => false,
    }
}

} // verus!
