//! What can go wrong, and what each failure says.
use vstd::prelude::*;
use vstd::string::*;

verus! {

/// The text of an optional string.
pub open spec fn text_of(text: Option<String>) -> Option<Seq<char>> {
    match text {
        Some(t) => Some(t@),
        None => None,
    }
}

/// A result with its error seen through its view.
pub open spec fn err_view<T, E: View>(result: Result<T, E>) -> Result<T, E::V> {
    match result {
        Ok(value) => Ok(value),
        Err(error) => Err(error@),
    }
}

/// A result with its value and its error seen through their views.
pub open spec fn result_view<T: View, E: View>(result: Result<T, E>) -> Result<T::V, E::V> {
    match result {
        Ok(value) => Ok(value@),
        Err(error) => Err(error@),
    }
}

/// A failure of the transport: a request that brought no usable response.
#[derive(Debug, Clone, PartialEq, Eq)]
pub struct TransportError {
    /// The HTTP status, where the failure came with one.
    pub status: Option<u16>,
    /// The URL that was asked for, where it is known.
    pub url: Option<String>,
    /// Whether the connection could not be made.
    pub connect: bool,
    /// Whether the request ran out of time.
    pub timeout: bool,
    /// What the transport said of the failure.
    pub message: String,
}

pub struct TransportErrorView {
    pub status: Option<u16>,
    pub url: Option<Seq<char>>,
    pub connect: bool,
    pub timeout: bool,
    pub message: Seq<char>,
}

impl View for TransportError {
    type V = TransportErrorView;

    open spec fn view(&self) -> TransportErrorView {
        TransportErrorView {
            status: self.status,
            url: text_of(self.url),
            connect: self.connect,
            timeout: self.timeout,
            message: self.message@,
        }
    }
}

/// A failed call on an authenticated session, or a failed request for a
/// login code.
#[derive(Debug, Clone, PartialEq, Eq)]
pub enum RobinhoodErr {
    /// The server refused the access token, and no new one could be had.
    Unauthorized,
    /// The server does not know the URL.
    NotFound(String),
    NetworkError(String),
    /// The transport failed.
    RequestError(TransportError),
    /// A price that is not a whole number.
    ParseIntError(String),
    /// The server refused the username or the password.
    InvalidCredentials,
    /// A response of another shape than expected.
    BadResponseBody(String),
    /// The server refused the refresh token.
    BadRefreshToken(String),
}

pub enum RobinhoodErrView {
    Unauthorized,
    NotFound(Seq<char>),
    NetworkError(Seq<char>),
    RequestError(TransportErrorView),
    ParseIntError(Seq<char>),
    InvalidCredentials,
    BadResponseBody(Seq<char>),
    BadRefreshToken(Seq<char>),
}

impl View for RobinhoodErr {
    type V = RobinhoodErrView;

    open spec fn view(&self) -> RobinhoodErrView {
        match self {
            RobinhoodErr::Unauthorized => RobinhoodErrView::Unauthorized,
            RobinhoodErr::NotFound(url) => RobinhoodErrView::NotFound(url@),
            RobinhoodErr::NetworkError(text) => RobinhoodErrView::NetworkError(text@),
            RobinhoodErr::RequestError(cause) => RobinhoodErrView::RequestError(cause@),
            RobinhoodErr::ParseIntError(text) => RobinhoodErrView::ParseIntError(text@),
            RobinhoodErr::InvalidCredentials => RobinhoodErrView::InvalidCredentials,
            RobinhoodErr::BadResponseBody(text) => RobinhoodErrView::BadResponseBody(text@),
            RobinhoodErr::BadRefreshToken(token) => RobinhoodErrView::BadRefreshToken(token@),
        }
    }
}

impl RobinhoodErrView {
    /// What the error says.
    pub open spec fn message(self) -> Seq<char> {
        match self {
            RobinhoodErrView::Unauthorized => "Unauthorized request 401"@,
            RobinhoodErrView::NotFound(url) => "404 NOT FOUND URL: "@ + url,
            RobinhoodErrView::NetworkError(text) => text,
            RobinhoodErrView::RequestError(cause) => cause.message,
            RobinhoodErrView::ParseIntError(text) => text,
            RobinhoodErrView::InvalidCredentials => "Invalid username/password"@,
            RobinhoodErrView::BadResponseBody(text) => text,
            RobinhoodErrView::BadRefreshToken(token) => "The refresh token '"@ + token
                + "' is no longer valid"@,
        }
    }
}

impl RobinhoodErr {
    /// What the error says.
    pub fn message(&self) -> (text: String)
        ensures
            text@ == self@.message(),
    {
        match self {
            RobinhoodErr::Unauthorized => String::from_str("Unauthorized request 401"),
            RobinhoodErr::NotFound(url) => String::from_str("404 NOT FOUND URL: ").concat(
                url.as_str(),
            ),
            RobinhoodErr::NetworkError(text) => text.clone(),
            RobinhoodErr::RequestError(cause) => cause.message.clone(),
            RobinhoodErr::ParseIntError(text) => text.clone(),
            RobinhoodErr::InvalidCredentials => String::from_str("Invalid username/password"),
            RobinhoodErr::BadResponseBody(text) => text.clone(),
            RobinhoodErr::BadRefreshToken(token) => String::from_str("The refresh token '").concat(
                token.as_str(),
            ).concat("' is no longer valid"),
        }
    }
}

/// A failed redemption of a login code.
#[derive(Debug, Clone, PartialEq, Eq)]
pub enum LoginErr {
    /// The transport failed.
    RequestError(TransportError),
    BadLoginBody(String),
    /// The login payload is not a JSON object.
    EmptyLoginBody,
    /// The login payload holds no code though one was added.
    MissingMfaCode,
    /// The server refused the username or the password.
    InvalidCredentials,
    /// A response of another shape than a successful login.
    BadResponseBody(String),
}

pub enum LoginErrView {
    RequestError(TransportErrorView),
    BadLoginBody(Seq<char>),
    EmptyLoginBody,
    MissingMfaCode,
    InvalidCredentials,
    BadResponseBody(Seq<char>),
}

impl View for LoginErr {
    type V = LoginErrView;

    open spec fn view(&self) -> LoginErrView {
        match self {
            LoginErr::RequestError(cause) => LoginErrView::RequestError(cause@),
            LoginErr::BadLoginBody(text) => LoginErrView::BadLoginBody(text@),
            LoginErr::EmptyLoginBody => LoginErrView::EmptyLoginBody,
            LoginErr::MissingMfaCode => LoginErrView::MissingMfaCode,
            LoginErr::InvalidCredentials => LoginErrView::InvalidCredentials,
            LoginErr::BadResponseBody(text) => LoginErrView::BadResponseBody(text@),
        }
    }
}

impl LoginErrView {
    /// What the error says.
    pub open spec fn message(self) -> Seq<char> {
        match self {
            LoginErrView::RequestError(cause) => cause.message,
            LoginErrView::BadLoginBody(text) => "Failed to serialize login payload ("@ + text
                + ")"@,
            LoginErrView::EmptyLoginBody =>
                "Log in payload is empty. This should never happen. Something went terrible wrong"@,
            LoginErrView::MissingMfaCode =>
                "Mfa code was not added to the request body correctly"@,
            LoginErrView::InvalidCredentials => "Invalid username/password"@,
            LoginErrView::BadResponseBody(text) => text,
        }
    }
}

impl LoginErr {
    /// What the error says.
    pub fn message(&self) -> (text: String)
        ensures
            text@ == self@.message(),
    {
        match self {
            LoginErr::RequestError(cause) => cause.message.clone(),
            LoginErr::BadLoginBody(text) => String::from_str(
                "Failed to serialize login payload (",
            ).concat(text.as_str()).concat(")"),
            LoginErr::EmptyLoginBody => String::from_str(
                "Log in payload is empty. This should never happen. Something went terrible wrong",
            ),
            LoginErr::MissingMfaCode => String::from_str(
                "Mfa code was not added to the request body correctly",
            ),
            LoginErr::InvalidCredentials => String::from_str("Invalid username/password"),
            LoginErr::BadResponseBody(text) => text.clone(),
        }
    }
}

/// A failed token refresh.
#[derive(Debug, Clone, PartialEq, Eq)]
pub enum RefreshTokenErr {
    /// The transport failed.
    RequestError(TransportError),
    /// The server refused the refresh token, which is held here: only a new
    /// login helps.
    BadRefreshToken(String),
    /// A response of another shape than a successful login.
    WrongResponseBody(String),
}

pub enum RefreshTokenErrView {
    RequestError(TransportErrorView),
    BadRefreshToken(Seq<char>),
    WrongResponseBody(Seq<char>),
}

impl View for RefreshTokenErr {
    type V = RefreshTokenErrView;

    open spec fn view(&self) -> RefreshTokenErrView {
        match self {
            RefreshTokenErr::RequestError(cause) => RefreshTokenErrView::RequestError(cause@),
            RefreshTokenErr::BadRefreshToken(token) => RefreshTokenErrView::BadRefreshToken(token@),
            RefreshTokenErr::WrongResponseBody(text) => RefreshTokenErrView::WrongResponseBody(
                text@,
            ),
        }
    }
}

impl RefreshTokenErrView {
    /// What the error says.
    pub open spec fn message(self) -> Seq<char> {
        match self {
            RefreshTokenErrView::RequestError(cause) => cause.message,
            RefreshTokenErrView::BadRefreshToken(token) => "The refresh token '"@ + token
                + "' is no longer valid"@,
            RefreshTokenErrView::WrongResponseBody(text) => text,
        }
    }
}

impl RefreshTokenErr {
    /// What the error says.
    pub fn message(&self) -> (text: String)
        ensures
            text@ == self@.message(),
    {
        match self {
            RefreshTokenErr::RequestError(cause) => cause.message.clone(),
            RefreshTokenErr::BadRefreshToken(token) => String::from_str(
                "The refresh token '",
            ).concat(token.as_str()).concat("' is no longer valid"),
            RefreshTokenErr::WrongResponseBody(text) => text.clone(),
        }
    }
}

} // verus!
