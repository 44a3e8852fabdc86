//! A client-side model of a brokerage's REST session: the multi-factor login
//! handshake, token refresh, and the decisions of a resilient request
//! dispatcher. Nothing here touches the network: every operation either
//! describes a request to be sent or interprets what came back.
use vstd::prelude::*;
use crate::device::DeviceToken;
use crate::error::RobinhoodErrView;
use crate::login::{reply_view, MfaLoginView, RobinhoodView};
pub use crate::error::{LoginErr, RefreshTokenErr, RobinhoodErr, TransportError};
pub use crate::login::{MfaLogin, Robinhood};

pub mod device;
pub mod error;
pub mod json;
pub mod login;
pub mod queries;
pub mod req;
pub mod text;
pub mod wire;

verus! {

/// Base URL of the API.
pub const ROBINHOOD_API_URL: &'static str = "https://api.robinhood.com/";

/// Path of the token endpoint, used for login and for refresh.
pub const LOG_IN_PATH: &'static str = "oauth2/token/";

/// Path of the quotes endpoint.
pub const QUOTES_PATH: &'static str = "quotes/";

/// The client identifier every grant request carries.
pub const CLIENT_ID: &'static str = "c82SH0WZOsabOXGP2sxqcj34FxkvfnWRZBKlBjFS";

/// The token lifetime, in seconds, that every password grant asks for.
pub const EXPIRES_IN: u32 = 86400;

/// The user agent of a fresh login or session.
pub const USER_AGENT: &'static str =
    "Mozilla/5.0 (Windows NT 10.0; Win64; x64) AppleWebKit/537.36 (KHTML, like Gecko) Chrome/88.0.4324.182 Safari/537.36 Edg/88.0.705.81";

/// How long a session waits before it sends a failed request again, in
/// milliseconds, unless told otherwise.
pub const RETRY_BACKOFF_MILLIS: u64 = 500;

/// Closes the first step of a login: hands the pending login on where the
/// reply to its request for a code says that the code is on its way.
pub fn mfa_login(
    mfa_client: MfaLogin,
    reply: Result<serde_json::Value, TransportError>,
) -> (outcome: Result<MfaLogin, RobinhoodErr>)
    ensures
        match outcome {
            Ok(client) => client == mfa_client && MfaLoginView::code_outcome(reply_view(reply))
                is Ok,
            Err(error) => MfaLoginView::code_outcome(reply_view(reply)) == Err::<
                (),
                RobinhoodErrView,
            >(error@),
        },
{
    Robinhood::mfa_login(mfa_client, reply)
}

/// A session from tokens that are already at hand.
pub fn token_login(
    token: String,
    refresh_token: String,
    device_token: DeviceToken,
) -> (session: Robinhood)
    ensures
        session@ == (RobinhoodView {
            username: None,
            password: None,
            token_expires_in: EXPIRES_IN,
            token: token@,
            refresh_token: refresh_token@,
            device_token,
            user_agent: USER_AGENT@,
            auto_refresh: true,
            retry: false,
            backoff_millis: RETRY_BACKOFF_MILLIS,
        }),
{
    Robinhood::token_login(token, refresh_token, device_token)
}

} // verus!
