//! Logging in: a user whose operating-system credentials are accepted gets
//! a signed token that expires a day later and is recorded in the token
//! store. The token is signed with the SHA-256 digest of the password.
//!
//! The caller performs each action (authentication, token encoding,
//! storage) and reports the outcome as an event; `login_step` decides what
//! comes next and what the client is answered.
use vstd::prelude::*;
use vstd::utf8::encode_utf8;
use crate::routes::{STATUS_INTERNAL_SERVER_ERROR, STATUS_OK, STATUS_UNAUTHORIZED};
use crate::text::concat_str;

verus! {

/// Seconds a token stays valid.
pub const TOKEN_LIFETIME_SECS: usize = 86400;

/// The credentials a client sends.
#[derive(Debug, Clone, PartialEq, Eq)]
pub struct LoginRequest {
    pub username: String,
    pub password: String,
}

/// The claims of a token: its subject (the user name) and its expiry, in
/// seconds since the Unix epoch.
#[derive(Debug, Clone, PartialEq, Eq)]
pub struct Claims {
    pub sub: String,
    pub exp: usize,
}

/// The answer to a login: the token (empty unless the login succeeded) and
/// a status message.
#[derive(Debug, Clone, PartialEq, Eq)]
pub struct LoginResponse {
    pub token: String,
    pub status: String,
}

/// Where a login stands.
#[derive(Debug, Clone, PartialEq, Eq)]
pub enum LoginState {
    Authenticating { username: String, password: String },
    Encoding { username: String },
    Storing { username: String, token: String },
    Finished,
}

/// What the caller observed after performing the last action.
#[derive(Debug, Clone, PartialEq, Eq)]
pub enum LoginEvent {
    /// The credentials were accepted; the clock read `now_secs` seconds
    /// since the Unix epoch.
    Authenticated { now_secs: usize },
    AuthenticationFailed(String),
    TokenEncoded(String),
    TokenStored,
    StoreFailed(String),
}

/// What the caller is to do next.
#[derive(Debug, Clone, PartialEq, Eq)]
pub enum LoginAction {
    /// Check the credentials with the operating system.
    Authenticate { username: String, password: String },
    /// Sign the claims with the secret (default header, HMAC-SHA256).
    EncodeToken { claims: Claims, secret: Vec<u8> },
    /// Record the token for the user, replacing an earlier one.
    StoreToken { username: String, token: String },
    /// Answer the client.
    Respond { status_code: u16, body: LoginResponse },
}

/// The SHA-256 digest of a byte sequence.
pub uninterp spec fn sha256_digest(data: Seq<u8>) -> Seq<u8>;

/// Wraps `sha2::Sha256::digest`: the SHA-256 digest of the bytes, which is
/// 32 bytes long.
#[verifier::external_body]
fn sha256(data: &[u8]) -> (digest: Vec<u8>)
    ensures
        digest@ == sha256_digest(data@),
        digest@.len() == 32,
{
    <sha2::Sha256 as sha2::Digest>::digest(data).to_vec()
}

/// The signing secret for a password: the SHA-256 digest of its UTF-8 bytes.
pub open spec fn secret_for(password: Seq<char>) -> Seq<u8> {
    sha256_digest(encode_utf8(password))
}

/// The answer is the given status code with an empty token and the given
/// message.
pub open spec fn is_refusal(action: LoginAction, code: u16, msg: Seq<char>) -> bool {
    action matches LoginAction::Respond { status_code, body } && status_code == code
        && body.token@.len() == 0 && body.status@ == msg
}

/// The events that the caller can observe in each state. A clock reading
/// must leave room for the token lifetime.
pub open spec fn login_fits(state: LoginState, event: LoginEvent) -> bool {
    match state {
        LoginState::Authenticating { .. } => match event {
            LoginEvent::Authenticated { now_secs } => now_secs + TOKEN_LIFETIME_SECS <= usize::MAX,
            LoginEvent::AuthenticationFailed(_) => true,
            _ => false,
        },
        LoginState::Encoding { .. } => event is TokenEncoded,
        LoginState::Storing { .. } => event is TokenStored || event is StoreFailed,
        LoginState::Finished => false,
    }
}

/// One step of a login, over plain values.
pub open spec fn login_transition(
    state: LoginState,
    event: LoginEvent,
    next: LoginState,
    action: LoginAction,
) -> bool {
    match state {
        LoginState::Authenticating { username, password } => match event {
            LoginEvent::Authenticated { now_secs } => {
                &&& next matches LoginState::Encoding { username: u } && u@ == username@
                &&& action matches LoginAction::EncodeToken { claims, secret } && claims.sub@
                    == username@ && claims.exp == now_secs + TOKEN_LIFETIME_SECS && secret@
                    == secret_for(password@)
            },
            LoginEvent::AuthenticationFailed(e) => {
                &&& next is Finished
                &&& is_refusal(action, STATUS_UNAUTHORIZED, "인증 실패: "@ + e@)
            },
            _ => false,
        },
        LoginState::Encoding { username } => match event {
            LoginEvent::TokenEncoded(t) => {
                &&& next matches LoginState::Storing { username: u, token } && u@ == username@
                    && token@ == t@
                &&& action matches LoginAction::StoreToken { username: u, token } && u@
                    == username@ && token@ == t@
            },
            _ => false,
        },
        LoginState::Storing { username, token } => match event {
            LoginEvent::TokenStored => {
                &&& next is Finished
                &&& action matches LoginAction::Respond { status_code, body } && status_code
                    == STATUS_OK && body.token@ == token@ && body.status@ == "success"@
            },
            LoginEvent::StoreFailed(e) => {
                &&& next is Finished
                &&& is_refusal(action, STATUS_INTERNAL_SERVER_ERROR, "데이터베이스 오류: "@ + e@)
            },
            _ => false,
        },
        LoginState::Finished => false,
    }
}

/// Starts a login: the credentials are checked first.
pub fn login_start(login: LoginRequest) -> (r: (LoginState, LoginAction))
    ensures
        r.0 matches LoginState::Authenticating { username, password } && username@
            == login.username@ && password@ == login.password@,
        r.1 matches LoginAction::Authenticate { username, password } && username@
            == login.username@ && password@ == login.password@,
{
    let action = LoginAction::Authenticate {
        username: login.username.clone(),
        password: login.password.clone(),
    };
    (LoginState::Authenticating { username: login.username, password: login.password }, action)
}

/// Decides the next action of a login from what the caller observed.
pub fn login_step(state: LoginState, event: LoginEvent) -> (r: (LoginState, LoginAction))
    requires
        login_fits(state, event),
    ensures
        login_transition(state, event, r.0, r.1),
{
    match (state, event) {
        (
            LoginState::Authenticating { username, password },
            LoginEvent::Authenticated { now_secs },
        ) => {
            let secret = sha256(password.as_str().as_bytes());
            let claims = Claims { sub: username.clone(), exp: now_secs + TOKEN_LIFETIME_SECS };
            (LoginState::Encoding { username }, LoginAction::EncodeToken { claims, secret })
        },
        (LoginState::Authenticating { .. }, LoginEvent::AuthenticationFailed(e)) => (
            LoginState::Finished,
            LoginAction::Respond {
                status_code: STATUS_UNAUTHORIZED,
                body: LoginResponse {
                    token: String::new(),
                    status: concat_str("인증 실패: ", e.as_str()),
                },
            },
        ),
        (LoginState::Encoding { username }, LoginEvent::TokenEncoded(token)) => {
            let stored = LoginAction::StoreToken { username: username.clone(), token: token.clone() };
            (LoginState::Storing { username, token }, stored)
        },
        (LoginState::Storing { token, .. }, LoginEvent::TokenStored) => (
            LoginState::Finished,
            LoginAction::Respond {
                status_code: STATUS_OK,
                body: LoginResponse { token, status: String::from_str("success") },
            },
        ),
        (LoginState::Storing { .. }, LoginEvent::StoreFailed(e)) => (
            LoginState::Finished,
            LoginAction::Respond {
                status_code: STATUS_INTERNAL_SERVER_ERROR,
                body: LoginResponse {
                    token: String::new(),
                    status: concat_str("데이터베이스 오류: ", e.as_str()),
                },
            },
        ),
        _ => vstd::pervasive::unreached(),
    }
}

/// How many events at most are still to come in a state.
pub open spec fn login_rank(state: LoginState) -> nat {
    match state {
        LoginState::Authenticating { .. } => 3,
        LoginState::Encoding { .. } => 2,
        LoginState::Storing { .. } => 1,
        LoginState::Finished => 0,
    }
}

/// A run of a login for the given credentials: `states[0]` is the start,
/// and each event `events[i]` moves `states[i]` to `states[i + 1]` with
/// action `actions[i]`.
pub open spec fn login_run(
    username: Seq<char>,
    password: Seq<char>,
    states: Seq<LoginState>,
    events: Seq<LoginEvent>,
    actions: Seq<LoginAction>,
) -> bool {
    &&& states.len() == events.len() + 1
    &&& actions.len() == events.len()
    &&& states[0] matches LoginState::Authenticating { username: u, password: p } && u@ == username
        && p@ == password
    &&& forall|i: int|
        0 <= i < events.len() ==> login_fits(states[i], #[trigger] events[i]) && login_transition(
            states[i],
            events[i],
            states[i + 1],
            actions[i],
        )
}

/// The user named by a state that is still in progress.
pub open spec fn state_user(state: LoginState) -> Option<Seq<char>> {
    match state {
        LoginState::Authenticating { username, .. } => Some(username@),
        LoginState::Encoding { username } => Some(username@),
        LoginState::Storing { username, .. } => Some(username@),
        LoginState::Finished => None,
    }
}

proof fn lemma_login_prefix(
    username: Seq<char>,
    password: Seq<char>,
    states: Seq<LoginState>,
    events: Seq<LoginEvent>,
    actions: Seq<LoginAction>,
    i: int,
)
    requires
        login_run(username, password, states, events, actions),
        0 <= i < states.len(),
    ensures
        login_rank(states[i]) + i <= 3,
        state_user(states[i]) is Some ==> state_user(states[i]) == Some(username),
        states[i] matches LoginState::Authenticating { password: p, .. } ==> p@ == password,
        i > 0 ==> !(states[i] is Authenticating),
        states[i] matches LoginState::Storing { token, .. } ==> (i > 0 && (
        actions[i - 1] matches LoginAction::StoreToken { token: t, .. } && t@ == token@) && (
        events[i - 1] matches LoginEvent::TokenEncoded(t) && t@ == token@)),
    decreases i,
{
    if i > 0 {
        lemma_login_prefix(username, password, states, events, actions, i - 1);
        assert(login_fits(states[i - 1], events[i - 1]));
    }
}

/// Every step of a login lowers the rank, so a login ends after at most
/// three events.
pub proof fn lemma_login_terminates(
    username: Seq<char>,
    password: Seq<char>,
    states: Seq<LoginState>,
    events: Seq<LoginEvent>,
    actions: Seq<LoginAction>,
)
    requires
        login_run(username, password, states, events, actions),
    ensures
        events.len() <= 3,
{
    if events.len() > 3 {
        lemma_login_prefix(username, password, states, events, actions, 3);
        assert(login_fits(states[3], events[3]));
    }
}

/// What a login hands out: tokens are signed for the user who logged in,
/// with the digest of that user's password, and stored under that user;
/// a successful answer carries exactly the token that was stored just
/// before, and only a stored token is ever answered with status 200; every
/// other answer carries an empty token.
pub proof fn lemma_login_token_flow(
    username: Seq<char>,
    password: Seq<char>,
    states: Seq<LoginState>,
    events: Seq<LoginEvent>,
    actions: Seq<LoginAction>,
)
    requires
        login_run(username, password, states, events, actions),
    ensures
        forall|i: int|
            0 <= i < actions.len() && (#[trigger] actions[i] is EncodeToken) ==> (
            actions[i] matches LoginAction::EncodeToken { claims, secret } && claims.sub@
                == username && secret@ == secret_for(password)),
        forall|i: int|
            0 <= i < actions.len() && (#[trigger] actions[i] is StoreToken) ==> (
            actions[i] matches LoginAction::StoreToken { username: u, .. } && u@ == username),
        forall|i: int|
            0 <= i < actions.len() && (#[trigger] actions[i] matches LoginAction::Respond {
                status_code,
                ..
            } && status_code == STATUS_OK) ==> (i > 0 && (
            actions[i] matches LoginAction::Respond { body, .. } && actions[i
                - 1] matches LoginAction::StoreToken { token, .. } && token@ == body.token@)
                && events[i] is TokenStored),
        forall|i: int|
            0 <= i < actions.len() && (#[trigger] actions[i] matches LoginAction::Respond {
                status_code,
                ..
            } && status_code != STATUS_OK) ==> (actions[i] matches LoginAction::Respond {
                body,
                ..
            } && body.token@.len() == 0),
{
    assert forall|i: int| 0 <= i < actions.len() && (#[trigger] actions[i] is EncodeToken) implies (
    actions[i] matches LoginAction::EncodeToken { claims, secret } && claims.sub@ == username
        && secret@ == secret_for(password)) by {
        lemma_login_prefix(username, password, states, events, actions, i);
        assert(login_fits(states[i], events[i]));
    }
    assert forall|i: int| 0 <= i < actions.len() && (#[trigger] actions[i] is StoreToken) implies (
    actions[i] matches LoginAction::StoreToken { username: u, .. } && u@ == username) by {
        lemma_login_prefix(username, password, states, events, actions, i);
        assert(login_fits(states[i], events[i]));
    }
    assert forall|i: int|
        0 <= i < actions.len() && (#[trigger] actions[i] matches LoginAction::Respond {
            status_code,
            ..
        } && status_code == STATUS_OK) implies (i > 0 && (
    actions[i] matches LoginAction::Respond { body, .. } && actions[i
        - 1] matches LoginAction::StoreToken { token, .. } && token@ == body.token@)
        && events[i] is TokenStored) by {
        lemma_login_prefix(username, password, states, events, actions, i);
        assert(login_fits(states[i], events[i]));
    }
    assert forall|i: int|
        0 <= i < actions.len() && (#[trigger] actions[i] matches LoginAction::Respond {
            status_code,
            ..
        } && status_code != STATUS_OK) implies (actions[i] matches LoginAction::Respond {
        body,
        ..
    } && body.token@.len() == 0) by {
        assert(login_fits(states[i], events[i]));
    }
}

/// What each observation leads to in a login:
/// - accepted credentials at time `now` lead to claims for the user that
///   expire 86400 seconds (one day) after `now`, signed with the SHA-256
///   digest of the UTF-8 bytes of the password;
/// - an encoded token `t` is stored as `t` under the user, and once it is
///   stored the answer is status 200 carrying exactly `t` and "success";
/// - refused credentials are answered with status 401 and a failed store
///   with status 500, both with an empty token;
/// - a status 200 answer comes only right after the token it carries was
///   encoded and then stored.
pub proof fn lemma_login_observations(
    username: Seq<char>,
    password: Seq<char>,
    states: Seq<LoginState>,
    events: Seq<LoginEvent>,
    actions: Seq<LoginAction>,
)
    requires
        login_run(username, password, states, events, actions),
    ensures
        forall|i: int|
            0 <= i < events.len() && (#[trigger] events[i] matches LoginEvent::Authenticated {
                now_secs,
            }) ==> (events[i] matches LoginEvent::Authenticated { now_secs } && actions[i] matches LoginAction::EncodeToken {
                claims,
                secret,
            } && claims.sub@ == username && claims.exp == now_secs + 86400 && secret@ == sha256_digest(
                encode_utf8(password),
            )),
        forall|i: int|
            0 <= i < events.len() && (#[trigger] events[i] matches LoginEvent::TokenEncoded(t)) ==> (
            events[i] matches LoginEvent::TokenEncoded(t) && actions[i] matches LoginAction::StoreToken {
                username: u,
                token,
            } && u@ == username && token@ == t@),
        forall|i: int|
            0 <= i && i + 1 < events.len() && (#[trigger] events[i] matches LoginEvent::TokenEncoded(t))
                && events[i + 1] is TokenStored ==> (events[i] matches LoginEvent::TokenEncoded(t)
                && actions[i + 1] matches LoginAction::Respond { status_code, body } && status_code
                == 200 && body.token@ == t@ && body.status@ == "success"@),
        forall|i: int|
            0 <= i < events.len() && (#[trigger] events[i] is AuthenticationFailed) ==> (
            actions[i] matches LoginAction::Respond { status_code, body } && status_code == 401
                && body.token@.len() == 0),
        forall|i: int|
            0 <= i < events.len() && (#[trigger] events[i] is StoreFailed) ==> (
            actions[i] matches LoginAction::Respond { status_code, body } && status_code == 500
                && body.token@.len() == 0),
        forall|i: int|
            0 <= i < actions.len() && (#[trigger] actions[i] matches LoginAction::Respond {
                status_code,
                ..
            } && status_code == 200) ==> (i >= 1 && events[i] is TokenStored && (
            actions[i] matches LoginAction::Respond { body, .. } && events[i
                - 1] matches LoginEvent::TokenEncoded(t) && t@ == body.token@)),
{
    assert forall|i: int|
        0 <= i < events.len() && (#[trigger] events[i] matches LoginEvent::Authenticated {
            now_secs,
        }) implies (events[i] matches LoginEvent::Authenticated { now_secs } && actions[i] matches LoginAction::EncodeToken {
        claims,
        secret,
    } && claims.sub@ == username && claims.exp == now_secs + 86400 && secret@ == sha256_digest(
        encode_utf8(password),
    )) by {
        lemma_login_prefix(username, password, states, events, actions, i);
        assert(login_fits(states[i], events[i]));
    }
    assert forall|i: int|
        0 <= i < events.len() && (#[trigger] events[i] matches LoginEvent::TokenEncoded(t)) implies (
    events[i] matches LoginEvent::TokenEncoded(t) && actions[i] matches LoginAction::StoreToken {
        username: u,
        token,
    } && u@ == username && token@ == t@) by {
        lemma_login_prefix(username, password, states, events, actions, i);
        assert(login_fits(states[i], events[i]));
    }
    assert forall|i: int|
        0 <= i && i + 1 < events.len() && (#[trigger] events[i] matches LoginEvent::TokenEncoded(t))
            && events[i + 1] is TokenStored implies (events[i] matches LoginEvent::TokenEncoded(t)
        && actions[i + 1] matches LoginAction::Respond { status_code, body } && status_code == 200
        && body.token@ == t@ && body.status@ == "success"@) by {
        assert(login_fits(states[i], events[i]));
        assert(login_fits(states[i + 1], events[i + 1]));
    }
    assert forall|i: int| 0 <= i < events.len() && (#[trigger] events[i] is AuthenticationFailed) implies (
    actions[i] matches LoginAction::Respond { status_code, body } && status_code == 401
        && body.token@.len() == 0) by {
        assert(login_fits(states[i], events[i]));
    }
    assert forall|i: int| 0 <= i < events.len() && (#[trigger] events[i] is StoreFailed) implies (
    actions[i] matches LoginAction::Respond { status_code, body } && status_code == 500
        && body.token@.len() == 0) by {
        assert(login_fits(states[i], events[i]));
    }
    assert forall|i: int|
        0 <= i < actions.len() && (#[trigger] actions[i] matches LoginAction::Respond {
            status_code,
            ..
        } && status_code == 200) implies (i >= 1 && events[i] is TokenStored && (
    actions[i] matches LoginAction::Respond { body, .. } && events[i
        - 1] matches LoginEvent::TokenEncoded(t) && t@ == body.token@)) by {
        lemma_login_prefix(username, password, states, events, actions, i);
        assert(login_fits(states[i], events[i]));
    }
}

/// The UTF-16 code units of one character.
pub open spec fn utf16_units(c: char) -> Seq<u16> {
    let v = c as u32;
    if v < 0x10000 {
        seq![v as u16]
    } else {
        let w = (v - 0x10000) as u32;
        seq![(0xD800 + w / 0x400) as u16, (0xDC00 + w % 0x400) as u16]
    }
}

/// The UTF-16 encoding of a string.
pub open spec fn encode_utf16(s: Seq<char>) -> Seq<u16>
    decreases s.len(),
{
    if s.len() == 0 {
        Seq::empty()
    } else {
        encode_utf16(s.drop_last()) + utf16_units(s.last())
    }
}

/// The UTF-16 encoding of a string followed by a terminating zero unit, as
/// the operating system's wide-character calls expect.
pub fn to_wide_nul(s: &str) -> (w: Vec<u16>)
    ensures
        w@ == encode_utf16(s@).push(0u16),
{
    let cs = crate::text::chars_of(s);
    let n = cs.len();
    let mut w: Vec<u16> = Vec::new();
    let mut i: usize = 0;
    while i < n
        invariant
            n == cs@.len(),
            cs@ == s@,
            i <= n,
            w@ == encode_utf16(cs@.take(i as int)),
        decreases n - i,
    {
        let c = cs[i];
        let v: u32 = c as u32;
        proof {
            vstd::utf8::char_is_scalar(c);
            assert(cs@.take(i + 1).drop_last() =~= cs@.take(i as int));
        }
        if v < 0x10000 {
            w.push(v as u16);
        } else {
            let x: u32 = v - 0x10000;
            w.push((0xD800 + x / 0x400) as u16);
            w.push((0xDC00 + x % 0x400) as u16);
        }
        i = i + 1;
    }
    proof {
        assert(cs@.take(n as int) =~= cs@);
    }
    w.push(0u16);
    w
}

} // verus!
