use al1s::auth::{login_start, login_step, to_wide_nul, LoginAction, LoginEvent, LoginRequest, LoginResponse, LoginState, TOKEN_LIFETIME_SECS};

fn request() -> LoginRequest {
    LoginRequest { username: "alice".to_string(), password: "password".to_string() }
}

// SHA-256 of "password"
const PASSWORD_DIGEST: [u8; 32] = [
    0x5e, 0x88, 0x48, 0x98, 0xda, 0x28, 0x04, 0x71, 0x51, 0xd0, 0xe5, 0x6f, 0x8d, 0xc6, 0x29, 0x27,
    0x73, 0x60, 0x3d, 0x0d, 0x6a, 0xab, 0xbd, 0xd6, 0x2a, 0x11, 0xef, 0x72, 0x1d, 0x15, 0x42, 0xd8,
];

#[test]
fn successful_login_runs_through_every_step() {
    let (state, action) = login_start(request());
    assert_eq!(
        action,
        LoginAction::Authenticate { username: "alice".to_string(), password: "password".to_string() }
    );
    let (state, action) = login_step(state, LoginEvent::Authenticated { now_secs: 1_700_000_000 });
    assert_eq!(state, LoginState::Encoding { username: "alice".to_string() });
    match action {
        LoginAction::EncodeToken { claims, secret } => {
            assert_eq!(claims.sub, "alice");
            assert_eq!(claims.exp, 1_700_000_000 + 86_400);
            assert_eq!(secret, PASSWORD_DIGEST.to_vec());
        }
        other => panic!("unexpected {:?}", other),
    }
    let (state, action) = login_step(state, LoginEvent::TokenEncoded("a.b.c".to_string()));
    assert_eq!(action, LoginAction::StoreToken { username: "alice".to_string(), token: "a.b.c".to_string() });
    let (state, action) = login_step(state, LoginEvent::TokenStored);
    assert_eq!(state, LoginState::Finished);
    assert_eq!(
        action,
        LoginAction::Respond {
            status_code: 200,
            body: LoginResponse { token: "a.b.c".to_string(), status: "success".to_string() },
        }
    );
}

#[test]
fn token_lifetime_is_one_day() {
    assert_eq!(TOKEN_LIFETIME_SECS, 24 * 60 * 60);
}

#[test]
fn refused_credentials_answer_401() {
    let (state, _) = login_start(request());
    let (state, action) = login_step(state, LoginEvent::AuthenticationFailed("Windows 인증 실패".to_string()));
    assert_eq!(state, LoginState::Finished);
    assert_eq!(
        action,
        LoginAction::Respond {
            status_code: 401,
            body: LoginResponse { token: String::new(), status: "인증 실패: Windows 인증 실패".to_string() },
        }
    );
}

#[test]
fn failed_store_answers_500() {
    let state = LoginState::Storing { username: "alice".to_string(), token: "t".to_string() };
    let (state, action) = login_step(state, LoginEvent::StoreFailed("disk I/O error".to_string()));
    assert_eq!(state, LoginState::Finished);
    assert_eq!(
        action,
        LoginAction::Respond {
            status_code: 500,
            body: LoginResponse { token: String::new(), status: "데이터베이스 오류: disk I/O error".to_string() },
        }
    );
}

#[test]
fn secret_depends_on_the_password() {
    let state = LoginState::Authenticating { username: "bob".to_string(), password: String::new() };
    match login_step(state, LoginEvent::Authenticated { now_secs: 0 }).1 {
        LoginAction::EncodeToken { claims, secret } => {
            assert_eq!(claims.exp, 86_400);
            // SHA-256 of the empty input
            assert_eq!(secret[..4], [0xe3, 0xb0, 0xc4, 0x42]);
            assert_eq!(secret.len(), 32);
        }
        other => panic!("unexpected {:?}", other),
    }
}

#[test]
fn wide_strings_end_in_zero() {
    assert_eq!(to_wide_nul(""), vec![0]);
    assert_eq!(to_wide_nul("ab"), vec![0x61, 0x62, 0]);
    assert_eq!(to_wide_nul("é관"), vec![0xE9, 0xAD00, 0]);
    assert_eq!(to_wide_nul("😀"), vec![0xD83D, 0xDE00, 0]);
    assert_eq!(to_wide_nul("\u{10FFFF}"), vec![0xDBFF, 0xDFFF, 0]);
    let expected: Vec<u16> = "x😀y".encode_utf16().chain(Some(0)).collect();
    assert_eq!(to_wide_nul("x😀y"), expected);
}
