use base64::Engine;
use mediahub::oauth::{
    accept_step, create_pkce, head_complete, listen_gate, page_response, port_busy_message,
    random_token, reply_to_request, response_head, valid_code, AcceptOutcome, ListenStep, Page,
    Reply, RequestOutcome,
};
use sha2::Digest;

fn failed() -> Reply {
    Reply {
        page: Page::Failed,
        outcome: RequestOutcome::Done(Err("Die Anmeldung konnte nicht abgeschlossen werden.".to_string())),
    }
}

#[test]
fn callback_with_matching_state_succeeds() {
    let head = "GET /callback?code=abcdefgh123&state=xyz HTTP/1.1\r\nHost: 127.0.0.1\r\n\r\n";
    assert_eq!(
        reply_to_request(Some(head), "xyz"),
        Reply { page: Page::Connected, outcome: RequestOutcome::Done(Ok("abcdefgh123".to_string())) }
    );
}

#[test]
fn callback_decodes_query() {
    let head = "GET /callback?state=s%201&code=4%2F0Adeu5BW HTTP/1.1\r\n\r\n";
    assert_eq!(
        reply_to_request(Some(head), "s 1"),
        Reply { page: Page::Connected, outcome: RequestOutcome::Done(Ok("4/0Adeu5BW".to_string())) }
    );
}

#[test]
fn callback_refusals() {
    assert_eq!(reply_to_request(Some("GET /callback?code=abcdefgh123&state=other HTTP/1.1\r\n"), "xyz"), failed());
    assert_eq!(
        reply_to_request(Some("GET /callback?code=abcdefgh123&state=xyz&error=access_denied HTTP/1.1\r\n"), "xyz"),
        failed()
    );
    assert_eq!(reply_to_request(Some("GET /callback?code=abc&state=xyz HTTP/1.1\r\n"), "xyz"), failed());
    assert_eq!(reply_to_request(None, "xyz"), failed());
}

#[test]
fn other_requests_keep_listening() {
    assert_eq!(
        reply_to_request(Some("POST /callback HTTP/1.1\r\n\r\n"), "xyz"),
        Reply { page: Page::Failed, outcome: RequestOutcome::Continue }
    );
    assert_eq!(
        reply_to_request(Some("GET /favicon.ico HTTP/1.1\r\n\r\n"), "xyz"),
        Reply { page: Page::NotFound, outcome: RequestOutcome::Continue }
    );
    assert_eq!(
        reply_to_request(Some("GET /elsewhere?code=abcdefgh123&state=xyz HTTP/1.1\r\n\r\n"), "xyz"),
        Reply { page: Page::NotFound, outcome: RequestOutcome::Continue }
    );
    assert_eq!(
        reply_to_request(Some(""), "xyz"),
        Reply { page: Page::Failed, outcome: RequestOutcome::Continue }
    );
}

#[test]
fn code_rules() {
    assert!(valid_code("abcdefgh"));
    assert!(valid_code("4/0Adeu5BW-_.~x"));
    assert!(!valid_code("abcdefg"));
    assert!(!valid_code(&"a".repeat(513)));
    assert!(valid_code(&"a".repeat(512)));
    assert!(!valid_code("abcdefgh+"));
}

#[test]
fn pkce_challenge_is_s256_of_verifier() {
    let p = create_pkce().unwrap();
    let digest = sha2::Sha256::digest(p.verifier.as_bytes());
    let expected = base64::engine::general_purpose::URL_SAFE_NO_PAD.encode(digest);
    assert_eq!(p.challenge, expected);
    assert_eq!(p.verifier.len(), 43);
    assert_eq!(p.state.len(), 22);
    assert_ne!(p.challenge, p.verifier);
}

#[test]
fn random_token_lengths() {
    assert_eq!(random_token(0).unwrap(), "");
    assert_eq!(random_token(3).unwrap().len(), 4);
    assert_eq!(random_token(32).unwrap().len(), 43);
}

#[test]
fn response_heads() {
    assert_eq!(
        response_head(404, "text/plain", 2),
        "HTTP/1.1 404 Not Found\r\nContent-Type: text/plain\r\nContent-Length: 2\r\nConnection: close\r\n\r\n"
    );
    let (status, ct, body) = page_response(&Page::Connected);
    assert_eq!(status, 200);
    assert_eq!(ct, "text/html; charset=utf-8");
    assert!(body.contains("TikTube ist verbunden."));
    assert_eq!(
        response_head(status, ct, 1234).lines().next().unwrap(),
        "HTTP/1.1 200 OK"
    );
    assert_eq!(page_response(&Page::NotFound), (404, "text/plain", "no"));
}

#[test]
fn head_detection() {
    assert!(head_complete(b"GET / HTTP/1.1\r\nHost: x\r\n\r\n"));
    assert!(!head_complete(b"GET / HTTP/1.1\r\nHost: x\r\n"));
    assert!(!head_complete(b"\r\n\r"));
    assert!(head_complete(b"\r\n\r\n"));
}

#[test]
fn listener_rules() {
    assert_eq!(listen_gate(true, 0), Some("Anmeldung abgebrochen.".to_string()));
    assert_eq!(
        listen_gate(false, 180_000_000_001),
        Some("Die Anmeldung konnte nicht abgeschlossen werden.".to_string())
    );
    assert_eq!(listen_gate(false, 180_000_000_000), None);
    assert_eq!(accept_step(AcceptOutcome::Connection), ListenStep::Serve);
    assert_eq!(accept_step(AcceptOutcome::WouldBlock), ListenStep::Wait);
    assert_eq!(
        accept_step(AcceptOutcome::Failed),
        ListenStep::Stop("Die Anmeldung konnte nicht abgeschlossen werden.".to_string())
    );
    assert_eq!(port_busy_message(), "Der Anmelde-Port 38947 ist belegt.");
}
