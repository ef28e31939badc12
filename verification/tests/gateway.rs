use mini_bot_rs::gateway::handlers::{banner, session_id_from_random, session_or_new, webhook_reply};
use mini_bot_rs::gateway::{HealthResponse, WebhookRequest};

#[test]
fn given_session_is_kept() {
    assert_eq!(session_or_new(Some("abc".to_string()), None), Some("abc".to_string()));
    assert_eq!(session_or_new(Some("abc".to_string()), Some([7u8; 16])), Some("abc".to_string()));
    assert_eq!(session_or_new(None, None), None);
}

#[test]
fn fresh_session_is_a_v4_uuid() {
    let a = session_or_new(None, Some([0u8; 16])).unwrap();
    let b = session_or_new(None, Some([0xffu8; 16])).unwrap();
    assert_ne!(a, b);
    for s in [a, b] {
        let chars: Vec<char> = s.chars().collect();
        assert_eq!(chars.len(), 36);
        for (i, c) in chars.iter().enumerate() {
            if [8, 13, 18, 23].contains(&i) {
                assert_eq!(*c, '-');
            } else {
                assert!(c.is_ascii_digit() || ('a'..='f').contains(c));
            }
        }
        assert_eq!(chars[14], '4');
        assert!(['8', '9', 'a', 'b'].contains(&chars[19]));
    }
}

#[test]
fn webhook_replies() {
    let req = WebhookRequest { message: "hi".to_string(), session_id: None };
    assert_eq!(req.message, "hi");
    let r = webhook_reply("s1".to_string(), Ok("hello".to_string()));
    assert_eq!(r.response, "hello");
    assert_eq!(r.session_id.as_deref(), Some("s1"));
    let r = webhook_reply("s2".to_string(), Err("boom".to_string()));
    assert_eq!(r.response, "Error: boom");
    assert_eq!(r.session_id.as_deref(), Some("s2"));
}

#[test]
fn health_and_banner() {
    let h = HealthResponse::healthy("0.1.0");
    assert_eq!(h.status, "healthy");
    assert_eq!(h.version, "0.1.0");
    assert_eq!(banner(), "MiniBot Gateway v0.1.0");
}

#[test]
fn session_id_text_is_exact() {
    let bytes = [
        0x00, 0x11, 0x22, 0x33, 0x44, 0x55, 0x66, 0x77, 0x88, 0x99, 0xaa, 0xbb, 0xcc, 0xdd, 0xee, 0xff,
    ];
    assert_eq!(session_id_from_random(bytes), "00112233-4455-4677-8899-aabbccddeeff");
    assert_eq!(session_id_from_random([0u8; 16]), "00000000-0000-4000-8000-000000000000");
    assert_eq!(session_id_from_random([0xffu8; 16]), "ffffffff-ffff-4fff-bfff-ffffffffffff");
}
