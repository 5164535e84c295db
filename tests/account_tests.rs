use echo_feed::account::{form_value, sign_up_html, user_key};
use echo_feed::auth::UserId;

#[test]
fn form_value_takes_text_after_equals() {
    assert_eq!(form_value("username=bob"), Some("bob".to_string()));
    assert_eq!(form_value("hash=0x1f2e"), Some("0x1f2e".to_string()));
    assert_eq!(form_value("a=b=c"), Some("b".to_string()));
    assert_eq!(form_value("x="), Some("".to_string()));
    assert_eq!(form_value("=v"), Some("v".to_string()));
    assert_eq!(form_value("no separator"), None);
    assert_eq!(form_value(""), None);
}

#[test]
fn user_key_is_hex_and_deterministic() {
    let k = user_key(UserId { bits: 12345 });
    assert_eq!(k, user_key(UserId { bits: 12345 }));
    assert_ne!(k, user_key(UserId { bits: 12346 }));
    assert!(k.starts_with("0x"));
    assert!(k[2..].chars().all(|c| c.is_ascii_hexdigit() && !c.is_ascii_uppercase()));
    assert_ne!(k, "0x12345");
}

#[test]
fn sign_up_fragment_shows_key() {
    let html = sign_up_html("0xabc");
    assert!(html.contains("value='0xabc'"));
    assert!(html.contains("Save Your Private Key:"));
    assert!(html.contains("href='/sign-in'"));
    assert!(sign_up_html("<k>").contains("value='&lt;k&gt;'"));
}
