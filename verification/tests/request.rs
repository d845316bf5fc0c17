use ubersetzer::request::{
    build_request, trial_request, FormField, TranslationRequest, AUTH_SCHEME, ENDPOINT,
    TARGET_LANGUAGE, TRIAL_WORD, USER_AGENT,
};

fn field(name: &str, value: &str) -> FormField {
    FormField { name: name.to_string(), value: value.to_string() }
}

#[test]
fn request_holds_the_fixed_parts_and_the_word() {
    let request = build_request("secret", "Haus").expect("a request");
    assert_eq!(
        request,
        TranslationRequest {
            url: "https://api-free.deepl.com/v2/translate".to_string(),
            authorization: "DeepL-Auth-Key secret".to_string(),
            user_agent: "ubersetzer/1.0".to_string(),
            form: vec![field("text", "Haus"), field("target_lang", "FR")],
        }
    );
}

#[test]
fn request_constants_are_the_documented_ones() {
    assert_eq!(ENDPOINT, "https://api-free.deepl.com/v2/translate");
    assert_eq!(AUTH_SCHEME, "DeepL-Auth-Key ");
    assert_eq!(USER_AGENT, "ubersetzer/1.0");
    assert_eq!(TARGET_LANGUAGE, "FR");
    assert_eq!(TRIAL_WORD, "Test");
}

#[test]
fn request_for_an_empty_credential_is_built() {
    let request = build_request("", "Haus").expect("a request");
    assert_eq!(request.authorization, "DeepL-Auth-Key ");
}

#[test]
fn request_keeps_an_empty_word() {
    let request = build_request("k", "").expect("a request");
    assert_eq!(request.form, vec![field("text", ""), field("target_lang", "FR")]);
}

#[test]
fn credential_with_a_line_break_gives_no_request() {
    assert_eq!(build_request("secret\n", "Haus"), None);
    assert_eq!(build_request("sec\rret", "Haus"), None);
}

#[test]
fn credential_with_a_control_character_gives_no_request() {
    assert_eq!(build_request("\u{0}", "Haus"), None);
    assert_eq!(build_request("a\u{1f}b", "Haus"), None);
    assert_eq!(build_request("a\u{7f}b", "Haus"), None);
}

#[test]
fn credential_with_a_tab_or_a_space_gives_a_request() {
    assert!(build_request("a\tb", "Haus").is_some());
    assert!(build_request("a b", "Haus").is_some());
    assert!(build_request("~", "Haus").is_some());
}

#[test]
fn credential_beyond_ascii_gives_a_request() {
    let request = build_request("cl\u{e9}\u{20ac}\u{1f600}", "Haus").expect("a request");
    assert_eq!(request.authorization, "DeepL-Auth-Key cl\u{e9}\u{20ac}\u{1f600}");
    assert!(build_request("\u{80}", "Haus").is_some());
}

#[test]
fn word_may_hold_anything() {
    let request = build_request("k", "a\nb\u{7f}").expect("a request");
    assert_eq!(request.form[0], field("text", "a\nb\u{7f}"));
}

#[test]
fn trial_request_asks_for_the_trial_word() {
    let request = trial_request("secret").expect("a request");
    assert_eq!(request, build_request("secret", "Test").expect("a request"));
    assert_eq!(request.form[0], field("text", "Test"));
    assert_eq!(trial_request("bad\nkey"), None);
}
