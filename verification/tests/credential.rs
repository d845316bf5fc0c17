use ubersetzer::credential::{
    confirm_entry, next_load_step, LoadStep, SetupStep, StoreReport, KEY_FILE,
};
use ubersetzer::translation::Exchange;
use ubersetzer::window::refresh;

#[test]
fn credential_file_is_the_fixed_one() {
    assert_eq!(KEY_FILE, "./api_key.txt");
}

#[test]
fn content_of_the_file_is_the_credential_to_the_letter() {
    assert_eq!(
        next_load_step(StoreReport::Read("secret".to_string())),
        LoadStep::Use("secret".to_string())
    );
    assert_eq!(
        next_load_step(StoreReport::Read(" secret\n".to_string())),
        LoadStep::Use(" secret\n".to_string())
    );
    assert_eq!(next_load_step(StoreReport::Read(String::new())), LoadStep::Use(String::new()));
}

#[test]
fn file_that_cannot_be_read_is_replaced_once() {
    assert_eq!(next_load_step(StoreReport::ReadFailed), LoadStep::CreateEmpty);
    assert_eq!(next_load_step(StoreReport::Created), LoadStep::Use(String::new()));
}

#[test]
fn file_that_cannot_be_created_ends_the_start() {
    assert_eq!(next_load_step(StoreReport::CreateFailed), LoadStep::GiveUp);
}

#[test]
fn valid_entry_is_saved_as_entered() {
    let trial = Exchange::Answered { status: 200, body: String::new() };
    assert_eq!(confirm_entry(" key ".to_string(), &trial), SetupStep::Save(" key ".to_string()));
}

#[test]
fn entry_that_is_not_valid_is_rejected() {
    let refused = Exchange::Answered { status: 403, body: String::new() };
    assert_eq!(confirm_entry("key".to_string(), &refused), SetupStep::Reject);
    assert_eq!(confirm_entry("key".to_string(), &Exchange::Lost), SetupStep::Reject);
    assert_eq!(confirm_entry("k\ney".to_string(), &Exchange::Unsent), SetupStep::Reject);
}

#[test]
fn window_shows_the_newest_text() {
    assert_eq!(refresh("old".to_string(), Some("new".to_string())), "new");
    assert_eq!(refresh("old".to_string(), Some(String::new())), "");
}

#[test]
fn window_keeps_its_text_without_a_new_one() {
    assert_eq!(refresh("old".to_string(), None), "old");
}
