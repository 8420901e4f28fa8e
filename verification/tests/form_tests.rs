use qbit_killswitch::config::Config;
use qbit_killswitch::form::{FormState, SaveEvent, SaveFlow, SaveNext, SaveOutcome};

fn form(user: &str, password: &str) -> FormState {
    let mut c = Config::default();
    c.qbit_user = user.to_string();
    FormState::from(&c, password)
}

#[test]
fn from_records_original_user() {
    let f = form("alice", "pw");
    assert_eq!(f.original_user, "alice");
    assert_eq!(f.password, "pw");
    assert_eq!(f.config.qbit_user, "alice");
}

#[test]
fn has_changes_sees_each_editable_field() {
    let saved = form("alice", "pw");
    assert!(!saved.cloned().has_changes(&saved));

    let mut e = saved.cloned();
    e.password = "other".to_string();
    assert!(e.has_changes(&saved));

    let mut e = saved.cloned();
    e.config.ip_check_urls.push(String::new());
    assert!(e.has_changes(&saved));

    let mut e = saved.cloned();
    e.config.minimize_to_tray = false;
    assert!(e.has_changes(&saved));

    let mut e = saved.cloned();
    e.config.poll_secs = 30;
    assert!(e.has_changes(&saved));

    // The plaintext field of the file is not edited in the form.
    let mut e = saved.cloned();
    e.config.qbit_pass = "x".to_string();
    assert!(!e.has_changes(&saved));
}

#[test]
fn invalid_form_is_rejected_without_writing() {
    let mut e = form("alice", "pw");
    e.config.qbit_url = "::".to_string();
    match SaveFlow::start(&e) {
        SaveNext::Finished(SaveOutcome::Rejected(msgs)) => {
            assert_eq!(msgs, vec!["'::' is not a valid URL".to_string()]);
        }
        other => panic!("unexpected {:?}", other),
    }
}

#[test]
fn keychain_save_stores_password_then_writes_blank_plaintext() {
    let e = form("alice", "secret");
    let SaveNext::WriteKeychain(flow) = SaveFlow::start(&e) else { panic!() };
    assert_eq!(flow.keychain_user(), "alice");
    assert_eq!(flow.password(), "secret");
    let SaveNext::WriteConfig(flow) = flow.step(SaveEvent::Done(Ok(()))) else { panic!() };
    assert_eq!(flow.config().qbit_pass, "");
    assert!(flow.config().use_keychain);
    let SaveNext::ReadKeychain(flow) = flow.step(SaveEvent::Done(Ok(()))) else { panic!() };
    assert_eq!(flow.keychain_user(), "alice");
    match flow.step(SaveEvent::KeychainRead(Some("secret".to_string()))) {
        SaveNext::Finished(SaveOutcome::Saved { config, password }) => {
            assert_eq!(password, "secret");
            assert_eq!(config.qbit_user, "alice");
        }
        other => panic!("unexpected {:?}", other),
    }
}

#[test]
fn user_change_deletes_old_entry_first() {
    let mut e = form("alice", "secret");
    e.config.qbit_user = "bob".to_string();
    let SaveNext::DeleteKeychain(flow) = SaveFlow::start(&e) else { panic!() };
    assert_eq!(flow.keychain_user(), "alice");
    let SaveNext::WriteKeychain(flow) = flow.step(SaveEvent::Done(Err("no entry".to_string()))) else { panic!() };
    assert_eq!(flow.keychain_user(), "bob");
}

#[test]
fn keychain_failure_aborts_save() {
    let e = form("alice", "secret");
    let SaveNext::WriteKeychain(flow) = SaveFlow::start(&e) else { panic!() };
    match flow.step(SaveEvent::Done(Err("Keychain write failed".to_string()))) {
        SaveNext::Finished(SaveOutcome::Failed(msgs)) => assert_eq!(
            msgs,
            vec![
                "Keychain unavailable — password was not saved. Disable keychain storage to save in config file."
                    .to_string(),
            ]
        ),
        other => panic!("unexpected {:?}", other),
    }
}

#[test]
fn plaintext_save_removes_keychain_entry_and_writes_password() {
    let mut e = form("alice", "secret");
    e.config.use_keychain = false;
    let SaveNext::DeleteKeychain(flow) = SaveFlow::start(&e) else { panic!() };
    assert_eq!(flow.keychain_user(), "alice");
    let SaveNext::WriteConfig(flow) = flow.step(SaveEvent::Done(Ok(()))) else { panic!() };
    assert_eq!(flow.config().qbit_pass, "secret");
    match flow.step(SaveEvent::Done(Ok(()))) {
        SaveNext::Finished(SaveOutcome::Saved { config, password }) => {
            assert_eq!(password, "secret");
            assert_eq!(config.qbit_pass, "secret");
        }
        other => panic!("unexpected {:?}", other),
    }
}

#[test]
fn write_failure_is_reported() {
    let mut e = form("alice", "secret");
    e.config.use_keychain = false;
    let SaveNext::DeleteKeychain(flow) = SaveFlow::start(&e) else { panic!() };
    let SaveNext::WriteConfig(flow) = flow.step(SaveEvent::Done(Ok(()))) else { panic!() };
    match flow.step(SaveEvent::Done(Err("disk full".to_string()))) {
        SaveNext::Finished(SaveOutcome::Failed(msgs)) => {
            assert_eq!(msgs, vec!["Could not write config: disk full".to_string()])
        }
        other => panic!("unexpected {:?}", other),
    }
}

#[test]
fn save_normalizes_before_writing() {
    let mut e = form("alice", "secret");
    e.config.use_keychain = false;
    e.config.poll_secs = 1;
    let SaveNext::DeleteKeychain(flow) = SaveFlow::start(&e) else { panic!() };
    assert_eq!(flow.config().poll_secs, 5);
}

#[test]
fn after_save_forms_are_equal() {
    let mut c = Config::default();
    c.qbit_user = "carol".to_string();
    let f = FormState::after_save(&c, &"pw".to_string());
    assert_eq!(f.original_user, "carol");
    assert!(!f.has_changes(&f.cloned()));
}

#[test]
fn connection_test_reads_keychain_when_enabled() {
    let mut e = form("alice", "typed");
    assert_eq!(e.connection_test_password(Some("stored".to_string())), "stored");
    assert_eq!(e.connection_test_password(None), "typed");
    e.config.use_keychain = false;
    assert_eq!(e.connection_test_password(Some("stored".to_string())), "typed");
}
