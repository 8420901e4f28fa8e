use vstd::prelude::*;

use crate::config::{
    same_strings, spec_normalize, spec_resolve_password, spec_valid, opt_string_view,
    resolve_password, Config, ConfigView, field_errors_view,
};
use crate::text::concat2;

verus! {

// ── The settings form ─────────────────────────────────────────────────────────

/// The settings being edited (or last saved): a configuration, the password shown
/// in the Pass field, and the user name the keychain entry was stored under.
#[derive(Debug)]
pub struct FormState {
    pub config: Config,
    /// The password shown and edited in the Pass field; may come from the keychain.
    pub password: String,
    /// The user name as last saved, to re-key the keychain entry on a change.
    pub original_user: String,
}

pub struct FormView {
    pub config: ConfigView,
    pub password: Seq<char>,
    pub original_user: Seq<char>,
}

impl View for FormState {
    type V = FormView;

    open spec fn view(&self) -> FormView {
        FormView { config: self.config@, password: self.password@, original_user: self.original_user@ }
    }
}

/// Whether the edited form differs from the saved one in a field the user can edit.
pub open spec fn spec_has_changes(a: FormView, b: FormView) -> bool {
    ||| a.password != b.password
    ||| a.config.qbit_url != b.config.qbit_url
    ||| a.config.qbit_user != b.config.qbit_user
    ||| a.config.use_keychain != b.config.use_keychain
    ||| a.config.ip_check_urls != b.config.ip_check_urls
    ||| a.config.poll_secs != b.config.poll_secs
    ||| a.config.fail_threshold != b.config.fail_threshold
    ||| a.config.launch_at_startup != b.config.launch_at_startup
    ||| a.config.minimize_to_tray != b.config.minimize_to_tray
}

impl FormState {
    /// The form for a configuration and the password in use.
    pub fn from(config: &Config, password: &str) -> (r: Self)
        ensures
            r@ == (FormView { config: config@, password: password@, original_user: config@.qbit_user }),
    {
        FormState {
            original_user: config.qbit_user.clone(),
            password: String::from_str(password),
            config: config.cloned(),
        }
    }

    /// A copy of the form.
    pub fn cloned(&self) -> (r: Self)
        ensures
            r@ == self@,
    {
        FormState {
            config: self.config.cloned(),
            password: self.password.clone(),
            original_user: self.original_user.clone(),
        }
    }

    /// Whether this (edited) form differs from `saved` in an editable field.
    pub fn has_changes(&self, saved: &FormState) -> (r: bool)
        ensures
            r == spec_has_changes(self@, saved@),
    {
        self.password != saved.password || self.config.qbit_url != saved.config.qbit_url
            || self.config.qbit_user != saved.config.qbit_user
            || self.config.use_keychain != saved.config.use_keychain
            || !same_strings(&self.config.ip_check_urls, &saved.config.ip_check_urls)
            || self.config.poll_secs != saved.config.poll_secs
            || self.config.fail_threshold != saved.config.fail_threshold
            || self.config.launch_at_startup != saved.config.launch_at_startup
            || self.config.minimize_to_tray != saved.config.minimize_to_tray
    }

    /// The password a connection test uses: with the keychain on, the keychain's
    /// entry for the edited user name (`keychain`, `None` when it could not be read,
    /// and then the typed password stands in); with it off, the typed password.
    pub fn connection_test_password(&self, keychain: Option<String>) -> (r: String)
        ensures
            r@ == (match (self@.config.use_keychain, opt_string_view(keychain)) {
                (true, Some(k)) => k,
                _ => self@.password,
            }),
    {
        if self.config.use_keychain {
            match keychain {
                Some(k) => k,
                None => self.password.clone(),
            }
        } else {
            self.password.clone()
        }
    }

    /// The form after a save: the saved configuration, the password now in use,
    /// and the saved user name as the keychain's account.
    pub fn after_save(config: &Config, password: &String) -> (r: Self)
        ensures
            r@ == (FormView { config: config@, password: password@, original_user: config@.qbit_user }),
    {
        FormState::from(config, password.as_str())
    }
}

// ── Saving ────────────────────────────────────────────────────────────────────

#[derive(Debug, Clone, Copy, PartialEq, Eq, Structural)]
pub enum SaveStage {
    /// The user name changed: deleting the keychain entry of the old name.
    DeletingOld,
    /// Writing the password into the keychain.
    WritingKeychain,
    /// The keychain is off: deleting the keychain entry of the user.
    DeletingCurrent,
    /// Writing the configuration file.
    WritingConfig,
    /// Reading back the password that the monitor is to use.
    ReadingKeychain,
}

pub struct SaveView {
    pub config: ConfigView,
    pub password: Seq<char>,
    pub old_user: Seq<char>,
    pub stage: SaveStage,
}

/// A save of the settings form under way: the configuration to write, the password
/// typed, and where the keychain and file work stands.
#[derive(Debug)]
pub struct SaveFlow {
    config: Config,
    password: String,
    old_user: String,
    stage: SaveStage,
}

/// What the save needs next, or how it ended.
#[derive(Debug)]
pub enum SaveNext {
    /// Delete the keychain entry of `keychain_user()`; the outcome does not matter.
    DeleteKeychain(SaveFlow),
    /// Store `password()` in the keychain under `keychain_user()`.
    WriteKeychain(SaveFlow),
    /// Write `config()` to the configuration file.
    WriteConfig(SaveFlow),
    /// Read the keychain entry of `keychain_user()`.
    ReadKeychain(SaveFlow),
    Finished(SaveOutcome),
}

#[derive(Debug)]
pub enum SaveOutcome {
    /// Validation failed: the messages to show; nothing was written.
    Rejected(Vec<String>),
    /// A write failed: the messages to show.
    Failed(Vec<String>),
    /// Written: the configuration and the password the monitor is to use now.
    Saved { config: Config, password: String },
}

#[derive(Debug)]
pub enum SaveEvent {
    /// The outcome of a keychain delete or write, or of the file write.
    Done(Result<(), String>),
    /// What the keychain read returned (`None` when it failed).
    KeychainRead(Option<String>),
}

pub enum SaveEventView {
    Done(Result<(), Seq<char>>),
    KeychainRead(Option<Seq<char>>),
}

impl View for SaveEvent {
    type V = SaveEventView;

    open spec fn view(&self) -> SaveEventView {
        match self {
            SaveEvent::Done(r) => SaveEventView::Done(
                match r {
                    Ok(()) => Ok(()),
                    Err(e) => Err(e@),
                },
            ),
            SaveEvent::KeychainRead(k) => SaveEventView::KeychainRead(opt_string_view(*k)),
        }
    }
}

pub enum SaveOutcomeView {
    Rejected(Seq<Seq<char>>),
    Failed(Seq<Seq<char>>),
    Saved { config: ConfigView, password: Seq<char> },
}

impl View for SaveOutcome {
    type V = SaveOutcomeView;

    open spec fn view(&self) -> SaveOutcomeView {
        match self {
            SaveOutcome::Rejected(m) => SaveOutcomeView::Rejected(m.deep_view()),
            SaveOutcome::Failed(m) => SaveOutcomeView::Failed(m.deep_view()),
            SaveOutcome::Saved { config, password } => SaveOutcomeView::Saved {
                config: config@,
                password: password@,
            },
        }
    }
}

pub enum SaveNextView {
    DeleteKeychain(SaveView),
    WriteKeychain(SaveView),
    WriteConfig(SaveView),
    ReadKeychain(SaveView),
    Finished(SaveOutcomeView),
}

impl View for SaveFlow {
    type V = SaveView;

    closed spec fn view(&self) -> SaveView {
        SaveView {
            config: self.config@,
            password: self.password@,
            old_user: self.old_user@,
            stage: self.stage,
        }
    }
}

impl View for SaveNext {
    type V = SaveNextView;

    open spec fn view(&self) -> SaveNextView {
        match self {
            SaveNext::DeleteKeychain(f) => SaveNextView::DeleteKeychain(f@),
            SaveNext::WriteKeychain(f) => SaveNextView::WriteKeychain(f@),
            SaveNext::WriteConfig(f) => SaveNextView::WriteConfig(f@),
            SaveNext::ReadKeychain(f) => SaveNextView::ReadKeychain(f@),
            SaveNext::Finished(o) => SaveNextView::Finished(o@),
        }
    }
}

pub open spec fn keychain_failed_messages() -> Seq<Seq<char>> {
    seq!["Keychain unavailable — password was not saved. Disable keychain storage to save in config file."@]
}

pub open spec fn write_failed_messages(e: Seq<char>) -> Seq<Seq<char>> {
    seq!["Could not write config: "@ + e]
}

/// The keychain account a pending keychain action is for.
pub open spec fn spec_keychain_user(f: SaveView) -> Seq<char> {
    if f.stage == SaveStage::DeletingOld {
        f.old_user
    } else {
        f.config.qbit_user
    }
}

/// How a save of `editing` begins: validation of the normalised configuration,
/// then the keychain work that comes before writing the file.
pub open spec fn spec_save_start(editing: FormView) -> SaveNextView {
    let c = spec_normalize(editing.config);
    if !spec_valid(c) {
        SaveNextView::Finished(
            SaveOutcomeView::Rejected(
                crate::config::spec_validate(c).map_values(|e: (Seq<char>, Seq<char>)| e.1),
            ),
        )
    } else if c.use_keychain {
        if editing.config.qbit_user != editing.original_user {
            SaveNextView::DeleteKeychain(
                SaveView {
                    config: c,
                    password: editing.password,
                    old_user: editing.original_user,
                    stage: SaveStage::DeletingOld,
                },
            )
        } else {
            SaveNextView::WriteKeychain(
                SaveView {
                    config: c,
                    password: editing.password,
                    old_user: editing.original_user,
                    stage: SaveStage::WritingKeychain,
                },
            )
        }
    } else {
        SaveNextView::DeleteKeychain(
            SaveView {
                config: ConfigView { qbit_pass: editing.password, ..c },
                password: editing.password,
                old_user: editing.original_user,
                stage: SaveStage::DeletingCurrent,
            },
        )
    }
}

/// The work a flow waits for.
pub open spec fn spec_save_pending(f: SaveView) -> SaveNextView {
    match f.stage {
        SaveStage::DeletingOld | SaveStage::DeletingCurrent => SaveNextView::DeleteKeychain(f),
        SaveStage::WritingKeychain => SaveNextView::WriteKeychain(f),
        SaveStage::WritingConfig => SaveNextView::WriteConfig(f),
        SaveStage::ReadingKeychain => SaveNextView::ReadKeychain(f),
    }
}

/// The transitions of a save.
pub open spec fn spec_save_step(f: SaveView, e: SaveEventView) -> SaveNextView {
    match (f.stage, e) {
        (SaveStage::DeletingOld, SaveEventView::Done(_)) => SaveNextView::WriteKeychain(
            SaveView { stage: SaveStage::WritingKeychain, ..f },
        ),
        (SaveStage::WritingKeychain, SaveEventView::Done(r)) => match r {
            Ok(()) => SaveNextView::WriteConfig(
                SaveView {
                    config: ConfigView { qbit_pass: Seq::empty(), ..f.config },
                    stage: SaveStage::WritingConfig,
                    ..f
                },
            ),
            Err(_) => SaveNextView::Finished(SaveOutcomeView::Failed(keychain_failed_messages())),
        },
        (SaveStage::DeletingCurrent, SaveEventView::Done(_)) => SaveNextView::WriteConfig(
            SaveView { stage: SaveStage::WritingConfig, ..f },
        ),
        (SaveStage::WritingConfig, SaveEventView::Done(r)) => match r {
            Ok(()) => if f.config.use_keychain {
                SaveNextView::ReadKeychain(SaveView { stage: SaveStage::ReadingKeychain, ..f })
            } else {
                SaveNextView::Finished(
                    SaveOutcomeView::Saved {
                        config: f.config,
                        password: spec_resolve_password(f.config, None).0,
                    },
                )
            },
            Err(msg) => SaveNextView::Finished(SaveOutcomeView::Failed(write_failed_messages(msg))),
        },
        (SaveStage::ReadingKeychain, SaveEventView::KeychainRead(k)) => SaveNextView::Finished(
            SaveOutcomeView::Saved { config: f.config, password: spec_resolve_password(f.config, k).0 },
        ),
        _ => spec_save_pending(f),
    }
}

/// What every save flow keeps: the configuration it holds is normalised and
/// valid; with the keychain on, the file never receives the password once the
/// keychain has it; with the keychain off, the file holds the typed password.
pub open spec fn save_wf(f: SaveView) -> bool {
    &&& spec_valid(f.config)
    &&& f.config.legacy_ip_check_url is None
    &&& (!f.config.use_keychain ==> f.config.qbit_pass == f.password)
    &&& (!f.config.use_keychain ==> f.stage == SaveStage::DeletingCurrent || f.stage == SaveStage::WritingConfig)
    &&& (f.config.use_keychain ==> f.stage != SaveStage::DeletingCurrent)
    &&& (f.config.use_keychain && (f.stage == SaveStage::WritingConfig || f.stage == SaveStage::ReadingKeychain)
        ==> f.config.qbit_pass.len() == 0)
}

fn messages_of(errors: &Vec<(&'static str, String)>) -> (r: Vec<String>)
    ensures
        r.deep_view() == field_errors_view(errors@).map_values(|e: (Seq<char>, Seq<char>)| e.1),
{
    let mut out: Vec<String> = Vec::new();
    let mut i: usize = 0;
    while i < errors.len()
        invariant
            i <= errors.len(),
            out@.len() == i,
            forall|k: int| 0 <= k < i ==> #[trigger] out@[k]@ == errors@[k].1@,
        decreases errors.len() - i,
    {
        out.push(errors[i].1.clone());
        i = i + 1;
    }
    assert(out.deep_view() =~= field_errors_view(errors@).map_values(|e: (Seq<char>, Seq<char>)| e.1));
    out
}

impl SaveFlow {
    #[verifier::type_invariant]
    spec fn inv(self) -> bool {
        save_wf(self@)
    }

    /// The configuration that the flow writes.
    pub fn config(&self) -> (r: &Config)
        ensures
            r@ == self@.config,
    {
        &self.config
    }

    /// The password typed in the form.
    pub fn password(&self) -> (r: &String)
        ensures
            r@ == self@.password,
    {
        &self.password
    }

    /// The keychain account that a pending keychain action is for.
    pub fn keychain_user(&self) -> (r: &String)
        ensures
            r@ == spec_keychain_user(self@),
    {
        if self.stage == SaveStage::DeletingOld {
            &self.old_user
        } else {
            &self.config.qbit_user
        }
    }

    /// Begins saving the edited form: the configuration is normalised and
    /// validated, then the keychain is updated before the file is written.
    pub fn start(editing: &FormState) -> (r: SaveNext)
        ensures
            r@ == spec_save_start(editing@),
    {
        let mut cfg = editing.config.cloned();
        cfg.normalize();
        let errors = cfg.validate();
        if errors.len() > 0 {
            let msgs = messages_of(&errors);
            return SaveNext::Finished(SaveOutcome::Rejected(msgs));
        }
        if cfg.use_keychain {
            let stage = if editing.config.qbit_user != editing.original_user {
                SaveStage::DeletingOld
            } else {
                SaveStage::WritingKeychain
            };
            let flow = SaveFlow {
                config: cfg,
                password: editing.password.clone(),
                old_user: editing.original_user.clone(),
                stage,
            };
            if stage == SaveStage::DeletingOld {
                SaveNext::DeleteKeychain(flow)
            } else {
                SaveNext::WriteKeychain(flow)
            }
        } else {
            cfg.qbit_pass = editing.password.clone();
            SaveNext::DeleteKeychain(
                SaveFlow {
                    config: cfg,
                    password: editing.password.clone(),
                    old_user: editing.original_user.clone(),
                    stage: SaveStage::DeletingCurrent,
                },
            )
        }
    }

    fn pending(self) -> (r: SaveNext)
        ensures
            r@ == spec_save_pending(self@),
    {
        match self.stage {
            SaveStage::DeletingOld | SaveStage::DeletingCurrent => SaveNext::DeleteKeychain(self),
            SaveStage::WritingKeychain => SaveNext::WriteKeychain(self),
            SaveStage::WritingConfig => SaveNext::WriteConfig(self),
            SaveStage::ReadingKeychain => SaveNext::ReadKeychain(self),
        }
    }

    /// Feeds the outcome of the work last asked for.
    pub fn step(self, event: SaveEvent) -> (r: SaveNext)
        ensures
            r@ == spec_save_step(self@, event@),
    {
        proof {
            use_type_invariant(&self);
        }
        let stage = self.stage;
        match event {
            SaveEvent::Done(r) => match stage {
                SaveStage::DeletingOld => SaveNext::WriteKeychain(
                    SaveFlow { stage: SaveStage::WritingKeychain, ..self },
                ),
                SaveStage::WritingKeychain => match r {
                    Ok(()) => {
                        let SaveFlow { config, password, old_user, stage: _ } = self;
                        let mut config = config;
                        config.qbit_pass = String::new();
                        SaveNext::WriteConfig(
                            SaveFlow { config, password, old_user, stage: SaveStage::WritingConfig },
                        )
                    },
                    Err(_) => {
                        let mut msgs: Vec<String> = Vec::new();
                        msgs.push(
                            String::from_str(
                                "Keychain unavailable — password was not saved. Disable keychain storage to save in config file.",
                            ),
                        );
                        assert(msgs.deep_view() =~= keychain_failed_messages());
                        SaveNext::Finished(SaveOutcome::Failed(msgs))
                    },
                },
                SaveStage::DeletingCurrent => SaveNext::WriteConfig(
                    SaveFlow { stage: SaveStage::WritingConfig, ..self },
                ),
                SaveStage::WritingConfig => match r {
                    Ok(()) => {
                        if self.config.use_keychain {
                            SaveNext::ReadKeychain(SaveFlow { stage: SaveStage::ReadingKeychain, ..self })
                        } else {
                            let (password, _) = resolve_password(&self.config, None);
                            SaveNext::Finished(SaveOutcome::Saved { config: self.config, password })
                        }
                    },
                    Err(msg) => {
                        let mut msgs: Vec<String> = Vec::new();
                        msgs.push(concat2("Could not write config: ", msg.as_str()));
                        assert(msgs.deep_view() =~= write_failed_messages(msg@));
                        SaveNext::Finished(SaveOutcome::Failed(msgs))
                    },
                },
                SaveStage::ReadingKeychain => self.pending(),
            },
            SaveEvent::KeychainRead(k) => match stage {
                SaveStage::ReadingKeychain => {
                    let (password, _) = resolve_password(&self.config, k);
                    SaveNext::Finished(SaveOutcome::Saved { config: self.config, password })
                },
                _ => self.pending(),
            },
        }
    }
}

/// The flows that a step or a start hands back.
pub open spec fn next_flow(n: SaveNextView) -> Option<SaveView> {
    match n {
        SaveNextView::DeleteKeychain(f) => Some(f),
        SaveNextView::WriteKeychain(f) => Some(f),
        SaveNextView::WriteConfig(f) => Some(f),
        SaveNextView::ReadKeychain(f) => Some(f),
        SaveNextView::Finished(_) => None,
    }
}

// ── Laws of saving ────────────────────────────────────────────────────────────

/// Every flow that a save starts with, or steps to, keeps the save invariant.
pub proof fn lemma_save_keeps_invariant(editing: FormView, f: SaveView, e: SaveEventView)
    requires
        save_wf(f),
    ensures
        next_flow(spec_save_start(editing)) matches Some(g) ==> save_wf(g),
        next_flow(spec_save_step(f, e)) matches Some(g) ==> save_wf(g),
{
}

/// What the configuration file receives: a normalised, valid configuration; with
/// the keychain on, no password; with the keychain off, the typed password.
pub proof fn lemma_written_config(f: SaveView, e: SaveEventView)
    requires
        save_wf(f),
        spec_save_step(f, e) is WriteConfig,
    ensures
        ({
            let g = next_flow(spec_save_step(f, e))->0;
            &&& spec_valid(g.config)
            &&& g.config.legacy_ip_check_url is None
            &&& (g.config.use_keychain ==> g.config.qbit_pass.len() == 0)
            &&& (!g.config.use_keychain ==> g.config.qbit_pass == g.password)
        }),
{
}

/// An invalid form writes nothing: the save ends at once with the validation
/// messages.
pub proof fn lemma_invalid_form_rejected(editing: FormView)
    requires
        !spec_valid(spec_normalize(editing.config)),
    ensures
        spec_save_start(editing) is Finished,
{
}

/// When the keychain write fails the save is aborted: the configuration file is
/// not written, and the keychain error is shown.
pub proof fn lemma_keychain_failure_aborts(f: SaveView, msg: Seq<char>)
    requires
        f.stage == SaveStage::WritingKeychain,
    ensures
        spec_save_step(f, SaveEventView::Done(Err(msg)))
            == SaveNextView::Finished(SaveOutcomeView::Failed(keychain_failed_messages())),
{
}

/// With the keychain on and a changed user name, the entry of the old name is
/// deleted first, then the password is stored under the new name.
pub proof fn lemma_user_change_rekeys(editing: FormView, r: Result<(), Seq<char>>)
    requires
        spec_valid(spec_normalize(editing.config)),
        editing.config.use_keychain,
        editing.config.qbit_user != editing.original_user,
    ensures
        ({
            let n = spec_save_start(editing);
            &&& n is DeleteKeychain
            &&& spec_keychain_user(next_flow(n)->0) == editing.original_user
            &&& spec_save_step(next_flow(n)->0, SaveEventView::Done(r)) is WriteKeychain
            &&& spec_keychain_user(next_flow(spec_save_step(next_flow(n)->0, SaveEventView::Done(r)))->0)
                == editing.config.qbit_user
        }),
{
}

/// With the keychain off, the keychain entry of the user is removed before the
/// file is written.
pub proof fn lemma_keychain_off_removes_entry(editing: FormView)
    requires
        spec_valid(spec_normalize(editing.config)),
        !editing.config.use_keychain,
    ensures
        ({
            let n = spec_save_start(editing);
            &&& n is DeleteKeychain
            &&& spec_keychain_user(next_flow(n)->0) == editing.config.qbit_user
        }),
{
}

/// Every keychain action of a save is for the saved configuration's user name,
/// except deleting the entry of the old name when the name changed.
pub proof fn lemma_keychain_actions_for_saved_user(f: SaveView)
    ensures
        f.stage != SaveStage::DeletingOld ==> spec_keychain_user(f) == f.config.qbit_user,
        f.stage == SaveStage::DeletingOld ==> spec_keychain_user(f) == f.old_user,
{
}

/// A successful save with the keychain on, after the user name changed from the
/// one last saved: the old name's entry is deleted, the password is stored under
/// the new name, the file is written, and the password is read back from the new
/// name's entry; the monitor is handed what that read returned.
pub proof fn lemma_renamed_save_reads_back_new_user(editing: FormView, deleted: Result<(), Seq<char>>, k: Seq<char>)
    requires
        spec_valid(spec_normalize(editing.config)),
        editing.config.use_keychain,
        editing.config.qbit_user != editing.original_user,
    ensures
        ({
            let f1 = next_flow(spec_save_start(editing))->0;
            let f2 = next_flow(spec_save_step(f1, SaveEventView::Done(deleted)))->0;
            let n3 = spec_save_step(f2, SaveEventView::Done(Ok(())));
            let f3 = next_flow(n3)->0;
            let n4 = spec_save_step(f3, SaveEventView::Done(Ok(())));
            let f4 = next_flow(n4)->0;
            &&& spec_keychain_user(f1) == editing.original_user
            &&& spec_keychain_user(f2) == editing.config.qbit_user
            &&& f2.password == editing.password
            &&& n3 is WriteConfig
            &&& f3.config.qbit_pass.len() == 0
            &&& n4 is ReadKeychain
            &&& spec_keychain_user(f4) == editing.config.qbit_user
            &&& spec_save_step(f4, SaveEventView::KeychainRead(Some(k)))
                == SaveNextView::Finished(SaveOutcomeView::Saved { config: f4.config, password: k })
        }),
{
}

/// The editable fields: the form has changes exactly when one of them differs.
pub proof fn lemma_has_changes_field_by_field(a: FormView, b: FormView)
    ensures
        a.password != b.password ==> spec_has_changes(a, b),
        a.config.qbit_url != b.config.qbit_url ==> spec_has_changes(a, b),
        a.config.qbit_user != b.config.qbit_user ==> spec_has_changes(a, b),
        a.config.use_keychain != b.config.use_keychain ==> spec_has_changes(a, b),
        a.config.ip_check_urls != b.config.ip_check_urls ==> spec_has_changes(a, b),
        a.config.poll_secs != b.config.poll_secs ==> spec_has_changes(a, b),
        a.config.fail_threshold != b.config.fail_threshold ==> spec_has_changes(a, b),
        a.config.launch_at_startup != b.config.launch_at_startup ==> spec_has_changes(a, b),
        a.config.minimize_to_tray != b.config.minimize_to_tray ==> spec_has_changes(a, b),
        (a.password == b.password && a.config.qbit_url == b.config.qbit_url
            && a.config.qbit_user == b.config.qbit_user && a.config.use_keychain == b.config.use_keychain
            && a.config.ip_check_urls == b.config.ip_check_urls && a.config.poll_secs == b.config.poll_secs
            && a.config.fail_threshold == b.config.fail_threshold
            && a.config.launch_at_startup == b.config.launch_at_startup
            && a.config.minimize_to_tray == b.config.minimize_to_tray) ==> !spec_has_changes(a, b),
        spec_has_changes(a, b) == spec_has_changes(b, a),
        !spec_has_changes(a, a),
{
}

} // verus!
