//! The settings of the application, and how they are read and written.
//!
//! The dialect, the user's dictionary, the ignored lints, the lint rules and the integrations
//! have types of their own elsewhere; the settings keep them and hand them out.
use vstd::prelude::*;

verus! {

/// The settings.
pub struct Config<D, W, I, L, N> {
    pub mutable_dictionary: W,
    pub dialect: D,
    pub ignored_lints: I,
    pub lint_config: L,
    pub integrations: Vec<N>,
    pub debounce_ms: u64,
    pub auto_update: bool,
    pub last_update_check: Option<u64>,
}

/// A setting together with a value for it.
pub enum Setting<D, W, I, L, N> {
    Dialect(D),
    Dictionary(W),
    IgnoredLints(I),
    LintConfig(L),
    Integrations(Vec<N>),
    DebounceMs(u64),
    AutoUpdate(bool),
    LastUpdateCheck(Option<u64>),
}

/// The settings with one of them set to a value, and the others as they are.
pub open spec fn with_setting<D, W, I, L, N>(
    config: Config<D, W, I, L, N>,
    setting: Setting<D, W, I, L, N>,
) -> Config<D, W, I, L, N> {
    match setting {
        Setting::Dialect(dialect) => Config { dialect, ..config },
        Setting::Dictionary(dictionary) => Config { mutable_dictionary: dictionary, ..config },
        Setting::IgnoredLints(ignored_lints) => Config { ignored_lints, ..config },
        Setting::LintConfig(lint_config) => Config { lint_config, ..config },
        Setting::Integrations(integrations) => Config { integrations, ..config },
        Setting::DebounceMs(debounce_ms) => Config { debounce_ms, ..config },
        Setting::AutoUpdate(auto_update) => Config { auto_update, ..config },
        Setting::LastUpdateCheck(check) => Config { last_update_check: check, ..config },
    }
}

/// Whether two values are for the same setting.
pub open spec fn same_setting<D, W, I, L, N>(
    a: Setting<D, W, I, L, N>,
    b: Setting<D, W, I, L, N>,
) -> bool {
    match (a, b) {
        (Setting::Dialect(_), Setting::Dialect(_)) => true,
        (Setting::Dictionary(_), Setting::Dictionary(_)) => true,
        (Setting::IgnoredLints(_), Setting::IgnoredLints(_)) => true,
        (Setting::LintConfig(_), Setting::LintConfig(_)) => true,
        (Setting::Integrations(_), Setting::Integrations(_)) => true,
        (Setting::DebounceMs(_), Setting::DebounceMs(_)) => true,
        (Setting::AutoUpdate(_), Setting::AutoUpdate(_)) => true,
        (Setting::LastUpdateCheck(_), Setting::LastUpdateCheck(_)) => true,
        _ => false,
    }
}

/// The value that the settings have where `setting` has one.
pub open spec fn current<D, W, I, L, N>(
    config: Config<D, W, I, L, N>,
    setting: Setting<D, W, I, L, N>,
) -> Setting<D, W, I, L, N> {
    match setting {
        Setting::Dialect(_) => Setting::Dialect(config.dialect),
        Setting::Dictionary(_) => Setting::Dictionary(config.mutable_dictionary),
        Setting::IgnoredLints(_) => Setting::IgnoredLints(config.ignored_lints),
        Setting::LintConfig(_) => Setting::LintConfig(config.lint_config),
        Setting::Integrations(_) => Setting::Integrations(config.integrations),
        Setting::DebounceMs(_) => Setting::DebounceMs(config.debounce_ms),
        Setting::AutoUpdate(_) => Setting::AutoUpdate(config.auto_update),
        Setting::LastUpdateCheck(_) => Setting::LastUpdateCheck(config.last_update_check),
    }
}

impl<D, W, I, L, N> Config<D, W, I, L, N> {
    /// The dialect.
    pub fn get_dialect(&self) -> (dialect: &D)
        ensures
            *dialect == self.dialect,
    {
        &self.dialect
    }

    /// Sets the dialect.
    pub fn set_dialect(&mut self, dialect: D)
        ensures
            *final(self) == with_setting(*old(self), Setting::Dialect(dialect)),
    {
        self.dialect = dialect;
    }

    /// How long typing has to pause before the text is linted, in milliseconds.
    pub fn get_debounce_ms(&self) -> (debounce_ms: u64)
        ensures
            debounce_ms == self.debounce_ms,
    {
        self.debounce_ms
    }

    /// Sets how long typing has to pause.
    pub fn set_debounce_ms(&mut self, debounce_ms: u64)
        ensures
            *final(self) == with_setting(*old(self), Setting::DebounceMs(debounce_ms)),
    {
        self.debounce_ms = debounce_ms;
    }

    /// Whether updates are installed without being asked for.
    pub fn get_auto_update(&self) -> (auto_update: bool)
        ensures
            auto_update == self.auto_update,
    {
        self.auto_update
    }

    /// Sets whether updates are installed without being asked for.
    pub fn set_auto_update(&mut self, auto_update: bool)
        ensures
            *final(self) == with_setting(*old(self), Setting::AutoUpdate(auto_update)),
    {
        self.auto_update = auto_update;
    }

    /// When an update was last looked for.
    pub fn get_last_update_check(&self) -> (check: Option<u64>)
        ensures
            check == self.last_update_check,
    {
        self.last_update_check
    }

    /// Sets when an update was last looked for.
    pub fn set_last_update_check(&mut self, check: Option<u64>)
        ensures
            *final(self) == with_setting(*old(self), Setting::LastUpdateCheck(check)),
    {
        self.last_update_check = check;
    }

    /// The lint rules as they are stored.
    pub fn get_lint_config(&self) -> (lint_config: &L)
        ensures
            *lint_config == self.lint_config,
    {
        &self.lint_config
    }

    /// Sets the lint rules.
    pub fn set_lint_config(&mut self, lint_config: L)
        ensures
            *final(self) == with_setting(*old(self), Setting::LintConfig(lint_config)),
    {
        self.lint_config = lint_config;
    }

    /// Replaces the user's dictionary.
    pub fn replace_dictionary(&mut self, dictionary: W)
        ensures
            *final(self) == with_setting(*old(self), Setting::Dictionary(dictionary)),
    {
        self.mutable_dictionary = dictionary;
    }

    /// Replaces the ignored lints.
    pub fn replace_ignored_lints(&mut self, ignored_lints: I)
        ensures
            *final(self) == with_setting(*old(self), Setting::IgnoredLints(ignored_lints)),
    {
        self.ignored_lints = ignored_lints;
    }

    /// Replaces the integrations.
    pub fn replace_integrations(&mut self, integrations: Vec<N>)
        ensures
            *final(self) == with_setting(*old(self), Setting::Integrations(integrations)),
    {
        self.integrations = integrations;
    }

    /// The integrations.
    pub fn get_integrations(&self) -> (integrations: &Vec<N>)
        ensures
            *integrations == self.integrations,
    {
        &self.integrations
    }
}

/// A command that changes the settings, as it goes on.
pub enum SettingsEvent<D, W, I, L, N> {
    /// A setting is to be changed.
    Change(Setting<D, W, I, L, N>),
    /// The settings were saved, or could not be: the text of the error.
    Saved(Result<(), String>),
}

/// What is to be done next for a command that changes the settings.
pub enum SettingsAction {
    /// Save the settings as they are now, and hand back the outcome.
    Save,
    /// The command is answered.
    Answer(Result<(), String>),
}

/// The settings after an event: a change is made at once, and the outcome of saving it does not
/// touch them.
pub open spec fn settings_after<D, W, I, L, N>(
    config: Config<D, W, I, L, N>,
    event: SettingsEvent<D, W, I, L, N>,
) -> Config<D, W, I, L, N> {
    match event {
        SettingsEvent::Change(setting) => with_setting(config, setting),
        SettingsEvent::Saved(_) => config,
    }
}

/// What follows an event: a change is to be saved, and the outcome of that is the answer.
pub open spec fn settings_action<D, W, I, L, N>(
    event: SettingsEvent<D, W, I, L, N>,
) -> SettingsAction {
    match event {
        SettingsEvent::Change(_) => SettingsAction::Save,
        SettingsEvent::Saved(saved) => SettingsAction::Answer(saved),
    }
}

impl<D, W, I, L, N> Config<D, W, I, L, N> {
    /// Sets one of the settings.
    pub fn set(&mut self, setting: Setting<D, W, I, L, N>)
        ensures
            *final(self) == with_setting(*old(self), setting),
    {
        match setting {
            Setting::Dialect(dialect) => self.set_dialect(dialect),
            Setting::Dictionary(dictionary) => self.replace_dictionary(dictionary),
            Setting::IgnoredLints(ignored_lints) => self.replace_ignored_lints(ignored_lints),
            Setting::LintConfig(lint_config) => self.set_lint_config(lint_config),
            Setting::Integrations(integrations) => self.replace_integrations(integrations),
            Setting::DebounceMs(debounce_ms) => self.set_debounce_ms(debounce_ms),
            Setting::AutoUpdate(auto_update) => self.set_auto_update(auto_update),
            Setting::LastUpdateCheck(check) => self.set_last_update_check(check),
        }
    }

    /// Decides how a command that changes the settings goes on.
    pub fn handle_settings_event(&mut self, event: SettingsEvent<D, W, I, L, N>) -> (action:
        SettingsAction)
        ensures
            *final(self) == settings_after(*old(self), event),
            action == settings_action(event),
    {
        match event {
            SettingsEvent::Change(setting) => {
                self.set(setting);
                SettingsAction::Save
            },
            SettingsEvent::Saved(saved) => SettingsAction::Answer(saved),
        }
    }

    /// A whole command that changes a setting, where `saved` is what saving the changed settings
    /// comes to: the answer is that outcome, and the new value stays whichever it is.
    pub fn change_setting(
        &mut self,
        setting: Setting<D, W, I, L, N>,
        saved: Result<(), String>,
    ) -> (answer: Result<(), String>)
        ensures
            *final(self) == with_setting(*old(self), setting),
            answer == saved,
    {
        self.set(setting);
        saved
    }
}

/// The settings to begin with: those that could be had, or else the default ones together
/// with the error, which is to be logged.
pub fn startup_config<C, E>(had: Result<C, E>, default: C) -> (startup: (C, Option<E>))
    ensures
        startup == (match had {
            Ok(config) => (config, None::<E>),
            Err(error) => (default, Some(error)),
        }),
{
    match had {
        Ok(config) => (config, None),
        Err(error) => (default, Some(error)),
    }
}

/// The settings and the answer of a command that has come as far as `event`, and how often they
/// are saved from there on, where saving settings comes to what `save` says of them.
pub open spec fn command_outcome<D, W, I, L, N>(
    config: Config<D, W, I, L, N>,
    save: spec_fn(Config<D, W, I, L, N>) -> Result<(), String>,
    event: SettingsEvent<D, W, I, L, N>,
    steps: nat,
) -> Option<(Config<D, W, I, L, N>, Result<(), String>, nat)>
    decreases steps,
{
    if steps == 0 {
        None
    } else {
        let after = settings_after(config, event);
        match settings_action(event) {
            SettingsAction::Save => match command_outcome(
                after,
                save,
                SettingsEvent::Saved(save(after)),
                (steps - 1) as nat,
            ) {
                Some((last, answer, saves)) => Some((last, answer, saves + 1)),
                None => None,
            },
            SettingsAction::Answer(answer) => Some((after, answer, 0)),
        }
    }
}

/// A command that changes a setting makes the change, saves the changed settings once, and
/// answers with what that came to. The new value stays in either case.
pub proof fn law_change_outlives_a_failed_save<D, W, I, L, N>(
    config: Config<D, W, I, L, N>,
    setting: Setting<D, W, I, L, N>,
    save: spec_fn(Config<D, W, I, L, N>) -> Result<(), String>,
)
    ensures
        command_outcome(config, save, SettingsEvent::Change(setting), 2) == Some(
            (with_setting(config, setting), save(with_setting(config, setting)), 1nat),
        ),
{
    reveal_with_fuel(command_outcome, 3);
}

/// A setting reads as it was written.
pub proof fn law_setting_reads_back<D, W, I, L, N>(
    config: Config<D, W, I, L, N>,
    setting: Setting<D, W, I, L, N>,
)
    ensures
        current(with_setting(config, setting), setting) == setting,
{
}

/// Writing a setting leaves every other one as it reads.
pub proof fn law_settings_are_independent<D, W, I, L, N>(
    config: Config<D, W, I, L, N>,
    setting: Setting<D, W, I, L, N>,
    other: Setting<D, W, I, L, N>,
)
    ensures
        !same_setting(setting, other) ==> current(with_setting(config, setting), other) == current(
            config,
            other,
        ),
{
}

/// The last value written to a setting is the one that counts.
pub proof fn law_last_write_counts<D, W, I, L, N>(
    config: Config<D, W, I, L, N>,
    first: Setting<D, W, I, L, N>,
    second: Setting<D, W, I, L, N>,
)
    requires
        same_setting(first, second),
    ensures
        with_setting(with_setting(config, first), second) == with_setting(config, second),
{
}

/// A value that is written goes into the field of its setting, as it is, and into no other.
pub proof fn law_each_setting_has_its_field<D, W, I, L, N>(
    config: Config<D, W, I, L, N>,
    setting: Setting<D, W, I, L, N>,
)
    ensures
        ({
            let after = with_setting(config, setting);
            &&& after.dialect == (match setting {
                Setting::Dialect(value) => value,
                _ => config.dialect,
            })
            &&& after.mutable_dictionary == (match setting {
                Setting::Dictionary(value) => value,
                _ => config.mutable_dictionary,
            })
            &&& after.ignored_lints == (match setting {
                Setting::IgnoredLints(value) => value,
                _ => config.ignored_lints,
            })
            &&& after.lint_config == (match setting {
                Setting::LintConfig(value) => value,
                _ => config.lint_config,
            })
            &&& after.integrations == (match setting {
                Setting::Integrations(value) => value,
                _ => config.integrations,
            })
            &&& after.debounce_ms == (match setting {
                Setting::DebounceMs(value) => value,
                _ => config.debounce_ms,
            })
            &&& after.auto_update == (match setting {
                Setting::AutoUpdate(value) => value,
                _ => config.auto_update,
            })
            &&& after.last_update_check == (match setting {
                Setting::LastUpdateCheck(value) => value,
                _ => config.last_update_check,
            })
        }),
{
}

/// A change is saved before it is answered, and the outcome of saving, good or bad, is the answer
/// and leaves the settings as they are.
pub proof fn law_saving_decides_the_answer<D, W, I, L, N>(
    config: Config<D, W, I, L, N>,
    setting: Setting<D, W, I, L, N>,
    saved: Result<(), String>,
)
    ensures
        settings_action(SettingsEvent::Change(setting)) is Save,
        settings_after(config, SettingsEvent::Change(setting)) == with_setting(config, setting),
        settings_action(SettingsEvent::<D, W, I, L, N>::Saved(saved)) == SettingsAction::Answer(
            saved,
        ),
        settings_after(config, SettingsEvent::Saved(saved)) == config,
{
}

} // verus!
