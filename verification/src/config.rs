//! The settings that the watcher needs before it starts.
//!
//! All seven are required. A missing one, or a schedule that is no cron
//! expression, keeps the watcher from starting.

use vstd::prelude::*;
use crate::mail::{MailSettings, MailSettingsView};
use crate::schedule::{cron_accepts, ScheduleError, Timetable};
use crate::text::text_opt_view;

verus! {

/// The settings, in the order in which they are looked at.
#[derive(Clone, Copy, Debug, PartialEq, Eq, Structural)]
pub enum Setting {
    ProductUrl,
    Cron,
    ApiKey,
    Domain,
    Sender,
    Recipient,
    ErrorRecipient,
}

/// A required setting is missing.
#[derive(Clone, Copy, Debug, PartialEq, Eq, Structural)]
pub enum ConfigError {
    Missing(Setting),
}

/// Why the watcher cannot start.
#[derive(Clone, Copy, Debug, PartialEq, Eq, Structural)]
pub enum StartupError {
    Config(ConfigError),
    Schedule(ScheduleError),
}

/// The environment variable of the product page's address.
pub const PRODUCT_URL_VARIABLE: &'static str = "PRODUCT_URL";

/// The environment variable of the cron expression.
pub const CRON_VARIABLE: &'static str = "CRON";

/// The environment variable of the mail provider's key.
pub const API_KEY_VARIABLE: &'static str = "MAILGUN_API_KEY";

/// The environment variable of the sending domain.
pub const DOMAIN_VARIABLE: &'static str = "MAILGUN_DOMAIN";

/// The environment variable of the sender's address.
pub const SENDER_VARIABLE: &'static str = "MAILGUN_FROM";

/// The environment variable of the recipient's address.
pub const RECIPIENT_VARIABLE: &'static str = "MAILGUN_TO";

/// The environment variable of the error recipient's address.
pub const ERROR_RECIPIENT_VARIABLE: &'static str = "MAILGUN_ERROR_TO";

/// The name of the environment variable that holds a setting.
pub open spec fn variable_name(setting: Setting) -> Seq<char> {
    match setting {
        Setting::ProductUrl => PRODUCT_URL_VARIABLE@,
        Setting::Cron => CRON_VARIABLE@,
        Setting::ApiKey => API_KEY_VARIABLE@,
        Setting::Domain => DOMAIN_VARIABLE@,
        Setting::Sender => SENDER_VARIABLE@,
        Setting::Recipient => RECIPIENT_VARIABLE@,
        Setting::ErrorRecipient => ERROR_RECIPIENT_VARIABLE@,
    }
}

/// Names the environment variable that holds a setting.
pub fn variable_of(setting: Setting) -> (r: &'static str)
    ensures
        r@ == variable_name(setting),
{
    match setting {
        Setting::ProductUrl => PRODUCT_URL_VARIABLE,
        Setting::Cron => CRON_VARIABLE,
        Setting::ApiKey => API_KEY_VARIABLE,
        Setting::Domain => DOMAIN_VARIABLE,
        Setting::Sender => SENDER_VARIABLE,
        Setting::Recipient => RECIPIENT_VARIABLE,
        Setting::ErrorRecipient => ERROR_RECIPIENT_VARIABLE,
    }
}

/// The settings as they were found: each one present or not.
#[derive(Clone, Debug, PartialEq, Eq)]
pub struct RawSettings {
    pub product_url: Option<String>,
    pub cron: Option<String>,
    pub api_key: Option<String>,
    pub domain: Option<String>,
    pub sender: Option<String>,
    pub recipient: Option<String>,
    pub error_recipient: Option<String>,
}

/// The mathematical content of [`RawSettings`].
pub struct RawSettingsView {
    pub product_url: Option<Seq<char>>,
    pub cron: Option<Seq<char>>,
    pub api_key: Option<Seq<char>>,
    pub domain: Option<Seq<char>>,
    pub sender: Option<Seq<char>>,
    pub recipient: Option<Seq<char>>,
    pub error_recipient: Option<Seq<char>>,
}

impl View for RawSettings {
    type V = RawSettingsView;

    open spec fn view(&self) -> RawSettingsView {
        RawSettingsView {
            product_url: text_opt_view(self.product_url),
            cron: text_opt_view(self.cron),
            api_key: text_opt_view(self.api_key),
            domain: text_opt_view(self.domain),
            sender: text_opt_view(self.sender),
            recipient: text_opt_view(self.recipient),
            error_recipient: text_opt_view(self.error_recipient),
        }
    }
}

/// The settings of a watcher that can start.
#[derive(Debug)]
pub struct Settings {
    pub product_url: String,
    pub timetable: Timetable,
    pub api_key: String,
    pub mail: MailSettings,
}

/// The mathematical content of [`Settings`].
pub struct SettingsView {
    pub product_url: Seq<char>,
    pub cron: Seq<char>,
    pub api_key: Seq<char>,
    pub mail: MailSettingsView,
}

impl View for Settings {
    type V = SettingsView;

    open spec fn view(&self) -> SettingsView {
        SettingsView {
            product_url: self.product_url@,
            cron: self.timetable@,
            api_key: self.api_key@,
            mail: self.mail@,
        }
    }
}

/// The first thing that keeps the watcher from starting, if anything
/// does: the settings are looked at in their order, and the schedule is
/// judged as soon as it is found.
pub open spec fn first_fault(raw: RawSettingsView) -> Option<StartupError> {
    if raw.product_url is None {
        Some(StartupError::Config(ConfigError::Missing(Setting::ProductUrl)))
    } else if raw.cron is None {
        Some(StartupError::Config(ConfigError::Missing(Setting::Cron)))
    } else if !cron_accepts(raw.cron->0) {
        Some(StartupError::Schedule(ScheduleError::Malformed))
    } else if raw.api_key is None {
        Some(StartupError::Config(ConfigError::Missing(Setting::ApiKey)))
    } else if raw.domain is None {
        Some(StartupError::Config(ConfigError::Missing(Setting::Domain)))
    } else if raw.sender is None {
        Some(StartupError::Config(ConfigError::Missing(Setting::Sender)))
    } else if raw.recipient is None {
        Some(StartupError::Config(ConfigError::Missing(Setting::Recipient)))
    } else if raw.error_recipient is None {
        Some(StartupError::Config(ConfigError::Missing(Setting::ErrorRecipient)))
    } else {
        None
    }
}

/// The settings that complete raw settings make.
pub open spec fn settings_of(raw: RawSettingsView) -> SettingsView {
    SettingsView {
        product_url: raw.product_url->0,
        cron: raw.cron->0,
        api_key: raw.api_key->0,
        mail: MailSettingsView {
            domain: raw.domain->0,
            sender: raw.sender->0,
            recipient: raw.recipient->0,
            error_recipient: raw.error_recipient->0,
        },
    }
}

fn demand(value: Option<String>, setting: Setting) -> (r: Result<String, StartupError>)
    ensures
        match value {
            Some(text) => r is Ok && r->Ok_0@ == text@,
            None => r == Err::<String, StartupError>(
                StartupError::Config(ConfigError::Missing(setting)),
            ),
        },
{
    match value {
        Some(text) => Ok(text),
        None => Err(StartupError::Config(ConfigError::Missing(setting))),
    }
}

/// Puts the settings together, or names the first fault.
pub fn assemble(raw: RawSettings) -> (r: Result<Settings, StartupError>)
    ensures
        match first_fault(raw@) {
            Some(fault) => r == Err::<Settings, StartupError>(fault),
            None => r is Ok && r->Ok_0@ == settings_of(raw@),
        },
{
    let product_url = match demand(raw.product_url, Setting::ProductUrl) {
        Ok(text) => text,
        Err(e) => { return Err(e); },
    };
    let cron = match demand(raw.cron, Setting::Cron) {
        Ok(text) => text,
        Err(e) => { return Err(e); },
    };
    let timetable = match Timetable::parse(cron.as_str()) {
        Ok(timetable) => timetable,
        Err(e) => { return Err(StartupError::Schedule(e)); },
    };
    let api_key = match demand(raw.api_key, Setting::ApiKey) {
        Ok(text) => text,
        Err(e) => { return Err(e); },
    };
    let domain = match demand(raw.domain, Setting::Domain) {
        Ok(text) => text,
        Err(e) => { return Err(e); },
    };
    let sender = match demand(raw.sender, Setting::Sender) {
        Ok(text) => text,
        Err(e) => { return Err(e); },
    };
    let recipient = match demand(raw.recipient, Setting::Recipient) {
        Ok(text) => text,
        Err(e) => { return Err(e); },
    };
    let error_recipient = match demand(raw.error_recipient, Setting::ErrorRecipient) {
        Ok(text) => text,
        Err(e) => { return Err(e); },
    };
    Ok(
        Settings {
            product_url,
            timetable,
            api_key,
            mail: MailSettings { domain, sender, recipient, error_recipient },
        },
    )
}

} // verus!
