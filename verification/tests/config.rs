use kruidvat_notification::config::{
    assemble, variable_of, ConfigError, RawSettings, Setting, StartupError,
};
use kruidvat_notification::mail::MailSettings;
use kruidvat_notification::schedule::ScheduleError;

fn complete() -> RawSettings {
    RawSettings {
        product_url: Some(String::from("https://www.kruidvat.nl/soap/p/12345")),
        cron: Some(String::from("0 0 * * * *")),
        api_key: Some(String::from("key")),
        domain: Some(String::from("mg.example.org")),
        sender: Some(String::from("watcher@example.org")),
        recipient: Some(String::from("buyer@example.org")),
        error_recipient: Some(String::from("operator@example.org")),
    }
}

fn missing(setting: Setting) -> Option<StartupError> {
    Some(StartupError::Config(ConfigError::Missing(setting)))
}

#[test]
fn complete_settings_are_put_together() {
    let settings = assemble(complete()).unwrap();
    assert_eq!(settings.product_url, "https://www.kruidvat.nl/soap/p/12345");
    assert_eq!(settings.timetable.expression(), "0 0 * * * *");
    assert_eq!(settings.api_key, "key");
    assert_eq!(
        settings.mail,
        MailSettings {
            domain: String::from("mg.example.org"),
            sender: String::from("watcher@example.org"),
            recipient: String::from("buyer@example.org"),
            error_recipient: String::from("operator@example.org"),
        }
    );
}

#[test]
fn each_setting_is_required() {
    let mut raw = complete();
    raw.product_url = None;
    assert_eq!(assemble(raw).err(), missing(Setting::ProductUrl));
    let mut raw = complete();
    raw.cron = None;
    assert_eq!(assemble(raw).err(), missing(Setting::Cron));
    let mut raw = complete();
    raw.api_key = None;
    assert_eq!(assemble(raw).err(), missing(Setting::ApiKey));
    let mut raw = complete();
    raw.domain = None;
    assert_eq!(assemble(raw).err(), missing(Setting::Domain));
    let mut raw = complete();
    raw.sender = None;
    assert_eq!(assemble(raw).err(), missing(Setting::Sender));
    let mut raw = complete();
    raw.recipient = None;
    assert_eq!(assemble(raw).err(), missing(Setting::Recipient));
    let mut raw = complete();
    raw.error_recipient = None;
    assert_eq!(assemble(raw).err(), missing(Setting::ErrorRecipient));
}

#[test]
fn first_fault_is_named() {
    let mut raw = complete();
    raw.product_url = None;
    raw.cron = None;
    raw.recipient = None;
    assert_eq!(assemble(raw).err(), missing(Setting::ProductUrl));
    let mut raw = complete();
    raw.cron = Some(String::from("whenever"));
    raw.api_key = None;
    assert_eq!(assemble(raw).err(), Some(StartupError::Schedule(ScheduleError::Malformed)));
    let mut raw = complete();
    raw.sender = None;
    raw.error_recipient = None;
    assert_eq!(assemble(raw).err(), missing(Setting::Sender));
}

#[test]
fn malformed_schedule_keeps_the_watcher_from_starting() {
    let mut raw = complete();
    raw.cron = Some(String::from("not a schedule"));
    assert_eq!(assemble(raw).err(), Some(StartupError::Schedule(ScheduleError::Malformed)));
}

#[test]
fn settings_have_their_variables() {
    assert_eq!(variable_of(Setting::ProductUrl), "PRODUCT_URL");
    assert_eq!(variable_of(Setting::Cron), "CRON");
    assert_eq!(variable_of(Setting::ApiKey), "MAILGUN_API_KEY");
    assert_eq!(variable_of(Setting::Domain), "MAILGUN_DOMAIN");
    assert_eq!(variable_of(Setting::Sender), "MAILGUN_FROM");
    assert_eq!(variable_of(Setting::Recipient), "MAILGUN_TO");
    assert_eq!(variable_of(Setting::ErrorRecipient), "MAILGUN_ERROR_TO");
}
