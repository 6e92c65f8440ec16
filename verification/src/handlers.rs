//! The handlers of the user's actions: what each of them starts or asks
//! for. None of them works on file or network itself.

use crate::channel::{Message, StatusSender};
use crate::config::{
    Config, ConfigView, StoreAction, StoreActionView, StoredConfig, StoredView,
};
use crate::inject_job::InjectJob;
use crate::load_job::{LoadJob, LoadJobView, LoadStage};
use crate::save_job::SaveJob;
use crate::ui::{InjectionStatus, StatusView};
use vstd::prelude::*;
use vstd::string::*;

verus! {

/// The handler that starts a transfer: from the fields and the sender of a
/// fresh channel it makes the job to run.
pub fn create_inject_fn() -> (handler: impl Fn(&str, &str, &str, StatusSender) -> InjectJob)
    ensures
        forall|ip: &str, port: &str, file_path: &str, sender: StatusSender|
            call_requires(handler, (ip, port, file_path, sender)),
        forall|ip: &str, port: &str, file_path: &str, sender: StatusSender, job: InjectJob|
            #![trigger call_ensures(handler, (ip, port, file_path, sender), job)]
            call_ensures(handler, (ip, port, file_path, sender), job) ==> job@.is_new(
                sender@,
                ip@,
                port@,
                file_path@,
            ),
{
    |ip: &str, port: &str, file_path: &str, sender: StatusSender| -> (job: InjectJob)
        ensures
            job@.is_new(sender@, ip@, port@, file_path@),
        { InjectJob::new(ip, port, file_path, sender) }
}

/// The handler that starts the storing of the fields.
pub fn create_save_config_fn() -> (handler: impl Fn(&str, &str, &str, StatusSender) -> SaveJob)
    ensures
        forall|ip: &str, port: &str, file_path: &str, sender: StatusSender|
            call_requires(handler, (ip, port, file_path, sender)),
        forall|ip: &str, port: &str, file_path: &str, sender: StatusSender, job: SaveJob|
            #![trigger call_ensures(handler, (ip, port, file_path, sender), job)]
            call_ensures(handler, (ip, port, file_path, sender), job) ==> job@.is_new(
                sender@,
                ip@,
                port@,
                file_path@,
            ),
{
    |ip: &str, port: &str, file_path: &str, sender: StatusSender| -> (job: SaveJob)
        ensures
            job@.is_new(sender@, ip@, port@, file_path@),
        { SaveJob::new(ip, port, file_path, sender) }
}

/// The handler that starts the loading of settings.
pub fn create_load_config_fn() -> (handler: impl Fn(StatusSender) -> LoadJob)
    ensures
        forall|sender: StatusSender| call_requires(handler, (sender,)),
        forall|sender: StatusSender, job: LoadJob|
            #![trigger call_ensures(handler, (sender,), job)]
            call_ensures(handler, (sender,), job) ==> job@ == (LoadJobView {
                channel: sender@,
                stage: LoadStage::Created,
            }),
{
    |sender: StatusSender| -> (job: LoadJob)
        ensures
            job@ == (LoadJobView { channel: sender@, stage: LoadStage::Created }),
        { LoadJob::new(sender) }
}

/// What auto-save does with the fields: where the file is there, they are
/// written to it, and the preference that it held stays; where it is not,
/// auto-save is off and nothing is written.
pub open spec fn auto_save_action(
    stored: StoredView,
    ip: Seq<char>,
    port: Seq<char>,
    file_path: Seq<char>,
) -> StoreActionView {
    if stored.is_there() {
        StoreActionView::Write(
            ConfigView {
                ip,
                port,
                file_path,
                auto_save_enabled: stored.or_default().auto_save_enabled,
            },
        )
    } else {
        StoreActionView::Keep
    }
}

/// What a switch of the preference does: switched on, the stored settings
/// (or the defaults) are written with the preference on; switched off, the
/// file goes, if there is one.
pub open spec fn preference_action(stored: StoredView, enabled: bool) -> StoreActionView {
    if enabled {
        StoreActionView::Write(ConfigView { auto_save_enabled: true, ..stored.or_default() })
    } else if stored.is_there() {
        StoreActionView::Remove
    } else {
        StoreActionView::Keep
    }
}

/// The handler that auto-saves: from the fields and what the auto-save
/// file holds it says what is to be done to the file.
pub fn create_auto_save_fn() -> (handler: impl Fn(&str, &str, &str, &StoredConfig) -> StoreAction)
    ensures
        forall|ip: &str, port: &str, file_path: &str, stored: &StoredConfig|
            call_requires(handler, (ip, port, file_path, stored)),
        forall|ip: &str, port: &str, file_path: &str, stored: &StoredConfig, action: StoreAction|
            #![trigger call_ensures(handler, (ip, port, file_path, stored), action)]
            call_ensures(handler, (ip, port, file_path, stored), action) ==> action@
                == auto_save_action(stored@, ip@, port@, file_path@),
{
    |ip: &str, port: &str, file_path: &str, stored: &StoredConfig| -> (action: StoreAction)
        ensures
            action@ == auto_save_action(stored@, ip@, port@, file_path@),
        {
            if Config::config_file_exists(stored) {
                let current = Config::load_or_default(stored);
                let config = Config::new_with_auto_save(
                    ip.to_owned(),
                    port.to_owned(),
                    file_path.to_owned(),
                    current.auto_save_enabled,
                );
                config.auto_save()
            } else {
                StoreAction::Keep
            }
        }
}

/// The handler for a switch of the auto-save preference.
pub fn create_auto_save_preference_fn() -> (handler: impl Fn(bool, &StoredConfig) -> StoreAction)
    ensures
        forall|enabled: bool, stored: &StoredConfig| call_requires(handler, (enabled, stored)),
        forall|enabled: bool, stored: &StoredConfig, action: StoreAction|
            #![trigger call_ensures(handler, (enabled, stored), action)]
            call_ensures(handler, (enabled, stored), action) ==> action@ == preference_action(
                stored@,
                enabled,
            ),
{
    |enabled: bool, stored: &StoredConfig| -> (action: StoreAction)
        ensures
            action@ == preference_action(stored@, enabled),
        {
            if enabled {
                let current = Config::load_or_default(stored);
                let config = Config::new_with_auto_save(
                    current.ip,
                    current.port,
                    current.file_path,
                    true,
                );
                config.auto_save()
            } else if Config::config_file_exists(stored) {
                StoreAction::Remove
            } else {
                StoreAction::Keep
            }
        }
}

/// The handler that resets the status: whatever the fields hold, it
/// reports idle.
pub fn create_reset_fn() -> (handler: impl Fn(&str, &str, &str, StatusSender) -> Message)
    ensures
        forall|ip: &str, port: &str, file_path: &str, sender: StatusSender|
            call_requires(handler, (ip, port, file_path, sender)),
        forall|ip: &str, port: &str, file_path: &str, sender: StatusSender, message: Message|
            #![trigger call_ensures(handler, (ip, port, file_path, sender), message)]
            call_ensures(handler, (ip, port, file_path, sender), message) ==> message.channel
                == sender@ && message.event@ == StatusView::Idle,
{
    |_ip: &str, _port: &str, _file_path: &str, sender: StatusSender| -> (message: Message)
        ensures
            message.channel == sender@ && message.event@ == StatusView::Idle,
        { sender.send(InjectionStatus::Idle) }
}

/// The fields and the preference to start with: those of the auto-save
/// file, or the defaults where it is missing or unreadable.
pub fn load_startup_config(stored: &StoredConfig) -> (startup: (String, String, String, bool))
    ensures
        startup.0@ == stored@.or_default().ip,
        startup.1@ == stored@.or_default().port,
        startup.2@ == stored@.or_default().file_path,
        startup.3 == stored@.or_default().auto_save_enabled,
{
    let Config { ip, port, file_path, auto_save_enabled } = Config::load_or_default(stored);
    (ip, port, file_path, auto_save_enabled)
}

/// Switching auto-save on leaves a file that holds the preference as on,
/// and the stored fields as they were; switching it off leaves no file.
pub proof fn lemma_preference_decides_file(stored: StoredView)
    ensures
        stored.after(preference_action(stored, true)).is_there(),
        stored.after(preference_action(stored, true)).or_default() == (ConfigView {
            auto_save_enabled: true,
            ..stored.or_default()
        }),
        !stored.after(preference_action(stored, false)).is_there(),
{
}

/// Auto-save never makes the file: without one it writes nothing. With
/// one, what is loaded next are the fields that were saved, under the
/// preference that the file held.
pub proof fn lemma_auto_save_keeps_preference(
    stored: StoredView,
    ip: Seq<char>,
    port: Seq<char>,
    file_path: Seq<char>,
)
    ensures
        !stored.is_there() ==> stored.after(auto_save_action(stored, ip, port, file_path))
            == stored,
        stored.is_there() ==> stored.after(
            auto_save_action(stored, ip, port, file_path),
        ).or_default() == (ConfigView {
            ip,
            port,
            file_path,
            auto_save_enabled: stored.or_default().auto_save_enabled,
        }),
{
}

} // verus!
