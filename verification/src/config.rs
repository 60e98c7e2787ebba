//! Application settings and the values a fresh installation starts with.

use vstd::prelude::*;
use vstd::string::*;

use crate::paths::{trim_end_slashes, trim_trailing_slashes};

verus! {

/// How to reach the Alist server.
#[derive(Clone, Debug)]
pub struct AlistConfig {
    pub base_url: String,
    pub token: String,
    pub username: String,
    pub password: String,
    pub auto_login: bool,
}

/// What to do when the target file already exists: "ask", "overwrite",
/// "skip" or "rename".
#[derive(Clone, Debug)]
pub struct FileExistsStrategy {
    pub value: String,
}

/// A daily window, "HH:MM" to "HH:MM", in which uploads run.
#[derive(Clone, Debug)]
pub struct ScheduledUpload {
    pub enabled: bool,
    pub start_time: String,
    pub end_time: String,
    pub notify_on_start: bool,
    pub notify_on_stop: bool,
}

/// How uploads run.
#[derive(Clone, Debug)]
pub struct UploadConfig {
    pub concurrency: u8,
    pub max_retries: u32,
    /// Upload speed limit in bytes per second; 0 means no limit.
    pub speed_limit: u64,
    pub as_task: bool,
    pub upload_method: String,
    pub last_alist_path: String,
    pub block_files_over_5gb: bool,
    pub warn_files_over_4gb: bool,
    pub file_exists_strategy: FileExistsStrategy,
    pub show_progress: bool,
    pub notify_on_complete: bool,
    pub notify_feishu_on_queue_complete: bool,
    pub shutdown_after_complete: bool,
    pub shutdown_delay_minutes: u32,
    pub minimize_on_close: bool,
    /// Most tasks uploaded in one run; 0 means no limit.
    pub max_tasks_per_run: u32,
    pub schedule: Option<ScheduledUpload>,
    pub notification: Option<NotificationConfig>,
}

/// Where to send notifications.
#[derive(Clone, Debug)]
pub struct NotificationConfig {
    pub enabled: bool,
    pub webhook_url: String,
    /// Channel names such as "feishu" or "dingtalk".
    pub channels: Vec<String>,
}

/// How long finished uploads stay in the history.
#[derive(Clone, Debug)]
pub struct HistoryConfig {
    pub retention_days: u32,
}

/// All settings.
#[derive(Clone, Debug)]
pub struct AppConfig {
    pub alist: AlistConfig,
    pub upload: UploadConfig,
    pub history: HistoryConfig,
}

/// Value that a missing `upload_method` is read as.
pub open spec fn fallback_upload_method() -> Seq<char> {
    "stream"@
}

/// Value that a missing `last_alist_path` is read as.
pub open spec fn fallback_alist_path() -> Seq<char> {
    "/"@
}

/// Value that a missing `shutdown_delay_minutes` is read as.
pub open spec fn fallback_shutdown_delay_minutes() -> u32 {
    10
}

/// Value that a missing `retention_days` is read as.
pub open spec fn fallback_retention_days() -> u32 {
    30
}

/// Value of `auto_login` when stored settings leave it out.
pub fn default_auto_login() -> (r: bool)
    ensures
        r,
{
    true
}

/// Value of `upload_method` when stored settings leave it out.
pub fn default_upload_method() -> (r: String)
    ensures
        r@ == fallback_upload_method(),
{
    String::from_str("stream")
}

/// Value of `shutdown_delay_minutes` when stored settings leave it out.
pub fn default_shutdown_delay_minutes() -> (r: u32)
    ensures
        r == fallback_shutdown_delay_minutes(),
{
    10
}

/// Value of `last_alist_path` when stored settings leave it out.
pub fn default_alist_path() -> (r: String)
    ensures
        r@ == fallback_alist_path(),
{
    String::from_str("/")
}

/// Value of the upload-size guards when stored settings leave them out.
pub fn default_true() -> (r: bool)
    ensures
        r,
{
    true
}

/// Value of `retention_days` when stored settings leave it out.
pub fn default_history_retention_days() -> (r: u32)
    ensures
        r == fallback_retention_days(),
{
    30
}

impl AlistConfig {
    /// A local Alist server at the default port, no credentials, auto-login on.
    pub open spec fn is_initial(&self) -> bool {
        &&& self.base_url@ == "http://127.0.0.1:5244"@
        &&& self.token@ == Seq::<char>::empty()
        &&& self.username@ == Seq::<char>::empty()
        &&& self.password@ == Seq::<char>::empty()
        &&& self.auto_login
    }
}

impl Default for AlistConfig {
    fn default() -> (r: Self)
        ensures
            r.is_initial(),
    {
        AlistConfig {
            base_url: String::from_str("http://127.0.0.1:5244"),
            token: String::new(),
            username: String::new(),
            password: String::new(),
            auto_login: true,
        }
    }
}

impl FileExistsStrategy {
    /// Ask the user.
    pub open spec fn is_initial(&self) -> bool {
        self.value@ == "ask"@
    }
}

impl Default for FileExistsStrategy {
    fn default() -> (r: Self)
        ensures
            r.is_initial(),
    {
        FileExistsStrategy { value: String::from_str("ask") }
    }
}

impl ScheduledUpload {
    /// Off, with a window from 03:00 to 07:00 and no notifications.
    pub open spec fn is_initial(&self) -> bool {
        &&& !self.enabled
        &&& self.start_time@ == "03:00"@
        &&& self.end_time@ == "07:00"@
        &&& !self.notify_on_start
        &&& !self.notify_on_stop
    }
}

impl Default for ScheduledUpload {
    fn default() -> (r: Self)
        ensures
            r.is_initial(),
    {
        ScheduledUpload {
            enabled: false,
            start_time: String::from_str("03:00"),
            end_time: String::from_str("07:00"),
            notify_on_start: false,
            notify_on_stop: false,
        }
    }
}

impl UploadConfig {
    /// One upload at a time, five retries, no speed or run limit, uploads
    /// as Alist tasks in "stream" mode into "/", size guards on, ask on
    /// conflicts, the initial schedule and no notification settings.
    pub open spec fn is_initial(&self) -> bool {
        &&& self.concurrency == 1
        &&& self.max_retries == 5
        &&& self.speed_limit == 0
        &&& self.as_task
        &&& self.upload_method@ == "stream"@
        &&& self.last_alist_path@ == "/"@
        &&& self.block_files_over_5gb
        &&& self.warn_files_over_4gb
        &&& self.file_exists_strategy.is_initial()
        &&& !self.show_progress
        &&& !self.notify_on_complete
        &&& !self.notify_feishu_on_queue_complete
        &&& !self.shutdown_after_complete
        &&& self.shutdown_delay_minutes == 10
        &&& self.minimize_on_close
        &&& self.max_tasks_per_run == 0
        &&& (self.schedule matches Some(s) && s.is_initial())
        &&& self.notification is None
    }
}

impl Default for UploadConfig {
    fn default() -> (r: Self)
        ensures
            r.is_initial(),
    {
        UploadConfig {
            concurrency: 1,
            max_retries: 5,
            speed_limit: 0,
            as_task: true,
            upload_method: String::from_str("stream"),
            last_alist_path: String::from_str("/"),
            block_files_over_5gb: true,
            warn_files_over_4gb: true,
            file_exists_strategy: FileExistsStrategy::default(),
            show_progress: false,
            notify_on_complete: false,
            notify_feishu_on_queue_complete: false,
            shutdown_after_complete: false,
            shutdown_delay_minutes: 10,
            minimize_on_close: true,
            max_tasks_per_run: 0,
            schedule: Some(ScheduledUpload::default()),
            notification: None,
        }
    }
}

impl NotificationConfig {
    /// Off, no webhook, and the single channel "feishu".
    pub open spec fn is_initial(&self) -> bool {
        &&& !self.enabled
        &&& self.webhook_url@ == Seq::<char>::empty()
        &&& self.channels@.len() == 1
        &&& self.channels@[0]@ == "feishu"@
    }
}

impl Default for NotificationConfig {
    fn default() -> (r: Self)
        ensures
            r.is_initial(),
    {
        NotificationConfig {
            enabled: false,
            webhook_url: String::new(),
            channels: vec![String::from_str("feishu")],
        }
    }
}

impl HistoryConfig {
    /// Thirty days.
    pub open spec fn is_initial(&self) -> bool {
        self.retention_days == 30
    }
}

impl Default for HistoryConfig {
    fn default() -> (r: Self)
        ensures
            r.is_initial(),
    {
        HistoryConfig { retention_days: 30 }
    }
}

impl AppConfig {
    /// Every part at its initial value.
    pub open spec fn is_initial(&self) -> bool {
        &&& self.alist.is_initial()
        &&& self.upload.is_initial()
        &&& self.history.is_initial()
    }

    /// Records a successful login: the server address (already stripped of
    /// trailing slashes), the token it issued and the credentials used.
    /// Everything else stays as it was.
    pub fn apply_login(&mut self, base_url: String, token: String, username: String, password: String)
        ensures
            final(self).alist == (AlistConfig {
                base_url,
                token,
                username,
                password,
                auto_login: old(self).alist.auto_login,
            }),
            final(self).upload == old(self).upload,
            final(self).history == old(self).history,
    {
        self.alist.base_url = base_url;
        self.alist.token = token;
        self.alist.username = username;
        self.alist.password = password;
    }

    /// Records a successful login to the server at `base_url`, written as
    /// the user typed it: the address is kept without its trailing slashes,
    /// with the token the server issued and the credentials used. Everything
    /// else stays as it was.
    pub fn record_login(&mut self, base_url: &str, token: String, username: String, password: String)
        ensures
            final(self).alist.base_url@ == trim_end_slashes(base_url@),
            final(self).alist.token == token,
            final(self).alist.username == username,
            final(self).alist.password == password,
            final(self).alist.auto_login == old(self).alist.auto_login,
            final(self).upload == old(self).upload,
            final(self).history == old(self).history,
    {
        let normalized = trim_trailing_slashes(base_url);
        self.apply_login(normalized, token, username, password);
    }
}

impl Default for AppConfig {
    fn default() -> (r: Self)
        ensures
            r.is_initial(),
    {
        AppConfig {
            alist: AlistConfig::default(),
            upload: UploadConfig::default(),
            history: HistoryConfig::default(),
        }
    }
}

/// A field left out of stored settings is read as a fresh installation has
/// it: `auto_login` and the size guards as `true` (`default_auto_login`,
/// `default_true`), the remaining switches and limits as `false` or 0, and
/// the values the other fallbacks name. The one exception is
/// `minimize_on_close`: a fresh installation turns it on, a missing field
/// reads as off.
pub proof fn lemma_missing_fields_read_as_initial(c: AppConfig)
    requires
        c.is_initial(),
    ensures
        c.alist.auto_login == true,
        c.upload.block_files_over_5gb == true,
        c.upload.warn_files_over_4gb == true,
        c.upload.upload_method@ == fallback_upload_method(),
        c.upload.last_alist_path@ == fallback_alist_path(),
        c.upload.shutdown_delay_minutes == fallback_shutdown_delay_minutes(),
        c.history.retention_days == fallback_retention_days(),
        c.upload.speed_limit == 0,
        c.upload.max_tasks_per_run == 0,
        !c.upload.notify_on_complete,
        !c.upload.notify_feishu_on_queue_complete,
        !c.upload.shutdown_after_complete,
        c.upload.schedule matches Some(s) && !s.notify_on_start && !s.notify_on_stop,
        c.upload.minimize_on_close != false,
{
}

} // verus!
