//! The user's settings and the rules for changing them.
//!
//! Storing them is the caller's business: every setter changes the value in
//! memory and the caller writes it out afterwards. So is asking the
//! platform for the user's video directory, which the settings of a first
//! start save to.

use vstd::prelude::*;
use vstd::string::StringExecFns;

verus! {

/// What the user has chosen.
#[derive(Debug, Clone)]
pub struct Settings {
    pub save_dir: String,
    pub browser: String,
    pub server_port: u16,
    pub is_send_notification: bool,
    pub index: u32,
    pub is_server_enabled: bool,
    pub theme_mode: String,
    /// `true`: the tools that were downloaded beside the program are used;
    /// `false`: the paths below.
    pub use_bundle_tools: bool,
    pub yt_dlp_path: String,
    pub ffmpeg_path: String,
    pub deno_path: String,
}

/// The mathematical content of [`Settings`].
pub struct SettingsView {
    pub save_dir: Seq<char>,
    pub browser: Seq<char>,
    pub server_port: u16,
    pub is_send_notification: bool,
    pub index: u32,
    pub is_server_enabled: bool,
    pub theme_mode: Seq<char>,
    pub use_bundle_tools: bool,
    pub yt_dlp_path: Seq<char>,
    pub ffmpeg_path: Seq<char>,
    pub deno_path: Seq<char>,
}

impl View for Settings {
    type V = SettingsView;

    open spec fn view(&self) -> SettingsView {
        SettingsView {
            save_dir: self.save_dir@,
            browser: self.browser@,
            server_port: self.server_port,
            is_send_notification: self.is_send_notification,
            index: self.index,
            is_server_enabled: self.is_server_enabled,
            theme_mode: self.theme_mode@,
            use_bundle_tools: self.use_bundle_tools,
            yt_dlp_path: self.yt_dlp_path@,
            ffmpeg_path: self.ffmpeg_path@,
            deno_path: self.deno_path@,
        }
    }
}

/// The settings of a first start, with downloads going to `save_dir`: the
/// bundled tools are chosen and no tool path is set, so that the tools get
/// set up before anything runs.
pub open spec fn initial_settings(save_dir: Seq<char>) -> SettingsView {
    SettingsView {
        save_dir,
        browser: "firefox"@,
        server_port: 50000,
        is_send_notification: true,
        index: 3,
        is_server_enabled: false,
        theme_mode: "system"@,
        use_bundle_tools: true,
        yt_dlp_path: Seq::empty(),
        ffmpeg_path: Seq::empty(),
        deno_path: Seq::empty(),
    }
}

/// Where downloads go when the user has chosen nothing: `found` if the
/// platform names a video directory, else `default_videos`.
pub open spec fn default_save_dir_of(found: Option<Seq<char>>) -> Seq<char> {
    match found {
        Some(dir) => dir,
        None => "default_videos"@,
    }
}

/// The directory for downloads when the user has chosen none, given the
/// video directory `found` that the platform names, if it names one.
pub fn get_default_save_dir(found: Option<String>) -> (dir: String)
    ensures
        dir@ == default_save_dir_of(found.deep_view()),
{
    match found {
        Some(d) => d,
        None => String::from_str("default_videos"),
    }
}

impl Settings {
    /// The settings of a first start that save to `save_dir`.
    pub fn with_save_dir(save_dir: String) -> (s: Settings)
        ensures
            s@ == initial_settings(save_dir@),
    {
        Settings {
            save_dir,
            browser: String::from_str("firefox"),
            server_port: 50000,
            is_send_notification: true,
            index: 3,
            is_server_enabled: false,
            theme_mode: String::from_str("system"),
            use_bundle_tools: true,
            yt_dlp_path: String::new(),
            ffmpeg_path: String::new(),
            deno_path: String::new(),
        }
    }

    /// The settings to start with: those that were stored, if any could be
    /// read, else the settings of a first start, which save to the video
    /// directory `video_dir` of the platform, if it names one.
    pub fn new(stored: Option<Settings>, video_dir: Option<String>) -> (s: Settings)
        ensures
            match stored {
                Some(kept) => s == kept,
                None => s@ == initial_settings(default_save_dir_of(video_dir.deep_view())),
            },
    {
        match stored {
            Some(kept) => kept,
            None => Settings::with_save_dir(get_default_save_dir(video_dir)),
        }
    }

    /// Sets the directory that downloads go to.
    pub fn set_save_dir(&mut self, new_save_dir: String)
        ensures
            final(self)@ == (SettingsView { save_dir: new_save_dir@, ..old(self)@ }),
    {
        self.save_dir = new_save_dir;
    }

    /// Sets the browser whose cookies are used.
    pub fn set_browser(&mut self, new_browser: String)
        ensures
            final(self)@ == (SettingsView { browser: new_browser@, ..old(self)@ }),
    {
        self.browser = new_browser;
    }

    /// Sets the port on which the bridge listens.
    pub fn set_server_port(&mut self, new_server_port: u16)
        ensures
            final(self)@ == (SettingsView { server_port: new_server_port, ..old(self)@ }),
    {
        self.server_port = new_server_port;
    }

    /// Sets whether the end of a download is notified.
    pub fn set_is_send_notification(&mut self, new_is_send_notification: bool)
        ensures
            final(self)@ == (SettingsView {
                is_send_notification: new_is_send_notification,
                ..old(self)@
            }),
    {
        self.is_send_notification = new_is_send_notification;
    }

    /// Sets the entry that the user interface has selected.
    pub fn set_index(&mut self, new_index: u32)
        ensures
            final(self)@ == (SettingsView { index: new_index, ..old(self)@ }),
    {
        self.index = new_index;
    }

    /// Sets whether the bridge is to run.
    pub fn set_is_server_enabled(&mut self, new_is_server_enabled: bool)
        ensures
            final(self)@ == (SettingsView {
                is_server_enabled: new_is_server_enabled,
                ..old(self)@
            }),
    {
        self.is_server_enabled = new_is_server_enabled;
    }

    /// Sets the theme of the user interface.
    pub fn set_theme_mode(&mut self, new_theme_mode: String)
        ensures
            final(self)@ == (SettingsView { theme_mode: new_theme_mode@, ..old(self)@ }),
    {
        self.theme_mode = new_theme_mode;
    }

    /// Chooses between the bundled tools and the user's own. Going over to
    /// the bundled tools forgets the three tool paths, so that the tools
    /// are set up anew.
    pub fn set_use_bundle_tools(&mut self, use_bundle_tools: bool)
        ensures
            use_bundle_tools ==> final(self)@ == (SettingsView {
                use_bundle_tools: true,
                yt_dlp_path: Seq::empty(),
                ffmpeg_path: Seq::empty(),
                deno_path: Seq::empty(),
                ..old(self)@
            }),
            !use_bundle_tools ==> final(self)@ == (SettingsView {
                use_bundle_tools: false,
                ..old(self)@
            }),
    {
        self.use_bundle_tools = use_bundle_tools;
        if use_bundle_tools {
            self.yt_dlp_path = String::new();
            self.ffmpeg_path = String::new();
            self.deno_path = String::new();
        }
    }

    /// Sets the path of yt-dlp.
    pub fn set_yt_dlp_path(&mut self, yt_dlp_path: String)
        ensures
            final(self)@ == (SettingsView { yt_dlp_path: yt_dlp_path@, ..old(self)@ }),
    {
        self.yt_dlp_path = yt_dlp_path;
    }

    /// Sets the path of ffmpeg and, where one is given, that of deno.
    pub fn set_ffmpeg_path(&mut self, ffmpeg_path: String, deno_path: Option<String>)
        ensures
            final(self)@ == (SettingsView {
                ffmpeg_path: ffmpeg_path@,
                deno_path: match deno_path {
                    Some(path) => path@,
                    None => old(self)@.deno_path,
                },
                ..old(self)@
            }),
    {
        self.ffmpeg_path = ffmpeg_path;
        if let Some(path) = deno_path {
            self.deno_path = path;
        }
    }
}

} // verus!
