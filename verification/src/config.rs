//! Configuration: which resources and tools are enabled, and the
//! knobs of the calendar, task, audio and screenshot pipelines.
//!
//! A resource or tool is enabled exactly when its section is present;
//! a missing section disables it, and a provider configuration knows
//! nothing of is enabled by default. Loading configuration from disk
//! stays outside this library; a `Config` value is handed in.

use vstd::prelude::*;

use crate::resources::{ResourceId, ResourceProvider};
use crate::tools::{ToolId, ToolProvider};

verus! {

/// The calendar window: how many days to look ahead and behind.
#[derive(Debug, Clone, Copy)]
pub struct CalendarConfig {
    pub days_ahead: u32,
    pub days_behind: u32,
}

impl Default for CalendarConfig {
    /// Thirty days ahead, none behind.
    fn default() -> (r: CalendarConfig)
        ensures
            r.days_ahead == 30 && r.days_behind == 0,
    {
        CalendarConfig { days_ahead: 30, days_behind: 0 }
    }
}

/// The task filters: which statuses to include and the due window.
#[derive(Debug, Clone, Copy)]
pub struct TasksConfig {
    pub include_completed: bool,
    pub include_cancelled: bool,
    pub due_within_days: u32,
}

impl Default for TasksConfig {
    /// Completed tasks included, cancelled ones not, no due window.
    fn default() -> (r: TasksConfig)
        ensures
            r.include_completed && !r.include_cancelled && r.due_within_days == 0,
    {
        TasksConfig { include_completed: true, include_cancelled: false, due_within_days: 0 }
    }
}

/// The system-information resource has no knobs.
#[derive(Debug, Clone, Copy, Default)]
pub struct SystemInfoConfig {}

/// The application-listing resource has no knobs.
#[derive(Debug, Clone, Copy, Default)]
pub struct ApplicationsResourceConfig {}

/// The audio-status resource has no knobs.
#[derive(Debug, Clone, Copy, Default)]
pub struct AudioResourceConfig {}

/// The notification tool has no knobs.
#[derive(Debug, Clone, Copy, Default)]
pub struct NotificationsConfig {}

/// The application-launch tool has no knobs.
#[derive(Debug, Clone, Copy, Default)]
pub struct ApplicationsToolConfig {}

/// The file-opening tool has no knobs.
#[derive(Debug, Clone, Copy, Default)]
pub struct OpenFileConfig {}

/// The wallpaper tool has no knobs.
#[derive(Debug, Clone, Copy, Default)]
pub struct WallpaperConfig {}

/// The volume tool: the default step of relative changes.
#[derive(Debug, Clone, Copy)]
pub struct AudioToolConfig {
    pub volume_step: u32,
}

impl Default for AudioToolConfig {
    /// Steps of ten.
    fn default() -> (r: AudioToolConfig)
        ensures
            r.volume_step == 10,
    {
        AudioToolConfig { volume_step: 10 }
    }
}

/// The quick-settings tool has no knobs.
#[derive(Debug, Clone, Copy, Default)]
pub struct QuickSettingsConfig {}

/// The screenshot tool: whether to show the interactive dialog.
#[derive(Debug, Clone, Copy, Default)]
pub struct ScreenshotConfig {
    pub interactive: bool,
}

/// The window-management tool has no knobs.
#[derive(Debug, Clone, Copy, Default)]
pub struct WindowManagementConfig {}

/// Which resources are enabled, each with its knobs.
#[derive(Debug, Clone, Copy)]
pub struct ResourcesConfig {
    pub system_info: Option<SystemInfoConfig>,
    pub applications: Option<ApplicationsResourceConfig>,
    pub calendar: Option<CalendarConfig>,
    pub tasks: Option<TasksConfig>,
    pub audio: Option<AudioResourceConfig>,
}

impl Default for ResourcesConfig {
    /// Every resource enabled, with its default knobs.
    fn default() -> (r: ResourcesConfig)
        ensures
            r.system_info is Some && r.applications is Some && r.audio is Some,
            r.calendar == Some(CalendarConfig { days_ahead: 30, days_behind: 0 }),
            r.tasks == Some(
                TasksConfig {
                    include_completed: true,
                    include_cancelled: false,
                    due_within_days: 0,
                },
            ),
    {
        ResourcesConfig {
            system_info: Some(SystemInfoConfig {  }),
            applications: Some(ApplicationsResourceConfig {  }),
            calendar: Some(CalendarConfig::default()),
            tasks: Some(TasksConfig::default()),
            audio: Some(AudioResourceConfig {  }),
        }
    }
}

/// Which tools are enabled, each with its knobs.
#[derive(Debug, Clone, Copy)]
pub struct ToolsConfig {
    pub notifications: Option<NotificationsConfig>,
    pub applications: Option<ApplicationsToolConfig>,
    pub open_file: Option<OpenFileConfig>,
    pub wallpaper: Option<WallpaperConfig>,
    pub audio: Option<AudioToolConfig>,
    pub quick_settings: Option<QuickSettingsConfig>,
    pub screenshot: Option<ScreenshotConfig>,
    pub window_management: Option<WindowManagementConfig>,
}

impl Default for ToolsConfig {
    /// Every tool enabled, with its default knobs.
    fn default() -> (r: ToolsConfig)
        ensures
            r.notifications is Some && r.applications is Some && r.open_file is Some
                && r.wallpaper is Some && r.quick_settings is Some && r.window_management is Some,
            r.audio == Some(AudioToolConfig { volume_step: 10 }),
            r.screenshot == Some(ScreenshotConfig { interactive: false }),
    {
        ToolsConfig {
            notifications: Some(NotificationsConfig {  }),
            applications: Some(ApplicationsToolConfig {  }),
            open_file: Some(OpenFileConfig {  }),
            wallpaper: Some(WallpaperConfig {  }),
            audio: Some(AudioToolConfig::default()),
            quick_settings: Some(QuickSettingsConfig {  }),
            screenshot: Some(ScreenshotConfig { interactive: false }),
            window_management: Some(WindowManagementConfig {  }),
        }
    }
}

/// The whole configuration.
#[derive(Debug, Clone, Copy)]
pub struct Config {
    pub resources: ResourcesConfig,
    pub tools: ToolsConfig,
}

/// Whether the resource under an identity is enabled.
pub open spec fn spec_resource_enabled(c: Config, id: ResourceId) -> bool {
    match id {
        ResourceId::SystemInfo => c.resources.system_info is Some,
        ResourceId::Applications => c.resources.applications is Some,
        ResourceId::Calendar => c.resources.calendar is Some,
        ResourceId::Tasks => c.resources.tasks is Some,
        ResourceId::Audio => c.resources.audio is Some,
        ResourceId::Other => true,
    }
}

/// Whether the tool under an identity is enabled.
pub open spec fn spec_tool_enabled(c: Config, id: ToolId) -> bool {
    match id {
        ToolId::Notifications => c.tools.notifications is Some,
        ToolId::Applications => c.tools.applications is Some,
        ToolId::OpenFile => c.tools.open_file is Some,
        ToolId::Wallpaper => c.tools.wallpaper is Some,
        ToolId::Volume => c.tools.audio is Some,
        ToolId::Media => c.tools.audio is Some,
        ToolId::QuickSettings => c.tools.quick_settings is Some,
        ToolId::Screenshot => c.tools.screenshot is Some,
        ToolId::WindowManagement => c.tools.window_management is Some,
        ToolId::Keyring => true,
        ToolId::Other => true,
    }
}

impl Default for Config {
    /// Everything enabled, with default knobs.
    fn default() -> (r: Config)
        ensures
            forall|id: ResourceId| spec_resource_enabled(r, id),
            forall|id: ToolId| spec_tool_enabled(r, id),
    {
        Config { resources: ResourcesConfig::default(), tools: ToolsConfig::default() }
    }
}

impl Config {
    /// Whether a resource provider is enabled: its section must be
    /// present, and providers configuration knows nothing of are
    /// enabled by default.
    pub fn is_resource_enabled<T: ResourceProvider>(&self) -> (r: bool)
        ensures
            r == spec_resource_enabled(*self, T::spec_id()),
    {
        match T::id() {
            ResourceId::SystemInfo => self.resources.system_info.is_some(),
            ResourceId::Applications => self.resources.applications.is_some(),
            ResourceId::Calendar => self.resources.calendar.is_some(),
            ResourceId::Tasks => self.resources.tasks.is_some(),
            ResourceId::Audio => self.resources.audio.is_some(),
            ResourceId::Other => true,
        }
    }

    /// Whether a tool provider is enabled: its section must be
    /// present, and providers configuration knows nothing of are
    /// enabled by default. The volume and media tools share the audio
    /// section.
    pub fn is_tool_enabled<T: ToolProvider>(&self) -> (r: bool)
        ensures
            r == spec_tool_enabled(*self, T::spec_id()),
    {
        match T::id() {
            ToolId::Notifications => self.tools.notifications.is_some(),
            ToolId::Applications => self.tools.applications.is_some(),
            ToolId::OpenFile => self.tools.open_file.is_some(),
            ToolId::Wallpaper => self.tools.wallpaper.is_some(),
            ToolId::Volume => self.tools.audio.is_some(),
            ToolId::Media => self.tools.audio.is_some(),
            ToolId::QuickSettings => self.tools.quick_settings.is_some(),
            ToolId::Screenshot => self.tools.screenshot.is_some(),
            ToolId::WindowManagement => self.tools.window_management.is_some(),
            ToolId::Keyring => true,
            ToolId::Other => true,
        }
    }

    /// The calendar knobs, defaulted when the section is absent.
    pub fn get_calendar_config(&self) -> (r: CalendarConfig)
        ensures
            self.resources.calendar matches Some(c) ==> r == c,
            self.resources.calendar is None ==> r == (CalendarConfig {
                days_ahead: 30,
                days_behind: 0,
            }),
    {
        match self.resources.calendar {
            Some(c) => c,
            None => CalendarConfig::default(),
        }
    }

    /// The task knobs, defaulted when the section is absent.
    pub fn get_tasks_config(&self) -> (r: TasksConfig)
        ensures
            self.resources.tasks matches Some(c) ==> r == c,
            self.resources.tasks is None ==> r == (TasksConfig {
                include_completed: true,
                include_cancelled: false,
                due_within_days: 0,
            }),
    {
        match self.resources.tasks {
            Some(c) => c,
            None => TasksConfig::default(),
        }
    }

    /// The volume-tool knobs, defaulted when the section is absent.
    pub fn get_audio_tool_config(&self) -> (r: AudioToolConfig)
        ensures
            self.tools.audio matches Some(c) ==> r == c,
            self.tools.audio is None ==> r == (AudioToolConfig { volume_step: 10 }),
    {
        match self.tools.audio {
            Some(c) => c,
            None => AudioToolConfig::default(),
        }
    }

    /// The screenshot knobs, defaulted when the section is absent.
    pub fn get_screenshot_config(&self) -> (r: ScreenshotConfig)
        ensures
            self.tools.screenshot matches Some(c) ==> r == c,
            self.tools.screenshot is None ==> r == (ScreenshotConfig { interactive: false }),
    {
        match self.tools.screenshot {
            Some(c) => c,
            None => ScreenshotConfig { interactive: false },
        }
    }
}

} // verus!
