//! The one-shot tools the connector exposes: their identities and
//! descriptions, and the path validation of the wallpaper tool.
//!
//! The tools' actions themselves are desktop calls and stay outside
//! this library; what lives here is what configuration and listing
//! need, and the pure checks the tools make on their inputs.

use vstd::prelude::*;

use crate::text::chars_of;

verus! {

/// The identity of a tool, as configuration knows it.
#[derive(Debug, Clone, Copy, PartialEq, Eq, Structural)]
pub enum ToolId {
    Notifications,
    Applications,
    OpenFile,
    Wallpaper,
    Volume,
    Media,
    QuickSettings,
    Screenshot,
    WindowManagement,
    Keyring,
    /// A tool configuration knows nothing of; always enabled.
    Other,
}

/// A provider of one tool: a fixed identity, name and description.
pub trait ToolProvider {
    /// The identity configuration checks this provider under.
    spec fn spec_id() -> ToolId;

    /// The tool's wire name.
    spec fn spec_name() -> Seq<char>;

    /// The identity configuration checks this provider under.
    fn id() -> (r: ToolId)
        ensures
            r == Self::spec_id(),
    ;

    /// The tool's wire name.
    fn name() -> (r: &'static str)
        ensures
            r@ == Self::spec_name(),
    ;
}

/// Sends a desktop notification.
#[derive(Debug, Clone, Copy, Default)]
pub struct Notifications;

/// Launches an application.
#[derive(Debug, Clone, Copy, Default)]
pub struct Applications;

/// Opens a file or URL with its default application.
#[derive(Debug, Clone, Copy, Default)]
pub struct OpenFile;

/// Sets the desktop wallpaper.
#[derive(Debug, Clone, Copy, Default)]
pub struct Wallpaper;

/// Controls the system volume.
#[derive(Debug, Clone, Copy, Default)]
pub struct Volume;

/// Controls media playback.
#[derive(Debug, Clone, Copy, Default)]
pub struct Media;

/// Toggles boolean system settings.
#[derive(Debug, Clone, Copy, Default)]
pub struct QuickSettings;

/// Takes a screenshot.
#[derive(Debug, Clone, Copy, Default)]
pub struct Screenshot;

/// Manages windows and workspaces.
#[derive(Debug, Clone, Copy, Default)]
pub struct WindowManagement;

/// Manages secrets in the keyring.
#[derive(Debug, Clone, Copy, Default)]
pub struct Keyring;

impl ToolProvider for Notifications {
    open spec fn spec_id() -> ToolId {
        ToolId::Notifications
    }

    open spec fn spec_name() -> Seq<char> {
        "send_notification"@
    }

    fn id() -> ToolId {
        ToolId::Notifications
    }

    fn name() -> &'static str {
        "send_notification"
    }
}

impl ToolProvider for Applications {
    open spec fn spec_id() -> ToolId {
        ToolId::Applications
    }

    open spec fn spec_name() -> Seq<char> {
        "launch_application"@
    }

    fn id() -> ToolId {
        ToolId::Applications
    }

    fn name() -> &'static str {
        "launch_application"
    }
}

impl ToolProvider for OpenFile {
    open spec fn spec_id() -> ToolId {
        ToolId::OpenFile
    }

    open spec fn spec_name() -> Seq<char> {
        "open_file"@
    }

    fn id() -> ToolId {
        ToolId::OpenFile
    }

    fn name() -> &'static str {
        "open_file"
    }
}

impl ToolProvider for Wallpaper {
    open spec fn spec_id() -> ToolId {
        ToolId::Wallpaper
    }

    open spec fn spec_name() -> Seq<char> {
        "set_wallpaper"@
    }

    fn id() -> ToolId {
        ToolId::Wallpaper
    }

    fn name() -> &'static str {
        "set_wallpaper"
    }
}

impl ToolProvider for Volume {
    open spec fn spec_id() -> ToolId {
        ToolId::Volume
    }

    open spec fn spec_name() -> Seq<char> {
        "set_volume"@
    }

    fn id() -> ToolId {
        ToolId::Volume
    }

    fn name() -> &'static str {
        "set_volume"
    }
}

impl ToolProvider for Media {
    open spec fn spec_id() -> ToolId {
        ToolId::Media
    }

    open spec fn spec_name() -> Seq<char> {
        "media_control"@
    }

    fn id() -> ToolId {
        ToolId::Media
    }

    fn name() -> &'static str {
        "media_control"
    }
}

impl ToolProvider for QuickSettings {
    open spec fn spec_id() -> ToolId {
        ToolId::QuickSettings
    }

    open spec fn spec_name() -> Seq<char> {
        "quick_settings"@
    }

    fn id() -> ToolId {
        ToolId::QuickSettings
    }

    fn name() -> &'static str {
        "quick_settings"
    }
}

impl ToolProvider for Screenshot {
    open spec fn spec_id() -> ToolId {
        ToolId::Screenshot
    }

    open spec fn spec_name() -> Seq<char> {
        "take_screenshot"@
    }

    fn id() -> ToolId {
        ToolId::Screenshot
    }

    fn name() -> &'static str {
        "take_screenshot"
    }
}

impl ToolProvider for WindowManagement {
    open spec fn spec_id() -> ToolId {
        ToolId::WindowManagement
    }

    open spec fn spec_name() -> Seq<char> {
        "window_management"@
    }

    fn id() -> ToolId {
        ToolId::WindowManagement
    }

    fn name() -> &'static str {
        "window_management"
    }
}

impl ToolProvider for Keyring {
    open spec fn spec_id() -> ToolId {
        ToolId::Keyring
    }

    open spec fn spec_name() -> Seq<char> {
        "keyring_management"@
    }

    fn id() -> ToolId {
        ToolId::Keyring
    }

    fn name() -> &'static str {
        "keyring_management"
    }
}

/// Why a wallpaper path was rejected.
#[derive(Debug, Clone, Copy, PartialEq, Eq, Structural)]
pub enum ImageFileError {
    /// The path's file name carries no extension.
    NoExtension,
    /// The extension names no supported image format.
    UnsupportedFormat,
}

/// The index of the last occurrence of `c` before position `i`, or
/// `-1`.
pub open spec fn find_last(s: Seq<char>, c: char, i: int) -> int
    decreases i when i <= s.len()
{
    if i <= 0 {
        -1
    } else if s[i - 1] == c {
        i - 1
    } else {
        find_last(s, c, i - 1)
    }
}

/// The path's extension: what follows the last dot of the file name,
/// provided that dot is neither its first character nor missing.
pub open spec fn spec_extension(p: Seq<char>) -> Option<Seq<char>> {
    let fs = find_last(p, '/', p.len() as int) + 1;
    let dot = find_last(p, '.', p.len() as int);
    if dot > fs {
        Some(p.subrange(dot + 1, p.len() as int))
    } else {
        None
    }
}

/// Case-insensitive equality on ASCII: equal, or an upper-case letter
/// against its lower-case form.
pub open spec fn char_eq_ci(a: char, b: char) -> bool {
    a == b || (65 <= a as int <= 90 && a as int + 32 == b as int)
}

/// Case-insensitive equality of a string against a lower-case one.
pub open spec fn seq_eq_ci(s: Seq<char>, t: Seq<char>) -> bool {
    s.len() == t.len() && (forall|i: int| 0 <= i < s.len() ==> char_eq_ci(s[i], t[i]))
}

/// What validating a wallpaper path yields: the extension must name,
/// in any letter case, one of the supported image formats.
pub open spec fn spec_validate_image_file(p: Seq<char>) -> Result<(), ImageFileError> {
    match spec_extension(p) {
        None => Err(ImageFileError::NoExtension),
        Some(e) => if seq_eq_ci(e, "jpg"@) || seq_eq_ci(e, "jpeg"@) || seq_eq_ci(e, "png"@) {
            Ok(())
        } else {
            Err(ImageFileError::UnsupportedFormat)
        },
    }
}

/// The index of the last occurrence of `c`, if any.
fn rfind_char(v: &Vec<char>, c: char) -> (r: Option<usize>)
    ensures
        (match r {
            Some(i) => i < v.len() && find_last(v@, c, v@.len() as int) == i,
            None => find_last(v@, c, v@.len() as int) == -1,
        }),
{
    let n = v.len();
    let mut k: usize = n;
    while k > 0
        invariant
            n == v.len(),
            k <= n,
            find_last(v@, c, n as int) == find_last(v@, c, k as int),
        decreases k,
    {
        if v[k - 1] == c {
            return Some(k - 1);
        }
        k = k - 1;
    }
    None
}

/// Case-insensitive equality of one character pair.
fn char_matches_ci(a: char, b: char) -> (r: bool)
    ensures
        r == char_eq_ci(a, b),
{
    if a == b {
        true
    } else {
        let ua = a as u32;
        let ub = b as u32;
        65 <= ua && ua <= 90 && ua + 32 == ub
    }
}

/// Case-insensitive equality of `v[a..b]` against a lower-case word.
fn range_eq_ci(v: &Vec<char>, a: usize, b: usize, t: &str) -> (r: bool)
    requires
        a <= b <= v.len(),
    ensures
        r == seq_eq_ci(v@.subrange(a as int, b as int), t@),
{
    let tv = chars_of(t);
    let m = tv.len();
    if b - a != m {
        return false;
    }
    let mut k: usize = 0;
    while k < m
        invariant
            m == tv.len(),
            tv@ == t@,
            a <= b <= v.len(),
            b - a == m,
            k <= m,
            forall|x: int| 0 <= x < k ==> char_eq_ci(v@[a + x], tv@[x]),
        decreases m - k,
    {
        if !char_matches_ci(v[a + k], tv[k]) {
            proof {
                assert(v@.subrange(a as int, b as int)[k as int] == v@[a + k]);
                assert(!char_eq_ci(v@.subrange(a as int, b as int)[k as int], t@[k as int]));
            }
            return false;
        }
        k = k + 1;
    }
    proof {
        assert(forall|x: int| 0 <= x < m ==> v@.subrange(a as int, b as int)[x] == v@[a + x]);
    }
    true
}

/// Validate a wallpaper path: its file name must carry a `jpg`,
/// `jpeg` or `png` extension, in any letter case. Whether the path
/// names an existing regular file is for the caller to check.
pub fn validate_image_file(image_path: &str) -> (r: Result<(), ImageFileError>)
    ensures
        r == spec_validate_image_file(image_path@),
{
    let v = chars_of(image_path);
    let n = v.len();
    let fs: usize = match rfind_char(&v, '/') {
        Some(i) => i + 1,
        None => 0,
    };
    let dot: usize = match rfind_char(&v, '.') {
        Some(i) => i,
        None => {
            return Err(ImageFileError::NoExtension);
        },
    };
    if dot <= fs {
        return Err(ImageFileError::NoExtension);
    }
    if range_eq_ci(&v, dot + 1, n, "jpg") || range_eq_ci(&v, dot + 1, n, "jpeg") || range_eq_ci(
        &v,
        dot + 1,
        n,
        "png",
    ) {
        Ok(())
    } else {
        Err(ImageFileError::UnsupportedFormat)
    }
}

} // verus!
