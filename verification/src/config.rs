//! Settings, their defaults, and what the command line overrides.

use vstd::prelude::*;
use vstd::slice::slice_subrange;
use crate::text::chars_of;

verus! {

/// Refresh rate in milliseconds where none is set.
pub const DEFAULT_REFRESH_RATE_MS: u64 = 1000;

/// Colour overrides, each as `#rrggbb`.
#[derive(Debug, Clone)]
pub struct ThemeOverrides {
    pub bg: Option<String>,
    pub fg: Option<String>,
    pub border: Option<String>,
    pub header_bg: Option<String>,
    pub selection_bg: Option<String>,
    pub selection_fg: Option<String>,
    pub cpu_user: Option<String>,
    pub cpu_system: Option<String>,
    pub cpu_nice: Option<String>,
    pub cpu_iowait: Option<String>,
    pub mem_used: Option<String>,
    pub mem_cached: Option<String>,
    pub mem_buffers: Option<String>,
    pub swap_used: Option<String>,
    pub gpu_util: Option<String>,
    pub gpu_mem: Option<String>,
    pub status_key: Option<String>,
    pub visual_bg: Option<String>,
}

impl ThemeOverrides {
    /// Whether no colour is overridden.
    pub open spec fn spec_is_empty(self) -> bool {
        &&& self.bg is None
        &&& self.fg is None
        &&& self.border is None
        &&& self.header_bg is None
        &&& self.selection_bg is None
        &&& self.selection_fg is None
        &&& self.cpu_user is None
        &&& self.cpu_system is None
        &&& self.cpu_nice is None
        &&& self.cpu_iowait is None
        &&& self.mem_used is None
        &&& self.mem_cached is None
        &&& self.mem_buffers is None
        &&& self.swap_used is None
        &&& self.gpu_util is None
        &&& self.gpu_mem is None
        &&& self.status_key is None
        &&& self.visual_bg is None
    }
}

impl Default for ThemeOverrides {
    fn default() -> (o: Self)
        ensures
            o.spec_is_empty(),
    {
        ThemeOverrides {
            bg: None,
            fg: None,
            border: None,
            header_bg: None,
            selection_bg: None,
            selection_fg: None,
            cpu_user: None,
            cpu_system: None,
            cpu_nice: None,
            cpu_iowait: None,
            mem_used: None,
            mem_cached: None,
            mem_buffers: None,
            swap_used: None,
            gpu_util: None,
            gpu_mem: None,
            status_key: None,
            visual_bg: None,
        }
    }
}

/// General settings.
#[derive(Debug, Clone)]
pub struct GeneralConfig {
    /// Refresh rate in milliseconds.
    pub refresh_rate_ms: u64,
    /// Start in the tree view.
    pub tree_view: bool,
    /// Show the threads of processes.
    pub show_threads: bool,
    /// Show the threads of the kernel.
    pub show_kernel_threads: bool,
}

/// The refresh rate where none is set.
pub fn default_refresh_rate() -> (ms: u64)
    ensures
        ms == DEFAULT_REFRESH_RATE_MS,
{
    DEFAULT_REFRESH_RATE_MS
}

/// The theme where none is set.
pub fn default_preset() -> (name: String)
    ensures
        name@ == "gruvbox-dark"@,
{
    "gruvbox-dark".to_owned()
}

impl Default for GeneralConfig {
    fn default() -> (c: Self)
        ensures
            c.refresh_rate_ms == DEFAULT_REFRESH_RATE_MS,
            !c.tree_view && !c.show_threads && !c.show_kernel_threads,
    {
        GeneralConfig {
            refresh_rate_ms: default_refresh_rate(),
            tree_view: false,
            show_threads: false,
            show_kernel_threads: false,
        }
    }
}

/// The theme and what is changed of it.
#[derive(Debug, Clone)]
pub struct ThemeConfig {
    /// Name of the theme: `gruvbox-dark` or `gruvbox-light`.
    pub preset: String,
    pub overrides: ThemeOverrides,
}

impl Default for ThemeConfig {
    fn default() -> (c: Self)
        ensures
            c.preset@ == "gruvbox-dark"@,
            c.overrides.spec_is_empty(),
    {
        ThemeConfig { preset: default_preset(), overrides: ThemeOverrides::default() }
    }
}

/// All settings.
#[derive(Debug, Clone)]
pub struct Config {
    pub general: GeneralConfig,
    pub theme: ThemeConfig,
}

impl Default for Config {
    fn default() -> (c: Self)
        ensures
            c.general.refresh_rate_ms == DEFAULT_REFRESH_RATE_MS,
            !c.general.tree_view && !c.general.show_threads && !c.general.show_kernel_threads,
            c.theme.preset@ == "gruvbox-dark"@,
            c.theme.overrides.spec_is_empty(),
    {
        Config { general: GeneralConfig::default(), theme: ThemeConfig::default() }
    }
}

impl Config {
    /// Lets the command line override the settings: a delay other than the
    /// default becomes the refresh rate, and the tree view can be switched
    /// on.
    pub fn apply_cli(&mut self, delay: u64, tree: bool)
        ensures
            final(self).general.refresh_rate_ms == if delay != DEFAULT_REFRESH_RATE_MS {
                delay
            } else {
                old(self).general.refresh_rate_ms
            },
            final(self).general.tree_view == (tree || old(self).general.tree_view),
            final(self).general.show_threads == old(self).general.show_threads,
            final(self).general.show_kernel_threads == old(self).general.show_kernel_threads,
            final(self).theme == old(self).theme,
    {
        if delay != DEFAULT_REFRESH_RATE_MS {
            self.general.refresh_rate_ms = delay;
        }
        if tree {
            self.general.tree_view = true;
        }
    }
}

/// The number that a hexadecimal digit stands for.
pub open spec fn spec_hex_value(c: char) -> Option<u8> {
    let n = c as u32;
    if 48 <= n <= 57 {
        Some((n - 48) as u8)
    } else if 97 <= n <= 102 {
        Some((n - 87) as u8)
    } else if 65 <= n <= 70 {
        Some((n - 55) as u8)
    } else {
        None
    }
}

/// The byte that two characters write in hexadecimal: two digits, or a plus
/// sign and one digit.
pub open spec fn spec_hex_byte(a: char, b: char) -> Option<u8> {
    match (spec_hex_value(a), spec_hex_value(b)) {
        (Some(hi), Some(lo)) => Some((hi * 16 + lo) as u8),
        (None, Some(lo)) => if a == '+' {
            Some(lo)
        } else {
            None
        },
        _ => None,
    }
}

/// The colour that `#rrggbb` names: red, green and blue.
pub open spec fn spec_parse_hex_color(s: Seq<char>) -> Option<(u8, u8, u8)> {
    if s.len() == 7 && s[0] == '#' {
        match (spec_hex_byte(s[1], s[2]), spec_hex_byte(s[3], s[4]), spec_hex_byte(s[5], s[6])) {
            (Some(r), Some(g), Some(b)) => Some((r, g, b)),
            _ => None,
        }
    } else {
        None
    }
}

fn hex_value(c: char) -> (v: Option<u8>)
    ensures
        v == spec_hex_value(c),
        v matches Some(d) ==> d < 16,
{
    let n: u32 = c as u32;
    if 48 <= n && n <= 57 {
        Some((n - 48) as u8)
    } else if 97 <= n && n <= 102 {
        Some((n - 87) as u8)
    } else if 65 <= n && n <= 70 {
        Some((n - 55) as u8)
    } else {
        None
    }
}

fn hex_byte(a: char, b: char) -> (v: Option<u8>)
    ensures
        v == spec_hex_byte(a, b),
{
    match (hex_value(a), hex_value(b)) {
        (Some(hi), Some(lo)) => Some(hi * 16 + lo),
        (None, Some(lo)) => if a == '+' {
            Some(lo)
        } else {
            None
        },
        _ => None,
    }
}

/// Reads a colour written as `#rrggbb`.
pub fn parse_hex_color(s: &str) -> (rgb: Option<(u8, u8, u8)>)
    ensures
        rgb == spec_parse_hex_color(s@),
{
    let c = chars_of(s);
    if c.len() != 7 || c[0] != '#' {
        return None;
    }
    match (hex_byte(c[1], c[2]), hex_byte(c[3], c[4]), hex_byte(c[5], c[6])) {
        (Some(r), Some(g), Some(b)) => Some((r, g, b)),
        _ => None,
    }
}

} // verus!
