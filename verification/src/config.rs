//! The configuration.
//!
//! It is taken from up to three texts, each with settings of the form `key = value`.
//! A later text goes before an earlier one, and a setting that cannot be read changes
//! nothing.

use crate::app_profile::AppProfile;
use vstd::prelude::*;

pub mod apply;
pub mod laws;
pub mod rejected;
pub mod report;
pub mod scan;

pub use rejected::{rejected, Reason, Rejected, Source};
pub use report::log_options;

verus! {

/// How colours are tagged for the display.
#[derive(Clone, Copy, Debug, PartialEq, Eq, Structural)]
pub enum ColorSpacePolicy {
    /// As the display's own.
    Passthrough,
    /// As what they are.
    Accurate,
}

/// Whether the cursor is drawn in software.
#[derive(Clone, Copy, Debug, PartialEq, Eq, Structural)]
pub enum SoftwareCursorPolicy {
    /// When the display is driven in high dynamic range.
    Auto,
    On,
    Off,
}

impl SoftwareCursorPolicy {
    /// Whether the cursor is drawn in software, by whether high dynamic range is active.
    pub fn resolve(self, hdr_active: bool) -> (r: bool)
        ensures
            r == (self is On || (self is Auto && hdr_active)),
    {
        match self {
            SoftwareCursorPolicy::Auto => hdr_active,
            SoftwareCursorPolicy::On => true,
            SoftwareCursorPolicy::Off => false,
        }
    }
}

/// Which vendor the adapter claims.
#[derive(Clone, Copy, Debug, PartialEq, Eq, Structural)]
pub enum AdapterSpoof {
    /// The real one.
    Real,
    Nvidia,
    Amd,
}

/// How much the cursor is enlarged.
#[derive(Clone, Copy, Debug, PartialEq, Eq, Structural)]
pub enum CursorScale {
    /// As much as the display is.
    Auto,
    /// By this much.
    Fixed(u32),
}

impl CursorScale {
    /// How much the cursor is enlarged on a display: at least once, at most eight times.
    pub open spec fn resolved(self, backing_scale: u32) -> u32 {
        let requested = match self {
            CursorScale::Auto => backing_scale,
            CursorScale::Fixed(n) => n,
        };
        if requested < 1 {
            1
        } else if requested > 8 {
            8
        } else {
            requested
        }
    }

    /// How much the cursor is enlarged on a display.
    pub fn resolve(self, backing_scale: u32) -> (r: u32)
        ensures
            r == self.resolved(backing_scale),
            1 <= r <= 8,
    {
        let requested: u32 = match self {
            CursorScale::Auto => backing_scale,
            CursorScale::Fixed(n) => n,
        };
        if requested < 1 {
            1
        } else if requested > 8 {
            8
        } else {
            requested
        }
    }
}

/// The configuration.
#[derive(Debug, PartialEq, Eq)]
pub struct Mtld3dConfig {
    /// Every capability is advertised.
    pub caps_all: bool,
    /// Packed sixteen-bit formats are widened.
    pub expand_packed16: bool,
    /// Filtering of single-precision float formats is denied.
    pub deny_float32_filtering: bool,
    /// Memory is handled as if the GPU had its own.
    pub managed_memory: bool,
    /// Linear textures are aligned to 256 bytes.
    pub linear_align256: bool,
    /// Displays with headroom are driven in high dynamic range.
    pub hdr_enable: bool,
    /// How colours are tagged for the display.
    pub color_space: ColorSpacePolicy,
    /// How much the cursor is enlarged.
    pub cursor_scale: CursorScale,
    /// Whether the cursor is drawn in software.
    pub cursor_software: SoftwareCursorPolicy,
    /// Shaders are kept on disk.
    pub shader_cache_enable: bool,
    /// Where the log goes; empty for beside the executable.
    pub log_dir: String,
    /// Where shader bytecode is dumped; empty for nowhere.
    pub bytecode_dump_dir: String,
    /// Shaders whose draws are dropped.
    pub skip_shaders: Vec<u64>,
    /// A flushing query answers at once.
    pub query_flush_immediate: bool,
    /// How many draws are submitted together; zero for all of a frame.
    pub render_submit_draws: u32,
    /// Independent passes are merged.
    pub render_merge_passes: bool,
    /// A depth texture takes over the content of one of the same size.
    pub depth_alias_same_size: bool,
    /// The range of a lock is not believed.
    pub buffer_ignore_lock_bounds: bool,
    /// How many bytes of retired buffers are retained; zero for no limit.
    pub vbib_retention_cap_bytes: u64,
    /// How many bytes of video memory are advertised at the most; zero for no limit.
    pub vram_budget_cap_bytes: u64,
    /// How many bytes of buffers are kept for reuse; zero for none.
    pub pagebox_pool_cap_bytes: u64,
    /// How many frames per second are presented at the most; zero for no limit.
    pub present_max_fps: u32,
    /// Windows are presented natively.
    pub present_native_host: bool,
    /// The render size as a percentage of the presented one.
    pub render_scale_percent: u32,
    /// Which vendor the adapter claims.
    pub adapter_spoof: AdapterSpoof,
    /// Vendor-specific depth formats are advertised.
    pub df_formats: bool,
}

/// What the configuration is.
pub struct ConfigView {
    pub caps_all: bool,
    pub expand_packed16: bool,
    pub deny_float32_filtering: bool,
    pub managed_memory: bool,
    pub linear_align256: bool,
    pub hdr_enable: bool,
    pub color_space: ColorSpacePolicy,
    pub cursor_scale: CursorScale,
    pub cursor_software: SoftwareCursorPolicy,
    pub shader_cache_enable: bool,
    pub log_dir: Seq<char>,
    pub bytecode_dump_dir: Seq<char>,
    pub skip_shaders: Seq<u64>,
    pub query_flush_immediate: bool,
    pub render_submit_draws: u32,
    pub render_merge_passes: bool,
    pub depth_alias_same_size: bool,
    pub buffer_ignore_lock_bounds: bool,
    pub vbib_retention_cap_bytes: u64,
    pub vram_budget_cap_bytes: u64,
    pub pagebox_pool_cap_bytes: u64,
    pub present_max_fps: u32,
    pub present_native_host: bool,
    pub render_scale_percent: u32,
    pub adapter_spoof: AdapterSpoof,
    pub df_formats: bool,
}

impl View for Mtld3dConfig {
    type V = ConfigView;

    open spec fn view(&self) -> ConfigView {
        ConfigView {
            caps_all: self.caps_all,
            expand_packed16: self.expand_packed16,
            deny_float32_filtering: self.deny_float32_filtering,
            managed_memory: self.managed_memory,
            linear_align256: self.linear_align256,
            hdr_enable: self.hdr_enable,
            color_space: self.color_space,
            cursor_scale: self.cursor_scale,
            cursor_software: self.cursor_software,
            shader_cache_enable: self.shader_cache_enable,
            log_dir: self.log_dir@,
            bytecode_dump_dir: self.bytecode_dump_dir@,
            skip_shaders: self.skip_shaders@,
            query_flush_immediate: self.query_flush_immediate,
            render_submit_draws: self.render_submit_draws,
            render_merge_passes: self.render_merge_passes,
            depth_alias_same_size: self.depth_alias_same_size,
            buffer_ignore_lock_bounds: self.buffer_ignore_lock_bounds,
            vbib_retention_cap_bytes: self.vbib_retention_cap_bytes,
            vram_budget_cap_bytes: self.vram_budget_cap_bytes,
            pagebox_pool_cap_bytes: self.pagebox_pool_cap_bytes,
            present_max_fps: self.present_max_fps,
            present_native_host: self.present_native_host,
            render_scale_percent: self.render_scale_percent,
            adapter_spoof: self.adapter_spoof,
            df_formats: self.df_formats,
        }
    }
}

/// How much video memory is advertised unless set otherwise: there is a limit only
/// where the address space is narrow.
pub open spec fn default_vram_budget() -> u64 {
    if usize::BITS == 32 {
        1073741824
    } else {
        0
    }
}

/// The configuration without any setting.
pub open spec fn default_config() -> ConfigView {
    ConfigView {
        caps_all: false,
        expand_packed16: false,
        deny_float32_filtering: false,
        managed_memory: false,
        linear_align256: false,
        hdr_enable: true,
        color_space: ColorSpacePolicy::Passthrough,
        cursor_scale: CursorScale::Auto,
        cursor_software: SoftwareCursorPolicy::Auto,
        shader_cache_enable: true,
        log_dir: Seq::empty(),
        bytecode_dump_dir: Seq::empty(),
        skip_shaders: Seq::empty(),
        query_flush_immediate: false,
        render_submit_draws: 0,
        render_merge_passes: false,
        depth_alias_same_size: false,
        buffer_ignore_lock_bounds: false,
        vbib_retention_cap_bytes: 536870912,
        vram_budget_cap_bytes: default_vram_budget(),
        pagebox_pool_cap_bytes: 134217728,
        present_max_fps: 0,
        present_native_host: false,
        render_scale_percent: 100,
        adapter_spoof: AdapterSpoof::Real,
        df_formats: true,
    }
}

impl Default for Mtld3dConfig {
    fn default() -> (r: Mtld3dConfig)
        ensures
            r@ == default_config(),
    {
        let r: Mtld3dConfig = Mtld3dConfig {
            caps_all: false,
            expand_packed16: false,
            deny_float32_filtering: false,
            managed_memory: false,
            linear_align256: false,
            hdr_enable: true,
            color_space: ColorSpacePolicy::Passthrough,
            cursor_scale: CursorScale::Auto,
            cursor_software: SoftwareCursorPolicy::Auto,
            shader_cache_enable: true,
            log_dir: String::new(),
            bytecode_dump_dir: String::new(),
            skip_shaders: Vec::new(),
            query_flush_immediate: false,
            render_submit_draws: 0,
            render_merge_passes: false,
            depth_alias_same_size: false,
            buffer_ignore_lock_bounds: false,
            vbib_retention_cap_bytes: 536870912,
            vram_budget_cap_bytes: if usize::BITS == 32 {
                1073741824
            } else {
                0
            },
            pagebox_pool_cap_bytes: 134217728,
            present_max_fps: 0,
            present_native_host: false,
            render_scale_percent: 100,
            adapter_spoof: AdapterSpoof::Real,
            df_formats: true,
        };
        assert(r@ == default_config());
        r
    }
}

/// The configuration after the settings of a text, separated by `sep`.
pub open spec fn with_text(v: ConfigView, text: Seq<char>, sep: char) -> ConfigView {
    apply::with_segments(v, scan::split(text, sep), scan::split(text, sep).len() as int)
}

/// The configuration that the settings of an application, of a file and of an override
/// come to, the weakest first.
pub open spec fn parsed(
    profile: Option<Seq<char>>,
    file_src: Seq<char>,
    env_override: Option<Seq<char>>,
) -> ConfigView {
    let base = match profile {
        Some(settings) => with_text(default_config(), settings, ';'),
        None => default_config(),
    };
    let filed = with_text(base, file_src, '\n');
    match env_override {
        Some(text) => with_text(filed, text, ';'),
        None => filed,
    }
}

/// Reads the configuration: the settings of an application, then a file with one setting
/// to a line, then an override with settings separated by semicolons.
pub fn parse(profile: Option<&AppProfile>, file_src: &str, env_override: Option<&str>) -> (r:
    Mtld3dConfig)
    ensures
        r@ == parsed(
            match profile {
                Some(p) => Some(p.settings@),
                None => None,
            },
            file_src@,
            match env_override {
                Some(text) => Some(text@),
                None => None,
            },
        ),
{
    let mut cfg: Mtld3dConfig = Mtld3dConfig::default();
    if let Some(p) = profile {
        cfg = apply::apply_text(cfg, p.settings(), ';');
    }
    cfg = apply::apply_text(cfg, file_src, '\n');
    if let Some(text) = env_override {
        cfg = apply::apply_text(cfg, text, ';');
    }
    cfg
}

} // verus!
