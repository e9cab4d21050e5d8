//! Settings and what they change.

use super::scan::{
    all_digits, digit_value, find, find_from, lower, lower_is, number, parse_number, same, split,
    split_at_each, trim, trimmed, value_of, to_chars,
};
use super::{
    with_text, AdapterSpoof, ColorSpacePolicy, ConfigView, CursorScale, Mtld3dConfig,
    SoftwareCursorPolicy,
};
use crate::text::owned;
use vstd::prelude::*;

verus! {

/// The least render scale, as a percentage.
pub const RENDER_SCALE_MIN_PERCENT: u32 = 1;

/// The greatest render scale, as a percentage.
pub const RENDER_SCALE_MAX_PERCENT: u32 = 100;

/// A yes or no, or else what was there before.
pub open spec fn bool_or(value: Seq<char>, kept: bool) -> bool {
    if lower(value) == "true"@ {
        true
    } else if lower(value) == "false"@ {
        false
    } else {
        kept
    }
}

/// How colours are tagged, or else what was there before.
pub open spec fn space_or(value: Seq<char>, kept: ColorSpacePolicy) -> ColorSpacePolicy {
    if lower(value) == "passthrough"@ {
        ColorSpacePolicy::Passthrough
    } else if lower(value) == "accurate"@ {
        ColorSpacePolicy::Accurate
    } else {
        kept
    }
}

/// How much the cursor is enlarged, or else what was there before.
pub open spec fn cursor_scale_or(value: Seq<char>, kept: CursorScale) -> CursorScale {
    if lower(value) == "auto"@ {
        CursorScale::Auto
    } else {
        match number(value, 10, u32::MAX as int) {
            Some(n) => if n > 0 {
                CursorScale::Fixed(n as u32)
            } else {
                kept
            },
            None => kept,
        }
    }
}

/// Whether the cursor is drawn in software, or else what was there before.
pub open spec fn cursor_software_or(
    value: Seq<char>,
    kept: SoftwareCursorPolicy,
) -> SoftwareCursorPolicy {
    if lower(value) == "auto"@ {
        SoftwareCursorPolicy::Auto
    } else if lower(value) == "true"@ {
        SoftwareCursorPolicy::On
    } else if lower(value) == "false"@ {
        SoftwareCursorPolicy::Off
    } else {
        kept
    }
}

/// A vendor, or else what was there before.
pub open spec fn spoof_or(value: Seq<char>, kept: AdapterSpoof) -> AdapterSpoof {
    if lower(value) == "none"@ {
        AdapterSpoof::Real
    } else if lower(value) == "nvidia"@ {
        AdapterSpoof::Nvidia
    } else if lower(value) == "amd"@ || lower(value) == "ati"@ {
        AdapterSpoof::Amd
    } else {
        kept
    }
}

/// A number, or else what was there before.
pub open spec fn u32_or(value: Seq<char>, kept: u32) -> u32 {
    match number(value, 10, u32::MAX as int) {
        Some(n) => n as u32,
        None => kept,
    }
}

/// A number of mebibytes as bytes, or else what was there before.
pub open spec fn mebibytes_or(value: Seq<char>, kept: u64) -> u64 {
    match number(value, 10, u32::MAX as int) {
        Some(n) => (n * 1048576) as u64,
        None => kept,
    }
}

/// The first two of some decimals as hundredths.
pub open spec fn hundredths_of(decimals: Seq<char>) -> int {
    if decimals.len() == 0 {
        0
    } else if decimals.len() == 1 {
        value_of(decimals, 10, 1) * 10
    } else {
        value_of(decimals, 10, 2)
    }
}

/// Where the decimals of a number start: behind the point, or at the end without one.
pub open spec fn decimals_of(s: Seq<char>) -> Seq<char> {
    let point = find_from(s, '.', 0);
    if point < s.len() {
        s.skip(point + 1)
    } else {
        Seq::empty()
    }
}

/// A decimal number in hundredths, further decimals cut off; none for what is not a
/// plain decimal number or cannot be counted.
pub open spec fn hundredths(value: Seq<char>) -> Option<int> {
    let s = trimmed(value);
    let whole = s.take(find_from(s, '.', 0));
    let units = if whole.len() == 0 {
        Some(0int)
    } else {
        number(whole, 10, u32::MAX as int)
    };
    let decimals = decimals_of(s);
    match units {
        Some(n) => if all_digits(decimals, 10) && n * 100 + hundredths_of(decimals) <= u32::MAX {
            Some(n * 100 + hundredths_of(decimals))
        } else {
            None
        },
        None => None,
    }
}

/// A render scale as a percentage within its limits, or else what was there before.
pub open spec fn render_scale_or(value: Seq<char>, kept: u32) -> u32 {
    match hundredths(value) {
        Some(p) => if RENDER_SCALE_MIN_PERCENT <= p <= RENDER_SCALE_MAX_PERCENT {
            p as u32
        } else {
            kept
        },
        None => kept,
    }
}

/// Text without the marks of hexadecimal numbers at its start.
pub open spec fn unmarked(s: Seq<char>) -> Seq<char>
    decreases s.len(),
{
    if s.len() >= 2 && s[0] == '0' && s[1] == 'x' {
        unmarked(s.skip(2))
    } else {
        s
    }
}

/// The hexadecimal number in an entry of a list, if there is one.
pub open spec fn hex_entry(s: Seq<char>) -> Option<int> {
    number(unmarked(trimmed(s)), 16, u64::MAX as int)
}

/// The numbers in the first `n` entries of a list; entries that are none are left out.
pub open spec fn hex_entries(entries: Seq<Seq<char>>, n: int) -> Seq<u64>
    decreases n,
{
    if n <= 0 {
        Seq::empty()
    } else {
        match hex_entry(entries[n - 1]) {
            Some(x) => hex_entries(entries, n - 1).push(x as u64),
            None => hex_entries(entries, n - 1),
        }
    }
}

/// The numbers in a list that is separated by commas.
pub open spec fn hex_list(value: Seq<char>) -> Seq<u64> {
    hex_entries(split(value, ','), split(value, ',').len() as int)
}

/// Text without the quotes around it, if there are two.
pub open spec fn unquoted(s: Seq<char>) -> Seq<char> {
    if s.len() >= 2 && s[0] == '"' && s.last() == '"' {
        s.subrange(1, s.len() - 1)
    } else {
        s
    }
}

fn with_caps_all(cfg: Mtld3dConfig, x: bool) -> (r: Mtld3dConfig)
    ensures
        r@ == Flag::DebugCapsAll.put(cfg@, x),
{
    reveal(Flag::put);
    Mtld3dConfig { caps_all: x, ..cfg }
}

fn with_expand_packed16(cfg: Mtld3dConfig, x: bool) -> (r: Mtld3dConfig)
    ensures
        r@ == Flag::IntelExpandPacked16.put(cfg@, x),
{
    reveal(Flag::put);
    Mtld3dConfig { expand_packed16: x, ..cfg }
}

fn with_deny_float32_filtering(cfg: Mtld3dConfig, x: bool) -> (r: Mtld3dConfig)
    ensures
        r@ == Flag::IntelDenyFloat32Filtering.put(cfg@, x),
{
    reveal(Flag::put);
    Mtld3dConfig { deny_float32_filtering: x, ..cfg }
}

fn with_managed_memory(cfg: Mtld3dConfig, x: bool) -> (r: Mtld3dConfig)
    ensures
        r@ == Flag::IntelManagedMemory.put(cfg@, x),
{
    reveal(Flag::put);
    Mtld3dConfig { managed_memory: x, ..cfg }
}

fn with_linear_align256(cfg: Mtld3dConfig, x: bool) -> (r: Mtld3dConfig)
    ensures
        r@ == Flag::IntelLinearAlign256.put(cfg@, x),
{
    reveal(Flag::put);
    Mtld3dConfig { linear_align256: x, ..cfg }
}

fn with_hdr_enable(cfg: Mtld3dConfig, x: bool) -> (r: Mtld3dConfig)
    ensures
        r@ == Flag::ColorHdrEnable.put(cfg@, x),
{
    reveal(Flag::put);
    Mtld3dConfig { hdr_enable: x, ..cfg }
}

fn with_shader_cache_enable(cfg: Mtld3dConfig, x: bool) -> (r: Mtld3dConfig)
    ensures
        r@ == Flag::ShaderCacheEnable.put(cfg@, x),
{
    reveal(Flag::put);
    Mtld3dConfig { shader_cache_enable: x, ..cfg }
}

fn with_query_flush_immediate(cfg: Mtld3dConfig, x: bool) -> (r: Mtld3dConfig)
    ensures
        r@ == Flag::QueryFlushImmediate.put(cfg@, x),
{
    reveal(Flag::put);
    Mtld3dConfig { query_flush_immediate: x, ..cfg }
}

fn with_render_merge_passes(cfg: Mtld3dConfig, x: bool) -> (r: Mtld3dConfig)
    ensures
        r@ == Flag::RenderMergePasses.put(cfg@, x),
{
    reveal(Flag::put);
    Mtld3dConfig { render_merge_passes: x, ..cfg }
}

fn with_depth_alias_same_size(cfg: Mtld3dConfig, x: bool) -> (r: Mtld3dConfig)
    ensures
        r@ == Flag::DepthAliasSameSize.put(cfg@, x),
{
    reveal(Flag::put);
    Mtld3dConfig { depth_alias_same_size: x, ..cfg }
}

fn with_buffer_ignore_lock_bounds(cfg: Mtld3dConfig, x: bool) -> (r: Mtld3dConfig)
    ensures
        r@ == Flag::BufferIgnoreLockBounds.put(cfg@, x),
{
    reveal(Flag::put);
    Mtld3dConfig { buffer_ignore_lock_bounds: x, ..cfg }
}

fn with_present_native_host(cfg: Mtld3dConfig, x: bool) -> (r: Mtld3dConfig)
    ensures
        r@ == Flag::PresentNativeHost.put(cfg@, x),
{
    reveal(Flag::put);
    Mtld3dConfig { present_native_host: x, ..cfg }
}

fn with_df_formats(cfg: Mtld3dConfig, x: bool) -> (r: Mtld3dConfig)
    ensures
        r@ == Flag::CapsDfFormats.put(cfg@, x),
{
    reveal(Flag::put);
    Mtld3dConfig { df_formats: x, ..cfg }
}

fn with_vbib_retention_cap_bytes(cfg: Mtld3dConfig, x: u64) -> (r: Mtld3dConfig)
    ensures
        r@ == Limit::MemoryVbibRetentionCapMB.put(cfg@, x),
{
    reveal(Limit::put);
    Mtld3dConfig { vbib_retention_cap_bytes: x, ..cfg }
}

fn with_vram_budget_cap_bytes(cfg: Mtld3dConfig, x: u64) -> (r: Mtld3dConfig)
    ensures
        r@ == Limit::MemoryVramBudgetMB.put(cfg@, x),
{
    reveal(Limit::put);
    Mtld3dConfig { vram_budget_cap_bytes: x, ..cfg }
}

fn with_pagebox_pool_cap_bytes(cfg: Mtld3dConfig, x: u64) -> (r: Mtld3dConfig)
    ensures
        r@ == Limit::MemoryPageboxPoolCapMB.put(cfg@, x),
{
    reveal(Limit::put);
    Mtld3dConfig { pagebox_pool_cap_bytes: x, ..cfg }
}

fn with_render_submit_draws(cfg: Mtld3dConfig, x: u32) -> (r: Mtld3dConfig)
    ensures
        r@ == Count::RenderSubmitDraws.put(cfg@, x),
{
    reveal(Count::put);
    Mtld3dConfig { render_submit_draws: x, ..cfg }
}

fn with_present_max_fps(cfg: Mtld3dConfig, x: u32) -> (r: Mtld3dConfig)
    ensures
        r@ == Count::PresentMaxFps.put(cfg@, x),
{
    reveal(Count::put);
    Mtld3dConfig { present_max_fps: x, ..cfg }
}

fn with_color_space(cfg: Mtld3dConfig, x: ColorSpacePolicy) -> (r: Mtld3dConfig)
    ensures
        r@ == (ConfigView { color_space: x, ..cfg@ }),
{
    Mtld3dConfig { color_space: x, ..cfg }
}

fn with_cursor_scale(cfg: Mtld3dConfig, x: CursorScale) -> (r: Mtld3dConfig)
    ensures
        r@ == (ConfigView { cursor_scale: x, ..cfg@ }),
{
    Mtld3dConfig { cursor_scale: x, ..cfg }
}

fn with_cursor_software(cfg: Mtld3dConfig, x: SoftwareCursorPolicy) -> (r: Mtld3dConfig)
    ensures
        r@ == (ConfigView { cursor_software: x, ..cfg@ }),
{
    Mtld3dConfig { cursor_software: x, ..cfg }
}

fn with_skip_shaders(cfg: Mtld3dConfig, x: Vec<u64>) -> (r: Mtld3dConfig)
    ensures
        r@ == (ConfigView { skip_shaders: x@, ..cfg@ }),
{
    Mtld3dConfig { skip_shaders: x, ..cfg }
}

fn with_render_scale_percent(cfg: Mtld3dConfig, x: u32) -> (r: Mtld3dConfig)
    ensures
        r@ == (ConfigView { render_scale_percent: x, ..cfg@ }),
{
    Mtld3dConfig { render_scale_percent: x, ..cfg }
}

fn with_adapter_spoof(cfg: Mtld3dConfig, x: AdapterSpoof) -> (r: Mtld3dConfig)
    ensures
        r@ == (ConfigView { adapter_spoof: x, ..cfg@ }),
{
    Mtld3dConfig { adapter_spoof: x, ..cfg }
}

/// The yes-or-no settings.
#[derive(Clone, Copy, Debug, PartialEq, Eq, Structural)]
pub enum Flag {
    DebugCapsAll,
    IntelExpandPacked16,
    IntelDenyFloat32Filtering,
    IntelManagedMemory,
    IntelLinearAlign256,
    ColorHdrEnable,
    ShaderCacheEnable,
    QueryFlushImmediate,
    RenderMergePasses,
    DepthAliasSameSize,
    BufferIgnoreLockBounds,
    PresentNativeHost,
    CapsDfFormats,
}

impl Flag {
    /// What the configuration has for it.
    pub open spec fn of(self, v: ConfigView) -> bool {
        match self {
            Flag::DebugCapsAll => v.caps_all,
            Flag::IntelExpandPacked16 => v.expand_packed16,
            Flag::IntelDenyFloat32Filtering => v.deny_float32_filtering,
            Flag::IntelManagedMemory => v.managed_memory,
            Flag::IntelLinearAlign256 => v.linear_align256,
            Flag::ColorHdrEnable => v.hdr_enable,
            Flag::ShaderCacheEnable => v.shader_cache_enable,
            Flag::QueryFlushImmediate => v.query_flush_immediate,
            Flag::RenderMergePasses => v.render_merge_passes,
            Flag::DepthAliasSameSize => v.depth_alias_same_size,
            Flag::BufferIgnoreLockBounds => v.buffer_ignore_lock_bounds,
            Flag::PresentNativeHost => v.present_native_host,
            Flag::CapsDfFormats => v.df_formats,
        }
    }

    /// The configuration with another value for it.
    #[verifier::opaque]
    pub open spec fn put(self, v: ConfigView, x: bool) -> ConfigView {
        ConfigView {
            caps_all: if self == Flag::DebugCapsAll {
                x
            } else {
                v.caps_all
            },
            expand_packed16: if self == Flag::IntelExpandPacked16 {
                x
            } else {
                v.expand_packed16
            },
            deny_float32_filtering: if self == Flag::IntelDenyFloat32Filtering {
                x
            } else {
                v.deny_float32_filtering
            },
            managed_memory: if self == Flag::IntelManagedMemory {
                x
            } else {
                v.managed_memory
            },
            linear_align256: if self == Flag::IntelLinearAlign256 {
                x
            } else {
                v.linear_align256
            },
            hdr_enable: if self == Flag::ColorHdrEnable {
                x
            } else {
                v.hdr_enable
            },
            shader_cache_enable: if self == Flag::ShaderCacheEnable {
                x
            } else {
                v.shader_cache_enable
            },
            query_flush_immediate: if self == Flag::QueryFlushImmediate {
                x
            } else {
                v.query_flush_immediate
            },
            render_merge_passes: if self == Flag::RenderMergePasses {
                x
            } else {
                v.render_merge_passes
            },
            depth_alias_same_size: if self == Flag::DepthAliasSameSize {
                x
            } else {
                v.depth_alias_same_size
            },
            buffer_ignore_lock_bounds: if self == Flag::BufferIgnoreLockBounds {
                x
            } else {
                v.buffer_ignore_lock_bounds
            },
            present_native_host: if self == Flag::PresentNativeHost {
                x
            } else {
                v.present_native_host
            },
            df_formats: if self == Flag::CapsDfFormats {
                x
            } else {
                v.df_formats
            },
            ..v
        }
    }

    fn get(self, cfg: &Mtld3dConfig) -> (r: bool)
        ensures
            r == self.of(cfg@),
    {
        match self {
            Flag::DebugCapsAll => cfg.caps_all,
            Flag::IntelExpandPacked16 => cfg.expand_packed16,
            Flag::IntelDenyFloat32Filtering => cfg.deny_float32_filtering,
            Flag::IntelManagedMemory => cfg.managed_memory,
            Flag::IntelLinearAlign256 => cfg.linear_align256,
            Flag::ColorHdrEnable => cfg.hdr_enable,
            Flag::ShaderCacheEnable => cfg.shader_cache_enable,
            Flag::QueryFlushImmediate => cfg.query_flush_immediate,
            Flag::RenderMergePasses => cfg.render_merge_passes,
            Flag::DepthAliasSameSize => cfg.depth_alias_same_size,
            Flag::BufferIgnoreLockBounds => cfg.buffer_ignore_lock_bounds,
            Flag::PresentNativeHost => cfg.present_native_host,
            Flag::CapsDfFormats => cfg.df_formats,
        }
    }

    fn set(self, cfg: Mtld3dConfig, x: bool) -> (r: Mtld3dConfig)
        ensures
            r@ == self.put(cfg@, x),
    {
        match self {
            Flag::DebugCapsAll => with_caps_all(cfg, x),
            Flag::IntelExpandPacked16 => with_expand_packed16(cfg, x),
            Flag::IntelDenyFloat32Filtering => with_deny_float32_filtering(cfg, x),
            Flag::IntelManagedMemory => with_managed_memory(cfg, x),
            Flag::IntelLinearAlign256 => with_linear_align256(cfg, x),
            Flag::ColorHdrEnable => with_hdr_enable(cfg, x),
            Flag::ShaderCacheEnable => with_shader_cache_enable(cfg, x),
            Flag::QueryFlushImmediate => with_query_flush_immediate(cfg, x),
            Flag::RenderMergePasses => with_render_merge_passes(cfg, x),
            Flag::DepthAliasSameSize => with_depth_alias_same_size(cfg, x),
            Flag::BufferIgnoreLockBounds => with_buffer_ignore_lock_bounds(cfg, x),
            Flag::PresentNativeHost => with_present_native_host(cfg, x),
            Flag::CapsDfFormats => with_df_formats(cfg, x),
        }
    }
}

/// The limits in mebibytes.
#[derive(Clone, Copy, Debug, PartialEq, Eq, Structural)]
pub enum Limit {
    MemoryVbibRetentionCapMB,
    MemoryVramBudgetMB,
    MemoryPageboxPoolCapMB,
}

impl Limit {
    /// What the configuration has for it.
    pub open spec fn of(self, v: ConfigView) -> u64 {
        match self {
            Limit::MemoryVbibRetentionCapMB => v.vbib_retention_cap_bytes,
            Limit::MemoryVramBudgetMB => v.vram_budget_cap_bytes,
            Limit::MemoryPageboxPoolCapMB => v.pagebox_pool_cap_bytes,
        }
    }

    /// The configuration with another value for it.
    #[verifier::opaque]
    pub open spec fn put(self, v: ConfigView, x: u64) -> ConfigView {
        ConfigView {
            vbib_retention_cap_bytes: if self == Limit::MemoryVbibRetentionCapMB {
                x
            } else {
                v.vbib_retention_cap_bytes
            },
            vram_budget_cap_bytes: if self == Limit::MemoryVramBudgetMB {
                x
            } else {
                v.vram_budget_cap_bytes
            },
            pagebox_pool_cap_bytes: if self == Limit::MemoryPageboxPoolCapMB {
                x
            } else {
                v.pagebox_pool_cap_bytes
            },
            ..v
        }
    }

    fn get(self, cfg: &Mtld3dConfig) -> (r: u64)
        ensures
            r == self.of(cfg@),
    {
        match self {
            Limit::MemoryVbibRetentionCapMB => cfg.vbib_retention_cap_bytes,
            Limit::MemoryVramBudgetMB => cfg.vram_budget_cap_bytes,
            Limit::MemoryPageboxPoolCapMB => cfg.pagebox_pool_cap_bytes,
        }
    }

    fn set(self, cfg: Mtld3dConfig, x: u64) -> (r: Mtld3dConfig)
        ensures
            r@ == self.put(cfg@, x),
    {
        match self {
            Limit::MemoryVbibRetentionCapMB => with_vbib_retention_cap_bytes(cfg, x),
            Limit::MemoryVramBudgetMB => with_vram_budget_cap_bytes(cfg, x),
            Limit::MemoryPageboxPoolCapMB => with_pagebox_pool_cap_bytes(cfg, x),
        }
    }
}

/// The counts.
#[derive(Clone, Copy, Debug, PartialEq, Eq, Structural)]
pub enum Count {
    RenderSubmitDraws,
    PresentMaxFps,
}

impl Count {
    /// What the configuration has for it.
    pub open spec fn of(self, v: ConfigView) -> u32 {
        match self {
            Count::RenderSubmitDraws => v.render_submit_draws,
            Count::PresentMaxFps => v.present_max_fps,
        }
    }

    /// The configuration with another value for it.
    #[verifier::opaque]
    pub open spec fn put(self, v: ConfigView, x: u32) -> ConfigView {
        ConfigView {
            render_submit_draws: if self == Count::RenderSubmitDraws {
                x
            } else {
                v.render_submit_draws
            },
            present_max_fps: if self == Count::PresentMaxFps {
                x
            } else {
                v.present_max_fps
            },
            ..v
        }
    }

    fn get(self, cfg: &Mtld3dConfig) -> (r: u32)
        ensures
            r == self.of(cfg@),
    {
        match self {
            Count::RenderSubmitDraws => cfg.render_submit_draws,
            Count::PresentMaxFps => cfg.present_max_fps,
        }
    }

    fn set(self, cfg: Mtld3dConfig, x: u32) -> (r: Mtld3dConfig)
        ensures
            r@ == self.put(cfg@, x),
    {
        match self {
            Count::RenderSubmitDraws => with_render_submit_draws(cfg, x),
            Count::PresentMaxFps => with_present_max_fps(cfg, x),
        }
    }
}

/// The directories.
#[derive(Clone, Copy, Debug, PartialEq, Eq, Structural)]
pub enum Place {
    LogDir,
    DebugBytecodeDumpDir,
}

impl Place {
    /// The configuration with another value for it.
    pub open spec fn put(self, v: ConfigView, x: Seq<char>) -> ConfigView {
        match self {
            Place::LogDir => ConfigView { log_dir: x, ..v },
            Place::DebugBytecodeDumpDir => ConfigView { bytecode_dump_dir: x, ..v },
        }
    }

    fn set(self, cfg: Mtld3dConfig, x: &str) -> (r: Mtld3dConfig)
        ensures
            r@ == self.put(cfg@, x@),
    {
        match self {
            Place::LogDir => Mtld3dConfig { log_dir: owned(x), ..cfg },
            Place::DebugBytecodeDumpDir => Mtld3dConfig { bytecode_dump_dir: owned(x), ..cfg },
        }
    }
}

/// What can be set.
#[derive(Clone, Copy, Debug, PartialEq, Eq, Structural)]
pub enum Key {
    Flag(Flag),
    Limit(Limit),
    Count(Count),
    Place(Place),
    ColorSpace,
    CursorScale,
    CursorSoftware,
    DebugSkipShaders,
    RenderScale,
    AdapterSpoof,
}

/// What a key names, if it is known.
pub open spec fn key_named(key: Seq<char>) -> Option<Key> {
    if key == "debug.capsAll"@ {
        Some(Key::Flag(Flag::DebugCapsAll))
    } else if key == "intel.expandPacked16"@ {
        Some(Key::Flag(Flag::IntelExpandPacked16))
    } else if key == "intel.denyFloat32Filtering"@ {
        Some(Key::Flag(Flag::IntelDenyFloat32Filtering))
    } else if key == "intel.managedMemory"@ {
        Some(Key::Flag(Flag::IntelManagedMemory))
    } else if key == "intel.linearAlign256"@ {
        Some(Key::Flag(Flag::IntelLinearAlign256))
    } else if key == "color.hdr.enable"@ {
        Some(Key::Flag(Flag::ColorHdrEnable))
    } else if key == "color.space"@ {
        Some(Key::ColorSpace)
    } else if key == "cursor.scale"@ {
        Some(Key::CursorScale)
    } else if key == "cursor.software"@ {
        Some(Key::CursorSoftware)
    } else if key == "shaderCache.enable"@ {
        Some(Key::Flag(Flag::ShaderCacheEnable))
    } else if key == "log.dir"@ {
        Some(Key::Place(Place::LogDir))
    } else if key == "debug.bytecodeDumpDir"@ {
        Some(Key::Place(Place::DebugBytecodeDumpDir))
    } else if key == "debug.skipShaders"@ {
        Some(Key::DebugSkipShaders)
    } else if key == "query.flushImmediate"@ {
        Some(Key::Flag(Flag::QueryFlushImmediate))
    } else if key == "render.submitDraws"@ {
        Some(Key::Count(Count::RenderSubmitDraws))
    } else if key == "render.mergePasses"@ {
        Some(Key::Flag(Flag::RenderMergePasses))
    } else if key == "depth.aliasSameSize"@ {
        Some(Key::Flag(Flag::DepthAliasSameSize))
    } else if key == "buffer.ignoreLockBounds"@ {
        Some(Key::Flag(Flag::BufferIgnoreLockBounds))
    } else if key == "memory.vbibRetentionCapMB"@ {
        Some(Key::Limit(Limit::MemoryVbibRetentionCapMB))
    } else if key == "memory.vramBudgetMB"@ {
        Some(Key::Limit(Limit::MemoryVramBudgetMB))
    } else if key == "memory.pageboxPoolCapMB"@ {
        Some(Key::Limit(Limit::MemoryPageboxPoolCapMB))
    } else if key == "present.nativeHost"@ {
        Some(Key::Flag(Flag::PresentNativeHost))
    } else if key == "present.maxFps"@ {
        Some(Key::Count(Count::PresentMaxFps))
    } else if key == "render.scale"@ {
        Some(Key::RenderScale)
    } else if key == "adapter.spoof"@ {
        Some(Key::AdapterSpoof)
    } else if key == "caps.dfFormats"@ {
        Some(Key::Flag(Flag::CapsDfFormats))
    } else {
        None
    }
}

/// The configuration after something was set to a value.
pub open spec fn with_value(v: ConfigView, key: Key, value: Seq<char>) -> ConfigView {
    match key {
        Key::Flag(k) => k.put(v, bool_or(value, k.of(v))),
        Key::Limit(k) => k.put(v, mebibytes_or(value, k.of(v))),
        Key::Count(k) => k.put(v, u32_or(value, k.of(v))),
        Key::Place(k) => k.put(v, value),
        Key::ColorSpace => ConfigView { color_space: space_or(value, v.color_space), ..v },
        Key::CursorScale => ConfigView { cursor_scale: cursor_scale_or(value, v.cursor_scale), ..v },
        Key::CursorSoftware => ConfigView {
            cursor_software: cursor_software_or(value, v.cursor_software),
            ..v
        },
        Key::DebugSkipShaders => ConfigView { skip_shaders: hex_list(value), ..v },
        Key::RenderScale => ConfigView {
            render_scale_percent: render_scale_or(value, v.render_scale_percent),
            ..v
        },
        Key::AdapterSpoof => ConfigView { adapter_spoof: spoof_or(value, v.adapter_spoof), ..v },
    }
}

/// The configuration after a setting. A key that is not known changes nothing.
pub open spec fn with_setting(v: ConfigView, key: Seq<char>, value: Seq<char>) -> ConfigView {
    match key_named(key) {
        Some(k) => with_value(v, k, value),
        None => v,
    }
}

/// Whether a stretch of text is empty or a comment.
pub open spec fn is_blank(segment: Seq<char>) -> bool {
    let s = trimmed(segment);
    s.len() == 0 || s[0] == '#'
}

/// Whether a stretch of text holds a setting: it is neither empty nor a comment, and
/// has an equals sign.
pub open spec fn is_setting(segment: Seq<char>) -> bool {
    let s = trimmed(segment);
    !is_blank(segment) && find_from(s, '=', 0) < s.len()
}

/// The key of a setting.
pub open spec fn key_of(segment: Seq<char>) -> Seq<char> {
    let s = trimmed(segment);
    trimmed(s.take(find_from(s, '=', 0)))
}

/// The value of a setting.
pub open spec fn value_in(segment: Seq<char>) -> Seq<char> {
    let s = trimmed(segment);
    unquoted(trimmed(s.skip(find_from(s, '=', 0) + 1)))
}

/// The configuration after one stretch of text.
pub open spec fn with_segment(v: ConfigView, segment: Seq<char>) -> ConfigView {
    if is_setting(segment) {
        with_setting(v, key_of(segment), value_in(segment))
    } else {
        v
    }
}

/// The configuration after the first `n` stretches of text, one after the other.
pub open spec fn with_segments(v: ConfigView, segments: Seq<Seq<char>>, n: int) -> ConfigView
    decreases n,
{
    if n <= 0 {
        v
    } else {
        with_segment(with_segments(v, segments, n - 1), segments[n - 1])
    }
}

fn assign_bool(value: &str, kept: bool) -> (r: bool)
    ensures
        r == bool_or(value@, kept),
{
    if lower_is(value, "true") {
        true
    } else if lower_is(value, "false") {
        false
    } else {
        kept
    }
}

fn assign_color_space(value: &str, kept: ColorSpacePolicy) -> (r: ColorSpacePolicy)
    ensures
        r == space_or(value@, kept),
{
    if lower_is(value, "passthrough") {
        ColorSpacePolicy::Passthrough
    } else if lower_is(value, "accurate") {
        ColorSpacePolicy::Accurate
    } else {
        kept
    }
}

fn assign_cursor_scale(value: &str, kept: CursorScale) -> (r: CursorScale)
    ensures
        r == cursor_scale_or(value@, kept),
{
    if lower_is(value, "auto") {
        return CursorScale::Auto;
    }
    match parse_number(value, 10, 0xffff_ffff) {
        Some(n) => if n > 0 {
            CursorScale::Fixed(n as u32)
        } else {
            kept
        },
        None => kept,
    }
}

fn assign_cursor_software(value: &str, kept: SoftwareCursorPolicy) -> (r: SoftwareCursorPolicy)
    ensures
        r == cursor_software_or(value@, kept),
{
    if lower_is(value, "auto") {
        SoftwareCursorPolicy::Auto
    } else if lower_is(value, "true") {
        SoftwareCursorPolicy::On
    } else if lower_is(value, "false") {
        SoftwareCursorPolicy::Off
    } else {
        kept
    }
}

fn assign_adapter_spoof(value: &str, kept: AdapterSpoof) -> (r: AdapterSpoof)
    ensures
        r == spoof_or(value@, kept),
{
    if lower_is(value, "none") {
        AdapterSpoof::Real
    } else if lower_is(value, "nvidia") {
        AdapterSpoof::Nvidia
    } else if lower_is(value, "amd") || lower_is(value, "ati") {
        AdapterSpoof::Amd
    } else {
        kept
    }
}

fn assign_u32(value: &str, kept: u32) -> (r: u32)
    ensures
        r == u32_or(value@, kept),
{
    match parse_number(value, 10, 0xffff_ffff) {
        Some(n) => n as u32,
        None => kept,
    }
}

fn assign_cap_mb(value: &str, kept: u64) -> (r: u64)
    ensures
        r == mebibytes_or(value@, kept),
{
    match parse_number(value, 10, 0xffff_ffff) {
        Some(n) => {
            assert(number(value@, 10, u32::MAX as int) == Some(n as int));
            n * 1048576
        },
        None => kept,
    }
}

pub(crate) fn parse_hundredths(value: &str) -> (r: Option<u32>)
    ensures
        match r {
            Some(p) => hundredths(value@) == Some(p as int),
            None => hundredths(value@) is None,
        },
{
    let s: &str = trim(value);
    let point: usize = find(s, '.');
    let len: usize = s.unicode_len();
    let whole: &str = s.substring_char(0, point);
    assert(whole@ =~= s@.take(point as int));
    let units: u64 = if whole.unicode_len() == 0 {
        0
    } else {
        match parse_number(whole, 10, 0xffff_ffff) {
            Some(n) => n,
            None => {
                return None;
            },
        }
    };
    let decimals: &str = if point < len {
        s.substring_char(point + 1, len)
    } else {
        s.substring_char(len, len)
    };
    assert(decimals@ =~= decimals_of(s@));
    let part: u64 = match parse_decimals(decimals) {
        Some(n) => n,
        None => {
            return None;
        },
    };
    let total: u64 = units * 100 + part;
    if total <= 0xffff_ffff {
        Some(total as u32)
    } else {
        None
    }
}

fn parse_decimals(decimals: &str) -> (r: Option<u64>)
    ensures
        match r {
            Some(n) => all_digits(decimals@, 10) && n == hundredths_of(decimals@) && n <= 99,
            None => !all_digits(decimals@, 10),
        },
{
    let c: Vec<char> = to_chars(decimals);
    let mut n: u64 = 0;
    let mut i: usize = 0;
    reveal_with_fuel(value_of, 3);
    while i < c.len()
        invariant
            c@ == decimals@,
            i <= c@.len(),
            forall|j: int| 0 <= j < i ==> digit_value(#[trigger] c@[j], 10) is Some,
            i == 0 ==> n == 0,
            i == 1 ==> n == value_of(c@, 10, 1) && n <= 9,
            i >= 2 ==> n == value_of(c@, 10, 2) && n <= 99,
        decreases c@.len() - i,
    {
        reveal_with_fuel(value_of, 3);
        let d: char = c[i];
        if !('0' <= d && d <= '9') {
            assert(digit_value(c@[i as int], 10) is None);
            return None;
        }
        assert(digit_value(c@[i as int], 10) is Some);
        if i < 2 {
            n = n * 10 + (d as u64 - 48);
        }
        i += 1;
    }
    if c.len() == 1 {
        n = n * 10;
    }
    Some(n)
}

fn assign_render_scale(value: &str, kept: u32) -> (r: u32)
    ensures
        r == render_scale_or(value@, kept),
{
    match parse_hundredths(value) {
        Some(p) => if RENDER_SCALE_MIN_PERCENT <= p && p <= RENDER_SCALE_MAX_PERCENT {
            p
        } else {
            kept
        },
        None => kept,
    }
}

fn unmark(s: &str) -> (r: &str)
    ensures
        r@ == unmarked(s@),
{
    let c: Vec<char> = to_chars(s);
    let mut i: usize = 0;
    assert(s@.skip(0) =~= s@);
    while i < c.len() && i + 1 < c.len() && c[i] == '0' && c[i + 1] == 'x'
        invariant
            c@ == s@,
            i <= c@.len(),
            unmarked(s@) == unmarked(s@.skip(i as int)),
        decreases c@.len() - i,
    {
        assert(s@.skip(i as int).skip(2) =~= s@.skip(i as int + 2));
        i += 2;
    }
    assert(s@.subrange(i as int, c@.len() as int) =~= s@.skip(i as int));
    s.substring_char(i, c.len())
}

fn parse_hex_list(value: &str) -> (r: Vec<u64>)
    ensures
        r@ == hex_list(value@),
{
    let entries: Vec<&str> = split_at_each(value, ',');
    let ghost all = split(value@, ',');
    let mut out: Vec<u64> = Vec::new();
    let mut i: usize = 0;
    while i < entries.len()
        invariant
            all == split(value@, ','),
            entries@.len() == all.len(),
            forall|j: int| 0 <= j < entries@.len() ==> (#[trigger] entries@[j])@ == all[j],
            i <= all.len(),
            out@ == hex_entries(all, i as int),
        decreases all.len() - i,
    {
        let entry: &str = entries[i];
        assert(entry@ == all[i as int]);
        let digits: &str = unmark(trim(entry));
        match parse_number(digits, 16, 0xffff_ffff_ffff_ffff) {
            Some(x) => {
                out.push(x);
            },
            None => {},
        }
        i += 1;
    }
    out
}

fn unquote(value: &str) -> (r: &str)
    ensures
        r@ == unquoted(value@),
{
    let n: usize = value.unicode_len();
    if n >= 2 && value.get_char(0) == '"' && value.get_char(n - 1) == '"' {
        value.substring_char(1, n - 1)
    } else {
        value
    }
}

pub(crate) fn find_key(key: &str) -> (r: Option<Key>)
    ensures
        r == key_named(key@),
{
    if same(key, "debug.capsAll") {
        Some(Key::Flag(Flag::DebugCapsAll))
    } else if same(key, "intel.expandPacked16") {
        Some(Key::Flag(Flag::IntelExpandPacked16))
    } else if same(key, "intel.denyFloat32Filtering") {
        Some(Key::Flag(Flag::IntelDenyFloat32Filtering))
    } else if same(key, "intel.managedMemory") {
        Some(Key::Flag(Flag::IntelManagedMemory))
    } else if same(key, "intel.linearAlign256") {
        Some(Key::Flag(Flag::IntelLinearAlign256))
    } else if same(key, "color.hdr.enable") {
        Some(Key::Flag(Flag::ColorHdrEnable))
    } else if same(key, "color.space") {
        Some(Key::ColorSpace)
    } else if same(key, "cursor.scale") {
        Some(Key::CursorScale)
    } else if same(key, "cursor.software") {
        Some(Key::CursorSoftware)
    } else if same(key, "shaderCache.enable") {
        Some(Key::Flag(Flag::ShaderCacheEnable))
    } else if same(key, "log.dir") {
        Some(Key::Place(Place::LogDir))
    } else if same(key, "debug.bytecodeDumpDir") {
        Some(Key::Place(Place::DebugBytecodeDumpDir))
    } else if same(key, "debug.skipShaders") {
        Some(Key::DebugSkipShaders)
    } else if same(key, "query.flushImmediate") {
        Some(Key::Flag(Flag::QueryFlushImmediate))
    } else if same(key, "render.submitDraws") {
        Some(Key::Count(Count::RenderSubmitDraws))
    } else if same(key, "render.mergePasses") {
        Some(Key::Flag(Flag::RenderMergePasses))
    } else if same(key, "depth.aliasSameSize") {
        Some(Key::Flag(Flag::DepthAliasSameSize))
    } else if same(key, "buffer.ignoreLockBounds") {
        Some(Key::Flag(Flag::BufferIgnoreLockBounds))
    } else if same(key, "memory.vbibRetentionCapMB") {
        Some(Key::Limit(Limit::MemoryVbibRetentionCapMB))
    } else if same(key, "memory.vramBudgetMB") {
        Some(Key::Limit(Limit::MemoryVramBudgetMB))
    } else if same(key, "memory.pageboxPoolCapMB") {
        Some(Key::Limit(Limit::MemoryPageboxPoolCapMB))
    } else if same(key, "present.nativeHost") {
        Some(Key::Flag(Flag::PresentNativeHost))
    } else if same(key, "present.maxFps") {
        Some(Key::Count(Count::PresentMaxFps))
    } else if same(key, "render.scale") {
        Some(Key::RenderScale)
    } else if same(key, "adapter.spoof") {
        Some(Key::AdapterSpoof)
    } else if same(key, "caps.dfFormats") {
        Some(Key::Flag(Flag::CapsDfFormats))
    } else {
        None
    }
}

fn set_value(cfg: Mtld3dConfig, key: Key, value: &str) -> (r: Mtld3dConfig)
    ensures
        r@ == with_value(cfg@, key, value@),
{
    match key {
        Key::Flag(k) => {
            let x: bool = assign_bool(value, k.get(&cfg));
            k.set(cfg, x)
        },
        Key::Limit(k) => {
            let x: u64 = assign_cap_mb(value, k.get(&cfg));
            k.set(cfg, x)
        },
        Key::Count(k) => {
            let x: u32 = assign_u32(value, k.get(&cfg));
            k.set(cfg, x)
        },
        Key::Place(k) => k.set(cfg, value),
        Key::ColorSpace => {
            let x: ColorSpacePolicy = assign_color_space(value, cfg.color_space);
            with_color_space(cfg, x)
        },
        Key::CursorScale => {
            let x: CursorScale = assign_cursor_scale(value, cfg.cursor_scale);
            with_cursor_scale(cfg, x)
        },
        Key::CursorSoftware => {
            let x: SoftwareCursorPolicy = assign_cursor_software(value, cfg.cursor_software);
            with_cursor_software(cfg, x)
        },
        Key::DebugSkipShaders => {
            let x: Vec<u64> = parse_hex_list(value);
            with_skip_shaders(cfg, x)
        },
        Key::RenderScale => {
            let x: u32 = assign_render_scale(value, cfg.render_scale_percent);
            with_render_scale_percent(cfg, x)
        },
        Key::AdapterSpoof => {
            let x: AdapterSpoof = assign_adapter_spoof(value, cfg.adapter_spoof);
            with_adapter_spoof(cfg, x)
        },
    }
}

fn apply(cfg: Mtld3dConfig, key: &str, value: &str) -> (r: Mtld3dConfig)
    ensures
        r@ == with_setting(cfg@, key@, value@),
{
    match find_key(key) {
        Some(k) => set_value(cfg, k, value),
        None => cfg,
    }
}

/// A stretch of text, taken apart.
pub(crate) enum Line<'a> {
    Blank,
    Loose,
    Setting { key: &'a str, value: &'a str },
}

pub(crate) fn take_apart<'a>(raw: &'a str) -> (r: Line<'a>)
    ensures
        match r {
            Line::Blank => is_blank(raw@),
            Line::Loose => !is_blank(raw@) && !is_setting(raw@),
            Line::Setting { key, value } => is_setting(raw@) && key@ == key_of(raw@) && value@
                == value_in(raw@),
        },
{
    let line: &'a str = trim(raw);
    let len: usize = line.unicode_len();
    if len == 0 || line.get_char(0) == '#' {
        return Line::Blank;
    }
    let eq: usize = find(line, '=');
    if eq >= len {
        return Line::Loose;
    }
    let left: &'a str = line.substring_char(0, eq);
    let right: &'a str = line.substring_char(eq + 1, len);
    assert(left@ =~= line@.take(eq as int));
    assert(right@ =~= line@.skip(eq as int + 1));
    Line::Setting { key: trim(left), value: unquote(trim(right)) }
}

fn apply_line(cfg: Mtld3dConfig, raw: &str) -> (r: Mtld3dConfig)
    ensures
        r@ == with_segment(cfg@, raw@),
{
    match take_apart(raw) {
        Line::Setting { key, value } => apply(cfg, key, value),
        _ => cfg,
    }
}

pub(crate) fn apply_text(cfg: Mtld3dConfig, text: &str, sep: char) -> (r: Mtld3dConfig)
    ensures
        r@ == with_text(cfg@, text@, sep),
{
    let ghost before = cfg@;
    let mut cfg: Mtld3dConfig = cfg;
    let segments: Vec<&str> = split_at_each(text, sep);
    let ghost all = split(text@, sep);
    let mut i: usize = 0;
    while i < segments.len()
        invariant
            all == split(text@, sep),
            segments@.len() == all.len(),
            forall|j: int| 0 <= j < segments@.len() ==> (#[trigger] segments@[j])@ == all[j],
            i <= all.len(),
            cfg@ == with_segments(before, all, i as int),
        decreases all.len() - i,
    {
        let segment: &str = segments[i];
        assert(segment@ == all[i as int]);
        cfg = apply_line(cfg, segment);
        i += 1;
    }
    cfg
}

} // verus!
