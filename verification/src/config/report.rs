//! The configuration as the lines of a log.

use super::{AdapterSpoof, ColorSpacePolicy, ConfigView, CursorScale, Mtld3dConfig, SoftwareCursorPolicy};
use crate::text::{dec, decimal, digit, given, owned, push, push_if};
use vstd::prelude::*;

verus! {

/// Text as the debug format of std shows it: in quotes, with escapes.
pub uninterp spec fn debug_text(s: Seq<char>) -> Seq<char>;

/// Formats text with `{:?}`. The format goes by the text alone; which characters it
/// escapes is left to std and not said here.
#[verifier::external_body]
fn debug_quoted(s: &str) -> (r: String)
    ensures
        r@ == debug_text(s@),
{
    format!("{:?}", s)
}

/// A yes or no.
pub open spec fn flag_text(b: bool) -> Seq<char> {
    if b {
        "true"@
    } else {
        "false"@
    }
}

/// How colours are tagged.
pub open spec fn color_space_text(p: ColorSpacePolicy) -> Seq<char> {
    match p {
        ColorSpacePolicy::Passthrough => "passthrough"@,
        ColorSpacePolicy::Accurate => "accurate"@,
    }
}

/// How much the cursor is enlarged.
pub open spec fn cursor_scale_text(s: CursorScale) -> Seq<char> {
    match s {
        CursorScale::Auto => "auto"@,
        CursorScale::Fixed(n) => dec(n as nat),
    }
}

/// Whether the cursor is drawn in software.
pub open spec fn cursor_software_text(p: SoftwareCursorPolicy) -> Seq<char> {
    match p {
        SoftwareCursorPolicy::Auto => "auto"@,
        SoftwareCursorPolicy::On => "true"@,
        SoftwareCursorPolicy::Off => "false"@,
    }
}

/// A vendor.
pub open spec fn spoof_text(p: AdapterSpoof) -> Seq<char> {
    match p {
        AdapterSpoof::Real => "none"@,
        AdapterSpoof::Nvidia => "nvidia"@,
        AdapterSpoof::Amd => "amd"@,
    }
}

/// A number of bytes in whole mebibytes.
pub open spec fn mebibytes_text(bytes: u64) -> Seq<char> {
    dec((bytes / 1048576) as nat)
}

/// The hundredths of a number below one hundred behind a point, without zeros at the end;
/// nothing for zero.
pub open spec fn decimals_text(n: nat) -> Seq<char> {
    if n == 0 {
        Seq::empty()
    } else {
        "."@ + seq![digit(n / 10)] + given(n % 10 != 0, seq![digit(n % 10)])
    }
}

/// A percentage as a factor.
pub open spec fn percent_text(percent: u32) -> Seq<char> {
    dec((percent / 100) as nat) + decimals_text((percent % 100) as nat)
}

/// One line.
pub open spec fn line(key: Seq<char>, value: Seq<char>) -> Seq<char> {
    "config: "@ + key + " = "@ + value
}

/// The configuration as lines, with the two directories as they are to be shown.
pub open spec fn lines_of(v: ConfigView, log_dir: Seq<char>, dump_dir: Seq<char>) -> Seq<Seq<char>> {
    Seq::empty()
        .push(line("debug.capsAll"@, flag_text(v.caps_all)))
        .push(line("intel.expandPacked16"@, flag_text(v.expand_packed16)))
        .push(line("intel.denyFloat32Filtering"@, flag_text(v.deny_float32_filtering)))
        .push(line("intel.managedMemory"@, flag_text(v.managed_memory)))
        .push(line("intel.linearAlign256"@, flag_text(v.linear_align256)))
        .push(line("color.hdr.enable"@, flag_text(v.hdr_enable)))
        .push(line("color.space"@, color_space_text(v.color_space)))
        .push(line("cursor.scale"@, cursor_scale_text(v.cursor_scale)))
        .push(line("cursor.software"@, cursor_software_text(v.cursor_software)))
        .push(line("shaderCache.enable"@, flag_text(v.shader_cache_enable)))
        .push(line("log.dir"@, log_dir))
        .push(line("debug.bytecodeDumpDir"@, dump_dir))
        .push(line("debug.skipShaders"@, dec(v.skip_shaders.len()) + " hash(es)"@))
        .push(line("query.flushImmediate"@, flag_text(v.query_flush_immediate)))
        .push(line("render.submitDraws"@, dec(v.render_submit_draws as nat)))
        .push(line("render.mergePasses"@, flag_text(v.render_merge_passes)))
        .push(line("depth.aliasSameSize"@, flag_text(v.depth_alias_same_size)))
        .push(line("buffer.ignoreLockBounds"@, flag_text(v.buffer_ignore_lock_bounds)))
        .push(line("memory.vbibRetentionCapMB"@, mebibytes_text(v.vbib_retention_cap_bytes)))
        .push(line("memory.vramBudgetMB"@, mebibytes_text(v.vram_budget_cap_bytes)))
        .push(line("memory.pageboxPoolCapMB"@, mebibytes_text(v.pagebox_pool_cap_bytes)))
        .push(line("present.maxFps"@, dec(v.present_max_fps as nat)))
        .push(line("present.nativeHost"@, flag_text(v.present_native_host)))
        .push(line("render.scale"@, percent_text(v.render_scale_percent)))
        .push(line("adapter.spoof"@, spoof_text(v.adapter_spoof)))
        .push(line("caps.dfFormats"@, flag_text(v.df_formats)))
}

/// What some strings hold.
#[verifier::opaque]
pub open spec fn texts(s: Seq<String>) -> Seq<Seq<char>> {
    Seq::new(s.len(), |i: int| s[i]@)
}

/// Whether some strings hold some lines.
pub open spec fn hold(s: Seq<String>, lines: Seq<Seq<char>>) -> bool {
    texts(s) == lines
}

fn flag_label(b: bool) -> (r: &'static str)
    ensures
        r@ == flag_text(b),
{
    if b {
        "true"
    } else {
        "false"
    }
}

fn color_space_label(p: ColorSpacePolicy) -> (r: &'static str)
    ensures
        r@ == color_space_text(p),
{
    match p {
        ColorSpacePolicy::Passthrough => "passthrough",
        ColorSpacePolicy::Accurate => "accurate",
    }
}

fn cursor_scale_label(s: CursorScale) -> (r: String)
    ensures
        r@ == cursor_scale_text(s),
{
    match s {
        CursorScale::Auto => owned("auto"),
        CursorScale::Fixed(n) => decimal(n as u64),
    }
}

fn cursor_software_label(p: SoftwareCursorPolicy) -> (r: &'static str)
    ensures
        r@ == cursor_software_text(p),
{
    match p {
        SoftwareCursorPolicy::Auto => "auto",
        SoftwareCursorPolicy::On => "true",
        SoftwareCursorPolicy::Off => "false",
    }
}

fn adapter_spoof_label(p: AdapterSpoof) -> (r: &'static str)
    ensures
        r@ == spoof_text(p),
{
    match p {
        AdapterSpoof::Real => "none",
        AdapterSpoof::Nvidia => "nvidia",
        AdapterSpoof::Amd => "amd",
    }
}

fn mebibytes_label(bytes: u64) -> (r: String)
    ensures
        r@ == mebibytes_text(bytes),
{
    decimal(bytes / 1048576)
}

fn hashes_label(n: usize) -> (r: String)
    ensures
        r@ == dec(n as nat) + " hash(es)"@,
{
    let mut out: String = decimal(n as u64);
    push(&mut out, " hash(es)");
    out
}

fn percent_label(percent: u32) -> (r: String)
    ensures
        r@ == percent_text(percent),
{
    let mut out: String = decimal((percent / 100) as u64);
    let rest: u32 = percent % 100;
    if rest != 0 {
        let tenth: String = decimal((rest / 10) as u64);
        let last: String = decimal((rest % 10) as u64);
        push(&mut out, ".");
        push(&mut out, tenth.as_str());
        push_if(&mut out, rest % 10 != 0, last.as_str());
    }
    assert(out@ =~= percent_text(percent));
    out
}

fn add_line(out: &mut Vec<String>, key: &str, value: &str)
    ensures
        hold(final(out)@, texts(old(out)@).push(line(key@, value@))),
{
    let mut s: String = owned("config: ");
    push(&mut s, key);
    push(&mut s, " = ");
    push(&mut s, value);
    out.push(s);
    reveal(texts);
    assert(texts(out@) =~= texts(old(out)@).push(line(key@, value@)));
}

/// The lines that say how everything is set, in the order of the keys, with the two
/// directories as they are to be shown.
pub fn option_lines(cfg: &Mtld3dConfig, log_dir: &str, dump_dir: &str) -> (r: Vec<String>)
    ensures
        hold(r@, lines_of(cfg@, log_dir@, dump_dir@)),
{
    let mut out: Vec<String> = Vec::new();
    assert(texts(out@) =~= Seq::<Seq<char>>::empty()) by {
        reveal(texts);
    }
    add_line(&mut out, "debug.capsAll", flag_label(cfg.caps_all));
    add_line(&mut out, "intel.expandPacked16", flag_label(cfg.expand_packed16));
    add_line(&mut out, "intel.denyFloat32Filtering", flag_label(cfg.deny_float32_filtering));
    add_line(&mut out, "intel.managedMemory", flag_label(cfg.managed_memory));
    add_line(&mut out, "intel.linearAlign256", flag_label(cfg.linear_align256));
    add_line(&mut out, "color.hdr.enable", flag_label(cfg.hdr_enable));
    add_line(&mut out, "color.space", color_space_label(cfg.color_space));
    add_line(&mut out, "cursor.scale", cursor_scale_label(cfg.cursor_scale).as_str());
    add_line(&mut out, "cursor.software", cursor_software_label(cfg.cursor_software));
    add_line(&mut out, "shaderCache.enable", flag_label(cfg.shader_cache_enable));
    add_line(&mut out, "log.dir", log_dir);
    add_line(&mut out, "debug.bytecodeDumpDir", dump_dir);
    add_line(&mut out, "debug.skipShaders", hashes_label(cfg.skip_shaders.len()).as_str());
    add_line(&mut out, "query.flushImmediate", flag_label(cfg.query_flush_immediate));
    add_line(&mut out, "render.submitDraws", decimal(cfg.render_submit_draws as u64).as_str());
    add_line(&mut out, "render.mergePasses", flag_label(cfg.render_merge_passes));
    add_line(&mut out, "depth.aliasSameSize", flag_label(cfg.depth_alias_same_size));
    add_line(&mut out, "buffer.ignoreLockBounds", flag_label(cfg.buffer_ignore_lock_bounds));
    add_line(&mut out, "memory.vbibRetentionCapMB", mebibytes_label(cfg.vbib_retention_cap_bytes).as_str());
    add_line(&mut out, "memory.vramBudgetMB", mebibytes_label(cfg.vram_budget_cap_bytes).as_str());
    add_line(&mut out, "memory.pageboxPoolCapMB", mebibytes_label(cfg.pagebox_pool_cap_bytes).as_str());
    add_line(&mut out, "present.maxFps", decimal(cfg.present_max_fps as u64).as_str());
    add_line(&mut out, "present.nativeHost", flag_label(cfg.present_native_host));
    add_line(&mut out, "render.scale", percent_label(cfg.render_scale_percent).as_str());
    add_line(&mut out, "adapter.spoof", adapter_spoof_label(cfg.adapter_spoof));
    add_line(&mut out, "caps.dfFormats", flag_label(cfg.df_formats));
    out
}

/// The lines that say how everything is set, with the two directories in quotes.
pub fn log_options(cfg: &Mtld3dConfig) -> (r: Vec<String>)
    ensures
        hold(
            r@,
            lines_of(cfg@, debug_text(cfg.log_dir@), debug_text(cfg.bytecode_dump_dir@)),
        ),
{
    let log_dir: String = debug_quoted(cfg.log_dir.as_str());
    let dump_dir: String = debug_quoted(cfg.bytecode_dump_dir.as_str());
    option_lines(cfg, log_dir.as_str(), dump_dir.as_str())
}

} // verus!
