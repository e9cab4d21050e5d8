//! The configuration: layers, and how it is reported.

use mtld3d_core::app_profile::AppProfile;
use mtld3d_core::config::report::option_lines;
use mtld3d_core::config::{log_options, parse, rejected, Mtld3dConfig, Reason, Rejected, Source};

fn profile(settings: &str) -> AppProfile {
    AppProfile { name: "game".to_string(), settings: settings.to_string() }
}

#[test]
fn later_layers_go_before_earlier_ones() {
    let p = profile("present.maxFps=30;render.submitDraws=5;cursor.scale=2");
    assert_eq!(p.name(), "game");
    let cfg = parse(Some(&p), "present.maxFps = 60\nrender.submitDraws = x\n", Some("cursor.scale=7"));
    assert_eq!(cfg.present_max_fps, 60);
    assert_eq!(cfg.render_submit_draws, 5);
    assert_eq!(cfg.cursor_scale, mtld3d_core::config::CursorScale::Fixed(7));
}

#[test]
fn numbers_may_have_a_plus_sign() {
    assert_eq!(parse(None, "present.maxFps = +5", None).present_max_fps, 5);
    assert_eq!(parse(None, "present.maxFps = -5", None).present_max_fps, 0);
    assert_eq!(parse(None, "present.maxFps = 4294967296", None).present_max_fps, 0);
    assert_eq!(parse(None, "present.maxFps = 4294967295", None).present_max_fps, u32::MAX);
    assert_eq!(parse(None, "render.scale = .5", None).render_scale_percent, 50);
    assert_eq!(parse(None, "render.scale = 0.999", None).render_scale_percent, 99);
}

#[test]
fn lists_take_every_mark_off() {
    assert_eq!(parse(None, "debug.skipShaders = 0x0xAB", None).skip_shaders, vec![0xab]);
    assert_eq!(
        parse(None, "debug.skipShaders = ffffffffffffffff,10000000000000000", None).skip_shaders,
        vec![u64::MAX]
    );
}

#[test]
fn every_option_has_its_line() {
    let cfg = parse(
        None,
        "log.dir = a\"b\nrender.scale = 0.5\ncursor.scale = 12\nadapter.spoof = ati\n\
         debug.skipShaders = 1,2\nmemory.vbibRetentionCapMB = 3\npresent.maxFps = 144\n",
        None,
    );
    let lines = log_options(&cfg);
    assert_eq!(lines.len(), 26);
    assert_eq!(lines[0], "config: debug.capsAll = false");
    assert_eq!(lines[5], "config: color.hdr.enable = true");
    assert_eq!(lines[6], "config: color.space = passthrough");
    assert_eq!(lines[7], "config: cursor.scale = 12");
    assert_eq!(lines[8], "config: cursor.software = auto");
    assert_eq!(lines[10], "config: log.dir = \"a\\\"b\"");
    assert_eq!(lines[11], "config: debug.bytecodeDumpDir = \"\"");
    assert_eq!(lines[12], "config: debug.skipShaders = 2 hash(es)");
    assert_eq!(lines[18], "config: memory.vbibRetentionCapMB = 3");
    assert_eq!(lines[20], "config: memory.pageboxPoolCapMB = 128");
    assert_eq!(lines[21], "config: present.maxFps = 144");
    assert_eq!(lines[22], "config: present.nativeHost = false");
    assert_eq!(lines[23], "config: render.scale = 0.5");
    assert_eq!(lines[24], "config: adapter.spoof = amd");
    assert_eq!(lines[25], "config: caps.dfFormats = true");
}

#[test]
fn scales_are_shown_as_floats_are() {
    for percent in [1u32, 7, 10, 50, 75, 99, 100, 101, 230, 12345, u32::MAX] {
        let cfg = Mtld3dConfig { render_scale_percent: percent, ..Mtld3dConfig::default() };
        let want = format!("config: render.scale = {}", f64::from(percent) / 100.0);
        assert_eq!(option_lines(&cfg, "", "")[23], want);
    }
}

fn said(r: &Rejected) -> (Source, Option<usize>, &str, &str, Reason) {
    (r.source, r.line, r.key.as_str(), r.value.as_str(), r.reason)
}

#[test]
fn what_is_not_understood_is_listed_in_order() {
    let p = profile("nonsense;color.space=accurate;;debug.capsAll=perhaps");
    let file = "# a comment\n\nrender.scale = 2\nno equals sign\ncolor.hdr.enable = true\nhdr = \"on\"\n";
    let all = rejected(Some(&p), file, Some("present.maxFps = -1; adapter.spoof = ATI"));
    let want = [
        (Source::Application, None, "", "", Reason::NoEqualsSign),
        (Source::Application, None, "debug.capsAll", "perhaps", Reason::UnreadableValue),
        (Source::File, Some(3), "render.scale", "2", Reason::UnreadableValue),
        (Source::File, Some(4), "", "", Reason::NoEqualsSign),
        (Source::File, Some(6), "hdr", "on", Reason::UnknownKey),
        (Source::Override, None, "present.maxFps", "-1", Reason::UnreadableValue),
    ];
    assert_eq!(all.iter().map(said).collect::<Vec<_>>(), want);
}

#[test]
fn every_kind_of_value_can_be_unreadable() {
    for bad in [
        "debug.capsAll = 1",
        "memory.vramBudgetMB = x",
        "render.submitDraws = -1",
        "color.space = srgb",
        "cursor.scale = 0",
        "cursor.software = maybe",
        "render.scale = 1.01",
        "render.scale = 0",
        "adapter.spoof = intel",
    ] {
        let all = rejected(None, bad, None);
        assert_eq!(all.len(), 1, "{bad}");
        assert_eq!(all[0].reason, Reason::UnreadableValue, "{bad}");
        assert_eq!(parse(None, bad, None), Mtld3dConfig::default(), "{bad}");
    }
}

#[test]
fn what_can_be_read_is_not_listed() {
    let file = "debug.capsAll = TRUE\nlog.dir = anything\ndebug.skipShaders = zz\ncursor.scale = auto\n";
    assert!(rejected(None, file, Some("render.scale=1;adapter.spoof=none;cursor.software=Auto")).is_empty());
    assert!(rejected(None, "", None).is_empty());
    assert!(rejected(None, "# only\n  \n#comments", Some(";;")).is_empty());
}
