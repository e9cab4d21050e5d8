//! What holds of the configuration whatever the texts say.

use super::apply::{
    bool_or, cursor_scale_or, cursor_software_or, hex_list, hundredths, is_blank, is_setting,
    key_named, key_of, mebibytes_or, render_scale_or, space_or, spoof_or, u32_or, value_in, with_segment,
    with_segments, with_setting, with_value, Count, Flag, Key, Limit, Place,
    RENDER_SCALE_MAX_PERCENT, RENDER_SCALE_MIN_PERCENT,
};
use super::rejected::{reason_of, rejected_in, rejected_of, RejectedView, Source};
use super::scan::{find_bounds, lower, number, split};
use super::{
    default_config, parsed, with_text, AdapterSpoof, ColorSpacePolicy, ConfigView, CursorScale,
    SoftwareCursorPolicy,
};
use vstd::prelude::*;

verus! {

/// What something is set to.
pub enum Setting {
    Flag(bool),
    Limit(u64),
    Count(u32),
    Place(Seq<char>),
    ColorSpace(ColorSpacePolicy),
    CursorScale(CursorScale),
    CursorSoftware(SoftwareCursorPolicy),
    SkipShaders(Seq<u64>),
    RenderScale(u32),
    AdapterSpoof(AdapterSpoof),
}

/// What the configuration has for a key.
pub open spec fn setting(v: ConfigView, key: Key) -> Setting {
    match key {
        Key::Flag(k) => Setting::Flag(k.of(v)),
        Key::Limit(k) => Setting::Limit(k.of(v)),
        Key::Count(k) => Setting::Count(k.of(v)),
        Key::Place(Place::LogDir) => Setting::Place(v.log_dir),
        Key::Place(Place::DebugBytecodeDumpDir) => Setting::Place(v.bytecode_dump_dir),
        Key::ColorSpace => Setting::ColorSpace(v.color_space),
        Key::CursorScale => Setting::CursorScale(v.cursor_scale),
        Key::CursorSoftware => Setting::CursorSoftware(v.cursor_software),
        Key::DebugSkipShaders => Setting::SkipShaders(v.skip_shaders),
        Key::RenderScale => Setting::RenderScale(v.render_scale_percent),
        Key::AdapterSpoof => Setting::AdapterSpoof(v.adapter_spoof),
    }
}

/// What a value means for a key, where the key has `kept` before.
pub open spec fn reading(key: Key, value: Seq<char>, kept: ConfigView) -> Setting {
    match key {
        Key::Flag(k) => Setting::Flag(bool_or(value, k.of(kept))),
        Key::Limit(k) => Setting::Limit(mebibytes_or(value, k.of(kept))),
        Key::Count(k) => Setting::Count(u32_or(value, k.of(kept))),
        Key::Place(_) => Setting::Place(value),
        Key::ColorSpace => Setting::ColorSpace(space_or(value, kept.color_space)),
        Key::CursorScale => Setting::CursorScale(cursor_scale_or(value, kept.cursor_scale)),
        Key::CursorSoftware => Setting::CursorSoftware(
            cursor_software_or(value, kept.cursor_software),
        ),
        Key::DebugSkipShaders => Setting::SkipShaders(hex_list(value)),
        Key::RenderScale => Setting::RenderScale(
            render_scale_or(value, kept.render_scale_percent),
        ),
        Key::AdapterSpoof => Setting::AdapterSpoof(spoof_or(value, kept.adapter_spoof)),
    }
}

/// Whether a value can be read for a key.
pub open spec fn readable(key: Key, value: Seq<char>) -> bool {
    match key {
        Key::Flag(_) => lower(value) == "true"@ || lower(value) == "false"@,
        Key::Limit(_) => number(value, 10, u32::MAX as int) is Some,
        Key::Count(_) => number(value, 10, u32::MAX as int) is Some,
        Key::Place(_) => true,
        Key::ColorSpace => lower(value) == "passthrough"@ || lower(value) == "accurate"@,
        Key::CursorScale => lower(value) == "auto"@ || match number(value, 10, u32::MAX as int) {
            Some(n) => n > 0,
            None => false,
        },
        Key::CursorSoftware => lower(value) == "auto"@ || lower(value) == "true"@ || lower(value)
            == "false"@,
        Key::DebugSkipShaders => true,
        Key::RenderScale => match hundredths(value) {
            Some(p) => RENDER_SCALE_MIN_PERCENT <= p <= RENDER_SCALE_MAX_PERCENT,
            None => false,
        },
        Key::AdapterSpoof => lower(value) == "none"@ || lower(value) == "nvidia"@ || lower(value)
            == "amd"@ || lower(value) == "ati"@,
    }
}

proof fn flags_leave_the_rest(v: ConfigView, k: Flag, x: bool, other: Key)
    requires
        !(other is Flag),
    ensures
        setting(k.put(v, x), other) == setting(v, other),
{
    reveal(Flag::put);
}

proof fn flags_leave_flags(v: ConfigView, k: Flag, x: bool, j: Flag)
    ensures
        j.of(k.put(v, x)) == (if j == k {
            x
        } else {
            j.of(v)
        }),
{
    reveal(Flag::put);
}

proof fn flags_are_apart(v: ConfigView, k: Flag, x: bool, other: Key)
    ensures
        setting(k.put(v, x), Key::Flag(k)) == Setting::Flag(x),
        other != Key::Flag(k) ==> setting(k.put(v, x), other) == setting(v, other),
{
    flags_leave_flags(v, k, x, k);
    match other {
        Key::Flag(j) => {
            flags_leave_flags(v, k, x, j);
        },
        _ => {
            flags_leave_the_rest(v, k, x, other);
        },
    }
}

proof fn limits_are_apart(v: ConfigView, k: Limit, x: u64, other: Key)
    ensures
        setting(k.put(v, x), Key::Limit(k)) == Setting::Limit(x),
        other != Key::Limit(k) ==> setting(k.put(v, x), other) == setting(v, other),
{
    reveal(Limit::put);
}

proof fn counts_are_apart(v: ConfigView, k: Count, x: u32, other: Key)
    ensures
        setting(k.put(v, x), Key::Count(k)) == Setting::Count(x),
        other != Key::Count(k) ==> setting(k.put(v, x), other) == setting(v, other),
{
    reveal(Count::put);
}

proof fn places_are_apart(v: ConfigView, k: Place, x: Seq<char>, other: Key)
    ensures
        setting(k.put(v, x), Key::Place(k)) == Setting::Place(x),
        other != Key::Place(k) ==> setting(k.put(v, x), other) == setting(v, other),
{
}

proof fn color_spaces_are_apart(v: ConfigView, x: ColorSpacePolicy, other: Key)
    ensures
        setting(ConfigView { color_space: x, ..v }, other) == (if other == Key::ColorSpace {
            Setting::ColorSpace(x)
        } else {
            setting(v, other)
        }),
{
}

proof fn cursor_scales_are_apart(v: ConfigView, x: CursorScale, other: Key)
    ensures
        setting(ConfigView { cursor_scale: x, ..v }, other) == (if other == Key::CursorScale {
            Setting::CursorScale(x)
        } else {
            setting(v, other)
        }),
{
}

proof fn cursors_are_apart(v: ConfigView, x: SoftwareCursorPolicy, other: Key)
    ensures
        setting(ConfigView { cursor_software: x, ..v }, other) == (if other == Key::CursorSoftware {
            Setting::CursorSoftware(x)
        } else {
            setting(v, other)
        }),
{
}

proof fn hashes_are_apart(v: ConfigView, x: Seq<u64>, other: Key)
    ensures
        setting(ConfigView { skip_shaders: x, ..v }, other) == (if other == Key::DebugSkipShaders {
            Setting::SkipShaders(x)
        } else {
            setting(v, other)
        }),
{
}

proof fn render_scales_are_apart(v: ConfigView, x: u32, other: Key)
    ensures
        setting(ConfigView { render_scale_percent: x, ..v }, other) == (if other == Key::RenderScale {
            Setting::RenderScale(x)
        } else {
            setting(v, other)
        }),
{
}

proof fn vendors_are_apart(v: ConfigView, x: AdapterSpoof, other: Key)
    ensures
        setting(ConfigView { adapter_spoof: x, ..v }, other) == (if other == Key::AdapterSpoof {
            Setting::AdapterSpoof(x)
        } else {
            setting(v, other)
        }),
{
}

proof fn keys_are_apart(v: ConfigView, key: Key, value: Seq<char>, other: Key)
    ensures
        setting(with_value(v, key, value), key) == reading(key, value, v),
        other != key ==> setting(with_value(v, key, value), other) == setting(v, other),
{
    match key {
        Key::Flag(k) => {
            flags_are_apart(v, k, bool_or(value, k.of(v)), other);
        },
        Key::Limit(k) => {
            limits_are_apart(v, k, mebibytes_or(value, k.of(v)), other);
        },
        Key::Count(k) => {
            counts_are_apart(v, k, u32_or(value, k.of(v)), other);
        },
        Key::Place(k) => {
            places_are_apart(v, k, value, other);
        },
        Key::ColorSpace => {
            color_spaces_are_apart(v, space_or(value, v.color_space), key);
            color_spaces_are_apart(v, space_or(value, v.color_space), other);
        },
        Key::CursorScale => {
            cursor_scales_are_apart(v, cursor_scale_or(value, v.cursor_scale), key);
            cursor_scales_are_apart(v, cursor_scale_or(value, v.cursor_scale), other);
        },
        Key::CursorSoftware => {
            cursors_are_apart(v, cursor_software_or(value, v.cursor_software), key);
            cursors_are_apart(v, cursor_software_or(value, v.cursor_software), other);
        },
        Key::DebugSkipShaders => {
            hashes_are_apart(v, hex_list(value), key);
            hashes_are_apart(v, hex_list(value), other);
        },
        Key::RenderScale => {
            render_scales_are_apart(v, render_scale_or(value, v.render_scale_percent), key);
            render_scales_are_apart(v, render_scale_or(value, v.render_scale_percent), other);
        },
        Key::AdapterSpoof => {
            vendors_are_apart(v, spoof_or(value, v.adapter_spoof), key);
            vendors_are_apart(v, spoof_or(value, v.adapter_spoof), other);
        },
    }
}

/// A setting sets its own key: to what the value means if it can be read, and else the
/// key keeps what it had.
pub proof fn a_setting_sets_its_key(v: ConfigView, key: Key, value: Seq<char>)
    ensures
        setting(with_value(v, key, value), key) == reading(key, value, v),
        !readable(key, value) ==> setting(with_value(v, key, value), key) == setting(v, key),
{
    keys_are_apart(v, key, value, key);
    if !readable(key, value) {
        assert(reading(key, value, v) == setting(v, key));
    }
}

/// A setting leaves every other key alone.
pub proof fn a_setting_leaves_other_keys_alone(
    v: ConfigView,
    key: Key,
    value: Seq<char>,
    other: Key,
)
    requires
        other != key,
    ensures
        setting(with_value(v, key, value), other) == setting(v, other),
{
    keys_are_apart(v, key, value, other);
}

/// What a readable value means does not depend on what was there before.
pub proof fn readable_values_stand_alone(
    key: Key,
    value: Seq<char>,
    before: ConfigView,
    instead: ConfigView,
)
    requires
        readable(key, value),
    ensures
        reading(key, value, before) == reading(key, value, instead),
{
}

/// The last readable value of a key wins.
pub proof fn the_last_setting_wins(
    v: ConfigView,
    key: Key,
    value: Seq<char>,
    later: Seq<char>,
)
    requires
        readable(key, later),
    ensures
        setting(with_value(with_value(v, key, value), key, later), key) == setting(
            with_value(v, key, later),
            key,
        ),
{
    a_setting_sets_its_key(with_value(v, key, value), key, later);
    a_setting_sets_its_key(v, key, later);
    readable_values_stand_alone(key, later, with_value(v, key, value), v);
}

/// A line that is empty, a comment, without an equals sign or with a key that is not
/// known changes nothing.
pub proof fn lines_that_set_nothing_change_nothing(v: ConfigView, segment: Seq<char>)
    requires
        !is_setting(segment) || key_named(key_of(segment)) is None,
    ensures
        with_segment(v, segment) == v,
{
}

proof fn flags_kept(v: ConfigView, k: Flag)
    ensures
        k.put(v, k.of(v)) == v,
{
    reveal(Flag::put);
}

proof fn limits_kept(v: ConfigView, k: Limit)
    ensures
        k.put(v, k.of(v)) == v,
{
    reveal(Limit::put);
}

proof fn counts_kept(v: ConfigView, k: Count)
    ensures
        k.put(v, k.of(v)) == v,
{
    reveal(Count::put);
}

spec fn unchanged(a: ConfigView, b: ConfigView) -> bool {
    a == b
}

proof fn unreadable_numbers_change_nothing(v: ConfigView, key: Key, value: Seq<char>)
    requires
        !readable(key, value),
        key is Flag || key is Limit || key is Count,
    ensures
        unchanged(with_value(v, key, value), v),
{
    match key {
        Key::Flag(k) => {
            flags_kept(v, k);
        },
        Key::Limit(k) => {
            limits_kept(v, k);
        },
        Key::Count(k) => {
            counts_kept(v, k);
        },
        _ => {},
    }
}

proof fn unreadable_color_space_changes_nothing(v: ConfigView, value: Seq<char>)
    requires
        !readable(Key::ColorSpace, value),
    ensures
        unchanged(with_value(v, Key::ColorSpace, value), v),
{
    assert(space_or(value, v.color_space) == v.color_space);
}

proof fn unreadable_cursor_scale_changes_nothing(v: ConfigView, value: Seq<char>)
    requires
        !readable(Key::CursorScale, value),
    ensures
        unchanged(with_value(v, Key::CursorScale, value), v),
{
    assert(cursor_scale_or(value, v.cursor_scale) == v.cursor_scale);
}

proof fn unreadable_cursor_software_changes_nothing(v: ConfigView, value: Seq<char>)
    requires
        !readable(Key::CursorSoftware, value),
    ensures
        unchanged(with_value(v, Key::CursorSoftware, value), v),
{
    assert(cursor_software_or(value, v.cursor_software) == v.cursor_software);
}

proof fn unreadable_render_scale_changes_nothing(v: ConfigView, value: Seq<char>)
    requires
        !readable(Key::RenderScale, value),
    ensures
        unchanged(with_value(v, Key::RenderScale, value), v),
{
    assert(render_scale_or(value, v.render_scale_percent) == v.render_scale_percent);
}

proof fn unreadable_adapter_spoof_changes_nothing(v: ConfigView, value: Seq<char>)
    requires
        !readable(Key::AdapterSpoof, value),
    ensures
        unchanged(with_value(v, Key::AdapterSpoof, value), v),
{
    assert(spoof_or(value, v.adapter_spoof) == v.adapter_spoof);
}

proof fn unreadable_values_change_nothing(v: ConfigView, key: Key, value: Seq<char>)
    requires
        !readable(key, value),
    ensures
        unchanged(with_value(v, key, value), v),
{
    match key {
        Key::ColorSpace => {
            unreadable_color_space_changes_nothing(v, value);
        },
        Key::CursorScale => {
            unreadable_cursor_scale_changes_nothing(v, value);
        },
        Key::CursorSoftware => {
            unreadable_cursor_software_changes_nothing(v, value);
        },
        Key::RenderScale => {
            unreadable_render_scale_changes_nothing(v, value);
        },
        Key::AdapterSpoof => {
            unreadable_adapter_spoof_changes_nothing(v, value);
        },
        _ => {
            unreadable_numbers_change_nothing(v, key, value);
        },
    }
}

/// What is rejected changes nothing: text without an equals sign, with a key that is not
/// known or with a value that cannot be read for its key.
pub proof fn what_is_rejected_changes_nothing(v: ConfigView, segment: Seq<char>)
    requires
        reason_of(segment) is Some,
    ensures
        with_segment(v, segment) == v,
{
    if is_setting(segment) {
        let named = key_named(key_of(segment));
        let value = value_in(segment);
        assert(with_segment(v, segment) == with_setting(v, key_of(segment), value));
        if named is Some {
            assert(!readable(named->0, value));
            unreadable_values_change_nothing(v, named->0, value);
        }
    }
}

/// Whatever is neither empty nor a comment either is rejected or sets its key to what its
/// value reads as, whatever was set before.
pub proof fn what_is_not_rejected_is_set(
    v: ConfigView,
    segment: Seq<char>,
    kept: ConfigView,
)
    requires
        !is_blank(segment),
        reason_of(segment) is None,
    ensures
        key_named(key_of(segment)) matches Some(key) && setting(with_segment(v, segment), key)
            == reading(key, value_in(segment), kept),
{
    match key_named(key_of(segment)) {
        Some(key) => {
            a_setting_sets_its_key(v, key, value_in(segment));
            readable_values_stand_alone(key, value_in(segment), v, kept);
        },
        None => {},
    }
}

/// Nothing is rejected of a text that is empty or all comments.
pub proof fn nothing_is_rejected_of_comments(source: Source, text: Seq<char>, sep: char)
    requires
        forall|i: int| 0 <= i < split(text, sep).len() ==> is_blank(#[trigger] split(text, sep)[i]),
    ensures
        rejected_in(source, text, sep) == Seq::<RejectedView>::empty(),
{
    nothing_of_comments(source, split(text, sep), split(text, sep).len() as int);
}

proof fn nothing_of_comments(source: Source, segments: Seq<Seq<char>>, n: int)
    requires
        0 <= n <= segments.len(),
        forall|i: int| 0 <= i < n ==> is_blank(#[trigger] segments[i]),
    ensures
        rejected_of(source, segments, n) == Seq::<RejectedView>::empty(),
    decreases n,
{
    if n > 0 {
        nothing_of_comments(source, segments, n - 1);
        assert(is_blank(segments[n - 1]));
    }
}

/// Text without the separator is one stretch.
proof fn undivided(text: Seq<char>, sep: char)
    requires
        !text.contains(sep),
    ensures
        split(text, sep) == seq![text],
{
    find_bounds(text, sep, 0);
    assert(text.subrange(0, text.len() as int) =~= text);
    assert(split(text, sep) =~= seq![text]);
}

/// A text with a single setting sets just that.
pub proof fn a_single_setting(v: ConfigView, text: Seq<char>, sep: char)
    requires
        !text.contains(sep),
    ensures
        with_text(v, text, sep) == with_segment(v, text),
{
    undivided(text, sep);
    reveal_with_fuel(with_segments, 2);
}

/// Without any setting the configuration is the default one.
pub proof fn without_settings_everything_is_default()
    ensures
        parsed(None, Seq::empty(), None) == default_config(),
{
    a_single_setting(default_config(), Seq::empty(), '\n');
}

/// What the override sets stands, whatever the application's settings and the file say.
pub proof fn the_override_has_the_last_word(
    profile: Option<Seq<char>>,
    file_src: Seq<char>,
    text: Seq<char>,
)
    requires
        !text.contains(';'),
        is_setting(text),
        key_named(key_of(text)) is Some,
        readable(key_named(key_of(text))->0, value_in(text)),
    ensures
        setting(parsed(profile, file_src, Some(text)), key_named(key_of(text))->0) == reading(
            key_named(key_of(text))->0,
            value_in(text),
            default_config(),
        ),
{
    let key = key_named(key_of(text))->0;
    let v = parsed(profile, file_src, None);
    a_single_setting(v, text, ';');
    a_setting_sets_its_key(v, key, value_in(text));
    readable_values_stand_alone(key, value_in(text), v, default_config());
}

/// What the file sets stands, whatever the application's settings say.
pub proof fn the_file_goes_before_the_application(profile: Option<Seq<char>>, text: Seq<char>)
    requires
        !text.contains('\n'),
        is_setting(text),
        key_named(key_of(text)) is Some,
        readable(key_named(key_of(text))->0, value_in(text)),
    ensures
        setting(parsed(profile, text, None), key_named(key_of(text))->0) == reading(
            key_named(key_of(text))->0,
            value_in(text),
            default_config(),
        ),
{
    let key = key_named(key_of(text))->0;
    let v = match profile {
        Some(settings) => with_text(default_config(), settings, ';'),
        None => default_config(),
    };
    a_single_setting(v, text, '\n');
    a_setting_sets_its_key(v, key, value_in(text));
    readable_values_stand_alone(key, value_in(text), v, default_config());
}

/// Whether the render scale and the scale of the cursor are within their limits.
pub open spec fn in_bounds(v: ConfigView) -> bool {
    &&& RENDER_SCALE_MIN_PERCENT <= v.render_scale_percent <= RENDER_SCALE_MAX_PERCENT
    &&& v.cursor_scale matches CursorScale::Fixed(n) ==> n > 0
}

proof fn values_stay_in_bounds(v: ConfigView, key: Key, value: Seq<char>)
    requires
        in_bounds(v),
    ensures
        in_bounds(with_value(v, key, value)),
{
    if key != Key::RenderScale {
        a_setting_leaves_other_keys_alone(v, key, value, Key::RenderScale);
    }
    if key != Key::CursorScale {
        a_setting_leaves_other_keys_alone(v, key, value, Key::CursorScale);
    }
}

proof fn texts_stay_in_bounds(v: ConfigView, segments: Seq<Seq<char>>, n: int)
    requires
        in_bounds(v),
    ensures
        in_bounds(with_segments(v, segments, n)),
    decreases n,
{
    if n > 0 {
        texts_stay_in_bounds(v, segments, n - 1);
        let before = with_segments(v, segments, n - 1);
        let s = segments[n - 1];
        if is_setting(s) && key_named(key_of(s)) is Some {
            values_stay_in_bounds(before, key_named(key_of(s))->0, value_in(s));
        }
    }
}

/// No text gets the render scale out of its limits, nor the scale of the cursor to zero.
pub proof fn scales_stay_in_bounds(
    profile: Option<Seq<char>>,
    file_src: Seq<char>,
    env_override: Option<Seq<char>>,
)
    ensures
        in_bounds(parsed(profile, file_src, env_override)),
{
    let base = match profile {
        Some(settings) => with_text(default_config(), settings, ';'),
        None => default_config(),
    };
    if profile is Some {
        texts_stay_in_bounds(
            default_config(),
            split(profile->0, ';'),
            split(profile->0, ';').len() as int,
        );
    }
    let filed = with_text(base, file_src, '\n');
    texts_stay_in_bounds(base, split(file_src, '\n'), split(file_src, '\n').len() as int);
    if env_override is Some {
        texts_stay_in_bounds(
            filed,
            split(env_override->0, ';'),
            split(env_override->0, ';').len() as int,
        );
    }
}

} // verus!
