//! Settings that were not understood.

use super::apply::{
    find_key, is_blank, is_setting, key_named, key_of, parse_hundredths, take_apart, value_in, Key,
    Line, RENDER_SCALE_MAX_PERCENT, RENDER_SCALE_MIN_PERCENT,
};
use super::laws::readable;
use super::scan::{lower_is, parse_number, split, split_at_each};
use crate::app_profile::AppProfile;
use crate::text::owned;
use vstd::prelude::*;

verus! {

/// Which text a setting is from.
#[derive(Clone, Copy, Debug, PartialEq, Eq, Structural)]
pub enum Source {
    Application,
    File,
    Override,
}

/// Why a setting was not understood.
#[derive(Clone, Copy, Debug, PartialEq, Eq, Structural)]
pub enum Reason {
    NoEqualsSign,
    UnknownKey,
    UnreadableValue,
}

/// A stretch of text that is neither empty nor a comment and that set nothing.
#[derive(Clone, Debug)]
pub struct Rejected {
    pub source: Source,
    /// The line it is in, counted from one; only a file has lines.
    pub line: Option<usize>,
    /// Empty where there is no equals sign.
    pub key: String,
    /// Empty where there is no equals sign.
    pub value: String,
    pub reason: Reason,
}

/// What a [`Rejected`] says.
#[verifier::ext_equal]
pub struct RejectedView {
    pub source: Source,
    pub line: Option<int>,
    pub key: Seq<char>,
    pub value: Seq<char>,
    pub reason: Reason,
}

impl View for Rejected {
    type V = RejectedView;

    open spec fn view(&self) -> RejectedView {
        RejectedView {
            source: self.source,
            line: match self.line {
                Some(n) => Some(n as int),
                None => None,
            },
            key: self.key@,
            value: self.value@,
            reason: self.reason,
        }
    }
}

/// What some [`Rejected`]s say.
pub open spec fn views(rejected: Seq<Rejected>) -> Seq<RejectedView> {
    rejected.map_values(|r: Rejected| r@)
}

/// Why a stretch of text sets nothing, unless it is empty or a comment.
pub open spec fn reason_of(segment: Seq<char>) -> Option<Reason> {
    if is_blank(segment) {
        None
    } else if !is_setting(segment) {
        Some(Reason::NoEqualsSign)
    } else {
        match key_named(key_of(segment)) {
            Some(key) => if readable(key, value_in(segment)) {
                None
            } else {
                Some(Reason::UnreadableValue)
            },
            None => Some(Reason::UnknownKey),
        }
    }
}

/// What is said of stretch `i` of a text.
pub open spec fn rejection(
    source: Source,
    segment: Seq<char>,
    i: int,
    reason: Reason,
) -> RejectedView {
    RejectedView {
        source,
        line: if source == Source::File {
            Some(i + 1)
        } else {
            None
        },
        key: if is_setting(segment) {
            key_of(segment)
        } else {
            Seq::empty()
        },
        value: if is_setting(segment) {
            value_in(segment)
        } else {
            Seq::empty()
        },
        reason,
    }
}

/// What is rejected of the first `n` stretches of a text, in their order.
pub open spec fn rejected_of(source: Source, segments: Seq<Seq<char>>, n: int) -> Seq<RejectedView>
    decreases n,
{
    if n <= 0 {
        Seq::empty()
    } else {
        let before = rejected_of(source, segments, n - 1);
        match reason_of(segments[n - 1]) {
            Some(reason) => before.push(rejection(source, segments[n - 1], n - 1, reason)),
            None => before,
        }
    }
}

/// What is rejected of a text whose stretches are separated by `sep`.
pub open spec fn rejected_in(source: Source, text: Seq<char>, sep: char) -> Seq<RejectedView> {
    rejected_of(source, split(text, sep), split(text, sep).len() as int)
}

/// What is rejected of the settings of an application, of a file and of an override, in
/// this order.
pub open spec fn all_rejected(
    profile: Option<Seq<char>>,
    file_src: Seq<char>,
    env_override: Option<Seq<char>>,
) -> Seq<RejectedView> {
    let first = match profile {
        Some(settings) => rejected_in(Source::Application, settings, ';'),
        None => Seq::empty(),
    };
    let last = match env_override {
        Some(text) => rejected_in(Source::Override, text, ';'),
        None => Seq::empty(),
    };
    first + rejected_in(Source::File, file_src, '\n') + last
}

fn is_readable(key: Key, value: &str) -> (r: bool)
    ensures
        r == readable(key, value@),
{
    match key {
        Key::Flag(_) => lower_is(value, "true") || lower_is(value, "false"),
        Key::Limit(_) => parse_number(value, 10, 0xffff_ffff).is_some(),
        Key::Count(_) => parse_number(value, 10, 0xffff_ffff).is_some(),
        Key::Place(_) => true,
        Key::ColorSpace => lower_is(value, "passthrough") || lower_is(value, "accurate"),
        Key::CursorScale => lower_is(value, "auto") || match parse_number(value, 10, 0xffff_ffff) {
            Some(n) => n > 0,
            None => false,
        },
        Key::CursorSoftware => lower_is(value, "auto") || lower_is(value, "true") || lower_is(
            value,
            "false",
        ),
        Key::DebugSkipShaders => true,
        Key::RenderScale => match parse_hundredths(value) {
            Some(p) => RENDER_SCALE_MIN_PERCENT <= p && p <= RENDER_SCALE_MAX_PERCENT,
            None => false,
        },
        Key::AdapterSpoof => lower_is(value, "none") || lower_is(value, "nvidia") || lower_is(
            value,
            "amd",
        ) || lower_is(value, "ati"),
    }
}

fn explain(source: Source, line: Option<usize>, raw: &str, i: Ghost<int>) -> (r: Option<Rejected>)
    requires
        line == (if source == Source::File {
            Some((i@ + 1) as usize)
        } else {
            None
        }),
        0 <= i@ < usize::MAX,
    ensures
        match (r, reason_of(raw@)) {
            (Some(x), Some(reason)) => x@ == rejection(source, raw@, i@, reason),
            (None, None) => true,
            _ => false,
        },
{
    match take_apart(raw) {
        Line::Blank => None,
        Line::Loose => Some(
            Rejected {
                source,
                line,
                key: String::new(),
                value: String::new(),
                reason: Reason::NoEqualsSign,
            },
        ),
        Line::Setting { key, value } => {
            let reason: Reason = match find_key(key) {
                Some(k) => if is_readable(k, value) {
                    return None;
                } else {
                    Reason::UnreadableValue
                },
                None => Reason::UnknownKey,
            };
            Some(Rejected { source, line, key: owned(key), value: owned(value), reason })
        },
    }
}

fn add_rejected(out: &mut Vec<Rejected>, source: Source, text: &str, sep: char)
    ensures
        views(final(out)@) == views(old(out)@) + rejected_in(source, text@, sep),
{
    let segments: Vec<&str> = split_at_each(text, sep);
    let ghost all = split(text@, sep);
    let mut i: usize = 0;
    assert(views(out@) =~= views(old(out)@) + rejected_of(source, all, 0));
    while i < segments.len()
        invariant
            all == split(text@, sep),
            segments@.len() == all.len(),
            forall|j: int| 0 <= j < segments@.len() ==> (#[trigger] segments@[j])@ == all[j],
            i <= all.len(),
            views(out@) == views(old(out)@) + rejected_of(source, all, i as int),
        decreases all.len() - i,
    {
        let segment: &str = segments[i];
        assert(segment@ == all[i as int]);
        let ghost before = out@;
        let line: Option<usize> = if source == Source::File {
            Some(i + 1)
        } else {
            None
        };
        match explain(source, line, segment, Ghost(i as int)) {
            Some(x) => {
                out.push(x);
                assert(views(out@) =~= views(before).push(x@));
                assert(views(out@) =~= views(old(out)@) + rejected_of(source, all, i as int + 1));
            },
            None => {},
        }
        i += 1;
    }
}

/// What [`super::parse`] did not understand: everything that is neither empty nor a comment
/// and has no equals sign, a key that is not known or a value that cannot be read for its
/// key. It is in the order of the texts.
pub fn rejected(profile: Option<&AppProfile>, file_src: &str, env_override: Option<&str>) -> (r: Vec<
    Rejected,
>)
    ensures
        views(r@) == all_rejected(
            match profile {
                Some(p) => Some(p.settings@),
                None => None,
            },
            file_src@,
            match env_override {
                Some(text) => Some(text@),
                None => None,
            },
        ),
{
    let mut out: Vec<Rejected> = Vec::new();
    assert(views(out@) =~= Seq::<RejectedView>::empty());
    if let Some(p) = profile {
        add_rejected(&mut out, Source::Application, p.settings(), ';');
    }
    add_rejected(&mut out, Source::File, file_src, '\n');
    if let Some(text) = env_override {
        add_rejected(&mut out, Source::Override, text, ';');
    }
    proof {
        let first = match profile {
            Some(p) => rejected_in(Source::Application, p.settings@, ';'),
            None => Seq::empty(),
        };
        let file = rejected_in(Source::File, file_src@, '\n');
        assert(Seq::<RejectedView>::empty() + first =~= first);
        assert(first + file + Seq::<RejectedView>::empty() =~= first + file);
    }
    out
}

} // verus!
