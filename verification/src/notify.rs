//! The toasts that tell the user what became of a screenshot.
use crate::path;
use crate::path::{FilePath, PathView};
use crate::platform::Platform;
use crate::text;
use crate::text::{chars_of, decimal, text_of};
use vstd::prelude::*;
use vstd::string::*;

verus! {

/// The name under which Windows shows the toasts. It stays the same from one
/// release to the next, so that no registration is left behind.
pub const AUMID: &'static str = "dev.shotpaste.watcher";

/// How much of an error a toast shows, in characters.
pub const ERROR_TEXT_MAX: usize = 240;

/// A message to show.
#[derive(Debug)]
pub struct Toast {
    pub title: String,
    pub body: String,
}

/// The characters of a [`Toast`].
#[verifier::ext_equal]
pub struct ToastView {
    pub title: Seq<char>,
    pub body: Seq<char>,
}

impl View for Toast {
    type V = ToastView;

    open spec fn view(&self) -> ToastView {
        ToastView { title: self.title@, body: self.body@ }
    }
}

impl DeepView for Toast {
    type V = ToastView;

    open spec fn deep_view(&self) -> ToastView {
        self@
    }
}

/// The toast for one screenshot that reached the clipboard.
pub open spec fn single_toast(p: PathView) -> ToastView {
    ToastView {
        title: "Screenshot copied"@,
        body: "Pushed image + file + path to clipboard\n"@ + path::label(p),
    }
}

/// The toast for `n` screenshots that reached the clipboard in one burst.
pub open spec fn burst_toast(n: nat) -> ToastView {
    ToastView {
        title: "Screenshots copied"@,
        body: "Pushed "@ + text::decimal_text(n) + " screenshots to the clipboard"@,
    }
}

/// The toast for a screenshot that did not reach the clipboard.
pub open spec fn error_toast(p: PathView, err: Seq<char>) -> ToastView {
    ToastView {
        title: "shotpaste — push failed"@,
        body: path::label(p) + "\n"@ + truncated(err, ERROR_TEXT_MAX as nat),
    }
}

/// `s`, or as much of it as fits in `max` characters with an ellipsis at the end.
pub open spec fn truncated(s: Seq<char>, max: nat) -> Seq<char> {
    if s.len() <= max {
        s
    } else {
        s.take(max - 1).push('…')
    }
}

/// The toast for one screenshot that reached the clipboard.
pub fn success_single(path: &FilePath) -> (r: Toast)
    ensures
        r@ == single_toast(path@),
{
    Toast {
        title: "Screenshot copied".to_owned(),
        body: "Pushed image + file + path to clipboard\n".to_owned().concat(path.label().as_str()),
    }
}

/// The toast for `n` screenshots that reached the clipboard in one burst.
pub fn success_burst(n: usize) -> (r: Toast)
    ensures
        r@ == burst_toast(n as nat),
{
    Toast {
        title: "Screenshots copied".to_owned(),
        body: "Pushed ".to_owned().concat(decimal(n as u64).as_str()).concat(
            " screenshots to the clipboard",
        ),
    }
}

/// The toast for a screenshot that did not reach the clipboard.
pub fn error(path: &FilePath, err: &str) -> (r: Toast)
    ensures
        r@ == error_toast(path@, err@),
{
    Toast {
        title: "shotpaste — push failed".to_owned(),
        body: path.label().concat("\n").concat(truncate(err, ERROR_TEXT_MAX).as_str()),
    }
}

/// Shortens `s` to at most `max` characters.
pub fn truncate(s: &str, max: usize) -> (r: String)
    requires
        max > 0 || s@.len() == 0,
    ensures
        r@ == truncated(s@, max as nat),
{
    let chars = chars_of(s);
    if chars.len() <= max {
        return s.to_owned();
    }
    assert(chars@.subrange(0, max - 1) =~= s@.take(max - 1));
    let mut out = text_of(&chars, 0, max - 1);
    out.push('…');
    out
}

/// Whether the one-time setup for toasts has run.
#[derive(Debug)]
pub struct ToastSetup {
    pub done: bool,
}

impl ToastSetup {
    /// Setup that has not run yet.
    pub fn new() -> (r: ToastSetup)
        ensures
            !r.done,
    {
        ToastSetup { done: false }
    }

    /// Called before each toast; answers whether to register [`AUMID`] now.
    /// That happens on Windows, before the first toast only.
    pub fn ensure_init(&mut self, platform: Platform) -> (register: bool)
        ensures
            register == (!old(self).done && platform == Platform::Windows),
            final(self).done,
    {
        let first = !self.done;
        self.done = true;
        first && match platform {
            Platform::Windows => true,
            _ => false,
        }
    }
}

/// The sender to give for a toast: [`AUMID`] on Windows, none elsewhere.
pub fn app_id(platform: Platform) -> (r: Option<String>)
    ensures
        r.deep_view() == (if platform == Platform::Windows {
            Some(AUMID@)
        } else {
            None
        }),
{
    match platform {
        Platform::Windows => Some(AUMID.to_owned()),
        _ => None,
    }
}

/// A shortened text has at most `max` characters, and one that fits is left alone.
pub proof fn law_truncated_fits(s: Seq<char>, max: nat)
    requires
        max > 0,
    ensures
        truncated(s, max).len() <= max,
        s.len() <= max ==> truncated(s, max) == s,
        truncated(truncated(s, max), max) == truncated(s, max),
        s.len() > max ==> truncated(s, max).drop_last() == s.take(max - 1),
{
    if s.len() > max {
        assert(truncated(s, max).drop_last() =~= s.take(max - 1));
    }
}

/// Toasts tell what happened in fixed words, with the file's name, the number
/// of pushes or the reason in them; of a reason as much as fits.
pub proof fn law_toasts_tell_what_happened(p: PathView, n: nat, err: Seq<char>)
    ensures
        single_toast(p).title == "Screenshot copied"@,
        single_toast(p).body == "Pushed image + file + path to clipboard\n"@ + path::label(p),
        burst_toast(n).title == "Screenshots copied"@,
        burst_toast(n).body == "Pushed "@ + text::decimal_text(n)
            + " screenshots to the clipboard"@,
        error_toast(p, err).title == "shotpaste — push failed"@,
        err.len() <= 240 ==> error_toast(p, err).body == path::label(p) + "\n"@ + err,
        err.len() > 240 ==> error_toast(p, err).body == path::label(p) + "\n"@ + err.take(
            239,
        ).push('…'),
{
}

/// A text that is too long loses its end for an ellipsis, and nothing else.
pub proof fn law_truncated_text_ends_in_an_ellipsis(s: Seq<char>, max: nat)
    requires
        0 < max < s.len(),
    ensures
        truncated(s, max).len() == max,
        truncated(s, max).last() == '…',
        forall|i: int| 0 <= i < max - 1 ==> #[trigger] truncated(s, max)[i] == s[i],
{
}

} // verus!
