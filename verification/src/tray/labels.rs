//! The texts that the tray shows.
use crate::path;
use crate::path::{FilePath, PathView};
use crate::text;
use crate::text::{chars_of, decimal, strip_prefix, text_of};
use vstd::prelude::*;
use vstd::string::*;
use vstd::utf8::*;

verus! {

/// A path label with more bytes than this is shortened in the middle.
pub const LABEL_MAX_BYTES: usize = 48;

/// How many characters a shortened path keeps at either end.
pub const LABEL_KEEP: usize = 22;

/// Nanoseconds in a second.
pub const SECOND: u64 = 1_000_000_000;

/// The whole seconds from `at` to `now`, none if the clock went back.
pub open spec fn seconds_since(at: u64, now: u64) -> nat {
    if now >= at {
        ((now - at) / SECOND as int) as nat
    } else {
        0
    }
}

/// A number of seconds in its largest unit.
pub open spec fn age_text(secs: nat) -> Seq<char> {
    if secs < 60 {
        text::decimal_text(secs) + "s ago"@
    } else if secs < 3600 {
        text::decimal_text(secs / 60) + "m ago"@
    } else {
        text::decimal_text(secs / 3600) + "h ago"@
    }
}

/// The menu line on the last capture.
pub open spec fn last_capture_text(at: Option<u64>, now: u64) -> Seq<char> {
    match at {
        Some(at) => "Last capture: "@ + age_text(seconds_since(at, now)),
        None => "Last capture: never"@,
    }
}

/// The menu line on the pushes of this session.
pub open spec fn pushes_text(n: nat) -> Seq<char> {
    "Pushes this session: "@ + text::decimal_text(n)
}

/// The menu line on the last capture, `at` and `now` in nanoseconds since the epoch.
pub fn format_last_capture(at: Option<u64>, now: u64) -> (r: String)
    ensures
        r@ == last_capture_text(at, now),
{
    match at {
        Some(at) => {
            let secs: u64 = if now >= at {
                (now - at) / SECOND
            } else {
                0
            };
            let age = if secs < 60 {
                decimal(secs).concat("s ago")
            } else if secs < 3600 {
                decimal(secs / 60).concat("m ago")
            } else {
                decimal(secs / 3600).concat("h ago")
            };
            "Last capture: ".to_owned().concat(age.as_str())
        },
        None => "Last capture: never".to_owned(),
    }
}

/// The menu line on the pushes of this session.
pub fn format_pushes(n: usize) -> (r: String)
    ensures
        r@ == pushes_text(n as nat),
{
    "Pushes this session: ".to_owned().concat(decimal(n as u64).as_str())
}

/// `s` with `~` for the home folder that it starts with.
pub open spec fn collapsed(s: Seq<char>, home: Option<Seq<char>>) -> Seq<char> {
    match home {
        Some(home) => match text::after_prefix(s, home) {
            Some(rest) => "~"@ + rest,
            None => s,
        },
        None => s,
    }
}

/// The first `n` characters of `s`, or all of them.
pub open spec fn head(s: Seq<char>, n: int) -> Seq<char> {
    if s.len() <= n {
        s
    } else {
        s.take(n)
    }
}

/// The last `n` characters of `s`, or all of them.
pub open spec fn tail(s: Seq<char>, n: int) -> Seq<char> {
    if s.len() <= n {
        s
    } else {
        s.skip(s.len() - n)
    }
}

/// `s`, or its two ends with an ellipsis between if it is long.
pub open spec fn shortened(s: Seq<char>) -> Seq<char> {
    if encode_utf8(s).len() > LABEL_MAX_BYTES {
        head(s, LABEL_KEEP as int) + "…"@ + tail(s, LABEL_KEEP as int)
    } else {
        s
    }
}

/// How the tray names `p` to a user whose home folder is `home`.
pub open spec fn abbreviated(p: PathView, home: Option<PathView>) -> Seq<char> {
    shortened(
        collapsed(
            path::shown(p),
            match home {
                Some(h) => Some(path::shown(h)),
                None => None,
            },
        ),
    )
}

/// How the tray names `p` to a user whose home folder is `home`.
pub fn abbreviate_path(p: &FilePath, home: &Option<FilePath>) -> (r: String)
    ensures
        r@ == abbreviated(p@, home.deep_view()),
{
    let raw = p.display();
    let collapsed_text = match home {
        Some(home) => match strip_prefix(raw.as_str(), home.display().as_str()) {
            Some(rest) => "~".to_owned().concat(rest.as_str()),
            None => raw,
        },
        None => raw,
    };
    if collapsed_text.as_str().as_bytes().len() > LABEL_MAX_BYTES {
        let chars = chars_of(collapsed_text.as_str());
        let n: usize = chars.len();
        let first: usize = if n <= LABEL_KEEP {
            n
        } else {
            LABEL_KEEP
        };
        proof {
            assert(chars@.subrange(0, first as int) =~= head(chars@, LABEL_KEEP as int));
            assert(chars@.subrange(n - first, n as int) =~= tail(chars@, LABEL_KEEP as int));
        }
        text_of(&chars, 0, first).concat("…").concat(text_of(&chars, n - first, n).as_str())
    } else {
        collapsed_text
    }
}

/// The first line of the menu.
pub open spec fn header_text(dirs: Seq<PathView>, home: Option<PathView>) -> Seq<char> {
    if dirs.len() == 0 {
        "Watching: (none)"@
    } else if dirs.len() == 1 {
        "Watching: "@ + abbreviated(dirs[0], home)
    } else {
        "Watching: "@ + text::decimal_text(dirs.len()) + " folders"@
    }
}

/// The first line of the menu.
pub fn watching_header(dirs: &Vec<FilePath>, home: &Option<FilePath>) -> (r: String)
    ensures
        r@ == header_text(dirs.deep_view(), home.deep_view()),
{
    let n: usize = dirs.len();
    if n == 0 {
        "Watching: (none)".to_owned()
    } else if n == 1 {
        "Watching: ".to_owned().concat(abbreviate_path(&dirs[0], home).as_str())
    } else {
        "Watching: ".to_owned().concat(decimal(n as u64).as_str()).concat(" folders")
    }
}

/// One bulleted line for each of `dirs`.
pub open spec fn folder_list(dirs: Seq<PathView>, home: Option<PathView>) -> Seq<char>
    decreases dirs.len(),
{
    if dirs.len() == 0 {
        Seq::empty()
    } else if dirs.len() == 1 {
        "  • "@ + abbreviated(dirs[0], home)
    } else {
        folder_list(dirs.drop_last(), home) + "\n"@ + ("  • "@ + abbreviated(dirs.last(), home))
    }
}

/// What the tray icon tells when pointed at.
pub open spec fn tooltip_text(
    dirs: Seq<PathView>,
    home: Option<PathView>,
    version: Seq<char>,
) -> Seq<char> {
    let program = "shotpaste "@ + version;
    if dirs.len() == 0 {
        program + " — no folders watched"@
    } else if dirs.len() == 1 {
        program + " — watching "@ + abbreviated(dirs[0], home)
    } else {
        program + " — watching:\n"@ + folder_list(dirs, home)
    }
}

/// What the tray icon tells when pointed at.
pub fn build_tooltip(dirs: &Vec<FilePath>, home: &Option<FilePath>, version: &str) -> (r: String)
    ensures
        r@ == tooltip_text(dirs.deep_view(), home.deep_view(), version@),
{
    let program = "shotpaste ".to_owned().concat(version);
    let n: usize = dirs.len();
    if n == 0 {
        program.concat(" — no folders watched")
    } else if n == 1 {
        program.concat(" — watching ").concat(abbreviate_path(&dirs[0], home).as_str())
    } else {
        let ghost all = dirs.deep_view();
        let mut list = "  • ".to_owned().concat(abbreviate_path(&dirs[0], home).as_str());
        assert(all.take(1)[0] == all[0]);
        let mut i: usize = 1;
        while i < n
            invariant
                1 <= i <= n,
                n == dirs@.len(),
                all == dirs.deep_view(),
                list@ == folder_list(all.take(i as int), home.deep_view()),
            decreases n - i,
        {
            assert(all.take(i + 1).drop_last() =~= all.take(i as int));
            let line = "  • ".to_owned().concat(abbreviate_path(&dirs[i], home).as_str());
            list = list.concat("\n").concat(line.as_str());
            i += 1;
        }
        assert(all.take(n as int) =~= all);
        program.concat(" — watching:\n").concat(list.as_str())
    }
}

/// The age of the last capture is told in whole seconds under a minute, in
/// whole minutes under an hour and in whole hours from then on; a clock that
/// went back counts as no time.
pub proof fn law_age_is_told_in_its_largest_unit(at: u64, now: u64)
    ensures
        last_capture_text(None, now) == "Last capture: never"@,
        now < at ==> last_capture_text(Some(at), now) == "Last capture: "@ + (text::decimal_text(0)
            + "s ago"@),
        at <= now ==> {
            let secs = (now - at) / 1_000_000_000;
            &&& secs < 60 ==> last_capture_text(Some(at), now) == "Last capture: "@ + (
            text::decimal_text(secs as nat) + "s ago"@)
            &&& 60 <= secs < 3600 ==> last_capture_text(Some(at), now) == "Last capture: "@ + (
            text::decimal_text((secs / 60) as nat) + "m ago"@)
            &&& secs >= 3600 ==> last_capture_text(Some(at), now) == "Last capture: "@ + (
            text::decimal_text((secs / 3600) as nat) + "h ago"@)
        },
{
}

/// Every push of the session counts.
pub proof fn law_pushes_are_told_by_number(n: nat)
    ensures
        pushes_text(n) == "Pushes this session: "@ + text::decimal_text(n),
{
}

/// A path below home is named from `~` on, any other in full.
pub proof fn law_home_is_named_by_a_tilde(rest: Seq<char>, s: Seq<char>, home: Seq<char>)
    ensures
        collapsed(home + rest, Some(home)) == "~"@ + rest,
        !home.is_prefix_of(s) ==> collapsed(s, Some(home)) == s,
        collapsed(s, None) == s,
{
    text::law_prefix_and_rest_make_up_the_text(home + rest, home, rest);
}

/// A name of at most 48 bytes is shown in full. A longer one keeps its first
/// and its last 22 characters, or all where it has fewer, with an ellipsis
/// between them.
pub proof fn law_long_names_lose_their_middle(s: Seq<char>)
    ensures
        encode_utf8(s).len() <= 48 ==> shortened(s) == s,
        encode_utf8(s).len() > 48 && s.len() >= 22 ==> shortened(s) == s.take(22) + "…"@ + s.skip(
            s.len() - 22,
        ),
        encode_utf8(s).len() > 48 && s.len() < 22 ==> shortened(s) == s + "…"@ + s,
{
    if s.len() == 22 {
        assert(s.take(22) =~= s);
        assert(s.skip(0) =~= s);
    }
}

/// The tray names a path by its text, from home on and without its middle
/// where it is long.
pub proof fn law_paths_are_named_by_their_text(p: PathView, home: PathView)
    ensures
        abbreviated(p, None) == shortened(path::shown(p)),
        abbreviated(p, Some(home)) == shortened(
            collapsed(path::shown(p), Some(path::shown(home))),
        ),
{
}

/// The header and the tooltip tell of no folder, name a single one, and count
/// or list several.
pub proof fn law_folders_are_named_or_counted(
    dirs: Seq<PathView>,
    home: Option<PathView>,
    version: Seq<char>,
)
    ensures
        dirs.len() == 0 ==> {
            &&& header_text(dirs, home) == "Watching: (none)"@
            &&& tooltip_text(dirs, home, version) == "shotpaste "@ + version
                + " — no folders watched"@
        },
        dirs.len() == 1 ==> {
            &&& header_text(dirs, home) == "Watching: "@ + abbreviated(dirs[0], home)
            &&& tooltip_text(dirs, home, version) == "shotpaste "@ + version + " — watching "@
                + abbreviated(dirs[0], home)
        },
        dirs.len() > 1 ==> {
            &&& header_text(dirs, home) == "Watching: "@ + text::decimal_text(dirs.len())
                + " folders"@
            &&& tooltip_text(dirs, home, version) == "shotpaste "@ + version + " — watching:\n"@
                + folder_list(dirs, home)
        },
{
}

/// The list has a line for each folder, in order.
pub proof fn law_list_has_a_line_for_each_folder(
    dirs: Seq<PathView>,
    p: PathView,
    home: Option<PathView>,
)
    ensures
        folder_list(seq![p], home) == "  • "@ + abbreviated(p, home),
        dirs.len() > 0 ==> folder_list(dirs.push(p), home) == folder_list(dirs, home) + "\n"@ + (
        "  • "@ + abbreviated(p, home)),
{
    assert(dirs.push(p).drop_last() =~= dirs);
}

} // verus!
