//! File-system events, and which of them announce a new screenshot.
use crate::path;
use crate::path::{FilePath, PathView};
use crate::platform::Platform;
use vstd::prelude::*;

verus! {

/// What was created.
#[derive(Clone, Copy, Debug, PartialEq, Eq, Structural)]
pub enum CreateKind {
    Any,
    File,
    Folder,
    Other,
}

/// Which side of a renaming is told.
#[derive(Clone, Copy, Debug, PartialEq, Eq, Structural)]
pub enum RenameMode {
    Any,
    To,
    From,
    Both,
    Other,
}

/// What was modified.
#[derive(Clone, Copy, Debug, PartialEq, Eq, Structural)]
pub enum ModifyKind {
    Any,
    Data,
    Metadata,
    Name(RenameMode),
    Other,
}

/// What happened to a file.
#[derive(Clone, Copy, Debug, PartialEq, Eq, Structural)]
pub enum EventKind {
    Any,
    Access,
    Create(CreateKind),
    Modify(ModifyKind),
    Remove,
    Other,
}

/// Something that happened to some files.
#[derive(Debug)]
pub struct FileEvent {
    pub kind: EventKind,
    pub paths: Vec<FilePath>,
}

/// The contents of a [`FileEvent`].
#[verifier::ext_equal]
pub struct FileEventView {
    pub kind: EventKind,
    pub paths: Seq<PathView>,
}

impl DeepView for FileEvent {
    type V = FileEventView;

    open spec fn deep_view(&self) -> FileEventView {
        FileEventView { kind: self.kind, paths: self.paths.deep_view() }
    }
}

/// Whether an event of this kind announces a new file.
///
/// Screenshot tools on Linux write a temporary file and rename it, so there
/// the new name counts too. On other systems renamings come for many reasons
/// and new screenshots always come as creations.
pub open spec fn announces_file(kind: EventKind, platform: Platform) -> bool {
    ||| kind == EventKind::Create(CreateKind::File)
    ||| kind == EventKind::Create(CreateKind::Any)
    ||| platform == Platform::Linux && kind == EventKind::Modify(ModifyKind::Name(RenameMode::To))
    ||| platform == Platform::Linux && kind == EventKind::Modify(ModifyKind::Name(RenameMode::Both))
}

/// Whether an event of this kind announces a new file.
pub fn is_new_file_event(kind: &EventKind, platform: Platform) -> (r: bool)
    ensures
        r == announces_file(*kind, platform),
{
    match kind {
        EventKind::Create(CreateKind::File) => true,
        EventKind::Create(CreateKind::Any) => true,
        EventKind::Modify(ModifyKind::Name(RenameMode::To)) => platform == Platform::Linux,
        EventKind::Modify(ModifyKind::Name(RenameMode::Both)) => platform == Platform::Linux,
        _ => false,
    }
}

/// The PNG files among `paths`, in order.
pub open spec fn png_paths(paths: Seq<PathView>) -> Seq<PathView>
    decreases paths.len(),
{
    if paths.len() == 0 {
        Seq::empty()
    } else if path::has_extension(paths.last(), "png"@) {
        png_paths(paths.drop_last()).push(paths.last())
    } else {
        png_paths(paths.drop_last())
    }
}

/// The screenshots that `events` announce, in order.
pub open spec fn announced(events: Seq<FileEventView>, platform: Platform) -> Seq<PathView>
    decreases events.len(),
{
    if events.len() == 0 {
        Seq::empty()
    } else if announces_file(events.last().kind, platform) {
        announced(events.drop_last(), platform) + png_paths(events.last().paths)
    } else {
        announced(events.drop_last(), platform)
    }
}

/// The screenshots that `events` announce, in order.
pub fn screenshots(events: &Vec<FileEvent>, platform: Platform) -> (r: Vec<FilePath>)
    ensures
        r.deep_view() == announced(events.deep_view(), platform),
{
    let mut out: Vec<FilePath> = Vec::new();
    let mut i: usize = 0;
    let ghost all = events.deep_view();
    assert(out.deep_view() =~= announced(all.take(0), platform));
    while i < events.len()
        invariant
            0 <= i <= events@.len(),
            all == events.deep_view(),
            out.deep_view() == announced(all.take(i as int), platform),
        decreases events@.len() - i,
    {
        assert(all.take(i + 1).drop_last() =~= all.take(i as int));
        let event = &events[i];
        if is_new_file_event(&event.kind, platform) {
            let ghost before = out.deep_view();
            let ghost paths = event.paths.deep_view();
            let mut j: usize = 0;
            assert(paths.take(0) =~= Seq::<PathView>::empty());
            assert(before + png_paths(paths.take(0)) =~= before);
            while j < event.paths.len()
                invariant
                    0 <= j <= event.paths@.len(),
                    paths == event.paths.deep_view(),
                    out.deep_view() == before + png_paths(paths.take(j as int)),
                decreases event.paths@.len() - j,
            {
                assert(paths.take(j + 1).drop_last() =~= paths.take(j as int));
                if event.paths[j].extension_is("png") {
                    let ghost sofar = out.deep_view();
                    out.push(event.paths[j].duplicate());
                    assert(out.deep_view() =~= sofar.push(paths[j as int]));
                    assert(sofar.push(paths[j as int]) =~= before + png_paths(
                        paths.take(j as int),
                    ).push(paths[j as int]));
                }
                j += 1;
            }
            assert(paths.take(j as int) =~= paths);
        }
        i += 1;
    }
    assert(all.take(i as int) =~= all);
    out
}

proof fn lemma_png_paths(paths: Seq<PathView>, p: PathView)
    ensures
        png_paths(paths).contains(p) <==> paths.contains(p) && path::has_extension(p, "png"@),
    decreases paths.len(),
{
    if paths.len() > 0 {
        lemma_png_paths(paths.drop_last(), p);
        let front = paths.drop_last();
        if png_paths(paths).contains(p) && !png_paths(front).contains(p) {
            assert(p == paths.last());
            assert(paths[paths.len() - 1] == p);
        }
        if png_paths(front).contains(p) {
            let i = choose|i: int| 0 <= i < png_paths(front).len() && png_paths(front)[i] == p;
            assert(png_paths(paths)[i] == p);
        }
        if front.contains(p) {
            let i = choose|i: int| 0 <= i < front.len() && front[i] == p;
            assert(paths[i] == p);
        }
        if paths.contains(p) && !front.contains(p) {
            let i = choose|i: int| 0 <= i < paths.len() && paths[i] == p;
            assert(i == paths.len() - 1) by {
                if i < paths.len() - 1 {
                    assert(front[i] == p);
                }
            }
            if path::has_extension(p, "png"@) {
                assert(png_paths(paths)[png_paths(paths).len() - 1] == p);
            }
        }
    }
}

/// Exactly the PNG files of events that announce a new file are screenshots.
pub proof fn law_screenshots_are_new_pngs(
    events: Seq<FileEventView>,
    platform: Platform,
    p: PathView,
)
    ensures
        announced(events, platform).contains(p) <==> exists|i: int|
            #![trigger events[i]]
            0 <= i < events.len() && announces_file(events[i].kind, platform)
                && events[i].paths.contains(p) && path::has_extension(p, "png"@),
    decreases events.len(),
{
    if events.len() > 0 {
        let front = events.drop_last();
        let last = events.last();
        law_screenshots_are_new_pngs(front, platform, p);
        lemma_png_paths(last.paths, p);
        let a = announced(front, platform);
        let b = png_paths(last.paths);
        if announces_file(last.kind, platform) {
            if a.contains(p) {
                let k = choose|k: int| 0 <= k < a.len() && a[k] == p;
                assert((a + b)[k] == p);
            }
            if b.contains(p) {
                let k = choose|k: int| 0 <= k < b.len() && b[k] == p;
                assert((a + b)[a.len() + k] == p);
                assert(events[events.len() - 1] == last);
            }
            if (a + b).contains(p) && !a.contains(p) {
                let k = choose|k: int| 0 <= k < (a + b).len() && (a + b)[k] == p;
                assert(k >= a.len());
                assert(b[k - a.len()] == p);
            }
        }
        if a.contains(p) {
            let i = choose|i: int|
                #![trigger front[i]]
                0 <= i < front.len() && announces_file(front[i].kind, platform)
                    && front[i].paths.contains(p) && path::has_extension(p, "png"@);
            assert(events[i] == front[i]);
        }
        if exists|i: int|
            #![trigger events[i]]
            0 <= i < events.len() && announces_file(events[i].kind, platform)
                && events[i].paths.contains(p) && path::has_extension(p, "png"@) {
            let i = choose|i: int|
                #![trigger events[i]]
                0 <= i < events.len() && announces_file(events[i].kind, platform)
                    && events[i].paths.contains(p) && path::has_extension(p, "png"@);
            if i < events.len() - 1 {
                assert(front[i] == events[i]);
            }
        }
    }
}

/// A new file is announced by its creation, and on Linux also by its new name
/// after a renaming; nothing else announces one.
pub proof fn law_creations_announce_files(kind: EventKind, platform: Platform)
    ensures
        announces_file(kind, platform) <==> (match kind {
            EventKind::Create(CreateKind::Any) => true,
            EventKind::Create(CreateKind::File) => true,
            EventKind::Create(CreateKind::Folder) => false,
            EventKind::Create(CreateKind::Other) => false,
            EventKind::Modify(ModifyKind::Name(RenameMode::To)) => platform == Platform::Linux,
            EventKind::Modify(ModifyKind::Name(RenameMode::Both)) => platform == Platform::Linux,
            EventKind::Modify(_) => false,
            EventKind::Any => false,
            EventKind::Access => false,
            EventKind::Remove => false,
            EventKind::Other => false,
        }),
{
}

/// Of the paths of an event all PNG files count, in their order, as often as
/// they come up.
pub proof fn law_pngs_keep_their_order(a: Seq<PathView>, b: Seq<PathView>, p: PathView)
    ensures
        png_paths(a + b) == png_paths(a) + png_paths(b),
        path::has_extension(p, "png"@) ==> png_paths(seq![p]) == seq![p],
        !path::has_extension(p, "png"@) ==> png_paths(seq![p]) == Seq::<PathView>::empty(),
    decreases b.len(),
{
    reveal_with_fuel(png_paths, 2);
    assert(seq![p].drop_last() =~= Seq::empty());
    if b.len() == 0 {
        assert(a + b =~= a);
        assert(png_paths(a) + png_paths(b) =~= png_paths(a));
    } else {
        law_pngs_keep_their_order(a, b.drop_last(), p);
        assert((a + b).drop_last() =~= a + b.drop_last());
        assert(png_paths(a + b) =~= png_paths(a) + png_paths(b));
    }
}

/// Two batches of events announce the screenshots of the first and then those
/// of the second, and a single event announces its PNG files if it is of a
/// kind that announces files.
pub proof fn law_batches_are_taken_in_order(
    a: Seq<FileEventView>,
    b: Seq<FileEventView>,
    e: FileEventView,
    platform: Platform,
)
    ensures
        announced(a + b, platform) == announced(a, platform) + announced(b, platform),
        announces_file(e.kind, platform) ==> announced(seq![e], platform) == png_paths(e.paths),
        !announces_file(e.kind, platform) ==> announced(seq![e], platform) == Seq::<
            PathView,
        >::empty(),
    decreases b.len(),
{
    reveal_with_fuel(announced, 2);
    assert(seq![e].drop_last() =~= Seq::empty());
    assert(Seq::<PathView>::empty() + png_paths(e.paths) =~= png_paths(e.paths));
    if b.len() == 0 {
        assert(a + b =~= a);
        assert(announced(a, platform) + announced(b, platform) =~= announced(a, platform));
    } else {
        law_batches_are_taken_in_order(a, b.drop_last(), e, platform);
        assert((a + b).drop_last() =~= a + b.drop_last());
        assert(announced(a + b, platform) =~= announced(a, platform) + announced(b, platform));
    }
}

} // verus!
