//! File-system paths as the rules read them.
use crate::platform::Platform;
use crate::text;
use crate::text::{from_utf8, from_utf8_lossy};
use vstd::prelude::*;
use vstd::string::*;
use vstd::utf8::*;

verus! {

/// A path: the bytes that the system knows it by, the components that the
/// system reads in it, and the name of the file or folder it leads to.
///
/// Two paths are the same when their components are: `a/b`, `a//b` and `a/b/`
/// are one path written in three ways.
#[derive(Debug)]
pub struct FilePath {
    pub bytes: Vec<u8>,
    pub parts: Vec<Vec<u8>>,
    pub name: Option<Vec<u8>>,
    /// Whether the system writes paths in units of 16 bits, as Windows does.
    /// Half of a surrogate pair is then three bytes here.
    pub wide: bool,
}

/// The contents of a [`FilePath`].
#[verifier::ext_equal]
pub struct PathView {
    pub bytes: Seq<u8>,
    pub parts: Seq<Seq<u8>>,
    pub name: Option<Seq<u8>>,
    pub wide: bool,
}

impl View for FilePath {
    type V = PathView;

    open spec fn view(&self) -> PathView {
        PathView {
            bytes: self.bytes@,
            parts: self.parts.deep_view(),
            name: self.name.deep_view(),
            wide: self.wide,
        }
    }
}

impl DeepView for FilePath {
    type V = PathView;

    open spec fn deep_view(&self) -> PathView {
        self@
    }
}

/// Whether `a` and `b` are the same path.
pub open spec fn same_path(a: PathView, b: PathView) -> bool {
    a.parts == b.parts
}

/// Whether the paths with the components `a` and `b` end in the same name.
pub open spec fn same_last_part(a: Seq<Seq<u8>>, b: Seq<Seq<u8>>) -> bool {
    a.len() > 0 && b.len() > 0 && a.last() == b.last()
}

/// Whether the name of `p`, if it has one, is its last component.
pub open spec fn named_by_last_part(p: PathView) -> bool {
    p.name matches Some(name) ==> p.parts.len() > 0 && p.parts.last() == name
}

/// Whether `paths` holds the path `p`, in any way of writing it.
pub open spec fn has_path(paths: Seq<PathView>, p: PathView) -> bool {
    exists|i: int| 0 <= i < paths.len() && same_path(#[trigger] paths[i], p)
}

/// Whether no path occurs twice in `paths`.
pub open spec fn distinct_paths(paths: Seq<PathView>) -> bool {
    forall|i: int, j: int|
        0 <= i < j < paths.len() ==> !same_path(#[trigger] paths[i], #[trigger] paths[j])
}

/// Whether `bytes` begin with half of a surrogate pair.
pub open spec fn starts_with_half(bytes: Seq<u8>) -> bool {
    bytes.len() >= 3 && bytes[0] == 0xedu8 && 0xa0u8 <= bytes[1] <= 0xbfu8 && 0x80u8 <= bytes[2]
        <= 0xbfu8
}

/// `bytes` with the replacement character for each half of a surrogate pair.
pub open spec fn halves_replaced(bytes: Seq<u8>) -> Seq<u8>
    decreases bytes.len(),
{
    if bytes.len() == 0 {
        Seq::empty()
    } else if starts_with_half(bytes) {
        seq![0xefu8, 0xbfu8, 0xbdu8] + halves_replaced(bytes.skip(3))
    } else {
        seq![bytes[0]] + halves_replaced(bytes.skip(1))
    }
}

/// The text that shows `bytes` of a path to a reader: their own, if they are
/// valid UTF-8, and else one with replacement characters.
pub open spec fn shown_bytes(bytes: Seq<u8>, wide: bool) -> Seq<char> {
    if valid_utf8(bytes) {
        decode_utf8(bytes)
    } else if wide {
        text::lossy_text(halves_replaced(bytes))
    } else {
        text::lossy_text(bytes)
    }
}

/// The text that shows `p` to a reader.
pub open spec fn shown(p: PathView) -> Seq<char> {
    shown_bytes(p.bytes, p.wide)
}

/// The name to show for `p`: that of the file or folder, or the whole path if it has none.
pub open spec fn label(p: PathView) -> Seq<char> {
    match p.name {
        Some(name) => shown_bytes(name, p.wide),
        None => shown(p),
    }
}

/// The text of `p`, if it is valid UTF-8.
pub open spec fn path_text(p: PathView) -> Option<Seq<char>> {
    if valid_utf8(p.bytes) {
        Some(decode_utf8(p.bytes))
    } else {
        None
    }
}

/// Whether `bytes` are a drive of Windows and nothing else, such as `C:`.
pub open spec fn is_drive(bytes: Seq<u8>, platform: Platform) -> bool {
    &&& platform == Platform::Windows
    &&& bytes.len() == 2
    &&& 0x41u8 <= bytes[0] <= 0x5au8 || 0x61u8 <= bytes[0] <= 0x7au8
    &&& bytes[1] == 0x3au8
}

/// The path of `name` in the folder `p`. A drive alone stands for the folder
/// that it is at, and takes no separator.
pub open spec fn joined(p: PathView, name: Seq<char>, platform: Platform) -> PathView {
    let tail = encode_utf8(name);
    PathView {
        bytes: if p.bytes.len() == 0 || platform.spec_is_separator(p.bytes.last()) || is_drive(
            p.bytes,
            platform,
        ) {
            p.bytes + tail
        } else {
            p.bytes.push(platform.spec_separator()) + tail
        },
        parts: p.parts.push(tail),
        name: Some(tail),
        wide: p.wide,
    }
}

/// The folder that the program runs in.
pub open spec fn current_dir() -> PathView {
    PathView { bytes: seq![0x2eu8], parts: seq![seq![0x2eu8]], name: None, wide: false }
}

/// The index of the last `.` in `name`, or -1.
pub open spec fn last_dot(name: Seq<u8>) -> int
    decreases name.len(),
{
    if name.len() == 0 {
        -1
    } else if name.last() == 0x2eu8 {
        name.len() - 1
    } else {
        last_dot(name.drop_last())
    }
}

/// The extension of the file name `name`: what follows its last `.`, unless
/// there is none or it is the first character.
pub open spec fn extension_of(name: Seq<u8>) -> Option<Seq<u8>> {
    if last_dot(name) <= 0 {
        None
    } else {
        Some(name.skip(last_dot(name) + 1))
    }
}

/// Whether `p` names a file with the extension `ext`.
pub open spec fn has_extension(p: PathView, ext: Seq<char>) -> bool {
    match p.name {
        Some(name) => extension_of(name) == Some(encode_utf8(ext)),
        None => false,
    }
}

fn copy_bytes(v: &Vec<u8>) -> (r: Vec<u8>)
    ensures
        r@ == v@,
{
    let r = v.clone();
    assert(r@ =~= v@);
    r
}

fn same_bytes(a: &Vec<u8>, b: &Vec<u8>) -> (r: bool)
    ensures
        r == (a@ == b@),
{
    if a.len() != b.len() {
        return false;
    }
    let mut i: usize = 0;
    while i < a.len()
        invariant
            0 <= i <= a@.len(),
            a@.len() == b@.len(),
            forall|j: int| 0 <= j < i ==> a@[j] == b@[j],
        decreases a@.len() - i,
    {
        if a[i] != b[i] {
            return false;
        }
        i += 1;
    }
    assert(a@ =~= b@);
    true
}

fn append_bytes(to: &mut Vec<u8>, more: &[u8])
    ensures
        final(to)@ == old(to)@ + more@,
{
    let mut i: usize = 0;
    while i < more.len()
        invariant
            0 <= i <= more@.len(),
            to@ == old(to)@ + more@.take(i as int),
        decreases more@.len() - i,
    {
        to.push(more[i]);
        i += 1;
        assert(more@.take(i as int) =~= more@.take(i - 1).push(more@[i - 1]));
    }
    assert(more@.take(i as int) =~= more@);
}

fn replace_halves(bytes: &Vec<u8>) -> (r: Vec<u8>)
    ensures
        r@ == halves_replaced(bytes@),
{
    let mut out: Vec<u8> = Vec::new();
    let n: usize = bytes.len();
    let mut i: usize = 0;
    assert(bytes@.skip(0) =~= bytes@);
    assert(out@ + halves_replaced(bytes@) =~= halves_replaced(bytes@));
    while i < n
        invariant
            0 <= i <= n,
            n == bytes@.len(),
            out@ + halves_replaced(bytes@.skip(i as int)) == halves_replaced(bytes@),
        decreases n - i,
    {
        let ghost before = out@;
        let ghost rest = bytes@.skip(i as int);
        if n - i >= 3 && bytes[i] == 0xedu8 && 0xa0u8 <= bytes[i + 1] && bytes[i + 1] <= 0xbfu8
            && 0x80u8 <= bytes[i + 2] && bytes[i + 2] <= 0xbfu8 {
            out.push(0xefu8);
            out.push(0xbfu8);
            out.push(0xbdu8);
            proof {
                assert(rest.skip(3) =~= bytes@.skip(i + 3));
                assert(out@ =~= before + seq![0xefu8, 0xbfu8, 0xbdu8]);
                assert(out@ + halves_replaced(rest.skip(3)) =~= before + halves_replaced(rest));
            }
            i += 3;
        } else {
            out.push(bytes[i]);
            proof {
                assert(rest.skip(1) =~= bytes@.skip(i + 1));
                assert(out@ =~= before + seq![rest[0]]);
                assert(out@ + halves_replaced(rest.skip(1)) =~= before + halves_replaced(rest));
            }
            i += 1;
        }
    }
    assert(out@ + halves_replaced(bytes@.skip(n as int)) =~= out@);
    out
}

fn show_bytes(bytes: &Vec<u8>, wide: bool) -> (r: String)
    ensures
        r@ == shown_bytes(bytes@, wide),
{
    match from_utf8(bytes) {
        Ok(text) => text,
        Err(_) => if wide {
            from_utf8_lossy(&replace_halves(bytes))
        } else {
            from_utf8_lossy(bytes)
        },
    }
}

impl FilePath {
    /// A copy of the path.
    pub fn duplicate(&self) -> (r: FilePath)
        ensures
            r@ == self@,
    {
        let mut parts: Vec<Vec<u8>> = Vec::new();
        let mut i: usize = 0;
        while i < self.parts.len()
            invariant
                0 <= i <= self.parts@.len(),
                parts@.len() == i,
                forall|j: int| 0 <= j < i ==> (#[trigger] parts@[j])@ == self.parts@[j]@,
            decreases self.parts@.len() - i,
        {
            parts.push(copy_bytes(&self.parts[i]));
            i += 1;
        }
        assert(parts.deep_view() =~~= self.parts.deep_view()) by {
            assert forall|j: int| 0 <= j < parts@.len() implies parts.deep_view()[j]
                =~= self.parts.deep_view()[j] by {
                assert(parts@[j].deep_view() =~= parts@[j]@);
                assert(self.parts@[j].deep_view() =~= self.parts@[j]@);
            }
        }
        FilePath {
            bytes: copy_bytes(&self.bytes),
            parts,
            name: match &self.name {
                Some(name) => Some(copy_bytes(name)),
                None => None,
            },
            wide: self.wide,
        }
    }

    /// The folder that the program runs in, `.`.
    pub fn current() -> (r: FilePath)
        ensures
            r@ == current_dir(),
    {
        let dot: Vec<u8> = vec![0x2eu8];
        let mut parts: Vec<Vec<u8>> = Vec::new();
        parts.push(copy_bytes(&dot));
        assert(parts@[0].deep_view() =~= seq![0x2eu8]);
        assert(parts.deep_view() =~= seq![seq![0x2eu8]]);
        FilePath { bytes: dot, parts, name: None, wide: false }
    }

    /// Whether this and `other` are the same path.
    pub fn same(&self, other: &FilePath) -> (r: bool)
        ensures
            r == same_path(self@, other@),
    {
        let n: usize = self.parts.len();
        if n != other.parts.len() {
            assert(self.parts.deep_view().len() != other.parts.deep_view().len());
            return false;
        }
        let mut i: usize = 0;
        while i < n
            invariant
                0 <= i <= n,
                n == self.parts@.len() == other.parts@.len(),
                forall|j: int|
                    0 <= j < i ==> (#[trigger] self.parts@[j])@ == other.parts@[j]@,
            decreases n - i,
        {
            if !same_bytes(&self.parts[i], &other.parts[i]) {
                proof {
                    assert(self.parts@[i as int].deep_view() =~= self.parts@[i as int]@);
                    assert(other.parts@[i as int].deep_view() =~= other.parts@[i as int]@);
                    assert(self.parts.deep_view()[i as int] != other.parts.deep_view()[i as int]);
                }
                return false;
            }
            i += 1;
        }
        assert(self.parts.deep_view() =~~= other.parts.deep_view()) by {
            assert forall|j: int| 0 <= j < n implies self.parts.deep_view()[j]
                =~= other.parts.deep_view()[j] by {
                assert(self.parts@[j].deep_view() =~= self.parts@[j]@);
                assert(other.parts@[j].deep_view() =~= other.parts@[j]@);
            }
        }
        true
    }

    /// Whether this and `other` end in the same name.
    pub fn same_name(&self, other: &FilePath) -> (r: bool)
        ensures
            r == same_last_part(self@.parts, other@.parts),
    {
        let n: usize = self.parts.len();
        let m: usize = other.parts.len();
        if n == 0 || m == 0 {
            return false;
        }
        proof {
            assert(self.parts@[n - 1].deep_view() =~= self.parts@[n - 1]@);
            assert(other.parts@[m - 1].deep_view() =~= other.parts@[m - 1]@);
        }
        same_bytes(&self.parts[n - 1], &other.parts[m - 1])
    }

    /// The text that shows the path to a reader: the path itself, if it is
    /// valid UTF-8.
    pub fn display(&self) -> (r: String)
        ensures
            r@ == shown(self@),
            path_text(self@) matches Some(text) ==> r@ == text,
    {
        show_bytes(&self.bytes, self.wide)
    }

    /// The name to show for the path: the name itself, if it is valid UTF-8.
    pub fn label(&self) -> (r: String)
        ensures
            r@ == label(self@),
            (match self@.name {
                Some(name) => valid_utf8(name) ==> r@ == decode_utf8(name),
                None => path_text(self@) matches Some(text) ==> r@ == text,
            }),
    {
        match &self.name {
            Some(name) => {
                assert(name.deep_view() =~= name@);
                show_bytes(name, self.wide)
            },
            None => self.display(),
        }
    }

    /// The text of the path, if it is valid UTF-8.
    pub fn to_text(&self) -> (r: Option<String>)
        ensures
            r.deep_view() == path_text(self@),
    {
        match from_utf8(&self.bytes) {
            Ok(text) => Some(text),
            Err(_) => None,
        }
    }

    /// The path of `name` in this folder.
    pub fn join(&self, name: &str, platform: Platform) -> (r: FilePath)
        ensures
            r@ == joined(self@, name@, platform),
    {
        let mut out = self.duplicate();
        let tail = name.as_bytes();
        let n: usize = out.bytes.len();
        let drive = match platform {
            Platform::Windows => n == 2 && (0x41u8 <= out.bytes[0] && out.bytes[0] <= 0x5au8
                || 0x61u8 <= out.bytes[0] && out.bytes[0] <= 0x7au8) && out.bytes[1] == 0x3au8,
            _ => false,
        };
        if n > 0 && !platform.is_separator(out.bytes[n - 1]) && !drive {
            out.bytes.push(platform.separator());
        }
        append_bytes(&mut out.bytes, tail);
        let mut part: Vec<u8> = Vec::new();
        append_bytes(&mut part, tail);
        assert(part@ =~= encode_utf8(name@));
        let last = copy_bytes(&part);
        proof {
            assert(part.deep_view() =~= part@);
            assert(last.deep_view() =~= last@);
        }
        let ghost before = out.parts.deep_view();
        out.parts.push(part);
        assert(out.parts.deep_view() =~= before.push(encode_utf8(name@)));
        out.name = Some(last);
        out
    }

    /// Whether the path names a file with the extension `ext`.
    pub fn extension_is(&self, ext: &str) -> (r: bool)
        ensures
            r == has_extension(self@, ext@),
    {
        match &self.name {
            Some(name) => {
                assert(name.deep_view() =~= name@);
                let mut i: usize = name.len();
                assert(name@.take(i as int) =~= name@);
                while i > 0 && name[i - 1] != 0x2eu8
                    invariant
                        0 <= i <= name@.len(),
                        last_dot(name@) == last_dot(name@.take(i as int)),
                    decreases i,
                {
                    assert(name@.take(i as int).drop_last() =~= name@.take(i - 1));
                    i -= 1;
                }
                if i <= 1 {
                    return false;
                }
                let mut found: Vec<u8> = Vec::new();
                let mut wanted: Vec<u8> = Vec::new();
                append_bytes(&mut wanted, ext.as_bytes());
                let mut j: usize = i;
                while j < name.len()
                    invariant
                        i <= j <= name@.len(),
                        found@ == name@.subrange(i as int, j as int),
                    decreases name@.len() - j,
                {
                    found.push(name[j]);
                    j += 1;
                    assert(name@.subrange(i as int, j as int) =~= name@.subrange(
                        i as int,
                        j - 1,
                    ).push(name@[j - 1]));
                }
                assert(found@ =~= name@.skip(last_dot(name@) + 1));
                assert(wanted@ =~= encode_utf8(ext@));
                same_bytes(&found, &wanted)
            },
            None => false,
        }
    }
}

/// Whether `paths` holds `p`, in any way of writing it.
pub fn contains(paths: &Vec<FilePath>, p: &FilePath) -> (r: bool)
    ensures
        r == has_path(paths.deep_view(), p@),
{
    let mut i: usize = 0;
    while i < paths.len()
        invariant
            0 <= i <= paths@.len(),
            forall|j: int| 0 <= j < i ==> !same_path(#[trigger] paths.deep_view()[j], p@),
        decreases paths@.len() - i,
    {
        if paths[i].same(p) {
            assert(same_path(paths.deep_view()[i as int], p@));
            return true;
        }
        assert(!same_path(paths.deep_view()[i as int], p@));
        i += 1;
    }
    false
}

/// A copy of every path of `paths`, in order.
pub fn copy_paths(paths: &Vec<FilePath>) -> (r: Vec<FilePath>)
    ensures
        r.deep_view() == paths.deep_view(),
{
    let mut out: Vec<FilePath> = Vec::new();
    let mut i: usize = 0;
    while i < paths.len()
        invariant
            0 <= i <= paths@.len(),
            out@.len() == i,
            forall|j: int| 0 <= j < i ==> (#[trigger] out@[j])@ == paths@[j]@,
        decreases paths@.len() - i,
    {
        out.push(paths[i].duplicate());
        i += 1;
    }
    assert(out.deep_view() =~= paths.deep_view());
    out
}

/// Two paths are the same exactly when their components are, however they are
/// written; a list holds a path when one of its paths is the same.
pub proof fn law_paths_are_their_components(paths: Seq<PathView>, a: PathView, b: PathView)
    ensures
        same_path(a, b) <==> a.parts == b.parts,
        has_path(paths, a) <==> exists|i: int|
            0 <= i < paths.len() && (#[trigger] paths[i]).parts == a.parts,
        distinct_paths(paths) <==> forall|i: int, j: int|
            0 <= i < j < paths.len() ==> (#[trigger] paths[i]).parts != (
            #[trigger] paths[j]).parts,
        same_last_part(a.parts, b.parts) <==> a.parts.len() > 0 && b.parts.len() > 0
            && a.parts[a.parts.len() - 1] == b.parts[b.parts.len() - 1],
{
    if has_path(paths, a) {
        let i = choose|i: int| 0 <= i < paths.len() && same_path(#[trigger] paths[i], a);
        assert(paths[i].parts == a.parts);
    }
    if exists|i: int| 0 <= i < paths.len() && (#[trigger] paths[i]).parts == a.parts {
        let i = choose|i: int| 0 <= i < paths.len() && (#[trigger] paths[i]).parts == a.parts;
        assert(same_path(paths[i], a));
    }
    if distinct_paths(paths) {
        assert forall|i: int, j: int| 0 <= i < j < paths.len() implies (#[trigger] paths[i]).parts
            != (#[trigger] paths[j]).parts by {
            assert(!same_path(paths[i], paths[j]));
        }
    }
}

/// Joining keeps the folder's components and adds the name as one more. In
/// the writing, the name follows the folder with one separator between them,
/// which is `\` on Windows and `/` elsewhere: the folder's own where it ends
/// in one, none after a folder without any text or after a drive alone.
pub proof fn law_joined_path_leads_into_the_folder(
    p: PathView,
    name: Seq<char>,
    platform: Platform,
)
    ensures
        ({
            let j = joined(p, name, platform);
            let tail = encode_utf8(name);
            let n = p.bytes.len() as int;
            let windows = platform == Platform::Windows;
            &&& j.parts == p.parts.push(tail)
            &&& j.name == Some(tail)
            &&& j.wide == p.wide
            &&& n == 0 ==> j.bytes == tail
            &&& n > 0 && (p.bytes[n - 1] == 0x2f || windows && p.bytes[n - 1] == 0x5c) ==> j.bytes
                == p.bytes + tail
            &&& windows && n == 2 && p.bytes[1] == 0x3a && (0x41 <= p.bytes[0] <= 0x5a || 0x61
                <= p.bytes[0] <= 0x7a) ==> j.bytes == p.bytes + tail
            &&& n > 0 && !windows && p.bytes[n - 1] != 0x2f ==> j.bytes == p.bytes + seq![0x2fu8]
                + tail
            &&& n > 0 && windows && p.bytes[n - 1] != 0x2f && p.bytes[n - 1] != 0x5c && !(n == 2
                && p.bytes[1] == 0x3a && (0x41 <= p.bytes[0] <= 0x5a || 0x61 <= p.bytes[0]
                <= 0x7a)) ==> j.bytes == p.bytes + seq![0x5cu8] + tail
        }),
{
    let j = joined(p, name, platform);
    let tail = encode_utf8(name);
    assert(p.bytes.len() == 0 ==> p.bytes + tail =~= tail);
    assert(p.bytes.push(0x2fu8) =~= p.bytes + seq![0x2fu8]);
    assert(p.bytes.push(0x5cu8) =~= p.bytes + seq![0x5cu8]);
}

/// A path that is valid UTF-8 is shown as it is; any other is shown with
/// replacement characters, after half of a surrogate pair has been made one
/// where the system has such halves. A file is named by its name, and a path
/// without a name by the whole of it.
pub proof fn law_paths_are_shown_as_text(p: PathView)
    ensures
        valid_utf8(p.bytes) ==> shown(p) == decode_utf8(p.bytes) && path_text(p) == Some(
            decode_utf8(p.bytes),
        ),
        !valid_utf8(p.bytes) ==> path_text(p) is None,
        !valid_utf8(p.bytes) && !p.wide ==> shown(p) == text::lossy_text(p.bytes),
        !valid_utf8(p.bytes) && p.wide ==> shown(p) == text::lossy_text(halves_replaced(p.bytes)),
        p.name matches Some(name) ==> label(p) == shown(PathView { bytes: name, ..p }),
        p.name is None ==> label(p) == shown(p),
{
}

/// Each half of a surrogate pair becomes one replacement character, and every
/// other byte stays where it stood between them.
pub proof fn law_halves_are_replaced_one_by_one(a: u8, b: u8, rest: Seq<u8>, x: u8)
    ensures
        halves_replaced(Seq::empty()) == Seq::<u8>::empty(),
        0xa0 <= a <= 0xbf && 0x80 <= b <= 0xbf ==> halves_replaced(seq![0xedu8, a, b] + rest)
            == seq![0xefu8, 0xbfu8, 0xbdu8] + halves_replaced(rest),
        x != 0xed ==> halves_replaced(seq![x] + rest) == seq![x] + halves_replaced(rest),
        !(rest.len() >= 2 && 0xa0 <= rest[0] <= 0xbf && 0x80 <= rest[1] <= 0xbf)
            ==> halves_replaced(seq![0xedu8] + rest) == seq![0xedu8] + halves_replaced(rest),
{
    assert((seq![0xedu8, a, b] + rest).skip(3) =~= rest);
    assert((seq![x] + rest).skip(1) =~= rest);
    assert((seq![0xedu8] + rest).skip(1) =~= rest);
    let ed = seq![0xedu8] + rest;
    assert(ed.len() >= 2 ==> ed[1] == rest[0]);
    assert(ed.len() >= 3 ==> ed[2] == rest[1]);
}

proof fn lemma_last_dot(name: Seq<u8>)
    ensures
        -1 <= last_dot(name) < name.len(),
        last_dot(name) >= 0 ==> name[last_dot(name)] == 0x2e,
        forall|i: int| last_dot(name) < i < name.len() ==> #[trigger] name[i] != 0x2e,
    decreases name.len(),
{
    if name.len() > 0 && name.last() != 0x2e {
        lemma_last_dot(name.drop_last());
        assert forall|i: int| last_dot(name) < i < name.len() implies #[trigger] name[i]
            != 0x2e by {
            if i < name.len() - 1 {
                assert(name.drop_last()[i] == name[i]);
            }
        }
        if last_dot(name) >= 0 {
            assert(name.drop_last()[last_dot(name)] == name[last_dot(name)]);
        }
    }
}

/// A file has an extension exactly when its name is something, a dot and the
/// extension, in which there is no further dot.
pub proof fn law_extension_follows_the_last_dot(p: PathView, ext: Seq<char>)
    requires
        !encode_utf8(ext).contains(0x2eu8),
    ensures
        has_extension(p, ext) <==> exists|stem: Seq<u8>|
            stem.len() > 0 && p.name == Some(#[trigger] stem.push(0x2eu8) + encode_utf8(ext)),
{
    let tail = encode_utf8(ext);
    if let Some(name) = p.name {
        lemma_last_dot(name);
        let d = last_dot(name);
        if has_extension(p, ext) {
            let stem = name.take(d);
            assert(name =~= stem.push(0x2eu8) + tail);
        }
        if exists|stem: Seq<u8>|
            stem.len() > 0 && p.name == Some(#[trigger] stem.push(0x2eu8) + tail) {
            let stem = choose|stem: Seq<u8>|
                stem.len() > 0 && p.name == Some(#[trigger] stem.push(0x2eu8) + tail);
            let at = stem.len() as int;
            assert(name[at] == 0x2e);
            if d > at {
                assert(tail[d - at - 1] == name[d]);
                assert(tail.contains(0x2eu8));
            }
            assert(d == at);
            assert(name.skip(d + 1) =~= tail);
        }
    }
}

/// The folder that the program runs in is written `.`.
pub proof fn law_current_folder_is_a_dot()
    ensures
        current_dir().bytes == seq![0x2eu8],
        current_dir().parts == seq![seq![0x2eu8]],
        current_dir().name is None,
        !current_dir().wide,
{
}

} // verus!
