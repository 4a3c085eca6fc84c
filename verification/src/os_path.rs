//! Paths and file names, as the bytes that the platform encodes them with.
use vstd::prelude::*;
use vstd::utf8::{decode_utf8, valid_utf8};
use crate::text::{decode_lossy, lossy_utf8};

verus! {

/// A path: its bytes where the platform's paths are bytes and, where they are not,
/// the UTF-8 of it, with a replacement character for each part that is not Unicode.
#[derive(Debug, PartialEq, Eq)]
pub struct OsPath {
    pub bytes: Vec<u8>,
}

/// The bytes of an optional path.
pub open spec fn optional_path(path: Option<OsPath>) -> Option<Seq<u8>> {
    match path {
        Some(p) => Some(p@),
        None => None,
    }
}

impl View for OsPath {
    type V = Seq<u8>;

    open spec fn view(&self) -> Seq<u8> {
        self.bytes@
    }
}

impl Clone for OsPath {
    fn clone(&self) -> (res: Self)
        ensures
            res@ == self@,
    {
        let bytes = self.bytes.clone();
        assert(bytes@ =~= self.bytes@);
        OsPath { bytes }
    }
}

impl OsPath {
    /// The path as text, with replacement characters for what is not Unicode.
    pub fn to_text(&self) -> (res: String)
        ensures
            res@ == lossy_utf8(self@),
            valid_utf8(self@) ==> res@ == decode_utf8(self@),
    {
        decode_lossy(self.bytes.as_slice())
    }
}

/// The path of a file, parted where the name of the file starts, which the
/// platform tells: the path is `dir` and, right behind it, `name`.
pub struct FilePath {
    pub dir: Vec<u8>,
    pub name: Vec<u8>,
}

/// What a `FilePath` says.
pub struct FilePathModel {
    pub dir: Seq<u8>,
    pub name: Seq<u8>,
}

impl View for FilePath {
    type V = FilePathModel;

    open spec fn view(&self) -> FilePathModel {
        FilePathModel { dir: self.dir@, name: self.name@ }
    }
}

impl FilePathModel {
    /// The whole path.
    pub open spec fn whole(self) -> Seq<u8> {
        self.dir + self.name
    }
}

impl FilePath {
    /// The whole path.
    pub fn whole(&self) -> (res: OsPath)
        ensures
            res@ == self@.whole(),
            res.bytes@ == self.dir@ + self.name@,
    {
        let mut bytes: Vec<u8> = Vec::new();
        bytes.extend_from_slice(self.dir.as_slice());
        bytes.extend_from_slice(self.name.as_slice());
        assert(bytes@ =~= self@.whole());
        OsPath { bytes }
    }
}

/// Whether a file can have this name.
pub open spec fn names_a_file(name: Seq<u8>) -> bool {
    name.len() > 0 && name != seq![46u8] && name != seq![46u8, 46u8]
}

/// Whether a file can have this name: it is not empty and neither `.` nor `..`.
pub fn is_file_name(name: &[u8]) -> (res: bool)
    ensures
        res == names_a_file(name@),
        res <==> name@.len() > 0 && name@ != seq![46u8] && name@ != seq![46u8, 46u8],
{
    let n = name.len();
    let dot = n == 1 && name[0] == 46;
    let dots = n == 2 && name[0] == 46 && name[1] == 46;
    assert(dot <==> name@ =~= seq![46u8]);
    assert(dots <==> name@ =~= seq![46u8, 46u8]);
    n > 0 && !dot && !dots
}

/// The position of the last `.` of a file name, or -1.
pub open spec fn last_dot(name: Seq<u8>) -> int
    decreases name.len(),
{
    if name.len() == 0 {
        -1
    } else if name.last() == 46u8 {
        name.len() - 1
    } else {
        last_dot(name.drop_last())
    }
}

/// Whether a file name has an extension: a `.` that is not its first byte. The
/// name `..` has none.
pub open spec fn has_extension(name: Seq<u8>) -> bool {
    last_dot(name) > 0 && name != seq![46u8, 46u8]
}

/// A file name without its extension.
pub open spec fn stem_of(name: Seq<u8>) -> Seq<u8> {
    if has_extension(name) {
        name.take(last_dot(name))
    } else {
        name
    }
}

/// The part of a file name behind its last `.`.
pub open spec fn extension_of(name: Seq<u8>) -> Option<Seq<u8>> {
    if has_extension(name) {
        Some(name.skip(last_dot(name) + 1))
    } else {
        None
    }
}

proof fn last_dot_bounds(name: Seq<u8>)
    ensures
        -1 <= last_dot(name) < name.len(),
        last_dot(name) >= 0 ==> name[last_dot(name)] == 46u8,
        forall|i: int| last_dot(name) < i < name.len() ==> name[i] != 46u8,
    decreases name.len(),
{
    if name.len() > 0 && name.last() != 46u8 {
        last_dot_bounds(name.drop_last());
        assert forall|i: int| last_dot(name) < i < name.len() implies name[i] != 46u8 by {
            if i < name.len() - 1 {
                assert(name[i] == name.drop_last()[i]);
            }
        }
    }
}

/// Where the extension of a file name starts, if it has one.
fn extension_dot(name: &[u8]) -> (res: Option<usize>)
    ensures
        match res {
            Some(dot) => has_extension(name@) && dot == last_dot(name@),
            None => !has_extension(name@),
        },
{
    let mut i: usize = name.len();
    assert(name@.take(i as int) =~= name@);
    while i > 0
        invariant
            i <= name@.len(),
            last_dot(name@) == last_dot(name@.take(i as int)),
        decreases i,
    {
        assert(name@.take(i as int).drop_last() =~= name@.take(i - 1));
        assert(name@.take(i as int).last() == name@[i - 1]);
        if name[i - 1] == 46 {
            let dot: usize = i - 1;
            let dots_only = name.len() == 2 && name[0] == 46 && name[1] == 46;
            assert(dots_only <==> name@ =~= seq![46u8, 46u8]);
            if dot == 0 || dots_only {
                return None;
            }
            return Some(dot);
        }
        i -= 1;
    }
    None
}

/// The stem of a file name, as text.
pub fn stem_text(name: &[u8]) -> (res: String)
    ensures
        res@ == lossy_utf8(stem_of(name@)),
        valid_utf8(stem_of(name@)) ==> res@ == decode_utf8(stem_of(name@)),
{
    match extension_dot(name) {
        Some(dot) => {
            proof {
                last_dot_bounds(name@);
            }
            let stem = vstd::slice::slice_subrange(name, 0, dot);
            assert(stem@ =~= stem_of(name@));
            decode_lossy(stem)
        },
        None => decode_lossy(name),
    }
}

/// The extension of thread files.
pub open spec fn json_extension() -> Seq<u8> {
    seq![106u8, 115u8, 111u8, 110u8]
}

/// Whether a file name ends in `.json`, behind something.
pub open spec fn is_thread_file_name(name: Seq<u8>) -> bool {
    extension_of(name) == Some(json_extension())
}

/// Whether a file of this name holds a thread.
pub fn is_thread_file(name: &[u8]) -> (res: bool)
    ensures
        res == is_thread_file_name(name@),
        res <==> name@.len() > 5 && name@.skip(name@.len() - 5) == seq![
            46u8,
            106u8,
            115u8,
            111u8,
            110u8,
        ],
{
    proof {
        last_dot_bounds(name@);
        thread_files_end_in_json(name@);
    }
    match extension_dot(name) {
        Some(dot) => {
            let ghost extension = name@.skip(dot + 1);
            let n = name.len();
            let res = n - dot == 5 && name[dot + 1] == 106 && name[dot + 2] == 115 && name[dot + 3]
                == 111 && name[dot + 4] == 110;
            assert(res <==> extension =~= json_extension()) by {
                if extension.len() == 4 {
                    assert(extension[0] == name@[dot + 1]);
                    assert(extension[1] == name@[dot + 2]);
                    assert(extension[2] == name@[dot + 3]);
                    assert(extension[3] == name@[dot + 4]);
                }
            }
            res
        },
        None => false,
    }
}

/// A file name with an extension is its stem, a `.` and its extension, with no
/// further `.` in the extension.
pub proof fn stem_and_extension_make_the_name(name: Seq<u8>)
    requires
        has_extension(name),
    ensures
        name == stem_of(name) + seq![46u8] + extension_of(name)->0,
        stem_of(name).len() > 0,
        !extension_of(name)->0.contains(46u8),
{
    last_dot_bounds(name);
    let dot = last_dot(name);
    assert(name =~= name.take(dot) + seq![46u8] + name.skip(dot + 1));
    let extension = name.skip(dot + 1);
    assert forall|i: int| 0 <= i < extension.len() implies extension[i] != 46u8 by {
        assert(extension[i] == name[dot + 1 + i]);
    }
}

/// A file of threads has a name that a file can have.
pub proof fn thread_files_have_names(name: Seq<u8>)
    requires
        is_thread_file_name(name),
    ensures
        names_a_file(name),
{
    last_dot_bounds(name);
}

/// Threads stand in the files whose names end in `.json`, behind something.
pub proof fn thread_files_end_in_json(name: Seq<u8>)
    ensures
        is_thread_file_name(name) <==> name.len() > 5 && name.skip(name.len() - 5) == seq![
            46u8,
            106u8,
            115u8,
            111u8,
            110u8,
        ],
{
    let ending = seq![46u8, 106u8, 115u8, 111u8, 110u8];
    last_dot_bounds(name);
    let dot = last_dot(name);
    if is_thread_file_name(name) {
        let extension = name.skip(dot + 1);
        assert(extension == json_extension());
        assert(extension.len() == 4);
        assert(dot == name.len() - 5);
        assert(name.skip(name.len() - 5) =~= ending) by {
            assert(extension[0] == name[dot + 1]);
            assert(extension[1] == name[dot + 2]);
            assert(extension[2] == name[dot + 3]);
            assert(extension[3] == name[dot + 4]);
        }
    }
    if name.len() > 5 && name.skip(name.len() - 5) == ending {
        let tail = name.skip(name.len() - 5);
        let at = name.len() - 5;
        assert(tail[0] == name[at]);
        assert(tail[1] == name[at + 1]);
        assert(tail[2] == name[at + 2]);
        assert(tail[3] == name[at + 3]);
        assert(tail[4] == name[at + 4]);
        assert(dot == at);
        assert(name.skip(dot + 1) =~= json_extension());
        assert(name.len() != seq![46u8, 46u8].len());
    }
}

/// A stem, a `.` and an extension without a `.` make a name that is parted into
/// them again.
pub proof fn names_are_parted_at_their_last_dot(stem: Seq<u8>, extension: Seq<u8>)
    requires
        stem.len() > 0,
        !extension.contains(46u8),
        !(stem == seq![46u8] && extension.len() == 0),
    ensures
        stem_of(stem.push(46u8) + extension) == stem,
        extension_of(stem.push(46u8) + extension) == Some(extension),
{
    let name = stem.push(46u8) + extension;
    last_dot_bounds(name);
    let dot = last_dot(name);
    let at = stem.len() as int;
    assert(name[at] == 46u8);
    if dot > at {
        assert(extension[dot - at - 1] == name[dot]);
        assert(extension.contains(46u8));
    }
    assert(dot == at);
    if name == seq![46u8, 46u8] {
        assert(stem =~= seq![46u8]) by {
            assert(stem[0] == name[0]);
        }
        assert(extension.len() == 0);
    }
    assert(name.take(at) =~= stem);
    assert(name.skip(at + 1) =~= extension);
}

/// A name with no `.` behind its first byte is its own stem and has no extension.
pub proof fn names_without_an_extension_are_their_stems(name: Seq<u8>)
    requires
        forall|i: int| 0 < i < name.len() ==> #[trigger] name[i] != 46u8,
    ensures
        stem_of(name) == name,
        extension_of(name) is None,
{
    last_dot_bounds(name);
}

/// A path is its directory and, right behind it, its name.
pub proof fn paths_are_directories_and_names(path: FilePath, plain: OsPath)
    ensures
        path@.dir == path.dir@,
        path@.name == path.name@,
        path@.whole() == path.dir@ + path.name@,
        plain@ == plain.bytes@,
        optional_path(Some(plain)) == Some(plain.bytes@),
        optional_path(None) is None,
{
}

} // verus!
