//! Where a downloaded file is stored.

use vstd::prelude::*;

verus! {

/// The last component of a path, `/` separating the components: trailing separators and `.`
/// components do not count, and a path that ends in `..`, or has no component, has none.
pub open spec fn file_name(path: Seq<char>) -> Option<Seq<char>>
    decreases path.len(),
{
    if path.len() == 0 {
        None
    } else if path.last() == '/' || ends_in_dot_component(path) {
        file_name(path.drop_last())
    } else {
        let segment = path.skip(segment_start(path));
        if segment == seq!['.', '.'] {
            None
        } else {
            Some(segment)
        }
    }
}

/// The last component is a single dot.
pub open spec fn ends_in_dot_component(path: Seq<char>) -> bool {
    &&& path.len() > 0
    &&& path.last() == '.'
    &&& path.len() == 1 || path[path.len() - 2] == '/'
}

/// The position behind the last separator.
pub open spec fn segment_start(path: Seq<char>) -> int
    decreases path.len(),
{
    if path.len() == 0 || path.last() == '/' {
        path.len() as int
    } else {
        segment_start(path.drop_last())
    }
}

/// The position of the last dot, or -1.
pub open spec fn last_dot(name: Seq<char>) -> int
    decreases name.len(),
{
    if name.len() == 0 {
        -1
    } else if name.last() == '.' {
        name.len() - 1
    } else {
        last_dot(name.drop_last())
    }
}

/// What stands behind the last dot of the file name, unless that dot is its first character.
pub open spec fn extension(path: Seq<char>) -> Option<Seq<char>> {
    match file_name(path) {
        Some(name) => if last_dot(name) > 0 {
            Some(name.skip(last_dot(name) + 1))
        } else {
            None
        },
        None => None,
    }
}

/// The extension, or nothing where there is none.
pub open spec fn extension_or_empty(path: Seq<char>) -> Seq<char> {
    match extension(path) {
        Some(e) => e,
        None => Seq::empty(),
    }
}

/// A character that separates components on Windows.
pub open spec fn is_separator(c: char) -> bool {
    c == '/' || c == '\\'
}

/// Two separators in front: on Windows, the name of a server or of a device may follow.
pub open spec fn starts_with_two_separators(path: Seq<char>) -> bool {
    path.len() >= 2 && is_separator(path[0]) && is_separator(path[1])
}

/// A drive in front, as Windows knows them: a letter and a colon.
pub open spec fn starts_with_drive(path: Seq<char>) -> bool {
    path.len() >= 2 && path[1] == ':' && ('a' <= path[0] <= 'z' || 'A' <= path[0] <= 'Z')
}

/// A path of Windows below its drive, with `/` for each separator.
pub open spec fn below_drive(path: Seq<char>) -> Seq<char> {
    let rest = if starts_with_drive(path) {
        path.skip(2)
    } else {
        path
    };
    rest.map_values(
        |c: char|
            if is_separator(c) {
                '/'
            } else {
                c
            },
    )
}

/// The extension is the same whether `/` alone separates components, or whether the path is one
/// of Windows.
pub open spec fn reads_alike(path: Seq<char>) -> bool {
    &&& !starts_with_two_separators(path)
    &&& extension_or_empty(path) == extension_or_empty(below_drive(path))
}

/// `text` stands in the path directly behind a dot.
pub open spec fn follows_a_dot(path: Seq<char>, text: Seq<char>) -> bool {
    exists|i: int|
        0 <= i && i + 1 + text.len() <= path.len() && #[trigger] path[i] == '.' && text
            == path.subrange(i + 1, i + 1 + text.len())
}

/// What a platform may take for the extension of a path, empty where there is none.
pub open spec fn may_be_extension(path: Seq<char>, ext: Seq<char>) -> bool {
    &&& !starts_with_two_separators(path) ==> ext == extension_or_empty(path) || ext
        == extension_or_empty(below_drive(path))
    &&& ext.len() > 0 ==> follows_a_dot(path, ext)
    &&& !ext.contains('.')
}

/// `std::path::Path::extension`, as text: what stands behind the last dot of the file name,
/// which is the last component of the path. It has no dot. Trailing separators and `.` components
/// do not count as the last component; a path that ends in `..` has no file name, and a file name
/// whose only dot comes first has no extension. On Unix `/` separates components; on Windows a
/// backslash does so too, and a drive in front is no part of the file name. Not stated is what
/// Windows takes for the server or the device in a path with two separators in front.
#[verifier::external_body]
fn platform_extension(path: &str) -> (r: Option<String>)
    ensures
        !starts_with_two_separators(path@) ==> r.deep_view() == extension(path@) || r.deep_view()
            == extension(below_drive(path@)),
        r matches Some(e) ==> follows_a_dot(path@, e@),
        r matches Some(e) ==> !e@.contains('.'),
{
    std::path::Path::new(path).extension().and_then(|e| e.to_str()).map(|e| e.to_string())
}

/// The extension of the file that a path names, empty where it has none.
pub fn path_extension(path: &str) -> (r: String)
    ensures
        may_be_extension(path@, r@),
        reads_alike(path@) ==> r@ == extension_or_empty(path@),
{
    match platform_extension(path) {
        Some(e) => e,
        None => String::new(),
    }
}

/// Where a file goes: the folder, and there a name made of the display name, the id of the file
/// and its extension.
pub open spec fn destination(
    dest_dir: Seq<char>,
    name_prefix: Seq<char>,
    file_id: Seq<char>,
    ext: Seq<char>,
) -> Seq<char> {
    dest_dir + "/"@ + name_prefix + "_"@ + file_id + "."@ + ext
}

/// The path under which a file with this extension is stored.
pub fn destination_path(dest_dir: &str, name_prefix: &str, file_id: &str, ext: &str) -> (r: String)
    ensures
        r@ == destination(dest_dir@, name_prefix@, file_id@, ext@),
{
    let mut r: String = String::new();
    r.append(dest_dir);
    r.append("/");
    r.append(name_prefix);
    r.append("_");
    r.append(file_id);
    r.append(".");
    r.append(ext);
    assert(r@ =~= destination(dest_dir@, name_prefix@, file_id@, ext@));
    r
}

/// The path to look at before a download, given the remote path of the file, whose extension it
/// takes over; `None` where the server did not tell that path.
pub fn get_expected_filename(
    file_path: Option<&str>,
    file_id: &str,
    name_prefix: &str,
    dest_dir: &str,
) -> (r: Option<String>)
    ensures
        match file_path {
            Some(p) => exists|ext: Seq<char>| #[trigger]
                may_be_extension(p@, ext) && r.deep_view() == Some(
                    destination(dest_dir@, name_prefix@, file_id@, ext),
                ),
            None => r is None,
        },
        file_path matches Some(p) ==> reads_alike(p@) ==> r.deep_view() == Some(
            destination(dest_dir@, name_prefix@, file_id@, extension_or_empty(p@)),
        ),
{
    match file_path {
        Some(p) => {
            let ext: String = path_extension(p);
            Some(destination_path(dest_dir, name_prefix, file_id, ext.as_str()))
        },
        None => None,
    }
}

/// A path without a backslash, a drive or two separators in front reads alike on
/// Unix and on Windows.
pub proof fn law_plain_paths_read_alike(path: Seq<char>)
    requires
        !path.contains('\\'),
        path.len() >= 2 ==> {
            &&& !(path[0] == '/' && path[1] == '/')
            &&& !(path[1] == ':' && ('a' <= path[0] <= 'z' || 'A' <= path[0] <= 'Z'))
        },
    ensures
        reads_alike(path),
{
    assert(!starts_with_two_separators(path)) by {
        if starts_with_two_separators(path) {
            assert(path.contains(path[0]) && path.contains(path[1]));
        }
    }
    assert(below_drive(path) =~= path) by {
        assert forall|i: int| 0 <= i < path.len() implies below_drive(path)[i] == path[i] by {
            assert(path.contains(path[i]));
        }
    }
}

/// A file is stored in its folder, under its display name, an underscore, its whole id, a dot and
/// its extension.
pub proof fn law_destination_tells_the_file(
    dest_dir: Seq<char>,
    name_prefix: Seq<char>,
    file_id: Seq<char>,
    ext: Seq<char>,
)
    ensures
        ({
            let path = destination(dest_dir, name_prefix, file_id, ext);
            let tail = seq!['_'] + file_id + seq!['.'] + ext;
            &&& path.len() == dest_dir.len() + 1 + name_prefix.len() + tail.len()
            &&& dest_dir.is_prefix_of(path)
            &&& path[dest_dir.len() as int] == '/'
            &&& path.skip(dest_dir.len() as int + 1).take(name_prefix.len() as int) == name_prefix
            &&& path.skip(path.len() - tail.len()) == tail
        }),
{
    reveal_strlit("/");
    reveal_strlit("_");
    reveal_strlit(".");
    let path = destination(dest_dir, name_prefix, file_id, ext);
    let tail = seq!['_'] + file_id + seq!['.'] + ext;
    assert(path =~= dest_dir + seq!['/'] + name_prefix + tail);
    assert(path.take(dest_dir.len() as int) =~= dest_dir);
    assert(path.skip(dest_dir.len() as int + 1).take(name_prefix.len() as int) =~= name_prefix);
    assert(path.skip(path.len() - tail.len()) =~= tail);
}

/// Different files have different paths: in one folder, under one name and with one extension,
/// files that share a path share their id.
pub proof fn law_different_files_have_different_paths(
    dest_dir: Seq<char>,
    name_prefix: Seq<char>,
    file_id1: Seq<char>,
    file_id2: Seq<char>,
    ext: Seq<char>,
)
    requires
        destination(dest_dir, name_prefix, file_id1, ext) == destination(
            dest_dir,
            name_prefix,
            file_id2,
            ext,
        ),
    ensures
        file_id1 == file_id2,
{
    law_destination_tells_the_file(dest_dir, name_prefix, file_id1, ext);
    law_destination_tells_the_file(dest_dir, name_prefix, file_id2, ext);
    let tail1 = seq!['_'] + file_id1 + seq!['.'] + ext;
    let tail2 = seq!['_'] + file_id2 + seq!['.'] + ext;
    assert(tail1 == tail2);
    assert(tail1.subrange(1, file_id1.len() as int + 1) =~= file_id1);
    assert(tail2.subrange(1, file_id1.len() as int + 1) =~= file_id2);
}

/// The last separator of a text stands before a part that has none.
proof fn lemma_segment_start(head: Seq<char>, name: Seq<char>)
    requires
        forall|i: int| 0 <= i < name.len() ==> #[trigger] name[i] != '/',
    ensures
        0 <= segment_start(head) <= head.len(),
        segment_start(head + name) == segment_start(head),
        segment_start(head) > 0 ==> head[segment_start(head) - 1] == '/',
    decreases head.len() + name.len(),
{
    if name.len() > 0 {
        let shorter = name.drop_last();
        assert((head + name).drop_last() =~= head + shorter);
        assert((head + name).last() == name.last());
        assert(name[name.len() - 1] != '/');
        assert forall|i: int| 0 <= i < shorter.len() implies #[trigger] shorter[i] != '/' by {
            assert(shorter[i] == name[i]);
        }
        lemma_segment_start(head, shorter);
    } else {
        assert(head + name =~= head);
        if head.len() > 0 && head.last() != '/' {
            lemma_segment_start(head.drop_last(), name);
        }
    }
}

/// The last dot of a text stands before a part that has none.
proof fn lemma_last_dot(head: Seq<char>, tail: Seq<char>)
    requires
        forall|i: int| 0 <= i < tail.len() ==> #[trigger] tail[i] != '.',
    ensures
        last_dot(head + tail) == last_dot(head),
    decreases tail.len(),
{
    if tail.len() > 0 {
        let shorter = tail.drop_last();
        assert((head + tail).drop_last() =~= head + shorter);
        assert((head + tail).last() == tail.last());
        assert(tail[tail.len() - 1] != '.');
        assert forall|i: int| 0 <= i < shorter.len() implies #[trigger] shorter[i] != '.' by {
            assert(shorter[i] == tail[i]);
        }
        lemma_last_dot(head, shorter);
    } else {
        assert(head + tail =~= head);
    }
}

proof fn lemma_extension(head: Seq<char>, stem: Seq<char>, ext: Seq<char>)
    requires
        stem.len() > 0,
        forall|i: int| 0 <= i < stem.len() ==> #[trigger] stem[i] != '/',
        forall|i: int| 0 <= i < ext.len() ==> #[trigger] ext[i] != '/' && ext[i] != '.',
        !(stem == seq!['.'] && ext.len() == 0),
    ensures
        extension(head + (stem + seq!['.'] + ext)) == Some(ext),
{
    let name = stem + seq!['.'] + ext;
    let path = head + name;
    assert forall|i: int| 0 <= i < name.len() implies #[trigger] name[i] != '/' by {
        if i < stem.len() {
            assert(name[i] == stem[i]);
        } else if i > stem.len() {
            assert(name[i] == ext[i - stem.len() - 1]);
        }
    }
    lemma_segment_start(head, name);
    assert(path.last() == name[name.len() - 1]);
    if ext.len() == 0 {
        assert(path[path.len() - 2] == name[name.len() - 2]);
    } else {
        assert(path.last() == ext[ext.len() - 1]);
    }
    let k = segment_start(head);
    let before = head.skip(k);
    let segment = path.skip(k);
    assert(segment =~= before + stem + seq!['.'] + ext);
    if segment == seq!['.', '.'] {
        assert(segment.len() == 2);
        assert(stem.len() == 1 && ext.len() == 0 && before.len() == 0);
        assert(stem[0] == segment[0]);
        assert(stem =~= seq!['.']);
    }
    let front = before + stem + seq!['.'];
    assert(segment =~= front + ext);
    lemma_last_dot(front, ext);
    assert(front.last() == '.');
    assert(segment.skip(last_dot(segment) + 1) =~= ext);
}

/// Whatever stands in front, a file name of a stem, a dot and an extension has that extension: the
/// stem is not empty, the extension has no dot, and neither has a separator.
pub proof fn law_extension_stands_behind_the_last_dot(
    head: Seq<char>,
    stem: Seq<char>,
    ext: Seq<char>,
    read: Seq<char>,
)
    requires
        stem.len() > 0,
        forall|i: int| 0 <= i < stem.len() ==> #[trigger] stem[i] != '/' && stem[i] != '\\',
        forall|i: int|
            0 <= i < ext.len() ==> #[trigger] ext[i] != '/' && ext[i] != '\\' && ext[i] != '.',
        !(stem == seq!['.'] && ext.len() == 0),
        ({
            let path = head + (stem + seq!['.'] + ext);
            &&& !((path[0] == '/' || path[0] == '\\') && (path[1] == '/' || path[1] == '\\'))
            &&& path[1] == ':' && ('a' <= path[0] <= 'z' || 'A' <= path[0] <= 'Z') ==> head.len()
                >= 2
        }),
        may_be_extension(head + (stem + seq!['.'] + ext), read),
    ensures
        read == ext,
{
    let name = stem + seq!['.'] + ext;
    let path = head + name;
    lemma_extension(head, stem, ext);
    let below = below_drive(path);
    let front = below.take(below.len() - name.len());
    assert forall|i: int| 0 <= i < name.len() implies below[below.len() - name.len() + i]
        == #[trigger] name[i] by {
        assert(path[head.len() + i] == name[i]);
        if i < stem.len() {
            assert(name[i] == stem[i]);
        } else if i > stem.len() {
            assert(name[i] == ext[i - stem.len() - 1]);
        }
    }
    assert(below =~= front + name);
    lemma_extension(front, stem, ext);
}

proof fn lemma_no_extension(head: Seq<char>, name: Seq<char>)
    requires
        head.len() == 0 || head.last() == '/',
        name.len() > 0,
        name != seq!['.'],
        forall|i: int| 0 <= i < name.len() ==> #[trigger] name[i] != '/' && (i > 0 ==> name[i] != '.'),
    ensures
        extension(head + name) is None,
{
    let path = head + name;
    lemma_segment_start(head, name);
    assert(segment_start(head) == head.len());
    assert(path.last() == name[name.len() - 1]);
    if path.last() == '.' {
        assert(name =~= seq!['.']);
    }
    assert(path.skip(head.len() as int) =~= name);
    let front = name.take(1);
    let tail = name.skip(1);
    assert(name =~= front + tail);
    lemma_last_dot(front, tail);
    reveal_with_fuel(last_dot, 2);
    if name.len() >= 2 {
        assert(name[1] != '.');
    }
}

/// A file name that has no dot behind its first character has no extension.
pub proof fn law_names_without_a_dot_have_no_extension(
    head: Seq<char>,
    name: Seq<char>,
    read: Seq<char>,
)
    requires
        head.len() == 0 || head.last() == '/',
        name.len() > 0,
        name != seq!['.'],
        forall|i: int|
            0 <= i < name.len() ==> #[trigger] name[i] != '/' && name[i] != '\\' && (i > 0 ==> name[i]
                != '.'),
        ({
            let path = head + name;
            path.len() >= 2 ==> {
                &&& !((path[0] == '/' || path[0] == '\\') && (path[1] == '/' || path[1] == '\\'))
                &&& !(path[1] == ':' && ('a' <= path[0] <= 'z' || 'A' <= path[0] <= 'Z'))
            }
        }),
        may_be_extension(head + name, read),
    ensures
        read.len() == 0,
{
    let path = head + name;
    lemma_no_extension(head, name);
    let below = below_drive(path);
    let front = below.take(head.len() as int);
    assert forall|i: int| 0 <= i < name.len() implies below[head.len() + i] == #[trigger] name[i] by {
        assert(path[head.len() + i] == name[i]);
    }
    assert(below =~= front + name);
    if head.len() > 0 {
        assert(front.last() == '/');
    }
    lemma_no_extension(front, name);
}

/// A separator at the end of a path, and a dot behind one, do not change its extension.
pub proof fn law_trailing_separators_do_not_count(path: Seq<char>)
    ensures
        extension(path.push('/')) == extension(path),
        path.len() == 0 || path.last() == '/' ==> extension(path.push('.')) == extension(path),
{
    assert(path.push('/').drop_last() =~= path);
    assert(path.push('.').drop_last() =~= path);
}

/// A path that ends in the parent of a folder has no extension.
pub proof fn law_parents_have_no_extension(head: Seq<char>)
    requires
        head.len() == 0 || head.last() == '/',
    ensures
        extension(head + seq!['.', '.']) is None,
{
    let path = head + seq!['.', '.'];
    lemma_segment_start(head, seq!['.', '.']);
    assert(path.skip(head.len() as int) =~= seq!['.', '.']);
}

} // verus!
