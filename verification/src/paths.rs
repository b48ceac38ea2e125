//! Which files are sources, and where the converted file of each one goes.
//!
//! A path is a sequence of components, outermost first, as the platform splits it:
//! `a/cat.png` is `["a", "cat.png"]`. The root `/`, `.` and `..` are components too,
//! and none of them names a file.

use vstd::prelude::*;
use vstd::string::*;

verus! {

/// The encodings that are read.
#[derive(Clone, Copy, Debug, PartialEq, Eq, Structural)]
pub enum SourceFormat {
    Jpeg,
    Png,
}

/// `name` has a dot at `i` that is not its first character and is followed by no other dot.
pub open spec fn splits_at(name: Seq<char>, i: int) -> bool {
    &&& 0 < i < name.len()
    &&& name[i] == '.'
    &&& forall|j: int| i < j < name.len() ==> name[j] != '.'
}

/// `name` has an extension: a last dot that is not its first character.
pub open spec fn has_extension(name: Seq<char>) -> bool {
    exists|i: int| splits_at(name, i)
}

/// Where the dot before the extension stands, for a name that has one.
pub open spec fn dot_index(name: Seq<char>) -> int {
    choose|i: int| splits_at(name, i)
}

/// What follows the last dot of `name`, if it has an extension.
pub open spec fn extension_of(name: Seq<char>) -> Option<Seq<char>> {
    if has_extension(name) {
        Some(name.subrange(dot_index(name) + 1, name.len() as int))
    } else {
        None
    }
}

/// What stands before the extension's dot; the whole name, if it has no extension.
pub open spec fn stem_of(name: Seq<char>) -> Seq<char> {
    if has_extension(name) {
        name.subrange(0, dot_index(name))
    } else {
        name
    }
}

/// A name splits at one place at most.
pub proof fn lemma_split_is_unique(name: Seq<char>, i: int, j: int)
    requires
        splits_at(name, i),
        splits_at(name, j),
    ensures
        i == j,
{
}

/// A name that splits at `i` has its extension after `i` and its stem before.
pub proof fn lemma_split_at(name: Seq<char>, i: int)
    requires
        splits_at(name, i),
    ensures
        has_extension(name),
        dot_index(name) == i,
        extension_of(name) == Some(name.subrange(i + 1, name.len() as int)),
        stem_of(name) == name.subrange(0, i),
{
    lemma_split_is_unique(name, i, dot_index(name));
}

/// The place of the dot before the extension of `name`, if there is one.
pub fn find_dot(name: &str) -> (at: Option<usize>)
    ensures
        at is Some <==> has_extension(name@),
        at matches Some(i) ==> splits_at(name@, i as int),
{
    let len: usize = name.unicode_len();
    let mut i: usize = len;
    while i > 1
        invariant
            len == name@.len(),
            i <= len,
            forall|j: int| i <= j < len ==> name@[j] != '.',
        decreases i,
    {
        i = i - 1;
        if name.get_char(i) == '.' {
            assert(splits_at(name@, i as int));
            return Some(i);
        }
    }
    None
}

/// The extension of the file name `name`: what follows its last dot, unless that dot
/// is the first character.
pub fn extension(name: &str) -> (ext: Option<&str>)
    ensures
        ext is Some <==> extension_of(name@) is Some,
        ext matches Some(e) ==> extension_of(name@) == Some(e@),
{
    match find_dot(name) {
        Some(i) => {
            proof {
                lemma_split_at(name@, i as int);
            }
            let len: usize = name.unicode_len();
            Some(name.substring_char(i + 1, len))
        },
        None => None,
    }
}

/// The lower-case form of an ASCII capital; any other character, unchanged.
pub open spec fn ascii_lower(c: char) -> char {
    if 'A' <= c && c <= 'Z' {
        ((c as u32) + 32) as char
    } else {
        c
    }
}

/// `text` with every ASCII capital in lower case.
pub open spec fn lowered(text: Seq<char>) -> Seq<char> {
    text.map_values(|c: char| ascii_lower(c))
}

/// The format that an extension stands for, whatever the case of its letters.
pub open spec fn format_of_extension(ext: Seq<char>) -> Option<SourceFormat> {
    let word = lowered(ext);
    if word == seq!['j', 'p', 'g'] || word == seq!['j', 'p', 'e', 'g'] {
        Some(SourceFormat::Jpeg)
    } else if word == seq!['p', 'n', 'g'] {
        Some(SourceFormat::Png)
    } else {
        None
    }
}

/// The format of the file called `name`, if it is one that is read.
pub open spec fn source_format_of(name: Seq<char>) -> Option<SourceFormat> {
    match extension_of(name) {
        Some(ext) => format_of_extension(ext),
        None => None,
    }
}

fn lower(c: char) -> (l: char)
    ensures
        l == ascii_lower(c),
{
    if 'A' <= c && c <= 'Z' {
        ((c as u8) + 32) as char
    } else {
        c
    }
}

fn spells(text: &str, word: &str) -> (b: bool)
    ensures
        b == (lowered(text@) == word@),
{
    let len: usize = text.unicode_len();
    if len != word.unicode_len() {
        return false;
    }
    let mut i: usize = 0;
    while i < len
        invariant
            len == text@.len(),
            len == word@.len(),
            i <= len,
            forall|j: int| 0 <= j < i ==> lowered(text@)[j] == word@[j],
        decreases len - i,
    {
        if lower(text.get_char(i)) != word.get_char(i) {
            return false;
        }
        i = i + 1;
    }
    assert(lowered(text@) =~= word@);
    true
}

/// The format of the file called `name`, by its extension: `jpg` and `jpeg` are JPEG,
/// `png` is PNG, in any mix of upper and lower case. Any other file is no source.
pub fn source_format(name: &str) -> (format: Option<SourceFormat>)
    ensures
        format == source_format_of(name@),
{
    match extension(name) {
        Some(ext) => {
            proof {
                reveal_strlit("jpg");
                reveal_strlit("jpeg");
                reveal_strlit("png");
                assert("jpg"@ =~= seq!['j', 'p', 'g']);
                assert("jpeg"@ =~= seq!['j', 'p', 'e', 'g']);
                assert("png"@ =~= seq!['p', 'n', 'g']);
            }
            if spells(ext, "jpg") || spells(ext, "jpeg") {
                Some(SourceFormat::Jpeg)
            } else if spells(ext, "png") {
                Some(SourceFormat::Png)
            } else {
                None
            }
        },
        None => None,
    }
}

/// The format of the file at `path`, by the extension of its last component.
pub open spec fn path_format_of(path: Seq<Seq<char>>) -> Option<SourceFormat> {
    if path.len() == 0 {
        None
    } else {
        source_format_of(path.last())
    }
}

/// The format of the file at `path`, if it is one that is read. A file is collected
/// as a source exactly if it has one.
pub fn path_format(path: &Vec<String>) -> (format: Option<SourceFormat>)
    ensures
        format == path_format_of(names(path@)),
{
    if path.len() == 0 {
        None
    } else {
        source_format(path[path.len() - 1].as_str())
    }
}

/// A file whose extension is `gif` or `txt`, in any case, is no source.
pub proof fn lemma_gif_and_txt_are_no_sources(name: Seq<char>)
    requires
        extension_of(name) matches Some(ext) && (lowered(ext) == seq!['g', 'i', 'f'] || lowered(
            ext,
        ) == seq!['t', 'x', 't']),
    ensures
        source_format_of(name) is None,
{
}

/// The directory that is walked for the input root `given`: `given` itself, or, if it
/// is a file, the directory that holds it. A file given by its name alone is held by
/// `.`.
pub open spec fn walk_root_of(given: Seq<Seq<char>>, is_file: bool) -> Seq<Seq<char>> {
    if !is_file {
        given
    } else if given.len() <= 1 {
        seq![seq!['.']]
    } else {
        given.drop_last()
    }
}

/// The directory to walk for the input root `given`, which is a file or not as
/// `is_file` says. It is settled once, before anything is collected.
pub fn walk_root(given: Vec<String>, is_file: bool) -> (root: Vec<String>)
    ensures
        names(root@) == walk_root_of(names(given@), is_file),
{
    if !is_file {
        return given;
    }
    let mut root = given;
    if root.len() <= 1 {
        proof {
            reveal_strlit(".");
        }
        let here: String = String::from_str(".");
        assert(here@ =~= seq!['.']);
        let mut only: Vec<String> = Vec::new();
        only.push(here);
        assert(names(only@) =~= seq![seq!['.']]);
        return only;
    }
    let ghost before = names(root@);
    root.pop();
    assert(names(root@) =~= before.drop_last());
    root
}

/// The extension of every converted file.
pub open spec fn output_extension() -> Seq<char> {
    seq!['w', 'e', 'b', 'p']
}

/// `name` can name a file: it is not empty, not `.` or `..`, and holds no separator.
pub open spec fn is_file_name(name: Seq<char>) -> bool {
    &&& name.len() > 0
    &&& name != seq!['.']
    &&& name != seq!['.', '.']
    &&& !name.contains('/')
}

/// `name` with `ext` in place of its extension, or added to it if it has none. What
/// cannot name a file stays as it is.
pub open spec fn renamed(name: Seq<char>, ext: Seq<char>) -> Seq<char> {
    if is_file_name(name) {
        stem_of(name) + seq!['.'] + ext
    } else {
        name
    }
}

/// `path` with the extension of its last component replaced by `ext`.
pub open spec fn with_extension(path: Seq<Seq<char>>, ext: Seq<char>) -> Seq<Seq<char>> {
    if path.len() == 0 {
        path
    } else {
        path.drop_last().push(renamed(path.last(), ext))
    }
}

/// The components of `path` as character sequences.
pub open spec fn names(path: Seq<String>) -> Seq<Seq<char>> {
    Seq::new(path.len(), |i: int| path[i]@)
}

/// `path` lies at or below `root`: it begins with all the components of `root`.
pub open spec fn is_under(path: Seq<Seq<char>>, root: Seq<Seq<char>>) -> bool {
    root.len() <= path.len() && path.subrange(0, root.len() as int) == root
}

/// What is left of `path` without the components of `root`.
pub open spec fn relative(path: Seq<Seq<char>>, root: Seq<Seq<char>>) -> Seq<Seq<char>> {
    path.subrange(root.len() as int, path.len() as int)
}

/// Where the converted file of `source` goes: its place below `input_root`, taken
/// below `output_root`, with the output extension.
pub open spec fn mapped(
    source: Seq<Seq<char>>,
    input_root: Seq<Seq<char>>,
    output_root: Seq<Seq<char>>,
) -> Seq<Seq<char>> {
    with_extension(output_root + relative(source, input_root), output_extension())
}

/// Whether `name` can name a file.
pub fn names_file(name: &str) -> (b: bool)
    ensures
        b == is_file_name(name@),
{
    let len: usize = name.unicode_len();
    if len == 0 {
        return false;
    }
    if len == 1 && name.get_char(0) == '.' {
        assert(name@ =~= seq!['.']);
        return false;
    }
    if len == 2 && name.get_char(0) == '.' && name.get_char(1) == '.' {
        assert(name@ =~= seq!['.', '.']);
        return false;
    }
    let mut i: usize = 0;
    while i < len
        invariant
            len == name@.len(),
            i <= len,
            forall|j: int| 0 <= j < i ==> name@[j] != '/',
        decreases len - i,
    {
        if name.get_char(i) == '/' {
            return false;
        }
        i = i + 1;
    }
    true
}

/// Gives the file name `name` the extension `ext` in place of its own. A name without
/// an extension gets one; what cannot name a file comes back unchanged.
pub fn replace_extension(name: &str, ext: &str) -> (out: String)
    ensures
        out@ == renamed(name@, ext@),
{
    if !names_file(name) {
        return String::from_str(name);
    }
    let stem: &str = match find_dot(name) {
        Some(i) => {
            proof {
                lemma_split_at(name@, i as int);
            }
            name.substring_char(0, i)
        },
        None => name,
    };
    let mut out: String = String::from_str(stem);
    proof {
        reveal_strlit(".");
    }
    out.append(".");
    out.append(ext);
    out
}

/// The path of the converted file of `source`: `output_root`, then what `source` holds
/// below `input_root`, with the extension `webp` in place of its own.
///
/// There is no such path for a source that does not lie at or below `input_root`.
pub fn output_path(
    source: &Vec<String>,
    input_root: &Vec<String>,
    output_root: &Vec<String>,
) -> (out: Option<Vec<String>>)
    ensures
        out is Some <==> is_under(names(source@), names(input_root@)),
        out matches Some(path) ==> names(path@) == mapped(
            names(source@),
            names(input_root@),
            names(output_root@),
        ),
{
    let depth: usize = input_root.len();
    if source.len() < depth {
        return None;
    }
    let mut i: usize = 0;
    while i < depth
        invariant
            depth == input_root@.len(),
            depth <= source@.len(),
            i <= depth,
            forall|j: int| 0 <= j < i ==> source@[j]@ == input_root@[j]@,
        decreases depth - i,
    {
        if source[i] != input_root[i] {
            assert(names(source@).subrange(0, depth as int)[i as int] != names(
                input_root@,
            )[i as int]);
            return None;
        }
        i = i + 1;
    }
    assert(names(source@).subrange(0, depth as int) =~= names(input_root@));
    let mut path: Vec<String> = Vec::new();
    let mut k: usize = 0;
    while k < output_root.len()
        invariant
            k <= output_root@.len(),
            path@.len() == k,
            forall|j: int| 0 <= j < k ==> path@[j]@ == output_root@[j]@,
        decreases output_root@.len() - k,
    {
        path.push(output_root[k].clone());
        k = k + 1;
    }
    let base: usize = output_root.len();
    let mut m: usize = depth;
    while m < source.len()
        invariant
            depth <= m <= source@.len(),
            base == output_root@.len(),
            path@.len() == base + (m - depth),
            forall|j: int| 0 <= j < base ==> path@[j]@ == output_root@[j]@,
            forall|j: int| depth <= j < m ==> path@[base + (j - depth)]@ == source@[j]@,
        decreases source@.len() - m,
    {
        path.push(source[m].clone());
        m = m + 1;
    }
    match path.pop() {
        Some(last) => {
            proof {
                reveal_strlit("webp");
                assert("webp"@ =~= output_extension());
            }
            let renamed_last: String = replace_extension(last.as_str(), "webp");
            path.push(renamed_last);
        },
        None => {},
    }
    Some(path)
}

} // verus!
