//! The names under which buffers are shown, and the labels made of two names.

use crate::path::file_name;
use crate::text::{from_utf8, from_utf8_lossy};
use vstd::prelude::*;
use vstd::utf8::*;

verus! {

/// The file behind a buffer.
#[derive(Debug, PartialEq, Eq)]
pub struct BufferFile {
    /// The path of the file, in most cases from the name of its project's root
    /// folder down, with `/` between its segments. A segment is text if and only
    /// if its bytes are valid UTF-8.
    pub full_path: Vec<u8>,
    /// The same path as it is shown, with the user's home directory shortened.
    /// These are the path's own bytes where paths are bytes, and elsewhere the
    /// UTF-8 bytes of the text that the platform shows for it.
    pub compact_path: Vec<u8>,
}

/// The name of a buffer that no name can be had of.
pub open spec fn untitled() -> Seq<char> {
    "untitled"@
}

/// The file name under which a buffer is shown: that of its file's full path,
/// if there is a file, the path has a file name, and that name is text.
pub open spec fn buffer_filename(file: Option<BufferFile>) -> Seq<char> {
    match file {
        Some(file) => match crate::path::file_name_of(file.full_path@) {
            Some(name) => if valid_utf8(name) {
                decode_utf8(name)
            } else {
                untitled()
            },
            None => untitled(),
        },
        None => untitled(),
    }
}

/// The path under which a buffer is shown: that of its file, with replacement
/// characters for what is not text.
pub open spec fn buffer_path(file: Option<BufferFile>) -> Seq<char> {
    match file {
        Some(file) => if valid_utf8(file.compact_path@) {
            decode_utf8(file.compact_path@)
        } else {
            crate::text::utf8_lossy(file.compact_path@)
        },
        None => untitled(),
    }
}

/// Whether both paths of a file end in the same name, and that is text.
pub open spec fn paths_share_name(file: BufferFile) -> bool {
    let path = file.compact_path@;
    let name = path.skip(crate::path::last_segment_start(path));
    crate::path::file_name_of(file.full_path@) == Some(name) && valid_utf8(name)
}

/// Whether `text` ends in the file name under which the buffer is shown, where
/// both paths of its file end in it.
pub open spec fn ends_in_file_name(text: Seq<char>, file: Option<BufferFile>) -> bool {
    file matches Some(path) ==> paths_share_name(path) ==> buffer_filename(file).is_suffix_of(text)
}

/// The label of a comparison of `left` and `right`.
pub open spec fn comparison_label(left: Seq<char>, right: Seq<char>) -> Seq<char> {
    left + " \u{2194} "@ + right
}

/// The file name under which a buffer with the given file is shown.
pub fn filename_for_buffer(file: &Option<BufferFile>) -> (name: String)
    ensures
        name@ == buffer_filename(*file),
        file is None ==> name@ == "untitled"@,
        file matches Some(file) ==> match crate::path::file_name_of(file.full_path@) {
            Some(bytes) if valid_utf8(bytes) => name@ == decode_utf8(bytes),
            _ => name@ == "untitled"@,
        },
{
    if let Some(file) = file {
        if let Some(name) = file_name(file.full_path.as_slice()) {
            if let Some(name) = from_utf8(name) {
                return name;
            }
        }
    }
    "untitled".to_owned()
}

/// The path under which a buffer with the given file is shown.
pub fn path_for_buffer(file: &Option<BufferFile>) -> (path: String)
    ensures
        path@ == buffer_path(*file),
        file is None ==> path@ == "untitled"@,
        file matches Some(file) ==> if valid_utf8(file.compact_path@) {
            path@ == decode_utf8(file.compact_path@)
        } else {
            &&& path@ == crate::text::utf8_lossy(file.compact_path@)
            &&& path@.contains('\u{fffd}')
        },
        ends_in_file_name(path@, *file),
{
    match file {
        Some(file) => {
            let path = from_utf8_lossy(file.compact_path.as_slice());
            proof {
                let bytes = file.compact_path@;
                crate::path::lemma_last_segment_start_bounds(bytes);
                crate::path::lemma_separator_before_last_segment(bytes);
                if crate::path::last_segment_start(bytes) == 0 {
                    assert(bytes.skip(0) =~= bytes);
                    assert(path@.skip(0) =~= path@);
                }
            }
            path
        },
        None => "untitled".to_owned(),
    }
}

/// Puts a double arrow between two names.
pub fn compare_names(left: &str, right: &str) -> (label: String)
    ensures
        label@ == comparison_label(left@, right@),
        label@ == left@ + " \u{2194} "@ + right@,
{
    let mut label = left.to_owned();
    label.append(" \u{2194} ");
    label.append(right);
    label
}

/// The title of a comparison of two buffers.
pub fn title_for_buffers(old_file: &Option<BufferFile>, new_file: &Option<BufferFile>) -> (title:
    String)
    ensures
        title@ == comparison_label(buffer_filename(*old_file), buffer_filename(*new_file)),
        title@ == buffer_filename(*old_file) + " \u{2194} "@ + buffer_filename(*new_file),
{
    let old_name = filename_for_buffer(old_file);
    let new_name = filename_for_buffer(new_file);
    compare_names(old_name.as_str(), new_name.as_str())
}

/// The tooltip of a comparison of two buffers, which is always there.
pub fn tooltip_for_buffers(
    old_file: &Option<BufferFile>,
    new_file: &Option<BufferFile>,
) -> (tooltip: Option<String>)
    ensures
        tooltip matches Some(tooltip) && tooltip@ == comparison_label(
            buffer_path(*old_file),
            buffer_path(*new_file),
        ) && ends_in_file_name(tooltip@, *new_file),
        tooltip matches Some(tooltip) && tooltip@ == buffer_path(*old_file) + " \u{2194} "@
            + buffer_path(*new_file),
{
    let old_path = path_for_buffer(old_file);
    let new_path = path_for_buffer(new_file);
    let tooltip = compare_names(old_path.as_str(), new_path.as_str());
    proof {
        lemma_label_ends_in_file_name(old_path@, new_path@, *new_file);
    }
    Some(tooltip)
}

/// A label ends in the file name that its right name ends in.
pub proof fn lemma_label_ends_in_file_name(
    left: Seq<char>,
    right: Seq<char>,
    file: Option<BufferFile>,
)
    requires
        ends_in_file_name(right, file),
    ensures
        ends_in_file_name(comparison_label(left, right), file),
{
    let label = comparison_label(left, right);
    let end = buffer_filename(file);
    if end.is_suffix_of(right) {
        assert(label.skip(label.len() - end.len()) =~= right.skip(right.len() - end.len()));
    }
}

/// A label is one name, a double arrow between blanks, and the other name, with
/// nothing left out of either.
pub proof fn law_label_is_two_names_and_an_arrow(left: Seq<char>, right: Seq<char>)
    ensures
        comparison_label(left, right) == left + seq![' ', '\u{2194}', ' '] + right,
        comparison_label(left, right).len() == left.len() + 3 + right.len(),
        comparison_label(left, right).take(left.len() as int) == left,
        comparison_label(left, right).skip(left.len() as int + 3) == right,
{
    reveal_strlit(" \u{2194} ");
    assert(" \u{2194} "@ =~= seq![' ', '\u{2194}', ' ']);
    let label = comparison_label(left, right);
    assert(label =~= left + seq![' ', '\u{2194}', ' '] + right);
    assert(label.take(left.len() as int) =~= left);
    assert(label.skip(left.len() as int + 3) =~= right);
}

/// A label starts with one name and ends with the other.
pub proof fn law_label_names_both(left: Seq<char>, right: Seq<char>)
    ensures
        left.is_prefix_of(comparison_label(left, right)),
        right.is_suffix_of(comparison_label(left, right)),
{
    let label = comparison_label(left, right);
    assert(label.take(left.len() as int) =~= left);
    assert(label.skip(label.len() - right.len()) =~= right);
}

/// A buffer whose file lies in some folder, or in none, goes by the file's name,
/// whatever the folder.
pub proof fn law_file_in_folder_goes_by_its_name(
    file: BufferFile,
    folder: Seq<u8>,
    name: Seq<u8>,
)
    requires
        ({
            ||| file.full_path@ == crate::path::joined(folder, name)
            ||| file.full_path@ == folder.push(crate::path::SEPARATOR) + name
            ||| file.full_path@ == name
        }),
        !name.contains(crate::path::SEPARATOR),
        name.len() > 0,
        name != seq![crate::path::DOT],
        name != seq![crate::path::DOT, crate::path::DOT],
        valid_utf8(name),
    ensures
        buffer_filename(Some(file)) == decode_utf8(name),
{
    crate::path::law_joined_name_is_file_name(folder, name);
}

/// A buffer is untitled exactly where no name can be had of it: it has no file,
/// its file's path has no file name, or that name is not text. Its path is shown
/// whenever it has a file.
pub proof fn law_only_nameless_buffers_are_untitled(file: BufferFile)
    ensures
        buffer_filename(None) == "untitled"@,
        buffer_path(None) == "untitled"@,
        crate::path::file_name_of(file.full_path@) is None ==> buffer_filename(Some(file))
            == "untitled"@,
        crate::path::file_name_of(file.full_path@) matches Some(name) ==> buffer_filename(
            Some(file),
        ) == if valid_utf8(name) {
            decode_utf8(name)
        } else {
            "untitled"@
        },
{
}

/// The path shown of a file is all of its compact path, of any length: decoded
/// where it is text, and with replacement characters elsewhere. Its full path has
/// no part in it.
pub proof fn law_whole_compact_path_is_shown(file: BufferFile)
    ensures
        valid_utf8(file.compact_path@) ==> {
            &&& buffer_path(Some(file)) == decode_utf8(file.compact_path@)
            &&& encode_utf8(buffer_path(Some(file))) == file.compact_path@
        },
        !valid_utf8(file.compact_path@) ==> buffer_path(Some(file)) == crate::text::utf8_lossy(
            file.compact_path@,
        ),
{
    if valid_utf8(file.compact_path@) {
        decode_utf8_encode_utf8(file.compact_path@);
    }
}

/// The paths of a file share its name if they are that name in some folder, even
/// if the folder is shortened in one of them.
pub proof fn law_paths_to_one_name_share_it(
    file: BufferFile,
    folder: Seq<u8>,
    short_folder: Seq<u8>,
    name: Seq<u8>,
)
    requires
        file.full_path@ == crate::path::joined(folder, name),
        file.compact_path@ == crate::path::joined(short_folder, name),
        !name.contains(crate::path::SEPARATOR),
        name.len() > 0,
        name != seq![crate::path::DOT],
        name != seq![crate::path::DOT, crate::path::DOT],
        valid_utf8(name),
    ensures
        paths_share_name(file),
        buffer_filename(Some(file)) == decode_utf8(name),
{
    crate::path::law_joined_name_is_file_name(folder, name);
    crate::path::lemma_last_segment_of_joined(short_folder, name);
}

/// If a path is text as a whole, what is shown of it ends in the file name
/// shown. So a title and a tooltip name the same file.
pub proof fn law_path_ends_in_file_name(file: BufferFile)
    requires
        valid_utf8(file.compact_path@),
    ensures
        ends_in_file_name(buffer_path(Some(file)), Some(file)),
{
    let path = file.compact_path@;
    let start = crate::path::last_segment_start(path);
    let name = path.skip(start);
    if paths_share_name(file) {
        crate::path::lemma_last_segment_start_bounds(path);
        crate::path::law_file_name_is_a_name(file.full_path@);
        is_char_boundary_start_end_of_seq(name);
        is_char_boundary_iff_not_is_continuation_byte(name, 0);
        is_char_boundary_iff_not_is_continuation_byte(path, start);
        decode_utf8_split(path, start);
        assert(path.subrange(start, path.len() as int) =~= name);
        let shown = decode_utf8(path);
        let end = decode_utf8(name);
        assert(shown.skip(shown.len() - end.len()) =~= end);
    }
}

} // verus!
