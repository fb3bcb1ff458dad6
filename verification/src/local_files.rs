//! Media files on this machine.
//!
//! Nothing here touches the file system: what it says comes in as an argument.

use vstd::prelude::*;

use crate::errors::{refusal, refusal_because, FailureText, UploadedImageError};
use crate::text::{decimal, decimal_text, join2, join4, opt_text};

verus! {

/// A path, and the last component of it as this machine reads paths.
#[derive(Debug)]
pub struct LocalPath {
    pub path: String,
    /// Nothing where the path has no last component that is a name.
    pub file_name: Option<String>,
}

/// The characters that part the components of a path on some machine.
pub open spec fn separator(c: char) -> bool {
    c == '/' || c == '\\'
}

/// Whether no component of a path can be the name of a disk or of a device.
pub open spec fn without_colon(path: Seq<char>) -> bool {
    forall|i: int| 0 <= i < path.len() ==> #[trigger] path[i] != ':'
}

/// A text that is the name of a file on every machine.
pub open spec fn plain_name(text: Seq<char>) -> bool {
    &&& text.len() > 0
    &&& text != "."@
    &&& text != ".."@
    &&& forall|i: int| 0 <= i < text.len() ==> !separator(#[trigger] text[i])
}

/// A dot that is a component of a path by itself.
pub open spec fn single_dot(path: Seq<char>, i: int) -> bool {
    &&& path[i] == '.'
    &&& i == 0 || separator(path[i - 1])
    &&& i + 1 == path.len() || separator(path[i + 1])
}

/// A name that stands in a path as its last component: what follows are separators and components
/// that mean the directory itself. What precedes is a separator, but for the name of a disk or of a
/// device, which ends in a colon.
pub open spec fn stands_last(name: Seq<char>, path: Seq<char>, at: int) -> bool {
    let end = at + name.len();
    &&& name.len() > 0
    &&& 0 <= at
    &&& end <= path.len()
    &&& path.subrange(at, end) == name
    &&& end < path.len() ==> separator(path[end])
    &&& forall|i: int|
        end <= i < path.len() ==> separator(#[trigger] path[i]) || single_dot(path, i)
    &&& without_colon(path) ==> at == 0 || separator(path[at - 1])
}

/// The ways in which machines part paths.
pub enum PathStyle {
    /// By slashes.
    Slash,
    /// By backslashes.
    Backslash,
    /// By both.
    Both,
}

impl PathStyle {
    /// Whether a character is a separator.
    pub open spec fn separates(self, c: char) -> bool {
        match self {
            PathStyle::Slash => c == '/',
            PathStyle::Backslash => c == '\\',
            PathStyle::Both => separator(c),
        }
    }
}

/// What follows the last separator of a path.
pub open spec fn last_component(path: Seq<char>, style: PathStyle) -> Seq<char>
    decreases path.len(),
{
    if path.len() == 0 || style.separates(path.last()) {
        Seq::empty()
    } else {
        last_component(path.drop_last(), style).push(path.last())
    }
}

/// The last component of a path that begins with neither a disk nor a server, if the component is a
/// name. Trailing separators do not count, nor do trailing components that are a single dot.
pub open spec fn last_name(path: Seq<char>, style: PathStyle) -> Option<Seq<char>>
    decreases path.len(),
{
    if path.len() == 0 {
        None
    } else if style.separates(path.last()) || last_component(path, style) == "."@ {
        last_name(path.drop_last(), style)
    } else if last_component(path, style) == ".."@ {
        None
    } else {
        Some(last_component(path, style))
    }
}

/// A path that begins with neither a disk, a device nor a server on any machine.
pub open spec fn ordinary(path: Seq<char>) -> bool {
    &&& without_colon(path)
    &&& !(path.len() >= 2 && separator(path[0]) && separator(path[1]))
}

/// What holds of the file name of a path on every machine. It stands in the path as its last
/// component, is neither the directory itself nor its parent, and does not hold both kinds of
/// separators. Of an ordinary path it is the last component, in one of the ways in which machines
/// part paths.
pub open spec fn names(path: Seq<char>, file_name: Option<String>) -> bool {
    &&& file_name matches Some(name) ==> {
        &&& exists|at: int| stands_last(name@, path, at)
        &&& name@ != "."@
        &&& name@ != ".."@
        &&& !(name@.contains('/') && name@.contains('\\'))
    }
    &&& ordinary(path) ==> {
        ||| opt_text(file_name) == last_name(path, PathStyle::Slash)
        ||| opt_text(file_name) == last_name(path, PathStyle::Backslash)
        ||| opt_text(file_name) == last_name(path, PathStyle::Both)
    }
}

/// `std::path::Path::file_name`, taken as text: the final component of the path if it is a name.
/// Repeated and trailing separators do not count, nor do trailing components that are a single dot.
///
/// The machine decides whether slashes, backslashes or both are separators, and what counts as the
/// name of a disk, a server or a device. So the name is tied to the path as far as every machine
/// agrees. Left unsaid is which of the separators the machine goes by, and, of a path with a colon or
/// with two separators at its start, where its first component begins.
#[verifier::external_body]
fn path_file_name(path: &str) -> (r: Option<String>)
    ensures
        names(path@, r),
{
    std::path::Path::new(path).file_name().and_then(|name| name.to_str()).map(str::to_owned)
}

impl LocalPath {
    /// The file name, if there is one, is not empty.
    pub open spec fn named(self) -> bool {
        self.file_name matches Some(name) ==> name@.len() > 0
    }

    /// Takes a path apart, as this machine reads paths.
    pub fn new(path: String) -> (r: LocalPath)
        ensures
            r.path == path,
            names(path@, r.file_name),
    {
        let file_name = path_file_name(path.as_str());
        LocalPath { path, file_name }
    }
}

proof fn lemma_last_component(path: Seq<char>, style: PathStyle)
    ensures
        ({
            let component = last_component(path, style);
            let start = path.len() - component.len();
            &&& 0 <= start
            &&& component == path.skip(start)
            &&& start > 0 ==> style.separates(path[start - 1])
            &&& forall|i: int| start <= i < path.len() ==> !style.separates(#[trigger] path[i])
        }),
    decreases path.len(),
{
    let component = last_component(path, style);
    let start = path.len() - component.len();
    if path.len() > 0 && !style.separates(path.last()) {
        lemma_last_component(path.drop_last(), style);
        let shorter = path.drop_last();
        assert(component =~= path.skip(start));
        assert forall|i: int| start <= i < path.len() implies !style.separates(
            #[trigger] path[i],
        ) by {
            if i < shorter.len() {
                assert(shorter[i] == path[i]);
            }
        }
        if start > 0 {
            assert(shorter[start - 1] == path[start - 1]);
        }
    } else {
        assert(component =~= path.skip(start));
    }
}

/// A path that ends in a name on every machine: what follows its last separator of either kind is
/// one.
pub open spec fn ends_in_name(path: Seq<char>, at: int) -> bool {
    &&& ordinary(path)
    &&& 0 <= at < path.len()
    &&& at == 0 || separator(path[at - 1])
    &&& plain_name(path.skip(at))
}

proof fn lemma_path_with_a_name(path: Seq<char>, at: int, style: PathStyle)
    requires
        ends_in_name(path, at),
    ensures
        last_name(path, style) == Some(last_component(path, style)),
        last_component(path, style).len() >= path.len() - at,
{
    let tail = path.skip(at);
    let component = last_component(path, style);
    let start = path.len() - component.len();
    lemma_last_component(path, style);
    assert forall|i: int| at <= i < path.len() implies !separator(#[trigger] path[i]) by {
        assert(tail[i - at] == path[i]);
    }
    if start > at {
        assert(style.separates(path[start - 1]));
    }
    assert(!style.separates(path.last())) by {
        assert(path.last() == path[path.len() - 1]);
    }
    reveal_strlit(".");
    reveal_strlit("..");
    if component.len() == tail.len() {
        assert(component =~= tail);
    } else if component == ".."@ {
        assert(path[at - 1] == component[at - 1 - start]);
    }
}

/// A path that ends in a name has a file name, which ends in that name, on every machine.
pub proof fn law_path_that_ends_in_a_name_has_one(
    path: Seq<char>,
    file_name: Option<String>,
    at: int,
)
    requires
        names(path, file_name),
        ends_in_name(path, at),
    ensures
        file_name matches Some(name) && {
            let start = path.len() - name@.len();
            &&& 0 <= start <= at
            &&& name@ == path.skip(start)
        },
{
    lemma_path_with_a_name(path, at, PathStyle::Slash);
    lemma_path_with_a_name(path, at, PathStyle::Backslash);
    lemma_path_with_a_name(path, at, PathStyle::Both);
    lemma_last_component(path, PathStyle::Slash);
    lemma_last_component(path, PathStyle::Backslash);
    lemma_last_component(path, PathStyle::Both);
}

/// A path that is the plain name of a file names that file, on every machine.
pub proof fn law_plain_name_is_kept(path: Seq<char>, file_name: Option<String>)
    requires
        names(path, file_name),
        plain_name(path),
        without_colon(path),
    ensures
        file_name matches Some(name) && name@ == path,
{
    assert(path.skip(0) =~= path);
    assert(ends_in_name(path, 0));
    law_path_that_ends_in_a_name_has_one(path, file_name, 0);
}

/// On a machine that parts paths by slashes, a path that leads to a file by slashes names what
/// follows the last of them.
pub proof fn law_name_follows_the_last_slash(path: Seq<char>, at: int)
    requires
        ends_in_name(path, at),
        forall|i: int| 0 <= i < path.len() ==> #[trigger] path[i] != '\\',
    ensures
        last_name(path, PathStyle::Slash) == Some(path.skip(at)),
        last_name(path, PathStyle::Both) == Some(path.skip(at)),
{
    lemma_path_with_a_name(path, at, PathStyle::Slash);
    lemma_path_with_a_name(path, at, PathStyle::Both);
    lemma_last_component(path, PathStyle::Slash);
    lemma_last_component(path, PathStyle::Both);
}

/// The directory itself and its parent have no file name, on any machine.
pub proof fn law_directories_without_a_name(path: Seq<char>, file_name: Option<String>)
    requires
        names(path, file_name),
        path == ".."@ || path == "."@ || path.len() == 0,
    ensures
        file_name is None,
{
    reveal_strlit(".");
    reveal_strlit("..");
    if let Some(name) = file_name {
        let at = choose|at: int| stands_last(name@, path, at);
        let end = at + name@.len();
        if end < path.len() {
            assert(separator(path[end]));
        }
        if at > 0 {
            assert(separator(path[at - 1]));
        }
        assert(name@ =~= path);
    }
}

/// What the file system says of a path.
#[derive(Debug, Clone, Copy, PartialEq, Eq, Structural)]
pub struct FileStat {
    pub is_file: bool,
    pub len: u64,
}

/// The failure of a path without a file name.
pub open spec fn no_file_name(field_name: Seq<char>) -> FailureText {
    refusal(field_name + " must contain a valid UTF-8 file name"@)
}

/// The failure of a file whose size is not the expected one.
pub open spec fn size_mismatch(field_name: Seq<char>, expected: nat, found: nat) -> FailureText {
    refusal(
        field_name + " size mismatch: expected "@ + decimal(expected) + ", got "@ + decimal(found),
    )
}

/// What is wrong with what the file system says of a path.
pub open spec fn stat_problem(
    path: Seq<char>,
    stat: Result<FileStat, String>,
    expected_size: u64,
    field_name: Seq<char>,
) -> Option<FailureText> {
    match stat {
        Err(debug) => Some(
            refusal_because("Could not stat "@ + field_name + ": "@ + path, debug@),
        ),
        Ok(stat) => if !stat.is_file {
            Some(refusal(field_name + " must point to a file: "@ + path))
        } else if stat.len != expected_size {
            Some(size_mismatch(field_name, expected_size as nat, stat.len as nat))
        } else {
            None
        },
    }
}

/// What is wrong with what was read from a file.
pub open spec fn contents_problem(
    path: Seq<char>,
    contents: Result<Vec<u8>, String>,
    expected_size: u64,
    field_name: Seq<char>,
) -> Option<FailureText> {
    match contents {
        Err(debug) => Some(
            refusal_because("Could not read "@ + field_name + ": "@ + path, debug@),
        ),
        Ok(data) => if data@.len() != expected_size {
            Some(size_mismatch(field_name, expected_size as nat, data@.len()))
        } else {
            None
        },
    }
}

fn size_mismatch_error(field_name: &str, expected: u64, found: u64) -> (r: UploadedImageError)
    ensures
        r@ == size_mismatch(field_name@, expected as nat, found as nat),
{
    let start = join4(
        field_name,
        " size mismatch: expected ",
        decimal_text(expected).as_str(),
        ", got ",
    );
    UploadedImageError::validation(join2(start.as_str(), decimal_text(found).as_str()), None)
}

/// Takes the file name of a path.
pub fn require_file_name(file_name: Option<String>, field_name: &str) -> (r: Result<
    String,
    UploadedImageError,
>)
    ensures
        match (r, file_name) {
            (Ok(kept), Some(name)) => kept == name,
            (Err(error), None) => error@ == no_file_name(field_name@),
            _ => false,
        },
{
    match file_name {
        Some(name) => Ok(name),
        None => Err(
            UploadedImageError::validation(
                join2(field_name, " must contain a valid UTF-8 file name"),
                None,
            ),
        ),
    }
}

/// Accepts what the file system says of a path: it must be a file of the expected size.
pub fn validate_local_media_file(
    path: &str,
    stat: Result<FileStat, String>,
    expected_size: u64,
    field_name: &str,
) -> (r: Result<(), UploadedImageError>)
    ensures
        match r {
            Ok(_) => stat_problem(path@, stat, expected_size, field_name@) is None,
            Err(error) => stat_problem(path@, stat, expected_size, field_name@) == Some(error@),
        },
{
    match stat {
        Err(debug) => Err(
            UploadedImageError::validation(
                join4("Could not stat ", field_name, ": ", path),
                Some(debug),
            ),
        ),
        Ok(stat) => if !stat.is_file {
            Err(
                UploadedImageError::validation(
                    join2(join2(field_name, " must point to a file: ").as_str(), path),
                    None,
                ),
            )
        } else if stat.len != expected_size {
            Err(size_mismatch_error(field_name, expected_size, stat.len))
        } else {
            Ok(())
        },
    }
}

/// Accepts what was read from a file: it must be of the expected size.
pub fn read_local_media_file(
    path: &str,
    contents: Result<Vec<u8>, String>,
    expected_size: u64,
    field_name: &str,
) -> (r: Result<Vec<u8>, UploadedImageError>)
    ensures
        match r {
            Ok(data) => contents == Ok::<Vec<u8>, String>(data) && contents_problem(
                path@,
                contents,
                expected_size,
                field_name@,
            ) is None,
            Err(error) => contents_problem(path@, contents, expected_size, field_name@) == Some(
                error@,
            ),
        },
{
    match contents {
        Err(debug) => Err(
            UploadedImageError::validation(
                join4("Could not read ", field_name, ": ", path),
                Some(debug),
            ),
        ),
        Ok(data) => {
            let found: u64 = data.len() as u64;
            if found != expected_size {
                Err(size_mismatch_error(field_name, expected_size, found))
            } else {
                Ok(data)
            }
        },
    }
}

/// A file is accepted exactly if the file system knows it as one and it has the size that was expected.
pub proof fn law_only_files_of_the_expected_size_are_accepted(
    path: &str,
    stat: Result<FileStat, String>,
    expected_size: u64,
    field_name: &str,
    r: Result<(), UploadedImageError>,
)
    requires
        call_ensures(validate_local_media_file, (path, stat, expected_size, field_name), r),
    ensures
        r is Ok <==> (stat matches Ok(found) && found.is_file && found.len == expected_size),
{
}

/// What was read is handed on as it is, exactly if it has the size that was expected.
pub proof fn law_only_contents_of_the_expected_size_are_accepted(
    path: &str,
    contents: Result<Vec<u8>, String>,
    expected_size: u64,
    field_name: &str,
    r: Result<Vec<u8>, UploadedImageError>,
)
    requires
        call_ensures(read_local_media_file, (path, contents, expected_size, field_name), r),
    ensures
        r is Ok <==> (contents matches Ok(data) && data@.len() == expected_size),
        r matches Ok(data) ==> contents == Ok::<Vec<u8>, String>(data),
{
}

/// A path is kept as it is, and its name is the one that the path gives.
pub proof fn law_path_is_kept(path: String, r: LocalPath)
    requires
        call_ensures(LocalPath::new, (path,), r),
    ensures
        r.path == path,
        r.file_name matches Some(name) ==> name@.len() > 0 && name@ != "."@ && name@ != ".."@,
{
}

/// The name of a file is handed on as it is, and a path without one is refused.
pub proof fn law_file_name_is_required(
    file_name: Option<String>,
    field_name: &str,
    r: Result<String, UploadedImageError>,
)
    requires
        call_ensures(require_file_name, (file_name, field_name), r),
    ensures
        match (file_name, r) {
            (Some(name), Ok(kept)) => kept == name,
            (None, Err(error)) => error@ == (FailureText::Validation {
                msg: field_name@ + " must contain a valid UTF-8 file name"@,
                details: None,
            }),
            _ => false,
        },
{
}

} // verus!
