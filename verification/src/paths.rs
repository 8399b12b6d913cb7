//! File names that are derived from other file names.

use vstd::prelude::*;

verus! {

/// What `Path::with_extension` returns, as text, on the platform that the library is built for.
pub uninterp spec fn path_with_extension(path: Seq<char>, extension: Seq<char>) -> Seq<char>;

/// Whether `c` separates the parts of a path, on some platform.
pub open spec fn is_separator(c: char) -> bool {
    c == '/' || c == '\\' || c == ':'
}

/// Whether `stem` ends in a non-empty piece of a file name that a further dot and extension leave a
/// file name. A dot at the end could make up one of the names `.` and `..`, and two separators in
/// front may stand for a network share or a device; none of these is a file name.
pub open spec fn ends_in_name(stem: Seq<char>) -> bool {
    &&& stem.len() > 0
    &&& stem.last() != '.'
    &&& !is_separator(stem.last())
    &&& stem.len() > 1 ==> !(is_separator(stem[0]) && is_separator(stem[1]))
}

/// Whether `extension` can be the extension of a file name.
pub open spec fn is_extension(extension: Seq<char>) -> bool {
    &&& extension.len() > 0
    &&& forall|i: int| 0 <= i < extension.len() ==> extension[i] != '.' && !is_separator(#[trigger] extension[i])
}

/// Calls `Path::with_extension`.
///
/// The result is a function of the two texts, on the platform that the library is built for. Where
/// the path's file name has an extension and does not end in a dot before it, that extension is
/// replaced and the rest of the path stays.
#[verifier::external_body]
fn with_extension(path: &str, extension: &str) -> (renamed: String)
    requires
        extension@.len() > 0,
        forall|i: int| 0 <= i < extension@.len() ==> !is_separator(#[trigger] extension@[i]),
    ensures
        renamed@ == path_with_extension(path@, extension@),
        forall|stem: Seq<char>, replaced: Seq<char>|
            ends_in_name(stem) && is_extension(replaced) && path@ == #[trigger] (stem + seq!['.'] + replaced)
                ==> renamed@ == stem + seq!['.'] + extension@,
{
    std::path::Path::new(path).with_extension(extension).to_string_lossy().into_owned()
}

/// The file that a new desired state is written to before it takes the place of the one at
/// `path`: the same name, but for the extension `json.tmp`.
pub fn temp_path(path: &str) -> (temp: String)
    ensures
        temp@ == path_with_extension(path@, "json.tmp"@),
        forall|stem: Seq<char>|
            ends_in_name(stem) && path@ == #[trigger] (stem + ".json"@) ==> temp@ == path@ + ".tmp"@,
{
    proof {
        reveal_strlit("json.tmp");
        reveal_strlit(".json");
        reveal_strlit(".tmp");
        reveal_strlit("json");
    }
    let temp = with_extension(path, "json.tmp");
    proof {
        assert("json.tmp"@ == "json"@ + ".tmp"@);
        lemma_json_suffix(path@, "json.tmp"@, ".tmp"@, temp@);
    }
    temp
}

/// The name under which a desired state left at `path` by an earlier installation is set aside:
/// the same name, but for the extension `json.legacy.bak`.
pub fn legacy_backup_path(path: &str) -> (backup: String)
    ensures
        backup@ == path_with_extension(path@, "json.legacy.bak"@),
        forall|stem: Seq<char>|
            ends_in_name(stem) && path@ == #[trigger] (stem + ".json"@) ==> backup@ == path@ + ".legacy.bak"@,
{
    proof {
        reveal_strlit("json.legacy.bak");
        reveal_strlit(".json");
        reveal_strlit(".legacy.bak");
        reveal_strlit("json");
    }
    let backup = with_extension(path, "json.legacy.bak");
    proof {
        assert("json.legacy.bak"@ == "json"@ + ".legacy.bak"@);
        lemma_json_suffix(path@, "json.legacy.bak"@, ".legacy.bak"@, backup@);
    }
    backup
}

/// Replacing the extension `json` by one that continues it appends what continues it.
proof fn lemma_json_suffix(path: Seq<char>, extension: Seq<char>, added: Seq<char>, renamed: Seq<char>)
    requires
        extension == "json"@ + added,
        forall|stem: Seq<char>, replaced: Seq<char>|
            ends_in_name(stem) && is_extension(replaced) && path == #[trigger] (stem + seq!['.'] + replaced)
                ==> renamed == stem + seq!['.'] + extension,
    ensures
        forall|stem: Seq<char>|
            ends_in_name(stem) && path == #[trigger] (stem + ".json"@) ==> renamed == path + added,
{
    reveal_strlit(".json");
    reveal_strlit("json");
    assert forall|stem: Seq<char>|
        ends_in_name(stem) && path == #[trigger] (stem + ".json"@) implies renamed == path + added by {
        assert(stem + ".json"@ == stem + seq!['.'] + "json"@);
        assert(is_extension("json"@));
        assert(stem + seq!['.'] + extension == path + added);
    }
}

} // verus!
