//! Where a compressed copy is written: beside its original, under a name
//! made from the original's.
use vstd::prelude::*;

use crate::paths::{
    path_exists, path_extension, path_file_stem, path_join, path_parent, spec_path_extension,
    spec_path_file_stem, spec_path_join, spec_path_parent,
};
use crate::text::{concat2, decimal_string, owned, spec_decimal};

verus! {

/// The value held by `o`, or `default` when there is none.
pub open spec fn or_default(o: Option<Seq<char>>, default: Seq<char>) -> Seq<char> {
    match o {
        Some(v) => v,
        None => default,
    }
}

/// The directory a path lies in, the empty path when it has none.
pub open spec fn parent_or_empty(path: Seq<char>) -> Seq<char> {
    or_default(spec_path_parent(path), Seq::empty())
}

/// The stem of a path's file name, `document` when it has none.
pub open spec fn stem_or_document(path: Seq<char>) -> Seq<char> {
    or_default(spec_path_file_stem(path), "document"@)
}

/// The extension of a path's file name, `pdf` when it has none.
pub open spec fn extension_or_pdf(path: Seq<char>) -> Seq<char> {
    or_default(spec_path_extension(path), "pdf"@)
}

/// The path of the compressed copy of `input`: in the same directory, named
/// `{stem}{suffix}.{extension}`.
pub open spec fn output_path_for(input: Seq<char>, suffix: Seq<char>) -> Seq<char> {
    spec_path_join(
        parent_or_empty(input),
        stem_or_document(input) + suffix + "."@ + extension_or_pdf(input),
    )
}

/// The `index`-th alternative to a taken `candidate`: in the same
/// directory, named `{stem}-{index}.{extension}`.
pub open spec fn collision_path_for(candidate: Seq<char>, index: nat) -> Seq<char> {
    spec_path_join(parent_or_empty(candidate), collision_name(candidate, index))
}

/// The file name of the `index`-th alternative to `candidate`:
/// `{stem}-{index}.{extension}`.
pub open spec fn collision_name(candidate: Seq<char>, index: nat) -> Seq<char> {
    stem_or_document(candidate) + "-"@ + spec_decimal(index) + "."@ + extension_or_pdf(candidate)
}

/// Differently numbered alternatives to a path get different file names.
pub proof fn law_collision_names_differ(candidate: Seq<char>, i: nat, j: nat)
    requires
        i != j,
    ensures
        collision_name(candidate, i) != collision_name(candidate, j),
{
    let head = stem_or_document(candidate) + "-"@;
    let tail = "."@ + extension_or_pdf(candidate);
    let di = spec_decimal(i);
    let dj = spec_decimal(j);
    assert(collision_name(candidate, i) =~= head + di + tail);
    assert(collision_name(candidate, j) =~= head + dj + tail);
    if collision_name(candidate, i) == collision_name(candidate, j) {
        let n = head + di + tail;
        assert(di.len() == dj.len());
        assert(n.subrange(head.len() as int, (head.len() + di.len()) as int) =~= di);
        assert((head + dj + tail).subrange(head.len() as int, (head.len() + dj.len()) as int) =~= dj);
        crate::text::lemma_decimal_injective(i, j);
    }
}

fn or_default_string(o: Option<String>, default: &str) -> (r: String)
    ensures
        r@ == or_default(crate::models::opt_view(o), default@),
{
    match o {
        Some(v) => v,
        None => owned(default),
    }
}

/// The path of the compressed copy of `input_path`: beside it, its stem
/// followed by `suffix`, with its extension.
pub fn build_output_path(input_path: &str, suffix: &str) -> (r: String)
    ensures
        r@ == output_path_for(input_path@, suffix@),
{
    let parent = or_default_string(path_parent(input_path), "");
    proof {
        reveal_strlit("");
        assert(""@ =~= Seq::<char>::empty());
    }
    let stem = or_default_string(path_file_stem(input_path), "document");
    let extension = or_default_string(path_extension(input_path), "pdf");
    let mut name = concat2(stem.as_str(), suffix);
    name.append(".");
    name.append(extension.as_str());
    path_join(parent.as_str(), name.as_str())
}

/// The `index`-th alternative to the taken path `candidate`.
pub fn build_collision_path(candidate: &str, index: u64) -> (r: String)
    ensures
        r@ == collision_path_for(candidate@, index as nat),
{
    let parent = or_default_string(path_parent(candidate), "");
    proof {
        reveal_strlit("");
        assert(""@ =~= Seq::<char>::empty());
    }
    let stem = or_default_string(path_file_stem(candidate), "document");
    let extension = or_default_string(path_extension(candidate), "pdf");
    let mut name = concat2(stem.as_str(), "-");
    let digits = decimal_string(index as u128);
    name.append(digits.as_str());
    name.append(".");
    name.append(extension.as_str());
    path_join(parent.as_str(), name.as_str())
}

/// The `index`-th path the collision-safe search tries for `input` and
/// `suffix`: the plain output path at 1, the `index`-th numbered
/// alternative to it from 2 up.
pub open spec fn search_candidate(input: Seq<char>, suffix: Seq<char>, index: nat) -> Seq<char> {
    if index < 2 {
        output_path_for(input, suffix)
    } else {
        collision_path_for(output_path_for(input, suffix), index)
    }
}

/// `is_taken`, asked about `path`, may answer `answer`.
pub open spec fn reported<F: Fn(&str) -> bool>(is_taken: F, path: Seq<char>, answer: bool) -> bool {
    exists|s: &str| s@ == path && #[trigger] is_taken.ensures((s,), answer)
}

/// `p` is the first path of the collision-safe search for `input` and
/// `suffix` that `is_taken` reports free: every earlier path of the search
/// is reported taken.
pub open spec fn is_first_free<F: Fn(&str) -> bool>(
    is_taken: F,
    input: Seq<char>,
    suffix: Seq<char>,
    p: Seq<char>,
) -> bool {
    exists|k: nat|
        {
            &&& 1 <= k <= u64::MAX
            &&& p == #[trigger] search_candidate(input, suffix, k)
            &&& reported(is_taken, p, false)
            &&& forall|j: nat|
                1 <= j < k ==> reported(is_taken, #[trigger] search_candidate(input, suffix, j), true)
        }
}

/// `is_taken` reports every path of the search taken, up to the alternative
/// numbered `u64::MAX`.
pub open spec fn all_reported_taken<F: Fn(&str) -> bool>(
    is_taken: F,
    input: Seq<char>,
    suffix: Seq<char>,
) -> bool {
    forall|j: nat|
        1 <= j <= u64::MAX ==> reported(is_taken, #[trigger] search_candidate(input, suffix, j), true)
}

/// The first path of the search is a possible output path.
pub proof fn lemma_first_free_is_output_choice<F: Fn(&str) -> bool>(
    is_taken: F,
    input: Seq<char>,
    suffix: Seq<char>,
    p: Seq<char>,
)
    requires
        is_first_free(is_taken, input, suffix, p),
    ensures
        p == output_path_for(input, suffix) || exists|index: nat|
            2 <= index && p == collision_path_for(output_path_for(input, suffix), index),
{
    let k = choose|k: nat|
        {
            &&& 1 <= k <= u64::MAX
            &&& p == #[trigger] search_candidate(input, suffix, k)
            &&& reported(is_taken, p, false)
            &&& forall|j: nat|
                1 <= j < k ==> reported(is_taken, #[trigger] search_candidate(input, suffix, j), true)
        };
    if k >= 2 {
        assert(p == collision_path_for(output_path_for(input, suffix), k));
    }
}

/// The first path of the collision-safe search that `is_taken` reports
/// free: the plain output path, else the numbered alternatives from 2 up,
/// in order. `None` when every path up to the alternative numbered
/// `u64::MAX` is reported taken.
pub fn first_free_output_path<F: Fn(&str) -> bool>(
    input_path: &str,
    suffix: &str,
    is_taken: &F,
) -> (r: Option<String>)
    requires
        forall|s: &str| #[trigger] is_taken.requires((s,)),
    ensures
        match r {
            Some(p) => is_first_free(*is_taken, input_path@, suffix@, p@),
            None => all_reported_taken(*is_taken, input_path@, suffix@),
        },
{
    let candidate = build_output_path(input_path, suffix);
    let taken = is_taken(candidate.as_str());
    assert(search_candidate(input_path@, suffix@, 1) == candidate@);
    if !taken {
        assert(reported(*is_taken, candidate@, false));
        return Some(candidate);
    }
    assert(reported(*is_taken, candidate@, true));
    let mut index: u64 = 2;
    loop
        invariant
            2 <= index,
            candidate@ == output_path_for(input_path@, suffix@),
            forall|s: &str| #[trigger] is_taken.requires((s,)),
            forall|j: nat|
                1 <= j < index ==> reported(
                    *is_taken,
                    #[trigger] search_candidate(input_path@, suffix@, j),
                    true,
                ),
        decreases u64::MAX - index,
    {
        let collision_path = build_collision_path(candidate.as_str(), index);
        let taken = is_taken(collision_path.as_str());
        assert(search_candidate(input_path@, suffix@, index as nat) == collision_path@);
        if !taken {
            assert(reported(*is_taken, collision_path@, false));
            return Some(collision_path);
        }
        assert(reported(*is_taken, collision_path@, true));
        if index == u64::MAX {
            return None;
        }
        index = index + 1;
    }
}

/// Whether a file or directory exists at `path` now, as the file system
/// answers; nothing is said of the answer.
pub fn taken_on_disk(path: &str) -> bool {
    path_exists(path)
}

/// A path for the compressed copy of `input_path` that names no existing
/// file at the time it was checked: the first path of the collision-safe
/// search that `taken_on_disk` reports free (the plain output path, else
/// the alternatives numbered from 2 up, in order), every earlier one
/// reported taken. `None` only when every path up to the alternative
/// numbered `u64::MAX` was reported taken.
pub fn build_collision_safe_output_path(input_path: &str, suffix: &str) -> (r: Option<String>)
    ensures
        match r {
            Some(p) => is_first_free(taken_on_disk, input_path@, suffix@, p@),
            None => all_reported_taken(taken_on_disk, input_path@, suffix@),
        },
{
    first_free_output_path(input_path, suffix, &taken_on_disk)
}

/// The folder a file manager is opened on to show `path`: its parent, `.`
/// when it has none.
pub fn folder_to_reveal(path: &str) -> (r: String)
    ensures
        r@ == or_default(spec_path_parent(path@), "."@),
{
    or_default_string(path_parent(path), ".")
}

} // verus!
