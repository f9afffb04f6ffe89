//! Names of the files that a backup writes into its output directory.
//!
//! Each list gives three files, `<uuid>_list.json`, `<uuid>_fields.json` and
//! `<uuid>_items.json`, all keyed by the list's UUID; each run gives one
//! `summary_<millis>.json`.

use vstd::prelude::*;

verus! {

/// The three per-list files.
#[derive(Clone, Copy, Debug, PartialEq, Eq, Structural)]
pub enum ArtifactKind {
    /// The list's metadata record.
    List,
    /// The list's field definitions.
    Fields,
    /// The list's complete entry collection.
    Items,
}

/// What follows the UUID in the name of each per-list file.
pub open spec fn kind_suffix(kind: ArtifactKind) -> Seq<char> {
    match kind {
        ArtifactKind::List => seq!['_', 'l', 'i', 's', 't', '.', 'j', 's', 'o', 'n'],
        ArtifactKind::Fields => seq!['_', 'f', 'i', 'e', 'l', 'd', 's', '.', 'j', 's', 'o', 'n'],
        ArtifactKind::Items => seq!['_', 'i', 't', 'e', 'm', 's', '.', 'j', 's', 'o', 'n'],
    }
}

/// Path of the per-list file of `kind` for the list with `uuid`, under
/// directory `output`.
pub open spec fn artifact_file(output: Seq<char>, uuid: Seq<char>, kind: ArtifactKind) -> Seq<
    char,
> {
    output + seq!['/'] + uuid + kind_suffix(kind)
}

/// The decimal digit `d`, for `d < 10`.
pub open spec fn digit_char(d: nat) -> char {
    seq!['0', '1', '2', '3', '4', '5', '6', '7', '8', '9'][d as int]
}

/// Decimal notation of `n`, without leading zeros.
pub open spec fn decimal(n: nat) -> Seq<char>
    decreases n,
{
    if n < 10 {
        seq![digit_char(n)]
    } else {
        decimal(n / 10).push(digit_char(n % 10))
    }
}

/// Path of the run manifest written at `tstamp` milliseconds since the epoch.
pub open spec fn summary_file(output: Seq<char>, tstamp: nat) -> Seq<char> {
    output + seq!['/', 's', 'u', 'm', 'm', 'a', 'r', 'y', '_'] + decimal(tstamp) + seq![
        '.',
        'j',
        's',
        'o',
        'n',
    ]
}

/// Builds the path of a per-list file.
pub fn artifact_path(output: &str, uuid: &str, kind: ArtifactKind) -> (r: String)
    ensures
        r@ == artifact_file(output@, uuid@, kind),
{
    let suffix = match kind {
        ArtifactKind::List => "_list.json",
        ArtifactKind::Fields => "_fields.json",
        ArtifactKind::Items => "_items.json",
    };
    proof {
        reveal_strlit("/");
        reveal_strlit("_list.json");
        reveal_strlit("_fields.json");
        reveal_strlit("_items.json");
        assert(suffix@ =~= kind_suffix(kind));
    }
    let r = String::from_str(output).concat("/").concat(uuid).concat(suffix);
    proof {
        assert(r@ =~= artifact_file(output@, uuid@, kind));
    }
    r
}

/// Decimal notation of `n`.
pub fn decimal_string(n: u64) -> (r: String)
    ensures
        r@ == decimal(n as nat),
    decreases n,
{
    let digits = "0123456789";
    proof {
        reveal_strlit("0123456789");
        assert(digits@ =~= seq!['0', '1', '2', '3', '4', '5', '6', '7', '8', '9']);
    }
    if n < 10 {
        let d = n as usize;
        let r = String::from_str(digits.substring_char(d, d + 1));
        proof {
            assert(r@ =~= decimal(n as nat));
        }
        r
    } else {
        let d = (n % 10) as usize;
        let head = decimal_string(n / 10);
        let r = head.concat(digits.substring_char(d, d + 1));
        proof {
            assert(r@ =~= decimal(n as nat));
        }
        r
    }
}

/// Builds the path of the run manifest.
pub fn summary_path(output: &str, tstamp: u64) -> (r: String)
    ensures
        r@ == summary_file(output@, tstamp as nat),
{
    let stamp = decimal_string(tstamp);
    let r = String::from_str(output).concat("/summary_").concat(stamp.as_str()).concat(".json");
    proof {
        reveal_strlit("/summary_");
        reveal_strlit(".json");
        assert(r@ =~= summary_file(output@, tstamp as nat));
    }
    r
}

/// The three files of one list are named from the same UUID: in each of
/// them the UUID stands right after the directory and its separator, and no
/// two of them share a name.
pub proof fn lemma_artifacts_share_uuid(output: Seq<char>, uuid: Seq<char>)
    ensures
        forall|kind: ArtifactKind|
            (#[trigger] artifact_file(output, uuid, kind)).subrange(
                output.len() + 1 as int,
                output.len() + 1 + uuid.len() as int,
            ) == uuid,
        artifact_file(output, uuid, ArtifactKind::List) != artifact_file(
            output,
            uuid,
            ArtifactKind::Fields,
        ),
        artifact_file(output, uuid, ArtifactKind::List) != artifact_file(
            output,
            uuid,
            ArtifactKind::Items,
        ),
        artifact_file(output, uuid, ArtifactKind::Fields) != artifact_file(
            output,
            uuid,
            ArtifactKind::Items,
        ),
{
    assert forall|kind: ArtifactKind|
        (#[trigger] artifact_file(output, uuid, kind)).subrange(
            output.len() + 1 as int,
            output.len() + 1 + uuid.len() as int,
        ) == uuid by {
        assert(artifact_file(output, uuid, kind).subrange(
            output.len() + 1 as int,
            output.len() + 1 + uuid.len() as int,
        ) =~= uuid);
    }
    let at = output.len() + 1 + uuid.len() + 1 as int;
    assert(artifact_file(output, uuid, ArtifactKind::List)[at] == 'l');
    assert(artifact_file(output, uuid, ArtifactKind::Fields)[at] == 'f');
    assert(artifact_file(output, uuid, ArtifactKind::Items)[at] == 'i');
}

} // verus!
