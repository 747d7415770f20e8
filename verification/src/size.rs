//! Total on-disk size of a filesystem entry: a regular file counts its
//! byte length, a directory the sum over its entries, computed in parallel
//! across siblings, and anything else zero. The only hard failure is on
//! the queried path itself; every failure further down contributes zero.

use rayon::iter::IntoParallelRefIterator;
use rayon::iter::ParallelIterator;
use vstd::prelude::*;

use crate::human;

verus! {

/// One entry of a directory tree, as the filesystem reported it without
/// following symbolic links: a regular file with its byte length, a
/// directory with its listing, something of another kind (symlink,
/// socket, device), or an entry whose metadata or listing could not
/// be read.
#[derive(Debug)]
pub enum Entry {
    File { len: u64 },
    Dir { entries: Vec<Entry> },
    Other,
    Inaccessible,
}

/// The error for a path that could not be measured at all, carrying the
/// underlying cause as text.
#[derive(Debug)]
pub struct IoError {
    pub message: String,
}

/// What probing the queried path itself reported: the metadata query
/// failed, or the path is a regular file, a directory together with the
/// outcome of listing it, or an entry of another kind.
#[derive(Debug)]
pub enum Probe {
    StatFailed { error: IoError },
    File { len: u64 },
    Dir { listing: Result<Vec<Entry>, IoError> },
    Other,
}

/// Total byte size of one entry: a file counts its length, a directory
/// the sum over its entries, anything else zero.
pub open spec fn size_of_entry(e: Entry) -> nat
    decreases e,
{
    match e {
        Entry::File { len } => len as nat,
        Entry::Dir { entries } => size_of_entries(entries@),
        Entry::Other => 0,
        Entry::Inaccessible => 0,
    }
}

/// Sum of the sizes of a sequence of entries.
pub open spec fn size_of_entries(s: Seq<Entry>) -> nat
    decreases s,
{
    if s.len() == 0 {
        0
    } else {
        size_of_entry(s[0]) + size_of_entries(s.drop_first())
    }
}

/// A mathematical count clipped to what a `u64` can hold.
pub open spec fn clamp_u64(n: nat) -> u64 {
    if n > u64::MAX as nat {
        u64::MAX
    } else {
        n as u64
    }
}

/// Addition that stops at the largest representable value.
fn saturating_add_u64(a: u64, b: u64) -> (r: u64)
    ensures
        r == clamp_u64(a as nat + b as nat),
{
    if a <= u64::MAX - b {
        a + b
    } else {
        u64::MAX
    }
}

/// Relies on rayon's `par_iter`, `map` and `reduce` (rayon 1.12):
/// `map` applies `size_of_tree` to every entry of the slice, and
/// `reduce`, given an associative operator with its true identity,
/// combines the mapped values into the same total a sequential fold
/// would give, whatever grouping and order the scheduler picks —
/// saturating addition on unsigned integers is associative and
/// commutative with identity zero.
#[verifier::external_body]
fn par_entries_size(entries: &Vec<Entry>) -> (r: u64)
    ensures
        r == clamp_u64(size_of_entries(entries@)),
{
    entries.par_iter().map(size_of_tree).reduce(|| 0u64, saturating_add_u64)
}

/// Total size of one directory entry; a directory is summed in parallel
/// across its immediate entries, and each failed or non-file,
/// non-directory entry counts zero. The sum stops at `u64::MAX`.
pub fn size_of_tree(e: &Entry) -> (r: u64)
    ensures
        r == clamp_u64(size_of_entry(*e)),
{
    match e {
        Entry::File { len } => *len,
        Entry::Dir { entries } => par_entries_size(entries),
        Entry::Other => 0,
        Entry::Inaccessible => 0,
    }
}

/// The size that measuring a probed path yields: a hard error exactly
/// when the path itself could not be queried or, for a directory, its
/// own listing could not be read; every failure further down has already
/// been absorbed as an `Inaccessible` entry counting zero.
pub open spec fn spec_size_of_probe(p: Probe) -> Result<u64, IoError> {
    match p {
        Probe::StatFailed { error } => Err(error),
        Probe::File { len } => Ok(len),
        Probe::Dir { listing } => match listing {
            Ok(entries) => Ok(clamp_u64(size_of_entries(entries@))),
            Err(error) => Err(error),
        },
        Probe::Other => Ok(0),
    }
}

/// The size in bytes of the probed path: a regular file is its reported
/// length, a directory the parallel recursive sum over its tree, and any
/// other kind of entry zero. Fails exactly when the path itself could not
/// be queried or its own listing could not be read, with that cause.
pub fn get_size_in_bytes(probe: Probe) -> (r: Result<u64, IoError>)
    ensures
        r == spec_size_of_probe(probe),
{
    match probe {
        Probe::StatFailed { error } => Err(error),
        Probe::File { len } => Ok(len),
        Probe::Dir { listing } => match listing {
            Ok(entries) => Ok(par_entries_size(&entries)),
            Err(error) => Err(error),
        },
        Probe::Other => Ok(0),
    }
}

/// The size of the probed path rendered with full unit labels
/// (`Bytes`, `KiB`, ...); fails exactly as `get_size_in_bytes` does,
/// with the same cause.
pub fn get_size_in_human_bytes(probe: Probe) -> (r: Result<String, IoError>)
    ensures
        (match (r, spec_size_of_probe(probe)) {
            (Ok(text), Ok(n)) => text@ == human::spec_human_bytes(n, false),
            (Err(e), Err(cause)) => e == cause,
            _ => false,
        }),
{
    match get_size_in_bytes(probe) {
        Ok(n) => Ok(human::convert_to_human_bytes(n, false)),
        Err(e) => Err(e),
    }
}

/// The size of the probed path rendered with abbreviated unit labels
/// (`B`, `K`, ...); fails exactly as `get_size_in_bytes` does, with the
/// same cause.
pub fn get_size_in_abbr_human_bytes(probe: Probe) -> (r: Result<String, IoError>)
    ensures
        (match (r, spec_size_of_probe(probe)) {
            (Ok(text), Ok(n)) => text@ == human::spec_human_bytes(n, true),
            (Err(e), Err(cause)) => e == cause,
            _ => false,
        }),
{
    match get_size_in_bytes(probe) {
        Ok(n) => Ok(human::convert_to_human_bytes(n, true)),
        Err(e) => Err(e),
    }
}

/// Each entry contributes its own size exactly once, wherever it stands
/// in the listing; the rest of the listing contributes the same total
/// with or without it.
pub proof fn lemma_entry_contribution(s: Seq<Entry>, i: int)
    requires
        0 <= i < s.len(),
    ensures
        size_of_entries(s) == size_of_entry(s[i]) + size_of_entries(s.remove(i)),
    decreases s.len(),
{
    if i == 0 {
        assert(s.remove(0) =~= s.drop_first());
    } else {
        lemma_entry_contribution(s.drop_first(), i - 1);
        assert(s.remove(i).drop_first() =~= s.drop_first().remove(i - 1));
        assert(s.remove(i)[0] == s[0]);
    }
}

/// An entry that cannot be read, or is neither a regular file nor a
/// directory, contributes nothing: dropping it from a listing leaves
/// the measured size unchanged.
pub proof fn lemma_zero_entry_removed(s: Seq<Entry>, i: int)
    requires
        0 <= i < s.len(),
        s[i] is Inaccessible || s[i] is Other,
    ensures
        size_of_entries(s) == size_of_entries(s.remove(i)),
{
    lemma_entry_contribution(s, i);
}

/// Sum of the reported lengths of the regular files in a listing,
/// counting entries of any other kind as zero.
pub open spec fn sum_of_file_lens(s: Seq<Entry>) -> nat
    decreases s,
{
    if s.len() == 0 {
        0
    } else {
        (match s[0] {
            Entry::File { len } => len as nat,
            _ => 0,
        }) + sum_of_file_lens(s.drop_first())
    }
}

/// A directory holding only regular files measures as the sum of their
/// lengths.
pub proof fn lemma_files_additive(s: Seq<Entry>)
    requires
        forall|i: int| 0 <= i < s.len() ==> s[i] is File,
    ensures
        size_of_entries(s) == sum_of_file_lens(s),
    decreases s.len(),
{
    if s.len() > 0 {
        assert(s[0] is File);
        assert(forall|i: int| 0 <= i < s.drop_first().len() ==> #[trigger] s.drop_first()[i]
            == s[i + 1]);
        lemma_files_additive(s.drop_first());
        assert(size_of_entries(s) == size_of_entry(s[0]) + size_of_entries(s.drop_first()));
        assert(sum_of_file_lens(s) == (match s[0] {
            Entry::File { len } => len as nat,
            _ => 0,
        }) + sum_of_file_lens(s.drop_first()));
    }
}

/// The order of a listing never matters: two listings holding the same
/// entries the same number of times measure the same total, so any
/// traversal order and any parallel schedule yield one sum.
pub proof fn lemma_order_irrelevant(a: Seq<Entry>, b: Seq<Entry>)
    requires
        a.to_multiset() == b.to_multiset(),
    ensures
        size_of_entries(a) == size_of_entries(b),
    decreases a.len(),
{
    broadcast use vstd::seq_lib::group_to_multiset_ensures;

    if a.len() == 0 {
        assert(b.to_multiset().len() == 0);
        assert(b.len() == 0);
    } else {
        assert(a.contains(a[0]));
        assert(b.to_multiset().count(a[0]) > 0);
        assert(b.contains(a[0]));
        assert(exists|i: int| 0 <= i < b.len() && b[i] == a[0]);
        let j = choose|i: int| 0 <= i < b.len() && b[i] == a[0];
        lemma_entry_contribution(b, j);
        assert(a.remove(0).to_multiset() =~= a.to_multiset().remove(a[0]));
        assert(b.remove(j).to_multiset() =~= b.to_multiset().remove(b[j]));
        assert(a.remove(0) =~= a.drop_first());
        lemma_order_irrelevant(a.drop_first(), b.remove(j));
    }
}

} // verus!
