//! Sizes of directory trees, summed over a listing that the caller made.

use vstd::prelude::*;
use vstd::string::StringExecFns;

verus! {

/// One entry of a directory listing.
#[derive(Debug, PartialEq, Eq)]
pub enum FsNode {
    /// Anything that is no directory, with the length that its metadata gives.
    File { len: u64 },
    /// A directory with its own entries.
    Dir { entries: Vec<FsNode> },
}

/// Why a size could not be given.
#[derive(Clone, Copy, PartialEq, Eq, Structural, Debug)]
pub enum ScanError {
    /// The total is more than a `u64` holds.
    TotalTooLarge,
}

impl ScanError {
    /// The error in words.
    pub fn message(&self) -> (text: String)
        ensures
            text@ == "the total size is more than 64 bits can hold"@,
    {
        String::from_str("the total size is more than 64 bits can hold")
    }
}

/// The bytes below one entry: a file's length, a directory's total.
pub open spec fn node_total(node: FsNode) -> nat
    decreases node,
{
    match node {
        FsNode::File { len } => len as nat,
        FsNode::Dir { entries } => entries_total(entries@),
    }
}

/// The bytes below all of `entries`.
pub open spec fn entries_total(entries: Seq<FsNode>) -> nat
    decreases entries,
{
    if entries.len() == 0 {
        0
    } else {
        entries_total(entries.drop_last()) + node_total(entries.last())
    }
}

/// A listing as plain values; none where there is no directory.
pub open spec fn listing_of(entries: Option<Vec<FsNode>>) -> Option<Seq<FsNode>> {
    match entries {
        Some(entries) => Some(entries@),
        None => None,
    }
}

/// The total length of all files in a directory and below it, for the
/// directory's listing `entries`. It fails where the total is more than a
/// `u64` holds, and only there.
///
/// A place that is no directory has the empty listing, and so the size 0.
pub fn calculate_directory_size(entries: &Vec<FsNode>) -> (total: Result<u64, ScanError>)
    ensures
        total == if entries_total(entries@) <= u64::MAX {
            Ok::<u64, ScanError>(entries_total(entries@) as u64)
        } else {
            Err::<u64, ScanError>(ScanError::TotalTooLarge)
        },
    decreases entries,
{
    let mut sum: u64 = 0;
    let mut i: usize = 0;
    while i < entries.len()
        invariant
            i <= entries.len(),
            sum == entries_total(entries@.take(i as int)),
        decreases entries.len() - i,
    {
        let below = match &entries[i] {
            FsNode::File { len } => Ok(*len),
            FsNode::Dir { entries: inner } => calculate_directory_size(inner),
        };
        proof {
            let node = entries@[i as int];
            assert(below == if node_total(node) <= u64::MAX {
                Ok::<u64, ScanError>(node_total(node) as u64)
            } else {
                Err::<u64, ScanError>(ScanError::TotalTooLarge)
            });
            assert(entries@.take(i + 1).drop_last() =~= entries@.take(i as int));
            assert(entries@.take(i + 1).last() == node);
            assert(entries_total(entries@.take(i + 1)) == sum + node_total(node));
            lemma_total_grows(entries@, i + 1);
        }
        match below {
            Ok(n) => match sum.checked_add(n) {
                Some(s) => {
                    sum = s;
                },
                None => {
                    return Err(ScanError::TotalTooLarge);
                },
            },
            Err(e) => {
                return Err(e);
            },
        }
        i += 1;
    }
    assert(entries@.take(i as int) =~= entries@);
    Ok(sum)
}

/// The total of a listing is at least the total of each of its beginnings.
pub proof fn lemma_total_grows(entries: Seq<FsNode>, n: int)
    requires
        0 <= n <= entries.len(),
    ensures
        entries_total(entries.take(n)) <= entries_total(entries),
    decreases entries.len() - n,
{
    if n < entries.len() {
        assert(entries.take(n + 1).drop_last() =~= entries.take(n));
        lemma_total_grows(entries, n + 1);
    } else {
        assert(entries.take(n) =~= entries);
    }
}

} // verus!
