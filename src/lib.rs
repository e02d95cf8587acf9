//! A number that is unique to the calling thread.
//!
//! Each operating system hands out its own kind of thread identity: an opaque
//! handle on POSIX systems, a 32-bit kernel id on Windows, a process id on
//! Redox and a 64-bit id from the runtime on the Switch. This library turns any
//! of them into one uniform value, an unsigned integer as wide as a machine
//! word, and proves that the conversion keeps apart what the OS keeps apart.
//!
//! Reading the identity itself is a platform call that the application makes;
//! it passes the raw value to [`get`].
use vstd::arithmetic::div_mod::lemma_small_mod;
use vstd::prelude::*;

verus! {

/// The machine-word value that a raw thread identity stands for: its low bits,
/// as many as a `usize` holds.
pub open spec fn word_of(raw: u64) -> int {
    raw as int % (usize::MAX as int + 1)
}

/// Returns the thread identifier, a machine word, for the raw identity `raw`
/// that the operating system gave the calling thread.
///
/// The raw value is reinterpreted bit for bit, never used as a pointer. Where
/// it fits in a machine word it comes back unchanged; on a target whose word
/// is narrower than 64 bits only its low bits are kept.
pub fn get(raw: u64) -> (id: usize)
    ensures
        id as int == word_of(raw),
        raw as int <= usize::MAX as int ==> id as int == raw as int,
{
    if raw <= usize::MAX as u64 {
        proof {
            lemma_small_mod(raw as nat, usize::MAX as nat + 1);
        }
        raw as usize
    } else {
        (raw % (usize::MAX as u64 + 1)) as usize
    }
}

/// Two calls on the same raw identity, as a thread makes on each of its
/// calls, give the same identifier.
pub proof fn lemma_same_thread_same_id(a: u64, b: u64)
    requires
        a == b,
    ensures
        word_of(a) == word_of(b),
{
}

/// Two threads whose raw identities differ and fit in a machine word, as the
/// operating system's do among threads that are live at once, get different
/// identifiers.
pub proof fn lemma_distinct_threads_distinct_ids(a: u64, b: u64)
    requires
        a != b,
        a as int <= usize::MAX as int,
        b as int <= usize::MAX as int,
    ensures
        word_of(a) != word_of(b),
{
    lemma_small_mod(a as nat, usize::MAX as nat + 1);
    lemma_small_mod(b as nat, usize::MAX as nat + 1);
}

/// Every identifier fits in a machine word, and a 32-bit identity, such as a
/// Windows thread id, comes back unchanged on every target.
pub proof fn lemma_word_width(raw: u64, narrow: u32)
    ensures
        0 <= word_of(raw) <= usize::MAX as int,
        word_of(narrow as u64) == narrow as int,
{
    lemma_small_mod(narrow as nat, usize::MAX as nat + 1);
}

/// Raw identities that are pairwise distinct and fit in a machine word, as
/// those of threads that call at once, give identifiers that are pairwise
/// distinct too.
pub proof fn lemma_concurrent_ids_pairwise_distinct(raws: Seq<u64>)
    requires
        forall|i: int, j: int| 0 <= i < j < raws.len() ==> raws[i] != raws[j],
        forall|i: int| 0 <= i < raws.len() ==> raws[i] as int <= usize::MAX as int,
    ensures
        forall|i: int, j: int|
            0 <= i < j < raws.len() ==> #[trigger] word_of(raws[i]) != #[trigger] word_of(raws[j]),
{
    assert forall|i: int, j: int| 0 <= i < j < raws.len() implies word_of(raws[i]) != word_of(
        raws[j],
    ) by {
        lemma_distinct_threads_distinct_ids(raws[i], raws[j]);
    }
}

} // verus!
