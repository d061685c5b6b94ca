//! State model shared by both lock engines.
//!
//! The readers-writer lock packs its whole state into one `usize` word so
//! that every transition is a single read-modify-write step:
//!
//! * bit 0 ([`EXCLUSIVE`]) is set iff a writer holds exclusive access;
//! * bit 1 ([`UPGRADABLE`]) is set iff one upgradable-shared holder exists;
//! * the bits above ([`SHARED`] units of 4) count the shared holders.
//!
//! The exclusive-only mutex needs just one boolean flag.
//!
//! This module defines the meaning of a word, the enabling condition and
//! effect of every transition, and proves the laws the engines obey: the
//! mutual-exclusion invariants, that acquisitions paired with their inverse
//! releases return the word to where it started, and how the modes block
//! one another.

use vstd::prelude::*;

verus! {

/// Step added to the state word for each shared holder.
pub const SHARED: usize = 4;

/// Flag marking the single upgradable-shared holder.
pub const UPGRADABLE: usize = 2;

/// Flag marking the exclusive holder.
pub const EXCLUSIVE: usize = 1;

/// True iff a writer holds exclusive access in word `s`.
pub open spec fn is_exclusive(s: usize) -> bool {
    s % 2 == 1
}

/// True iff an upgradable-shared holder exists in word `s`.
pub open spec fn is_upgradable(s: usize) -> bool {
    (s / 2) % 2 == 1
}

/// The number of shared holders recorded in word `s`.
pub open spec fn shared_count(s: usize) -> usize {
    s / 4
}

/// The invariants of the word: exclusive access excludes every other mode.
pub open spec fn valid_word(s: usize) -> bool {
    is_exclusive(s) ==> !is_upgradable(s) && shared_count(s) == 0
}

/// The defensive cap on the word: a shared acquisition is only attempted
/// while the word is at most half the `usize` range, so the count can
/// never silently wrap around.
pub open spec fn below_shared_cap(s: usize) -> bool {
    s <= usize::MAX / 2
}

// Enabling condition and effect of every transition of the readers-writer
// engine.  A `try_*` entry point succeeds exactly when the matching `can_*`
// predicate holds of the word it found, and a success or a release moves
// the word exactly as the matching `after_*` function says.

/// A shared acquisition succeeds unless a writer holds exclusive access.
pub open spec fn can_lock_shared(s: usize) -> bool {
    !is_exclusive(s)
}

pub open spec fn after_lock_shared(s: usize) -> usize {
    (s + SHARED) as usize
}

/// A shared release is owed one outstanding shared holder.
pub open spec fn can_unlock_shared(s: usize) -> bool {
    shared_count(s) >= 1
}

pub open spec fn after_unlock_shared(s: usize) -> usize {
    (s - SHARED) as usize
}

/// An exclusive acquisition succeeds only from the fully unlocked word.
pub open spec fn can_lock_exclusive(s: usize) -> bool {
    s == 0
}

pub open spec fn after_lock_exclusive(s: usize) -> usize {
    EXCLUSIVE
}

/// An exclusive release is owed a current exclusive holder.
pub open spec fn can_unlock_exclusive(s: usize) -> bool {
    is_exclusive(s)
}

pub open spec fn after_unlock_exclusive(s: usize) -> usize {
    (s - EXCLUSIVE) as usize
}

/// An upgradable acquisition succeeds unless an exclusive or another
/// upgradable holder exists; shared holders do not block it.
pub open spec fn can_lock_upgradable(s: usize) -> bool {
    !is_exclusive(s) && !is_upgradable(s)
}

pub open spec fn after_lock_upgradable(s: usize) -> usize {
    (s + UPGRADABLE) as usize
}

/// An upgradable release is owed the current upgradable holder.
pub open spec fn can_unlock_upgradable(s: usize) -> bool {
    is_upgradable(s)
}

pub open spec fn after_unlock_upgradable(s: usize) -> usize {
    (s - UPGRADABLE) as usize
}

/// An upgrade succeeds only when the upgradable holder is alone: no
/// shared holder and no writer remain beside it.
pub open spec fn can_upgrade(s: usize) -> bool {
    s == UPGRADABLE
}

pub open spec fn after_upgrade(s: usize) -> usize {
    EXCLUSIVE
}

/// The exclusive holder may always step down to a shared holder.
pub open spec fn can_downgrade(s: usize) -> bool {
    is_exclusive(s)
}

pub open spec fn after_downgrade(s: usize) -> usize {
    (s + SHARED - EXCLUSIVE) as usize
}

/// The upgradable holder may always step down to a shared holder.
pub open spec fn can_downgrade_upgradable(s: usize) -> bool {
    is_upgradable(s)
}

pub open spec fn after_downgrade_upgradable(s: usize) -> usize {
    (s + SHARED - UPGRADABLE) as usize
}

/// The exclusive holder may always step down to the upgradable mode.
pub open spec fn can_downgrade_to_upgradable(s: usize) -> bool {
    is_exclusive(s) && !is_upgradable(s)
}

pub open spec fn after_downgrade_to_upgradable(s: usize) -> usize {
    (s - EXCLUSIVE + UPGRADABLE) as usize
}

// Bridges between the bit operations the engines execute and the
// arithmetic reading of the word that the model is stated in.

/// Bit 0 of the word is the exclusive flag.
pub proof fn lemma_exclusive_bit(s: usize)
    by (bit_vector)
    ensures
        (s & EXCLUSIVE == EXCLUSIVE) == is_exclusive(s),
{
}

/// Bit 1 of the word is the upgradable flag.
pub proof fn lemma_upgradable_bit(s: usize)
    by (bit_vector)
    ensures
        (s & UPGRADABLE == UPGRADABLE) == is_upgradable(s),
        (s & UPGRADABLE == 0) == !is_upgradable(s),
{
}

/// The bits above the two flags are exactly the shared-holder count.
pub proof fn lemma_shared_bits(s: usize)
    by (bit_vector)
    ensures
        (s & !(EXCLUSIVE | UPGRADABLE) != 0) == (shared_count(s) >= 1),
{
}

/// Masking the exclusive flag off a word that carries it subtracts it.
pub proof fn lemma_clear_exclusive(s: usize)
    by (bit_vector)
    requires
        is_exclusive(s),
    ensures
        s & !EXCLUSIVE == (s - EXCLUSIVE) as usize,
{
}

/// Masking the upgradable flag off a word that carries it subtracts it.
pub proof fn lemma_clear_upgradable(s: usize)
    by (bit_vector)
    requires
        is_upgradable(s),
    ensures
        s & !UPGRADABLE == (s - UPGRADABLE) as usize,
{
}

/// How the optimistic fetch-or of the upgradable flag moves the word:
/// setting an absent flag adds it, setting a present flag changes
/// nothing, and masking a freshly set flag off restores the old word.
pub proof fn lemma_set_upgradable(s: usize)
    by (bit_vector)
    ensures
        (s & (UPGRADABLE | EXCLUSIVE) == 0) == can_lock_upgradable(s),
        !is_upgradable(s) ==> s | UPGRADABLE == s + UPGRADABLE
            && s | UPGRADABLE == (s + UPGRADABLE) as usize
            && is_upgradable((s + UPGRADABLE) as usize)
            && ((s + UPGRADABLE) as usize) & !UPGRADABLE == s,
        is_upgradable(s) ==> s | UPGRADABLE == s,
{
}

/// Toggling both mode flags on an exclusively held word trades the
/// exclusive flag for the upgradable flag in one step.
pub proof fn lemma_toggle_modes(s: usize)
    by (bit_vector)
    requires
        is_exclusive(s),
        !is_upgradable(s),
    ensures
        s ^ (UPGRADABLE | EXCLUSIVE) == s - EXCLUSIVE + UPGRADABLE,
{
}

/// Adding one shared unit leaves both mode flags alone and raises the
/// count by one.
pub proof fn lemma_add_shared(s: usize)
    by (bit_vector)
    requires
        (s + SHARED) as usize == s + SHARED,
    ensures
        shared_count((s + SHARED) as usize) == shared_count(s) + 1,
        is_exclusive((s + SHARED) as usize) == is_exclusive(s),
        is_upgradable((s + SHARED) as usize) == is_upgradable(s),
{
}

/// Removing one shared unit leaves both mode flags alone and lowers the
/// count by one.
pub proof fn lemma_sub_shared(s: usize)
    by (bit_vector)
    requires
        shared_count(s) >= 1,
    ensures
        s >= SHARED,
        shared_count((s - SHARED) as usize) == shared_count(s) - 1,
        is_exclusive((s - SHARED) as usize) == is_exclusive(s),
        is_upgradable((s - SHARED) as usize) == is_upgradable(s),
{
}

/// The word is zero exactly when no holder of any mode is recorded.
pub proof fn lemma_unlocked_word(s: usize)
    by (bit_vector)
    ensures
        (s == 0) == (!is_exclusive(s) && !is_upgradable(s) && shared_count(s) == 0),
{
}

/// The cap leaves room for one more shared unit.
pub proof fn lemma_cap_leaves_room(s: usize)
    requires
        below_shared_cap(s),
    ensures
        s + SHARED <= usize::MAX,
        (s + SHARED) as usize == s + SHARED,
{
}

/// The word is the sum of its three regions.
pub proof fn lemma_word_decomposition(s: usize)
    by (bit_vector)
    ensures
        s == SHARED * shared_count(s) + (if is_upgradable(s) {
            UPGRADABLE
        } else {
            0
        }) + (if is_exclusive(s) {
            EXCLUSIVE
        } else {
            0
        }),
{
}

/// Adding one shared unit over the upgradable flag, as the downgrade
/// from the upgradable mode does before clearing the flag, then taking
/// the flag away leaves the other regions alone.
pub proof fn lemma_downgrade_upgradable_components(s: usize)
    by (bit_vector)
    requires
        is_upgradable(s),
        (s + SHARED) as usize == s + SHARED,
    ensures
        is_exclusive((s + SHARED - UPGRADABLE) as usize) == is_exclusive(s),
        !is_upgradable((s + SHARED - UPGRADABLE) as usize),
        shared_count((s + SHARED - UPGRADABLE) as usize) == shared_count(s) + 1,
{
}

/// Adding one shared unit over the exclusive flag, as the downgrade from
/// the exclusive mode does before clearing the flag, then taking the
/// flag away leaves the other regions alone.
pub proof fn lemma_downgrade_components(s: usize)
    by (bit_vector)
    requires
        is_exclusive(s),
        (s + SHARED) as usize == s + SHARED,
    ensures
        !is_exclusive((s + SHARED - EXCLUSIVE) as usize),
        is_upgradable((s + SHARED - EXCLUSIVE) as usize) == is_upgradable(s),
        shared_count((s + SHARED - EXCLUSIVE) as usize) == shared_count(s) + 1,
{
}

/// Trading the exclusive flag for the upgradable one leaves the shared
/// count alone.
pub proof fn lemma_toggle_components(s: usize)
    by (bit_vector)
    requires
        is_exclusive(s),
        !is_upgradable(s),
    ensures
        !is_exclusive((s - EXCLUSIVE + UPGRADABLE) as usize),
        is_upgradable((s - EXCLUSIVE + UPGRADABLE) as usize),
        shared_count((s - EXCLUSIVE + UPGRADABLE) as usize) == shared_count(s),
{
}

/// Clearing a set upgradable flag leaves the other regions alone.
pub proof fn lemma_clear_upgradable_components(s: usize)
    by (bit_vector)
    requires
        is_upgradable(s),
    ensures
        is_exclusive((s - UPGRADABLE) as usize) == is_exclusive(s),
        !is_upgradable((s - UPGRADABLE) as usize),
        shared_count((s - UPGRADABLE) as usize) == shared_count(s),
{
}

/// Setting a clear upgradable flag leaves the other regions alone.
pub proof fn lemma_set_upgradable_components(s: usize)
    by (bit_vector)
    requires
        !is_upgradable(s),
    ensures
        is_exclusive((s + UPGRADABLE) as usize) == is_exclusive(s),
        is_upgradable((s + UPGRADABLE) as usize),
        shared_count((s + UPGRADABLE) as usize) == shared_count(s),
{
}

// The transitions as one relation, and the laws the engines obey.

/// One transition of the readers-writer engine, named after the entry
/// point that performs it.
pub enum RwLockOp {
    LockShared,
    UnlockShared,
    LockExclusive,
    UnlockExclusive,
    LockUpgradable,
    UnlockUpgradable,
    Upgrade,
    Downgrade,
    DowngradeUpgradable,
    DowngradeToUpgradable,
}

/// Whether the transition may fire on word `s`: its `can_*` condition
/// holds and, where a shared unit is added, the word is below the
/// defensive cap.
pub open spec fn op_enabled(s: usize, op: RwLockOp) -> bool {
    match op {
        RwLockOp::LockShared => can_lock_shared(s) && below_shared_cap(s),
        RwLockOp::UnlockShared => can_unlock_shared(s),
        RwLockOp::LockExclusive => can_lock_exclusive(s),
        RwLockOp::UnlockExclusive => can_unlock_exclusive(s),
        RwLockOp::LockUpgradable => can_lock_upgradable(s),
        RwLockOp::UnlockUpgradable => can_unlock_upgradable(s),
        RwLockOp::Upgrade => can_upgrade(s),
        RwLockOp::Downgrade => can_downgrade(s) && below_shared_cap(s),
        RwLockOp::DowngradeUpgradable => can_downgrade_upgradable(s) && below_shared_cap(s),
        RwLockOp::DowngradeToUpgradable => can_downgrade_to_upgradable(s),
    }
}

/// The word after the transition fires on word `s`.
pub open spec fn op_apply(s: usize, op: RwLockOp) -> usize {
    match op {
        RwLockOp::LockShared => after_lock_shared(s),
        RwLockOp::UnlockShared => after_unlock_shared(s),
        RwLockOp::LockExclusive => after_lock_exclusive(s),
        RwLockOp::UnlockExclusive => after_unlock_exclusive(s),
        RwLockOp::LockUpgradable => after_lock_upgradable(s),
        RwLockOp::UnlockUpgradable => after_unlock_upgradable(s),
        RwLockOp::Upgrade => after_upgrade(s),
        RwLockOp::Downgrade => after_downgrade(s),
        RwLockOp::DowngradeUpgradable => after_downgrade_upgradable(s),
        RwLockOp::DowngradeToUpgradable => after_downgrade_to_upgradable(s),
    }
}

/// The three acquisitions.
pub open spec fn is_acquire(op: RwLockOp) -> bool {
    op == RwLockOp::LockShared || op == RwLockOp::LockExclusive || op
        == RwLockOp::LockUpgradable
}

/// The release that undoes an acquisition; any other transition is left
/// as it is.
pub open spec fn release_of(op: RwLockOp) -> RwLockOp {
    match op {
        RwLockOp::LockShared => RwLockOp::UnlockShared,
        RwLockOp::LockExclusive => RwLockOp::UnlockExclusive,
        RwLockOp::LockUpgradable => RwLockOp::UnlockUpgradable,
        _ => op,
    }
}

/// Law: every transition the model allows keeps the word valid, so
/// exclusive access never comes to coexist with any other holder.
pub proof fn lemma_ops_preserve_validity(s: usize, op: RwLockOp)
    requires
        valid_word(s),
        op_enabled(s, op),
    ensures
        valid_word(op_apply(s, op)),
{
    lemma_word_decomposition(s);
    match op {
        RwLockOp::LockShared => {
            lemma_cap_leaves_room(s);
            lemma_add_shared(s);
        },
        RwLockOp::UnlockShared => {
            lemma_sub_shared(s);
        },
        RwLockOp::LockExclusive => {
        },
        RwLockOp::UnlockExclusive => {
        },
        RwLockOp::LockUpgradable => {
            lemma_set_upgradable_components(s);
        },
        RwLockOp::UnlockUpgradable => {
            lemma_clear_upgradable_components(s);
        },
        RwLockOp::Upgrade => {
        },
        RwLockOp::Downgrade => {
            lemma_cap_leaves_room(s);
            lemma_downgrade_components(s);
        },
        RwLockOp::DowngradeUpgradable => {
            lemma_cap_leaves_room(s);
            lemma_downgrade_upgradable_components(s);
        },
        RwLockOp::DowngradeToUpgradable => {
            lemma_toggle_components(s);
        },
    }
}

/// Law: an exclusive acquisition is blocked immediately after any
/// successful acquisition, and succeeds on the fully released word.
pub proof fn lemma_holders_block_exclusive(s: usize)
    ensures
        op_enabled(s, RwLockOp::LockShared) ==> !can_lock_exclusive(
            op_apply(s, RwLockOp::LockShared),
        ),
        op_enabled(s, RwLockOp::LockUpgradable) ==> !can_lock_exclusive(
            op_apply(s, RwLockOp::LockUpgradable),
        ),
        op_enabled(s, RwLockOp::LockExclusive) ==> !can_lock_exclusive(
            op_apply(s, RwLockOp::LockExclusive),
        ),
        can_lock_exclusive(0),
{
    if op_enabled(s, RwLockOp::LockShared) {
        lemma_cap_leaves_room(s);
    }
    if op_enabled(s, RwLockOp::LockUpgradable) {
        lemma_set_upgradable_components(s);
        lemma_unlocked_word(after_lock_upgradable(s));
    }
}

/// Law: after taking the upgradable lock, the holder can upgrade exactly
/// when no shared holder was present beside it.
pub proof fn lemma_upgrade_iff_alone(s: usize)
    requires
        op_enabled(s, RwLockOp::LockUpgradable),
    ensures
        can_upgrade(op_apply(s, RwLockOp::LockUpgradable)) <==> shared_count(s) == 0,
{
    lemma_word_decomposition(s);
    lemma_set_upgradable_components(s);
    lemma_word_decomposition(after_lock_upgradable(s));
}

/// Law: the downgrade from exclusive to shared leaves the lock held
/// throughout — afterwards the word records one more shared holder,
/// no writer, and it never passes through the fully unlocked word,
/// so another shared acquisition succeeds at once.
pub proof fn lemma_downgrade_keeps_lock_held(s: usize)
    requires
        op_enabled(s, RwLockOp::Downgrade),
    ensures
        op_apply(s, RwLockOp::Downgrade) != 0,
        !is_exclusive(op_apply(s, RwLockOp::Downgrade)),
        shared_count(op_apply(s, RwLockOp::Downgrade)) == shared_count(s) + 1,
        op_enabled(op_apply(s, RwLockOp::Downgrade), RwLockOp::LockShared) == below_shared_cap(
            op_apply(s, RwLockOp::Downgrade),
        ),
{
    lemma_cap_leaves_room(s);
    lemma_downgrade_components(s);
    lemma_unlocked_word(after_downgrade(s));
}

/// Law: the downgrade from exclusive to upgradable yields a word on
/// which an exclusive acquisition fails but a shared one succeeds.
pub proof fn lemma_downgrade_to_upgradable_blocks_writers(s: usize)
    requires
        op_enabled(s, RwLockOp::DowngradeToUpgradable),
        below_shared_cap(s),
    ensures
        !can_lock_exclusive(op_apply(s, RwLockOp::DowngradeToUpgradable)),
        op_enabled(op_apply(s, RwLockOp::DowngradeToUpgradable), RwLockOp::LockShared),
{
    lemma_toggle_components(s);
    lemma_unlocked_word(after_downgrade_to_upgradable(s));
}

/// Law: each acquisition's inverse release is enabled right after it and
/// undoes it exactly.
pub proof fn lemma_acquire_then_release(s: usize, op: RwLockOp)
    requires
        is_acquire(op),
        op_enabled(s, op),
    ensures
        op_enabled(op_apply(s, op), release_of(op)),
        op_apply(op_apply(s, op), release_of(op)) == s,
{
    match op {
        RwLockOp::LockShared => {
            lemma_cap_leaves_room(s);
            lemma_add_shared(s);
        },
        RwLockOp::LockUpgradable => {
            lemma_set_upgradable_components(s);
        },
        _ => {
        },
    }
}

/// The word after the whole sequence of transitions, first first.
pub open spec fn apply_all(s: usize, ops: Seq<RwLockOp>) -> usize
    decreases ops.len(),
{
    if ops.len() == 0 {
        s
    } else {
        apply_all(op_apply(s, ops[0]), ops.subrange(1, ops.len() as int))
    }
}

/// Whether every transition of the sequence is enabled on the word it
/// meets.
pub open spec fn all_enabled(s: usize, ops: Seq<RwLockOp>) -> bool
    decreases ops.len(),
{
    ops.len() == 0 || (op_enabled(s, ops[0]) && all_enabled(
        op_apply(s, ops[0]),
        ops.subrange(1, ops.len() as int),
    ))
}

/// The inverse releases of a sequence of acquisitions, last acquisition
/// released first.
pub open spec fn releases_of(ops: Seq<RwLockOp>) -> Seq<RwLockOp>
    decreases ops.len(),
{
    if ops.len() == 0 {
        Seq::empty()
    } else {
        releases_of(ops.subrange(1, ops.len() as int)).push(release_of(ops[0]))
    }
}

/// Appending one transition applies it to the word the sequence reaches.
pub proof fn lemma_apply_all_push(s: usize, ops: Seq<RwLockOp>, op: RwLockOp)
    ensures
        apply_all(s, ops.push(op)) == op_apply(apply_all(s, ops), op),
        all_enabled(s, ops.push(op)) == (all_enabled(s, ops) && op_enabled(
            apply_all(s, ops),
            op,
        )),
    decreases ops.len(),
{
    if ops.len() == 0 {
        assert(ops.push(op).subrange(1, 1) =~= Seq::<RwLockOp>::empty());
        assert(apply_all(op_apply(s, op), Seq::empty()) == op_apply(s, op));
        assert(all_enabled(op_apply(s, op), Seq::<RwLockOp>::empty()));
    } else {
        let s1 = op_apply(s, ops[0]);
        let rest = ops.subrange(1, ops.len() as int);
        assert(ops.push(op).subrange(1, ops.len() as int + 1) =~= rest.push(op));
        lemma_apply_all_push(s1, rest, op);
    }
}

/// Law: any sequence of successful acquisitions, paired with its inverse
/// releases in matching (last-in, first-out) order, returns the word to
/// exactly where it began.
pub proof fn lemma_round_trip(s: usize, ops: Seq<RwLockOp>)
    requires
        forall|i: int| 0 <= i < ops.len() ==> is_acquire(#[trigger] ops[i]),
        all_enabled(s, ops),
    ensures
        all_enabled(apply_all(s, ops), releases_of(ops)),
        apply_all(apply_all(s, ops), releases_of(ops)) == s,
    decreases ops.len(),
{
    if ops.len() > 0 {
        let rest = ops.subrange(1, ops.len() as int);
        let s1 = op_apply(s, ops[0]);
        assert(forall|i: int| 0 <= i < rest.len() ==> rest[i] == ops[i + 1]);
        lemma_round_trip(s1, rest);
        lemma_acquire_then_release(s, ops[0]);
        lemma_apply_all_push(apply_all(s1, rest), releases_of(rest), release_of(ops[0]));
    }
}

/// The same transition repeated `n` times.
pub open spec fn repeated(op: RwLockOp, n: nat) -> Seq<RwLockOp> {
    Seq::new(n, |i: int| op)
}

/// How far `n` shared acquisitions climb: each one is enabled and the
/// word ends `n` shared units higher.
pub proof fn lemma_shared_acquires(s: usize, n: nat)
    requires
        !is_exclusive(s),
        s + SHARED * n <= usize::MAX / 2 + SHARED,
    ensures
        all_enabled(s, repeated(RwLockOp::LockShared, n)),
        apply_all(s, repeated(RwLockOp::LockShared, n)) == s + SHARED * n,
    decreases n,
{
    if n > 0 {
        lemma_cap_leaves_room(s);
        lemma_add_shared(s);
        let s1 = after_lock_shared(s);
        assert(repeated(RwLockOp::LockShared, n).subrange(1, n as int) =~= repeated(
            RwLockOp::LockShared,
            (n - 1) as nat,
        ));
        lemma_shared_acquires(s1, (n - 1) as nat);
    }
}

/// How far `n` shared releases descend: each one is enabled and the word
/// ends `n` shared units lower.
pub proof fn lemma_shared_releases(s: usize, n: nat)
    requires
        shared_count(s) >= n,
    ensures
        s >= SHARED * n,
        all_enabled(s, repeated(RwLockOp::UnlockShared, n)),
        apply_all(s, repeated(RwLockOp::UnlockShared, n)) == s - SHARED * n,
    decreases n,
{
    if n > 0 {
        lemma_sub_shared(s);
        let s1 = after_unlock_shared(s);
        assert(repeated(RwLockOp::UnlockShared, n).subrange(1, n as int) =~= repeated(
            RwLockOp::UnlockShared,
            (n - 1) as nat,
        ));
        lemma_shared_releases(s1, (n - 1) as nat);
    }
}

/// Law: for any `n` the word can carry, `n` successful shared
/// acquisitions followed by `n` shared releases return the word from
/// fully unlocked to fully unlocked.
pub proof fn lemma_shared_round_trip(n: nat)
    requires
        SHARED * n <= usize::MAX / 2,
    ensures
        all_enabled(0, repeated(RwLockOp::LockShared, n)),
        apply_all(0, repeated(RwLockOp::LockShared, n)) == SHARED * n,
        all_enabled((SHARED * n) as usize, repeated(RwLockOp::UnlockShared, n)),
        apply_all((SHARED * n) as usize, repeated(RwLockOp::UnlockShared, n)) == 0,
{
    lemma_shared_acquires(0, n);
    assert(shared_count((SHARED * n) as usize) == n) by (nonlinear_arith)
        requires
            SHARED * n <= usize::MAX / 2,
    ;
    lemma_shared_releases((SHARED * n) as usize, n);
}

// The exclusive-only engine: its state is one boolean flag, its
// transitions and laws are the simple image of the word model.

/// One transition of the exclusive-only engine.
pub enum MutexOp {
    Acquire,
    Release,
}

/// An acquisition needs the flag clear; a release needs it set.
pub open spec fn mutex_op_enabled(locked: bool, op: MutexOp) -> bool {
    match op {
        MutexOp::Acquire => !locked,
        MutexOp::Release => locked,
    }
}

/// An acquisition sets the flag; a release clears it.
pub open spec fn mutex_op_apply(locked: bool, op: MutexOp) -> bool {
    match op {
        MutexOp::Acquire => true,
        MutexOp::Release => false,
    }
}

/// The flag after the whole sequence of transitions, first first.
pub open spec fn mutex_apply_all(locked: bool, ops: Seq<MutexOp>) -> bool
    decreases ops.len(),
{
    if ops.len() == 0 {
        locked
    } else {
        mutex_apply_all(mutex_op_apply(locked, ops[0]), ops.subrange(1, ops.len() as int))
    }
}

/// Whether every transition of the sequence is enabled on the flag it
/// meets.
pub open spec fn mutex_all_enabled(locked: bool, ops: Seq<MutexOp>) -> bool
    decreases ops.len(),
{
    ops.len() == 0 || (mutex_op_enabled(locked, ops[0]) && mutex_all_enabled(
        mutex_op_apply(locked, ops[0]),
        ops.subrange(1, ops.len() as int),
    ))
}

/// Law: over any sequence of acquisitions and releases the engine
/// allows, the mutex is locked exactly between a successful acquisition
/// and its matching release — after a nonempty sequence the flag is set
/// iff the sequence ends in an acquisition, and an empty sequence leaves
/// the flag as it began.
pub proof fn lemma_mutex_locked_between(locked: bool, ops: Seq<MutexOp>)
    requires
        mutex_all_enabled(locked, ops),
    ensures
        mutex_apply_all(locked, ops) == (if ops.len() == 0 {
            locked
        } else {
            ops.last() == MutexOp::Acquire
        }),
    decreases ops.len(),
{
    if ops.len() > 0 {
        let rest = ops.subrange(1, ops.len() as int);
        lemma_mutex_locked_between(mutex_op_apply(locked, ops[0]), rest);
        if rest.len() > 0 {
            assert(ops.last() == rest.last());
        }
    }
}

} // verus!
