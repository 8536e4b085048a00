//! A model of the base directory, and what the save and load operations
//! mean for it.
//!
//! The model holds what the store relies on from the file system: an entry
//! changes only when a rename replaces it, in one step, and a temporary
//! file is no entry. The laws below are proved of the model.

use vstd::prelude::*;
use crate::models::{decoding, encoding, law_decoding_inverts_encoding, LiteNodeView};
use crate::storage::file_system::{
    loaded, save_refusal, IoFailure, SaveOpView, SaveStep, StoreError,
};
use crate::storage::name::{is_forbidden, valid_name};

verus! {

/// The base directory: its entries by name, and the content of the
/// temporary file of the save in progress, if there is one.
pub struct Directory {
    pub entries: Map<Seq<char>, Seq<u8>>,
    pub temp: Option<Seq<u8>>,
}

/// What reading the file of `name` in full gives, where the file system
/// itself does not fail.
pub open spec fn read_of(entries: Map<Seq<char>, Seq<u8>>, name: Seq<char>) -> Result<
    Seq<u8>,
    IoFailure,
> {
    if entries.contains_key(name) {
        Ok(entries[name])
    } else {
        Err(IoFailure::NotFound)
    }
}

/// What a load of `name` returns from a directory with these entries.
pub open spec fn load_from(entries: Map<Seq<char>, Seq<u8>>, name: Seq<char>) -> Result<
    Seq<LiteNodeView>,
    StoreError,
> {
    if valid_name(name) {
        loaded(read_of(entries, name))
    } else {
        Err(StoreError::InvalidName)
    }
}

/// The entries after a save of `records` under `name` that went through
/// all its steps. A save that is refused leaves them as they are.
pub open spec fn save_into(
    entries: Map<Seq<char>, Seq<u8>>,
    name: Seq<char>,
    records: Seq<LiteNodeView>,
) -> Map<Seq<char>, Seq<u8>> {
    if save_refusal(name, records) is None {
        entries.insert(name, encoding(records)->0)
    } else {
        entries
    }
}

/// What the current step of `op` does to the directory, as a relation
/// between the directory before and after it. A write that fails may leave
/// any content in the temporary file; only a rename that succeeds touches
/// the entries.
pub open spec fn step_effect(op: SaveOpView, ok: bool, pre: Directory, post: Directory) -> bool {
    match op.step {
        SaveStep::CreateTemp => {
            &&& post.entries == pre.entries
            &&& post.temp == if ok {
                Some(Seq::<u8>::empty())
            } else {
                pre.temp
            }
        },
        SaveStep::Write => {
            &&& post.entries == pre.entries
            &&& ok ==> post.temp == Some(op.bytes)
        },
        SaveStep::Sync => post == pre,
        SaveStep::Rename => if ok {
            &&& pre.temp is Some
            &&& post.entries == pre.entries.insert(op.file_name, pre.temp->0)
            &&& post.temp is None
        } else {
            post == pre
        },
        SaveStep::RemoveTemp => post.entries == pre.entries,
        SaveStep::Saved => post == pre,
        SaveStep::Failed => post == pre,
    }
}

/// The operation after the caller has reported `outcomes`, one by one.
pub open spec fn op_after(op: SaveOpView, outcomes: Seq<bool>) -> SaveOpView
    decreases outcomes.len(),
{
    if outcomes.len() == 0 {
        op
    } else {
        op_after(op, outcomes.drop_last()).advance(outcomes.last())
    }
}

/// `dirs` are the states that the directory passes through while the
/// caller performs the steps of `op` with these outcomes: one state before
/// the first step and one after each step.
pub open spec fn is_run(op: SaveOpView, outcomes: Seq<bool>, dirs: Seq<Directory>) -> bool {
    &&& dirs.len() == outcomes.len() + 1
    &&& forall|i: int|
        0 <= i < outcomes.len() ==> step_effect(
            op_after(op, outcomes.take(i)),
            #[trigger] outcomes[i],
            dirs[i],
            dirs[i + 1],
        )
}

/// What holds of the directory at every point of a save that began with
/// the entries `base`: they are untouched until the save is through, and
/// from the sync on the temporary file holds all the bytes.
pub open spec fn in_step(op: SaveOpView, dir: Directory, base: Map<Seq<char>, Seq<u8>>) -> bool {
    match op.step {
        SaveStep::Sync | SaveStep::Rename => dir.entries == base && dir.temp == Some(op.bytes),
        SaveStep::Saved => dir.entries == base.insert(op.file_name, op.bytes),
        _ => dir.entries == base,
    }
}

proof fn lemma_step_keeps(
    op: SaveOpView,
    ok: bool,
    pre: Directory,
    post: Directory,
    base: Map<Seq<char>, Seq<u8>>,
)
    requires
        in_step(op, pre, base),
        step_effect(op, ok, pre, post),
    ensures
        in_step(op.advance(ok), post, base),
{
}

/// Reporting outcomes changes the step of an operation, never its name or
/// its bytes.
proof fn lemma_op_after_keeps_payload(op: SaveOpView, outcomes: Seq<bool>)
    ensures
        op_after(op, outcomes).file_name == op.file_name,
        op_after(op, outcomes).bytes == op.bytes,
    decreases outcomes.len(),
{
    if outcomes.len() > 0 {
        lemma_op_after_keeps_payload(op, outcomes.drop_last());
    }
}

proof fn lemma_run_keeps(op: SaveOpView, outcomes: Seq<bool>, dirs: Seq<Directory>, i: int)
    requires
        op.step == SaveStep::CreateTemp,
        is_run(op, outcomes, dirs),
        0 <= i <= outcomes.len(),
    ensures
        in_step(op_after(op, outcomes.take(i)), dirs[i], dirs[0].entries),
    decreases i,
{
    if i == 0 {
        assert(outcomes.take(0) =~= Seq::<bool>::empty());
    } else {
        lemma_run_keeps(op, outcomes, dirs, i - 1);
        assert(outcomes.take(i).drop_last() =~= outcomes.take(i - 1));
        assert(outcomes.take(i).last() == outcomes[i - 1]);
        lemma_step_keeps(
            op_after(op, outcomes.take(i - 1)),
            outcomes[i - 1],
            dirs[i - 1],
            dirs[i],
            dirs[0].entries,
        );
    }
}

/// A load after a save returns the records that were saved, whatever the
/// directory held before.
pub proof fn law_round_trip(
    entries: Map<Seq<char>, Seq<u8>>,
    name: Seq<char>,
    records: Seq<LiteNodeView>,
)
    requires
        valid_name(name),
        encoding(records) is Some,
    ensures
        load_from(save_into(entries, name, records), name) == Ok::<Seq<LiteNodeView>, StoreError>(
            records,
        ),
{
    law_decoding_inverts_encoding(records);
}

/// Saving the same records under the same name twice leaves the directory
/// as saving them once does.
pub proof fn law_idempotent(
    entries: Map<Seq<char>, Seq<u8>>,
    name: Seq<char>,
    records: Seq<LiteNodeView>,
)
    ensures
        save_into(save_into(entries, name, records), name, records) == save_into(
            entries,
            name,
            records,
        ),
{
    assert(save_into(save_into(entries, name, records), name, records) =~= save_into(
        entries,
        name,
        records,
    ));
}

/// After two saves under one name the directory is as after the second one
/// alone, and a load returns the records of the second one, with nothing
/// of the first.
pub proof fn law_overwrite(
    entries: Map<Seq<char>, Seq<u8>>,
    name: Seq<char>,
    older: Seq<LiteNodeView>,
    newer: Seq<LiteNodeView>,
)
    requires
        valid_name(name),
        encoding(newer) is Some,
    ensures
        save_into(save_into(entries, name, older), name, newer) == save_into(entries, name, newer),
        load_from(save_into(save_into(entries, name, older), name, newer), name) == Ok::<
            Seq<LiteNodeView>,
            StoreError,
        >(newer),
{
    assert(save_into(save_into(entries, name, older), name, newer) =~= save_into(
        entries,
        name,
        newer,
    ));
    law_decoding_inverts_encoding(newer);
}

/// A save touches the entry of its own name and no other.
pub proof fn law_other_entries_kept(
    entries: Map<Seq<char>, Seq<u8>>,
    name: Seq<char>,
    records: Seq<LiteNodeView>,
    other: Seq<char>,
)
    requires
        other != name,
    ensures
        read_of(save_into(entries, name, records), other) == read_of(entries, other),
        load_from(save_into(entries, name, records), other) == load_from(entries, other),
{
}

/// A load of a valid name under which nothing was saved fails with
/// `NotFound`.
pub proof fn law_missing_entry(entries: Map<Seq<char>, Seq<u8>>, name: Seq<char>)
    requires
        valid_name(name),
        !entries.contains_key(name),
    ensures
        load_from(entries, name) == Err::<Seq<LiteNodeView>, StoreError>(StoreError::NotFound),
{
}

/// A name that is empty, that is `.` or `..`, or that holds a path
/// separator is refused with `InvalidName` by a save and by a load, and the
/// save leaves the directory as it is.
pub proof fn law_unsafe_names_refused(
    entries: Map<Seq<char>, Seq<u8>>,
    name: Seq<char>,
    records: Seq<LiteNodeView>,
)
    requires
        name.len() == 0 || name == seq!['.'] || name == seq!['.', '.'] || exists|i: int|
            0 <= i < name.len() && is_forbidden(#[trigger] name[i]),
    ensures
        !valid_name(name),
        save_refusal(name, records) == Some(StoreError::InvalidName),
        save_into(entries, name, records) == entries,
        load_from(entries, name) == Err::<Seq<LiteNodeView>, StoreError>(StoreError::InvalidName),
{
}

/// A load returns all the records that the stored bytes decode to, or
/// `DecodeError` where they decode to none: never some of the records, and
/// never other ones.
pub proof fn law_corruption_detected(entries: Map<Seq<char>, Seq<u8>>, name: Seq<char>)
    requires
        valid_name(name),
        entries.contains_key(name),
    ensures
        decoding(entries[name]) is None ==> load_from(entries, name) == Err::<
            Seq<LiteNodeView>,
            StoreError,
        >(StoreError::DecodeError),
        decoding(entries[name]) matches Some(records) ==> load_from(entries, name) == Ok::<
            Seq<LiteNodeView>,
            StoreError,
        >(records),
{
}

/// At every point of a save the entries are those from before it, up to
/// the rename that ends it; from then on they are those entries with the
/// bytes of the save under its name.
pub proof fn law_atomic(op: SaveOpView, outcomes: Seq<bool>, dirs: Seq<Directory>, i: int)
    requires
        op.step == SaveStep::CreateTemp,
        is_run(op, outcomes, dirs),
        0 <= i <= outcomes.len(),
    ensures
        op_after(op, outcomes.take(i)).step != SaveStep::Saved ==> dirs[i].entries
            == dirs[0].entries,
        op_after(op, outcomes.take(i)).step == SaveStep::Saved ==> dirs[i].entries
            == dirs[0].entries.insert(op.file_name, op.bytes),
{
    lemma_run_keeps(op, outcomes, dirs, i);
    lemma_op_after_keeps_payload(op, outcomes.take(i));
}

/// While a save has not got through its rename, a load of any name returns
/// what it returned before the save began: the earlier records, or
/// `NotFound`, never bytes that were written in part.
pub proof fn law_interrupted_save_is_unseen(
    op: SaveOpView,
    outcomes: Seq<bool>,
    dirs: Seq<Directory>,
    i: int,
    name: Seq<char>,
)
    requires
        op.step == SaveStep::CreateTemp,
        is_run(op, outcomes, dirs),
        0 <= i <= outcomes.len(),
        op_after(op, outcomes.take(i)).step != SaveStep::Saved,
    ensures
        load_from(dirs[i].entries, name) == load_from(dirs[0].entries, name),
{
    lemma_run_keeps(op, outcomes, dirs, i);
}

/// Once the save that `save` began for `records` under `name` has got
/// through its rename, the directory is as `save_into` says, and a load of
/// the name returns the records.
pub proof fn law_finished_save_is_seen(
    outcomes: Seq<bool>,
    dirs: Seq<Directory>,
    name: Seq<char>,
    records: Seq<LiteNodeView>,
)
    requires
        save_refusal(name, records) is None,
        is_run(SaveOpView::begin(name, encoding(records)->0), outcomes, dirs),
        op_after(SaveOpView::begin(name, encoding(records)->0), outcomes).step == SaveStep::Saved,
    ensures
        dirs.last().entries == save_into(dirs[0].entries, name, records),
        load_from(dirs.last().entries, name) == Ok::<Seq<LiteNodeView>, StoreError>(records),
{
    let op = SaveOpView::begin(name, encoding(records)->0);
    lemma_run_keeps(op, outcomes, dirs, outcomes.len() as int);
    assert(outcomes.take(outcomes.len() as int) =~= outcomes);
    lemma_op_after_keeps_payload(op, outcomes);
    law_round_trip(dirs[0].entries, name, records);
}

/// A save that ends in failure leaves every entry as it was.
pub proof fn law_failed_save_changes_nothing(
    op: SaveOpView,
    outcomes: Seq<bool>,
    dirs: Seq<Directory>,
)
    requires
        op.step == SaveStep::CreateTemp,
        is_run(op, outcomes, dirs),
        op_after(op, outcomes).step == SaveStep::Failed,
    ensures
        dirs.last().entries == dirs[0].entries,
{
    lemma_run_keeps(op, outcomes, dirs, outcomes.len() as int);
    assert(outcomes.take(outcomes.len() as int) =~= outcomes);
}

} // verus!
