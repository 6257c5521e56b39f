//! Handing the files of a run out to workers and taking their results in.
//!
//! The dispatcher runs no thread itself. It says which file goes out next,
//! never lets more files be in work than there are workers, takes each
//! result in whatever order they come, and ends with one record per file,
//! in the order of discovery.

use vstd::prelude::*;
use crate::compressor::{result_view, FileError, FileErrorView};
use crate::file_collector::texts;
use crate::stats::{summary_of, views, FileStat, StatView};

verus! {

/// The record that a file's result makes.
pub open spec fn record_for(
    path: Seq<char>,
    result: Result<(u64, u64), FileErrorView>,
    duration_ms: u128,
) -> StatView {
    match result {
        Ok((before, after)) => StatView { path, before, after, error: None, duration_ms },
        Err(error) => StatView {
            path,
            before: 0,
            after: 0,
            error: Some(error.description()),
            duration_ms,
        },
    }
}

/// Makes the record of one file from the result of its worker and the time
/// the work took.
pub fn record_outcome(
    path: String,
    result: Result<(u64, u64), FileError>,
    duration_ms: u128,
) -> (stat: FileStat)
    ensures
        stat@ == record_for(path@, result_view(result), duration_ms),
{
    match result {
        Ok((before, after)) => FileStat::success(path, before, after, duration_ms),
        Err(error) => FileStat::error(path, error.describe(), duration_ms),
    }
}

/// How many of `slots` hold a record.
pub open spec fn filled(slots: Seq<Option<StatView>>) -> nat
    decreases slots.len(),
{
    if slots.len() == 0 {
        0
    } else {
        filled(slots.drop_last()) + if slots.last() is Some {
            1nat
        } else {
            0nat
        }
    }
}

/// The mathematical content of a `Dispatcher`.
pub struct DispatcherView {
    /// The files of the run, in the order of discovery.
    pub files: Seq<Seq<char>>,
    /// How many files may be in work at once.
    pub workers: nat,
    /// How many files have been handed out: the first `issued` of `files`.
    pub issued: nat,
    /// For each file, its record once its result has come in.
    pub slots: Seq<Option<StatView>>,
}

impl DispatcherView {
    /// How many results have come in.
    pub open spec fn completed(self) -> nat {
        filled(self.slots)
    }

    /// How many files are handed out and not back yet.
    pub open spec fn in_flight(self) -> int {
        self.issued - self.completed()
    }

    /// Whether another file may go out now.
    pub open spec fn can_issue(self) -> bool {
        self.issued < self.files.len() && self.in_flight() < self.workers
    }

    /// Whether the result of every file has come in.
    pub open spec fn is_done(self) -> bool {
        self.completed() == self.files.len()
    }

    /// The records of the run, one per file, in the order of discovery.
    pub open spec fn records(self) -> Seq<StatView> {
        Seq::new(self.slots.len(), |i: int| self.slots[i].unwrap())
    }

    /// What holds of every dispatcher: there is a slot for each file; only
    /// files that were handed out have a record, and it names its file;
    /// never are more files in work than there are workers.
    pub open spec fn wf(self) -> bool {
        &&& self.workers >= 1
        &&& self.issued <= self.files.len()
        &&& self.slots.len() == self.files.len()
        &&& forall|i: int|
            0 <= i < self.slots.len() && (#[trigger] self.slots[i]) is Some ==> i < self.issued
                && self.slots[i].unwrap().path == self.files[i]
        &&& 0 <= self.in_flight() <= self.workers
    }
}

/// No more slots are filled than there are.
pub proof fn lemma_filled_at_most_len(slots: Seq<Option<StatView>>)
    ensures
        filled(slots) <= slots.len(),
    decreases slots.len(),
{
    if slots.len() > 0 {
        lemma_filled_at_most_len(slots.drop_last());
    }
}

/// Where as many slots are filled as there are, each one is.
pub proof fn lemma_all_filled(slots: Seq<Option<StatView>>)
    requires
        filled(slots) == slots.len(),
    ensures
        forall|i: int| 0 <= i < slots.len() ==> (#[trigger] slots[i]) is Some,
    decreases slots.len(),
{
    if slots.len() > 0 {
        lemma_filled_at_most_len(slots.drop_last());
        lemma_all_filled(slots.drop_last());
        assert forall|i: int| 0 <= i < slots.len() implies (#[trigger] slots[i]) is Some by {
            if i < slots.len() - 1 {
                assert(slots.drop_last()[i] is Some);
            }
        }
    }
}

/// Filling an empty slot raises the count by one.
pub proof fn lemma_filled_update(slots: Seq<Option<StatView>>, index: int, record: StatView)
    requires
        0 <= index < slots.len(),
        slots[index] is None,
    ensures
        filled(slots.update(index, Some(record))) == filled(slots) + 1,
    decreases slots.len(),
{
    let changed = slots.update(index, Some(record));
    if index == slots.len() - 1 {
        assert(changed.drop_last() =~= slots.drop_last());
    } else {
        lemma_filled_update(slots.drop_last(), index, record);
        assert(changed.drop_last() =~= slots.drop_last().update(index, Some(record)));
    }
}

/// Where only the first `limit` slots can be filled, at most `limit` are.
pub proof fn lemma_filled_below(slots: Seq<Option<StatView>>, limit: nat)
    requires
        forall|i: int| 0 <= i < slots.len() && (#[trigger] slots[i]) is Some ==> i < limit,
    ensures
        filled(slots) <= limit,
    decreases slots.len(),
{
    if slots.len() > 0 {
        let front = slots.drop_last();
        assert forall|i: int| 0 <= i < front.len() && (#[trigger] front[i]) is Some implies i
            < limit by {
            assert(slots[i] is Some);
        }
        if slots.last() is Some {
            let last = slots.len() - 1;
            assert(slots[last] is Some);
            if limit > 0 {
                assert forall|i: int|
                    0 <= i < front.len() && (#[trigger] front[i]) is Some implies i < (limit
                    - 1) as nat by {
                    assert(slots[i] is Some);
                }
                lemma_filled_below(front, (limit - 1) as nat);
            }
        } else {
            lemma_filled_below(front, limit);
        }
    }
}

/// The slots of a vector, each by its view.
pub open spec fn slot_views(slots: Seq<Option<FileStat>>) -> Seq<Option<StatView>> {
    slots.map_values(
        |slot: Option<FileStat>|
            match slot {
                Some(record) => Some(record@),
                None => None,
            },
    )
}

/// Hands the files of a run out to workers and takes their results in.
#[derive(Debug)]
pub struct Dispatcher {
    files: Vec<String>,
    workers: usize,
    issued: usize,
    completed: usize,
    slots: Vec<Option<FileStat>>,
}

impl View for Dispatcher {
    type V = DispatcherView;

    closed spec fn view(&self) -> DispatcherView {
        DispatcherView {
            files: texts(self.files@),
            workers: self.workers as nat,
            issued: self.issued as nat,
            slots: slot_views(self.slots@),
        }
    }
}

impl Dispatcher {
    /// What holds of every dispatcher that `new` made and the methods
    /// changed.
    pub closed spec fn wf(&self) -> bool {
        self@.wf() && self.completed == self@.completed()
    }

    /// A dispatcher comes with all that `DispatcherView::wf` says.
    pub proof fn lemma_wf(&self)
        requires
            self.wf(),
        ensures
            self@.wf(),
    {
    }

    /// A dispatcher for `files` and at most `workers` files in work at
    /// once. A worker count of zero is taken as one.
    pub fn new(files: Vec<String>, workers: usize) -> (dispatcher: Self)
        ensures
            dispatcher.wf(),
            dispatcher@.files == texts(files@),
            dispatcher@.workers == if workers == 0 {
                1
            } else {
                workers as nat
            },
            dispatcher@.issued == 0,
            dispatcher@.slots == Seq::new(files@.len(), |i: int| None::<StatView>),
            dispatcher@.completed() == 0,
    {
        let mut slots: Vec<Option<FileStat>> = Vec::new();
        let mut i: usize = 0;
        while i < files.len()
            invariant
                i <= files.len(),
                slots@.len() == i,
                forall|k: int| 0 <= k < i ==> (#[trigger] slots@[k]) is None,
            decreases files.len() - i,
        {
            slots.push(None);
            i = i + 1;
        }
        let workers = if workers == 0 {
            1
        } else {
            workers
        };
        let dispatcher = Dispatcher { files, workers, issued: 0, completed: 0, slots };
        proof {
            assert(dispatcher@.slots =~= Seq::new(files@.len(), |i: int| None::<StatView>));
            lemma_filled_below(dispatcher@.slots, 0);
        }
        dispatcher
    }

    /// How many files the run has.
    pub fn file_count(&self) -> (count: usize)
        requires
            self.wf(),
        ensures
            count == self@.files.len(),
    {
        self.files.len()
    }

    /// How many files are handed out and not back yet.
    pub fn in_flight(&self) -> (count: usize)
        requires
            self.wf(),
        ensures
            count == self@.in_flight(),
            count <= self@.workers,
    {
        self.issued - self.completed
    }

    /// Whether the result of every file has come in.
    pub fn is_done(&self) -> (done: bool)
        requires
            self.wf(),
        ensures
            done == self@.is_done(),
    {
        self.completed == self.files.len()
    }

    /// The next file to hand to a worker, with its place among the files of
    /// the run; nothing where every file is handed out already, or as many
    /// files are in work as there are workers.
    pub fn next_job(&mut self) -> (job: Option<(usize, String)>)
        requires
            old(self).wf(),
        ensures
            final(self).wf(),
            job is Some <==> old(self)@.can_issue(),
            job is None ==> final(self)@ == old(self)@,
            job matches Some((index, path)) ==> {
                &&& index == old(self)@.issued
                &&& path@ == old(self)@.files[index as int]
                &&& final(self)@ == (DispatcherView {
                    issued: old(self)@.issued + 1,
                    ..old(self)@
                })
            },
    {
        if self.issued < self.files.len() && self.issued - self.completed < self.workers {
            let index = self.issued;
            let path = self.files[index].clone();
            self.issued = index + 1;
            Some((index, path))
        } else {
            None
        }
    }

    /// Takes in the result of the file at place `index`, with the time the
    /// work took, and makes its record. A result is turned down, and
    /// nothing changes, where the file was never handed out or its result
    /// has come in before.
    pub fn complete(
        &mut self,
        index: usize,
        result: Result<(u64, u64), FileError>,
        duration_ms: u128,
    ) -> (accepted: bool)
        requires
            old(self).wf(),
        ensures
            final(self).wf(),
            accepted == (index < old(self)@.issued && old(self)@.slots[index as int] is None),
            !accepted ==> final(self)@ == old(self)@,
            accepted ==> final(self)@ == (DispatcherView {
                slots: old(self)@.slots.update(
                    index as int,
                    Some(
                        record_for(
                            old(self)@.files[index as int],
                            result_view(result),
                            duration_ms,
                        ),
                    ),
                ),
                ..old(self)@
            }),
            accepted ==> final(self)@.completed() == old(self)@.completed() + 1,
    {
        if index >= self.issued {
            return false;
        }
        if self.slots[index].is_some() {
            return false;
        }
        let record = record_outcome(self.files[index].clone(), result, duration_ms);
        let ghost before = self@;
        let ghost after = before.slots.update(index as int, Some(record@));
        proof {
            assert(before.slots[index as int] is None);
            assert(before.files[index as int] == self.files@[index as int]@);
            lemma_filled_update(before.slots, index as int, record@);
            lemma_filled_at_most_len(after);
            assert forall|i: int| 0 <= i < after.len() && (#[trigger] after[i]) is Some implies i
                < before.issued && after[i].unwrap().path == before.files[i] by {
                if i != index {
                    assert(before.slots[i] is Some);
                }
            }
            lemma_filled_below(after, before.issued);
        }
        self.slots.set(index, Some(record));
        self.completed = self.completed + 1;
        proof {
            assert(self@.slots =~= after);
        }
        true
    }

    /// The records of the run once the result of every file has come in:
    /// one per file, in the order of discovery. Nothing before that.
    pub fn finish(&self) -> (records: Option<Vec<FileStat>>)
        requires
            self.wf(),
        ensures
            records is Some <==> self@.is_done(),
            records matches Some(list) ==> views(list@) == self@.records(),
            records matches Some(list) ==> list@.len() == self@.files.len(),
    {
        if self.completed != self.files.len() {
            return None;
        }
        proof {
            lemma_all_filled(self@.slots);
        }
        let mut list: Vec<FileStat> = Vec::new();
        let mut i: usize = 0;
        while i < self.slots.len()
            invariant
                i <= self.slots.len(),
                self.wf(),
                forall|k: int| 0 <= k < self@.slots.len() ==> (#[trigger] self@.slots[k]) is Some,
                list@.len() == i,
                forall|k: int| 0 <= k < i ==> (#[trigger] list@[k])@ == self@.slots[k].unwrap(),
            decreases self.slots.len() - i,
        {
            assert(self@.slots[i as int] is Some);
            match &self.slots[i] {
                Some(record) => {
                    list.push(record.clone());
                },
                None => {
                    assert(false);
                },
            }
            i = i + 1;
        }
        proof {
            assert(views(list@) =~= self@.records());
        }
        Some(list)
    }
}

/// A run leaves no file out: once every result is in, there is a record for
/// each file, it names its file, and the summary counts as many records as
/// there are files.
pub proof fn lemma_run_is_complete(run: DispatcherView)
    requires
        run.wf(),
        run.is_done(),
    ensures
        run.issued == run.files.len(),
        run.in_flight() == 0,
        run.records().len() == run.files.len(),
        forall|i: int|
            0 <= i < run.files.len() ==> (#[trigger] run.records()[i]).path == run.files[i],
        summary_of(run.records()).count == run.files.len(),
{
    lemma_all_filled(run.slots);
    if run.files.len() > 0 {
        let last = run.slots.len() - 1;
        assert(run.slots[last] is Some);
    }
    assert forall|i: int| 0 <= i < run.files.len() implies (#[trigger] run.records()[i]).path
        == run.files[i] by {
        assert(run.slots[i] is Some);
    }
}

/// A record reports a failure exactly where the result of its own file is
/// one, and a record of success carries the sizes of its own result.
pub proof fn lemma_record_follows_own_result(
    path: Seq<char>,
    result: Result<(u64, u64), FileErrorView>,
    duration_ms: u128,
)
    ensures
        record_for(path, result, duration_ms).failed() <==> result is Err,
        result matches Ok((before, after)) ==> {
            &&& record_for(path, result, duration_ms).before == before
            &&& record_for(path, result, duration_ms).after == after
        },
        record_for(path, result, duration_ms).path == path,
{
}

} // verus!
