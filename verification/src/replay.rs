//! What the work on one file comes to when the worker's questions are
//! answered by a given file system, and what holds of running it again.

use vstd::prelude::*;
use crate::args::ArgsView;
use crate::compressor::{next_step, recompressed, ActionView, EventView, FileErrorView, Stage};
use crate::paths::destination;

verus! {

/// What the file system answers to the worker's questions about one file.
pub struct World {
    /// The size of the source, or why it cannot be had.
    pub source_size: Result<u64, Seq<char>>,
    /// Whether the destination exists.
    pub dest_exists: bool,
    /// The size of what is at the destination.
    pub dest_size: u64,
    /// The content of the source, or why it cannot be read.
    pub source_bytes: Result<Seq<u8>, Seq<char>>,
    /// The size of the output once it is written, or why it cannot be
    /// written.
    pub written_size: Result<u64, Seq<char>>,
}

/// What the work on one file came to.
pub struct Outcome {
    /// The sizes before and after, or the failure.
    pub result: Result<(u64, u64), FileErrorView>,
    /// The destination and the bytes that the worker asked to have written
    /// there, if it asked.
    pub wrote: Option<(Seq<char>, Seq<u8>)>,
}

/// The event with which `world` answers `action`.
pub open spec fn answer(world: World, action: ActionView) -> EventView {
    match action {
        ActionView::StatSource => match world.source_size {
            Ok(size) => EventView::SourceSize(size),
            Err(reason) => EventView::Failed(reason),
        },
        ActionView::ProbeDestination(_) => EventView::Destination {
            exists: world.dest_exists,
            size: world.dest_size,
        },
        ActionView::ReadSource => match world.source_bytes {
            Ok(bytes) => EventView::SourceBytes(bytes),
            Err(reason) => EventView::Failed(reason),
        },
        ActionView::WriteOutput { .. } => match world.written_size {
            Ok(size) => EventView::Written(size),
            Err(reason) => EventView::Failed(reason),
        },
        ActionView::Finish(_) => EventView::Start,
    }
}

/// What was asked to be written by `action`, if anything.
pub open spec fn write_of(action: ActionView) -> Option<(Seq<char>, Seq<u8>)> {
    match action {
        ActionView::WriteOutput { dest, parent, bytes } => Some((dest, bytes)),
        _ => None,
    }
}

/// The outcome of letting the worker move from `stage` on `event`, with
/// `world` answering, for at most `moves` further moves.
pub open spec fn play(
    path: Seq<char>,
    args: ArgsView,
    single_file: bool,
    world: World,
    stage: Stage,
    event: EventView,
    moves: nat,
) -> Outcome
    decreases moves,
{
    let step = next_step(path, args, single_file, stage, event);
    match step.action {
        ActionView::Finish(result) => Outcome { result, wrote: None },
        action => if moves == 0 {
            Outcome { result: Err(FileErrorView::OutOfOrder), wrote: write_of(action) }
        } else {
            let rest = play(
                path,
                args,
                single_file,
                world,
                step.next,
                answer(world, action),
                (moves - 1) as nat,
            );
            Outcome {
                result: rest.result,
                wrote: match write_of(action) {
                    Some(w) => Some(w),
                    None => rest.wrote,
                },
            }
        },
    }
}

/// How many moves the worker makes at most after its first.
pub open spec fn longest_run() -> nat {
    4
}

/// The outcome of the whole work on the source `path` in `world`.
pub open spec fn outcome_in(
    path: Seq<char>,
    args: ArgsView,
    single_file: bool,
    world: World,
) -> Outcome {
    play(path, args, single_file, world, Stage::Start, EventView::Start, longest_run())
}

/// The outcome of the work on one file, case by case.
///
/// A source that cannot be sized fails the file. A destination that exists
/// is kept where the run does not overwrite: the result is the size of the
/// source and of what is there, and nothing is written. Else a source that
/// cannot be read or recompressed fails the file, and nothing is written.
/// Else the JPEG file is written to the destination, and the result is the
/// size of the source and of what was written, or the failure to write.
pub open spec fn expected_outcome(
    path: Seq<char>,
    args: ArgsView,
    single_file: bool,
    world: World,
) -> Outcome {
    match world.source_size {
        Err(reason) => Outcome { result: Err(FileErrorView::Io(reason)), wrote: None },
        Ok(before) => if world.dest_exists && !args.overwrite {
            Outcome { result: Ok((before, world.dest_size)), wrote: None }
        } else {
            match world.source_bytes {
                Err(reason) => Outcome { result: Err(FileErrorView::Io(reason)), wrote: None },
                Ok(bytes) => match recompressed(bytes, args.quality, before) {
                    Err(error) => Outcome { result: Err(error), wrote: None },
                    Ok(jpeg) => Outcome {
                        result: match world.written_size {
                            Ok(after) => Ok((before, after)),
                            Err(reason) => Err(FileErrorView::Io(reason)),
                        },
                        wrote: Some(
                            (destination(path, args.input, args.output, single_file), jpeg),
                        ),
                    },
                },
            }
        },
    }
}

/// The worker, run from start to finish, comes to the expected outcome.
pub proof fn lemma_worker_outcome(path: Seq<char>, args: ArgsView, single_file: bool, world: World)
    ensures
        outcome_in(path, args, single_file, world) == expected_outcome(
            path,
            args,
            single_file,
            world,
        ),
{
    reveal_with_fuel(play, 6);
}

/// Where the worker asks for a write, it is to the destination of the
/// source.
pub proof fn lemma_write_goes_to_destination(
    path: Seq<char>,
    args: ArgsView,
    single_file: bool,
    world: World,
)
    ensures
        match outcome_in(path, args, single_file, world).wrote {
            Some((dest, bytes)) => dest == destination(path, args.input, args.output, single_file),
            None => true,
        },
{
    lemma_worker_outcome(path, args, single_file, world);
}

/// Running again without overwriting repeats the result. Where a run that
/// does not overwrite ended well, a second run that finds the source as it
/// was, and at the destination a file of the size the first run reported,
/// ends with the same sizes and writes nothing.
pub proof fn lemma_second_run_repeats_first(
    path: Seq<char>,
    args: ArgsView,
    single_file: bool,
    world: World,
    before: u64,
    after: u64,
)
    requires
        !args.overwrite,
        outcome_in(path, args, single_file, world).result == Ok::<(u64, u64), FileErrorView>(
            (before, after),
        ),
    ensures
        ({
            let again = World { dest_exists: true, dest_size: after, ..world };
            let second = outcome_in(path, args, single_file, again);
            &&& second.result == Ok::<(u64, u64), FileErrorView>((before, after))
            &&& second.wrote is None
        }),
{
    let again = World { dest_exists: true, dest_size: after, ..world };
    lemma_worker_outcome(path, args, single_file, world);
    lemma_worker_outcome(path, args, single_file, again);
}

/// Without overwriting, a destination that exists is never touched: the
/// source is not even read, and the result is the size of the source and
/// of what is there.
pub proof fn lemma_existing_output_is_kept(
    path: Seq<char>,
    args: ArgsView,
    single_file: bool,
    world: World,
    before: u64,
)
    requires
        !args.overwrite,
        world.dest_exists,
        world.source_size == Ok::<u64, Seq<char>>(before),
    ensures
        outcome_in(path, args, single_file, world) == (Outcome {
            result: Ok((before, world.dest_size)),
            wrote: None,
        }),
{
    lemma_worker_outcome(path, args, single_file, world);
}

/// With overwriting, what is at the destination plays no part: the outcome,
/// the bytes written included, is the same whether or not the destination
/// exists and whatever its size. So a run does not fail because its output
/// is there already, and writes other bytes than before only where the
/// source or the quality gives another encoding.
pub proof fn lemma_overwrite_ignores_existing_output(
    path: Seq<char>,
    args: ArgsView,
    single_file: bool,
    world: World,
    exists: bool,
    size: u64,
)
    requires
        args.overwrite,
    ensures
        outcome_in(
            path,
            args,
            single_file,
            World { dest_exists: exists, dest_size: size, ..world },
        ) == outcome_in(path, args, single_file, world),
{
    let other = World { dest_exists: exists, dest_size: size, ..world };
    lemma_worker_outcome(path, args, single_file, world);
    lemma_worker_outcome(path, args, single_file, other);
}

/// What a run writes depends on the source and the configuration alone:
/// two worlds that agree on the source's size and content have the worker
/// ask for the same write, if it asks in both.
pub proof fn lemma_written_bytes_follow_source(
    path: Seq<char>,
    args: ArgsView,
    single_file: bool,
    first: World,
    second: World,
)
    requires
        first.source_size == second.source_size,
        first.source_bytes == second.source_bytes,
        outcome_in(path, args, single_file, first).wrote is Some,
        outcome_in(path, args, single_file, second).wrote is Some,
    ensures
        outcome_in(path, args, single_file, first).wrote == outcome_in(
            path,
            args,
            single_file,
            second,
        ).wrote,
{
    lemma_worker_outcome(path, args, single_file, first);
    lemma_worker_outcome(path, args, single_file, second);
}

} // verus!
