//! The work on one file: decode, pick the quality, encode, and the steps
//! that lead a file from its source to its output.
//!
//! The file system is read and written elsewhere. The worker is a machine
//! that is told what happened (an `Event`) and answers with what to do next
//! (an `Action`), until it hands out the result of the file.

use vstd::prelude::*;
use crate::args::{Args, ArgsView};
use crate::codec::{
    compress_rgb8, image_decoding, jpeg_encoding, load_rgb8, RasterImage, RasterView,
    BYTES_PER_PIXEL, MAX_JPEG_DIMENSION,
};
use crate::paths::{destination, map_output, parent, path_parent_of, text_of};
use crate::quality::{calculate_quality, effective_quality};

verus! {

/// The reason given for a picture whose bytes do not match its dimensions.
pub const MALFORMED_PICTURE: &'static str = "picture data does not match its dimensions";

/// The reason given for a picture that no JPEG file can hold.
pub const UNENCODABLE_SIZE: &'static str = "picture is empty or too large for a JPEG file";

/// Why one file could not be processed. The run goes on with the others.
#[derive(Debug, PartialEq, Eq)]
pub enum FileError {
    /// The source could not be read, or the output not written.
    Io(String),
    /// The source is no picture that the decoder knows.
    Decode(String),
    /// The encoder turned the picture down.
    Encode(String),
    /// The worker was told of something it had not asked for.
    OutOfOrder,
}

/// The mathematical content of a `FileError`.
pub enum FileErrorView {
    Io(Seq<char>),
    Decode(Seq<char>),
    Encode(Seq<char>),
    OutOfOrder,
}

impl View for FileError {
    type V = FileErrorView;

    open spec fn view(&self) -> FileErrorView {
        match self {
            FileError::Io(reason) => FileErrorView::Io(reason@),
            FileError::Decode(reason) => FileErrorView::Decode(reason@),
            FileError::Encode(reason) => FileErrorView::Encode(reason@),
            FileError::OutOfOrder => FileErrorView::OutOfOrder,
        }
    }
}

/// What the description of a failure to read or write begins with.
pub const IO_PREFIX: &'static str = "I/O error: ";

/// What the description of a failure to decode begins with.
pub const DECODE_PREFIX: &'static str = "decode error: ";

/// What the description of a failure to encode begins with.
pub const ENCODE_PREFIX: &'static str = "encode error: ";

/// The description of an event out of order.
pub const OUT_OF_ORDER: &'static str = "worker was told of something it had not asked for";

impl FileErrorView {
    /// The failure in words: the kind of failure, then the reason given.
    pub open spec fn description(self) -> Seq<char> {
        match self {
            FileErrorView::Io(reason) => IO_PREFIX@ + reason,
            FileErrorView::Decode(reason) => DECODE_PREFIX@ + reason,
            FileErrorView::Encode(reason) => ENCODE_PREFIX@ + reason,
            FileErrorView::OutOfOrder => OUT_OF_ORDER@,
        }
    }
}

impl FileError {
    /// The failure in words, for the list of failures at the end of a run.
    pub fn describe(&self) -> (text: String)
        ensures
            text@ == self@.description(),
    {
        match self {
            FileError::Io(reason) => IO_PREFIX.to_owned().concat(reason.as_str()),
            FileError::Decode(reason) => DECODE_PREFIX.to_owned().concat(reason.as_str()),
            FileError::Encode(reason) => ENCODE_PREFIX.to_owned().concat(reason.as_str()),
            FileError::OutOfOrder => OUT_OF_ORDER.to_owned(),
        }
    }
}

/// The content of an answer that holds bytes or a failure.
pub open spec fn bytes_view(answer: Result<Vec<u8>, FileError>) -> Result<Seq<u8>, FileErrorView> {
    match answer {
        Ok(bytes) => Ok(bytes@),
        Err(error) => Err(error@),
    }
}

/// The content of an answer that holds a picture or a failure.
pub open spec fn picture_view(answer: Result<RasterImage, FileError>) -> Result<
    RasterView,
    FileErrorView,
> {
    match answer {
        Ok(picture) => Ok(picture@),
        Err(error) => Err(error@),
    }
}

/// The content of the result of one file.
pub open spec fn result_view(result: Result<(u64, u64), FileError>) -> Result<
    (u64, u64),
    FileErrorView,
> {
    match result {
        Ok(sizes) => Ok(sizes),
        Err(error) => Err(error@),
    }
}

/// What decoding `bytes` gives: the decoder's picture, or its error as a
/// decode failure.
pub open spec fn decoded(bytes: Seq<u8>) -> Result<RasterView, FileErrorView> {
    match image_decoding(bytes) {
        Ok(picture) => Ok(picture),
        Err(reason) => Err(FileErrorView::Decode(reason)),
    }
}

/// What encoding `picture` at `quality` gives. A picture whose bytes do not
/// match its dimensions, or that no JPEG file can hold, never reaches the
/// encoder; the encoder's own error is an encode failure.
pub open spec fn encoded(picture: RasterView, quality: u8) -> Result<Seq<u8>, FileErrorView> {
    if !picture.well_formed() {
        Err(FileErrorView::Encode(MALFORMED_PICTURE@))
    } else if !picture.fits_jpeg() {
        Err(FileErrorView::Encode(UNENCODABLE_SIZE@))
    } else {
        match jpeg_encoding(picture.pixels, picture.width, picture.height, quality) {
            Ok(bytes) => Ok(bytes),
            Err(reason) => Err(FileErrorView::Encode(reason)),
        }
    }
}

/// The JPEG file that a source with the content `bytes` and the size
/// `before` becomes at the base quality `base_quality`: the source is
/// decoded, and the picture encoded at the effective quality for `before`.
pub open spec fn recompressed(bytes: Seq<u8>, base_quality: u8, before: u64) -> Result<
    Seq<u8>,
    FileErrorView,
> {
    match decoded(bytes) {
        Ok(picture) => encoded(picture, effective_quality(base_quality, before) as u8),
        Err(error) => Err(error),
    }
}

/// Decodes the content of a source file into a picture.
pub fn decode_source(bytes: &[u8]) -> (answer: Result<RasterImage, FileError>)
    ensures
        picture_view(answer) == decoded(bytes@),
{
    match load_rgb8(bytes) {
        Ok(picture) => Ok(picture),
        Err(reason) => Err(FileError::Decode(reason)),
    }
}

/// Whether `picture` holds as many bytes as its dimensions call for.
pub fn is_well_formed(picture: &RasterImage) -> (ok: bool)
    ensures
        ok == picture@.well_formed(),
{
    let width = picture.width as u128;
    let height = picture.height as u128;
    assert(width * height <= 0xffff_fffe_0000_0001) by (nonlinear_arith)
        requires
            width <= 0xffff_ffff,
            height <= 0xffff_ffff,
    ;
    let area: u128 = width * height;
    assert(area * BYTES_PER_PIXEL <= 3 * 0xffff_fffe_0000_0001) by (nonlinear_arith)
        requires
            area <= 0xffff_fffe_0000_0001,
            BYTES_PER_PIXEL == 3,
    ;
    picture.pixels.len() as u128 == area * (BYTES_PER_PIXEL as u128)
}

/// Encodes a picture as JPEG at the given quality, in memory.
pub fn encode_with_mozjpeg(picture: &RasterImage, quality: u8) -> (answer: Result<
    Vec<u8>,
    FileError,
>)
    ensures
        bytes_view(answer) == encoded(picture@, quality),
{
    if !is_well_formed(picture) {
        return Err(FileError::Encode(MALFORMED_PICTURE.to_owned()));
    }
    if picture.width < 1 || picture.width > MAX_JPEG_DIMENSION || picture.height < 1
        || picture.height > MAX_JPEG_DIMENSION {
        return Err(FileError::Encode(UNENCODABLE_SIZE.to_owned()));
    }
    match compress_rgb8(picture.pixels.as_slice(), picture.width, picture.height, quality) {
        Ok(bytes) => Ok(bytes),
        Err(reason) => Err(FileError::Encode(reason)),
    }
}

/// Turns the content of a source file into the JPEG file that replaces it:
/// decodes it, picks the quality from the base quality and the source's
/// size `before`, and encodes the picture at that quality.
pub fn recompress(bytes: &[u8], base_quality: u8, before: u64) -> (answer: Result<
    Vec<u8>,
    FileError,
>)
    ensures
        bytes_view(answer) == recompressed(bytes@, base_quality, before),
{
    match decode_source(bytes) {
        Ok(picture) => {
            let quality = calculate_quality(base_quality, before);
            encode_with_mozjpeg(&picture, quality)
        },
        Err(error) => Err(error),
    }
}

/// How far the work on one file has come.
#[derive(Debug, Clone, Copy, PartialEq, Eq, Structural)]
pub enum Stage {
    /// Nothing has been done yet.
    Start,
    /// The size of the source has been asked for.
    Sizing,
    /// The source has `before` bytes; the destination is being looked at.
    Probing { before: u64 },
    /// The content of the source has been asked for.
    Reading { before: u64 },
    /// The output is being written.
    Writing { before: u64 },
    /// The result has been handed out.
    Done,
}

/// What the worker is told.
#[derive(Debug, PartialEq, Eq)]
pub enum Event {
    /// The work on the file begins.
    Start,
    /// The source has this many bytes.
    SourceSize(u64),
    /// Whether the destination exists, and the size of what is there (zero
    /// where nothing is there or its size cannot be had).
    Destination { exists: bool, size: u64 },
    /// The content of the source.
    SourceBytes(Vec<u8>),
    /// The output was written and has this many bytes.
    Written(u64),
    /// What the worker asked for last could not be done, for this reason.
    Failed(String),
}

/// The mathematical content of an `Event`.
pub enum EventView {
    Start,
    SourceSize(u64),
    Destination { exists: bool, size: u64 },
    SourceBytes(Seq<u8>),
    Written(u64),
    Failed(Seq<char>),
}

impl View for Event {
    type V = EventView;

    open spec fn view(&self) -> EventView {
        match self {
            Event::Start => EventView::Start,
            Event::SourceSize(size) => EventView::SourceSize(*size),
            Event::Destination { exists, size } => EventView::Destination {
                exists: *exists,
                size: *size,
            },
            Event::SourceBytes(bytes) => EventView::SourceBytes(bytes@),
            Event::Written(size) => EventView::Written(*size),
            Event::Failed(reason) => EventView::Failed(reason@),
        }
    }
}

/// What the worker wants done next.
#[derive(Debug, PartialEq, Eq)]
pub enum Action {
    /// Find out how many bytes the source has.
    StatSource,
    /// Find out whether this destination exists, and how large it is.
    ProbeDestination(String),
    /// Read the content of the source.
    ReadSource,
    /// Create `parent` with all that leads to it, where there is one, write
    /// `bytes` to `dest`, and find out how large `dest` then is. Nothing
    /// may stay at `dest` where this fails.
    WriteOutput { dest: String, parent: Option<String>, bytes: Vec<u8> },
    /// The file is done: its sizes before and after, or why it failed.
    Finish(Result<(u64, u64), FileError>),
}

/// The mathematical content of an `Action`.
pub enum ActionView {
    StatSource,
    ProbeDestination(Seq<char>),
    ReadSource,
    WriteOutput { dest: Seq<char>, parent: Option<Seq<char>>, bytes: Seq<u8> },
    Finish(Result<(u64, u64), FileErrorView>),
}

impl View for Action {
    type V = ActionView;

    open spec fn view(&self) -> ActionView {
        match self {
            Action::StatSource => ActionView::StatSource,
            Action::ProbeDestination(dest) => ActionView::ProbeDestination(dest@),
            Action::ReadSource => ActionView::ReadSource,
            Action::WriteOutput { dest, parent, bytes } => ActionView::WriteOutput {
                dest: dest@,
                parent: text_of(*parent),
                bytes: bytes@,
            },
            Action::Finish(result) => ActionView::Finish(result_view(*result)),
        }
    }
}

/// One move of the worker: where it stands now, and what it wants done.
#[derive(Debug, PartialEq, Eq)]
pub struct Step {
    pub next: Stage,
    pub action: Action,
}

/// The mathematical content of a `Step`.
pub struct StepView {
    pub next: Stage,
    pub action: ActionView,
}

impl View for Step {
    type V = StepView;

    open spec fn view(&self) -> StepView {
        StepView { next: self.next, action: self.action@ }
    }
}

/// The move that ends the work on a file with `result`.
pub open spec fn finish_with(result: Result<(u64, u64), FileErrorView>) -> StepView {
    StepView { next: Stage::Done, action: ActionView::Finish(result) }
}

/// The move that follows the attempt to turn a source of `before` bytes
/// into a JPEG file: on success the file is written to the destination of
/// the source, on failure the work ends with the failure.
pub open spec fn step_after_recompress(
    path: Seq<char>,
    args: ArgsView,
    single_file: bool,
    before: u64,
    outcome: Result<Seq<u8>, FileErrorView>,
) -> StepView {
    match outcome {
        Ok(bytes) => {
            let dest = destination(path, args.input, args.output, single_file);
            StepView {
                next: Stage::Writing { before },
                action: ActionView::WriteOutput { dest, parent: path_parent_of(dest), bytes },
            }
        },
        Err(error) => finish_with(Err(error)),
    }
}

/// The worker's rule: the move it makes at `stage` when told of `event`.
///
/// The source is sized first, then the destination looked at. A
/// destination that exists is kept, unless the run overwrites: the work
/// then ends with the size of what is there, and the source is never read.
/// Else the source is read and recompressed, the output written, and the
/// work ends with the size of what was written. A failure that is
/// reported ends the work with that failure; so does an event that the
/// stage did not ask for.
pub open spec fn next_step(
    path: Seq<char>,
    args: ArgsView,
    single_file: bool,
    stage: Stage,
    event: EventView,
) -> StepView {
    match (stage, event) {
        (Stage::Start, EventView::Start) => StepView {
            next: Stage::Sizing,
            action: ActionView::StatSource,
        },
        (Stage::Sizing, EventView::SourceSize(before)) => StepView {
            next: Stage::Probing { before },
            action: ActionView::ProbeDestination(
                destination(path, args.input, args.output, single_file),
            ),
        },
        (Stage::Probing { before }, EventView::Destination { exists, size }) => {
            if exists && !args.overwrite {
                finish_with(Ok((before, size)))
            } else {
                StepView { next: Stage::Reading { before }, action: ActionView::ReadSource }
            }
        },
        (Stage::Reading { before }, EventView::SourceBytes(bytes)) => step_after_recompress(
            path,
            args,
            single_file,
            before,
            recompressed(bytes, args.quality, before),
        ),
        (Stage::Writing { before }, EventView::Written(after)) => finish_with(Ok((before, after))),
        (Stage::Sizing, EventView::Failed(reason)) => finish_with(Err(FileErrorView::Io(reason))),
        (Stage::Probing { .. }, EventView::Failed(reason)) => finish_with(
            Err(FileErrorView::Io(reason)),
        ),
        (Stage::Reading { .. }, EventView::Failed(reason)) => finish_with(
            Err(FileErrorView::Io(reason)),
        ),
        (Stage::Writing { .. }, EventView::Failed(reason)) => finish_with(
            Err(FileErrorView::Io(reason)),
        ),
        _ => finish_with(Err(FileErrorView::OutOfOrder)),
    }
}

/// The move that ends the work on a file with `result`.
pub fn finish(result: Result<(u64, u64), FileError>) -> (step: Step)
    ensures
        step@ == finish_with(result_view(result)),
{
    Step { next: Stage::Done, action: Action::Finish(result) }
}

/// Decides what follows the attempt to recompress a source of `before`
/// bytes: the output is written where there is one, else the file has
/// failed.
pub fn after_recompress(
    path: &str,
    args: &Args,
    single_file: bool,
    before: u64,
    outcome: Result<Vec<u8>, FileError>,
) -> (step: Step)
    ensures
        step@ == step_after_recompress(path@, args@, single_file, before, bytes_view(outcome)),
{
    match outcome {
        Ok(bytes) => {
            let dest = map_output(path, args.input.as_str(), args.output.as_str(), single_file);
            let parent = parent(dest.as_str());
            Step {
                next: Stage::Writing { before },
                action: Action::WriteOutput { dest, parent, bytes },
            }
        },
        Err(error) => finish(Err(error)),
    }
}

/// Makes the next move in the work on the source `path`: takes the stage
/// the work is at and what happened since, and gives the stage it is at
/// now and what is to be done next. `single_file` says whether the input
/// of the run is one file and not a directory.
///
/// The work starts at `Stage::Start` with `Event::Start` and is over once
/// the action is `Action::Finish`.
pub fn process_one_file(
    path: &str,
    args: &Args,
    single_file: bool,
    stage: Stage,
    event: Event,
) -> (step: Step)
    ensures
        step@ == next_step(path@, args@, single_file, stage, event@),
{
    match stage {
        Stage::Start => match event {
            Event::Start => Step { next: Stage::Sizing, action: Action::StatSource },
            _ => finish(Err(FileError::OutOfOrder)),
        },
        Stage::Sizing => match event {
            Event::SourceSize(before) => {
                let dest = map_output(path, args.input.as_str(), args.output.as_str(), single_file);
                Step { next: Stage::Probing { before }, action: Action::ProbeDestination(dest) }
            },
            Event::Failed(reason) => finish(Err(FileError::Io(reason))),
            _ => finish(Err(FileError::OutOfOrder)),
        },
        Stage::Probing { before } => match event {
            Event::Destination { exists, size } => {
                if exists && !args.overwrite {
                    finish(Ok((before, size)))
                } else {
                    Step { next: Stage::Reading { before }, action: Action::ReadSource }
                }
            },
            Event::Failed(reason) => finish(Err(FileError::Io(reason))),
            _ => finish(Err(FileError::OutOfOrder)),
        },
        Stage::Reading { before } => match event {
            Event::SourceBytes(bytes) => {
                let outcome = recompress(bytes.as_slice(), args.quality, before);
                after_recompress(path, args, single_file, before, outcome)
            },
            Event::Failed(reason) => finish(Err(FileError::Io(reason))),
            _ => finish(Err(FileError::OutOfOrder)),
        },
        Stage::Writing { before } => match event {
            Event::Written(after) => finish(Ok((before, after))),
            Event::Failed(reason) => finish(Err(FileError::Io(reason))),
            _ => finish(Err(FileError::OutOfOrder)),
        },
        Stage::Done => finish(Err(FileError::OutOfOrder)),
    }
}

} // verus!
