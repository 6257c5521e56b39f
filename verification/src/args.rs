//! The configuration of a run.

use vstd::prelude::*;

verus! {

/// The base quality used where none is given.
pub const DEFAULT_QUALITY: u8 = 30;

/// The lowest base quality the codec takes.
pub const LOWEST_BASE_QUALITY: u8 = 1;

/// The highest base quality the codec takes.
pub const HIGHEST_BASE_QUALITY: u8 = 100;

/// What a run is asked to do.
#[derive(Debug, PartialEq, Eq)]
pub struct Args {
    /// The file or directory to read.
    pub input: String,
    /// Where the output goes: a file for an input file, a directory for an
    /// input directory.
    pub output: String,
    /// The base quality, before any size penalty.
    pub quality: u8,
    /// How many files may be in work at once; the machine decides where
    /// this is absent or zero.
    pub threads: Option<usize>,
    /// Whether an output that exists already is written again.
    pub overwrite: bool,
}

/// The mathematical content of `Args`.
pub struct ArgsView {
    pub input: Seq<char>,
    pub output: Seq<char>,
    pub quality: u8,
    pub threads: Option<usize>,
    pub overwrite: bool,
}

impl View for Args {
    type V = ArgsView;

    open spec fn view(&self) -> ArgsView {
        ArgsView {
            input: self.input@,
            output: self.output@,
            quality: self.quality,
            threads: self.threads,
            overwrite: self.overwrite,
        }
    }
}

/// Why a configuration is turned down.
#[derive(Debug, PartialEq, Eq, Clone, Copy)]
pub enum ConfigError {
    /// The base quality, given here, is outside the codec's range.
    QualityOutOfRange(u8),
}

impl ArgsView {
    /// Whether the base quality lies in the codec's range.
    pub open spec fn quality_in_range(self) -> bool {
        LOWEST_BASE_QUALITY <= self.quality <= HIGHEST_BASE_QUALITY
    }

    /// How many files may be in work at once on a machine that can run
    /// `available` threads side by side: the count asked for where there is
    /// one above zero, else what the machine offers, and never less than
    /// one.
    pub open spec fn worker_count(self, available: usize) -> usize {
        match self.threads {
            Some(n) if n > 0 => n,
            _ => if available > 0 {
                available
            } else {
                1
            },
        }
    }
}

impl Args {
    /// A configuration with the default quality, no thread count and no
    /// overwriting.
    pub fn new(input: String, output: String) -> (args: Self)
        ensures
            args@ == (ArgsView {
                input: input@,
                output: output@,
                quality: DEFAULT_QUALITY,
                threads: None,
                overwrite: false,
            }),
    {
        Args { input, output, quality: DEFAULT_QUALITY, threads: None, overwrite: false }
    }

    /// Turns a configuration down whose base quality the codec cannot take.
    /// Nothing is clamped here.
    pub fn validate(&self) -> (checked: Result<(), ConfigError>)
        ensures
            checked is Ok <==> self@.quality_in_range(),
            checked is Err ==> checked == Err::<(), ConfigError>(
                ConfigError::QualityOutOfRange(self.quality),
            ),
    {
        if self.quality < LOWEST_BASE_QUALITY || self.quality > HIGHEST_BASE_QUALITY {
            Err(ConfigError::QualityOutOfRange(self.quality))
        } else {
            Ok(())
        }
    }

    /// How many files may be in work at once, given how many threads the
    /// machine can run side by side.
    pub fn worker_count(&self, available: usize) -> (workers: usize)
        ensures
            workers == self@.worker_count(available),
            workers >= 1,
    {
        match self.threads {
            Some(n) if n > 0 => n,
            _ => if available > 0 {
                available
            } else {
                1
            },
        }
    }
}

} // verus!
