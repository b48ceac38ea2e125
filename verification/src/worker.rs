//! The conversion of one file, as a state machine.
//!
//! A [`Worker`] holds what is known of one source file. It never touches the file
//! system: [`Worker::request`] says what it needs from outside, and [`Worker::step`]
//! takes the answer. Workers share nothing but the read-only [`Config`], so what
//! happens to one has no effect on any other.

use crate::alpha::alpha_applied;
use crate::alpha::replace_alpha_with_white;
use crate::buffer::PixelBuffer;
use crate::buffer::Raster;
use crate::codec::decode;
use crate::codec::encode;
use crate::codec::encoding_of;
use crate::codec::is_encodable;
use crate::config::AlphaMode;
use crate::config::Config;
use crate::error::ConvertError;
use crate::geometry::decision;
use crate::geometry::is_fitted;
use crate::geometry::is_resized;
use crate::geometry::resize_is_possible;
use crate::geometry::resize_to_fit;
use crate::geometry::Transform;
use crate::paths::is_under;
use crate::paths::mapped;
use crate::paths::names;
use crate::paths::output_path;
use crate::paths::path_format;
use crate::paths::path_format_of;
use crate::trusted::decoded_rgba8;
use vstd::prelude::*;

verus! {

/// `out` is a result of the two policies for `source`: the alpha policy applied to a
/// result of the geometry policy.
pub open spec fn is_transformed(source: Raster, out: Raster, config: Config) -> bool {
    exists|sized: Raster| #[trigger]
        is_resized(source, sized, config) && out == alpha_applied(sized, config.alpha)
}

/// Where the geometry policy leaves the image alone, the result of the two policies
/// is fixed: the alpha policy applied to the source.
pub proof fn lemma_transform_of_kept_image(source: Raster, out: Raster, config: Config)
    requires
        is_transformed(source, out, config),
        decision(source.width, source.height, config.width, config.height, config.fit)
            == Transform::Keep,
    ensures
        out == alpha_applied(source, config.alpha),
{
}

/// Applies the geometry policy and then the alpha policy to a decoded image.
///
/// The result has the size that the geometry policy promises, and is the alpha
/// policy applied to what the geometry policy gave. The one failure is a resampling
/// that would not fit in memory.
pub fn transform(image: PixelBuffer, config: &Config) -> (r: Result<PixelBuffer, ConvertError>)
    requires
        image.wf(),
        config.wf(),
    ensures
        r is Ok <==> resize_is_possible(image.width, image.height, *config),
        r is Err ==> r == Err::<PixelBuffer, ConvertError>(ConvertError::Resize),
        r matches Ok(out) ==> {
            &&& out.wf()
            &&& is_fitted(image@, out@, *config)
            &&& is_transformed(image@, out@, *config)
        },
{
    match resize_to_fit(image, config) {
        Ok(sized) => {
            let out = match config.alpha {
                AlphaMode::Preserve => sized,
                AlphaMode::Flatten => replace_alpha_with_white(&sized),
            };
            assert(is_resized(image@, sized@, *config) && out@ == alpha_applied(
                sized@,
                config.alpha,
            ));
            Ok(out)
        },
        Err(error) => Err(error),
    }
}

/// What is known of the conversion of one source file.
#[derive(Debug)]
pub enum Worker {
    /// The output path is derived; whether the output exists is not known yet.
    Mapped { source: Vec<String>, output: Vec<String> },
    /// The output does not exist; the source is to be read.
    Checked { source: Vec<String>, output: Vec<String> },
    /// The source is decoded.
    Decoded { source: Vec<String>, output: Vec<String>, image: PixelBuffer },
    /// The image is resized and its transparency dealt with.
    Transformed { source: Vec<String>, output: Vec<String>, image: PixelBuffer },
    /// The output bytes are ready to be written.
    Encoded { source: Vec<String>, output: Vec<String>, bytes: Vec<u8> },
    /// The output is written: the conversion succeeded.
    Written { source: Vec<String>, output: Vec<String> },
    /// The output existed already: nothing was done, and nothing is reported.
    Skipped { source: Vec<String>, output: Vec<String> },
    /// The conversion was abandoned.
    Failed { source: Vec<String>, error: ConvertError },
}

/// What a worker needs from outside before its next step.
#[derive(Clone, Copy, Debug, PartialEq, Eq, Structural)]
pub enum Request {
    /// Whether the output exists.
    Probe,
    /// The bytes of the source.
    Read,
    /// Nothing: the next step is the worker's own.
    Proceed,
    /// The parent directory of the output made, if it is missing, and the bytes written.
    Write,
    /// Nothing more: the worker has ended.
    Done,
}

/// What outside hands to a worker.
#[derive(Debug)]
pub enum Event {
    /// Whether the output exists.
    Exists(bool),
    /// The bytes of the source.
    Bytes(Vec<u8>),
    /// The source cannot be read, and why.
    Unreadable(String),
    /// Nothing: the worker is to go on.
    Proceed,
    /// The output is written.
    Stored,
    /// The output cannot be written, and why.
    Unwritable(String),
}

/// The next state where the event fixes it: the answer to a probe, a failed read, the
/// end of a write. Any other pair of state and event leaves the worker as it is.
pub open spec fn answered(worker: Worker, event: Event) -> Worker {
    match (worker, event) {
        (Worker::Mapped { source, output }, Event::Exists(exists)) => if exists {
            Worker::Skipped { source, output }
        } else {
            Worker::Checked { source, output }
        },
        (Worker::Checked { source, output }, Event::Unreadable(why)) => Worker::Failed {
            source,
            error: ConvertError::Read(why),
        },
        (Worker::Encoded { source, output, bytes }, Event::Stored) => Worker::Written {
            source,
            output,
        },
        (Worker::Encoded { source, output, bytes }, Event::Unwritable(why)) => Worker::Failed {
            source,
            error: ConvertError::Write(why),
        },
        _ => worker,
    }
}

/// `next` is a state that `worker` may be in after `event`.
///
/// Reading the bytes of the source decodes them, in the format that the source's
/// extension names; a source whose extension names none fails without a decoder being
/// asked. Going on from a decoded image transforms it, and going on from a transformed
/// one encodes it. Whether the decoder and the encoder succeed is their own affair;
/// what they give, if they do, is fixed. Every other step is fixed by [`answered`].
pub open spec fn follows(worker: Worker, event: Event, config: Config, next: Worker) -> bool {
    match (worker, event) {
        (Worker::Checked { source, output }, Event::Bytes(bytes)) => match path_format_of(
            names(source@),
        ) {
            Some(format) => match next {
                Worker::Decoded { source: s, output: o, image } => s == source && o == output
                    && image.wf() && decoded_rgba8(bytes@, format) == Some(image@),
                Worker::Failed { source: s, error: ConvertError::NoPixels } => s == source && (
                decoded_rgba8(bytes@, format) matches Some(image) && !image.wf()),
                Worker::Failed { source: s, error: ConvertError::Decode(_) } => s == source,
                _ => false,
            },
            None => next == (Worker::Failed { source, error: ConvertError::UnknownFormat }),
        },
        (Worker::Decoded { source, output, image }, Event::Proceed) => if resize_is_possible(
            image.width,
            image.height,
            config,
        ) {
            next matches Worker::Transformed { source: s, output: o, image: out } && s == source
                && o == output && out.wf() && is_fitted(image@, out@, config) && is_transformed(
                image@,
                out@,
                config,
            )
        } else {
            next == (Worker::Failed { source, error: ConvertError::Resize })
        },
        (Worker::Transformed { source, output, image }, Event::Proceed) => match next {
            Worker::Encoded { source: s, output: o, bytes } => s == source && o == output
                && bytes@ == encoding_of(image@, config.alpha) && is_encodable(
                image.width,
                image.height,
            ),
            Worker::Failed { source: s, error: ConvertError::Unencodable } => s == source
                && !is_encodable(image.width, image.height),
            Worker::Failed { source: s, error: ConvertError::Encode(_) } => s == source
                && is_encodable(image.width, image.height),
            _ => false,
        },
        _ => next == answered(worker, event),
    }
}

impl Worker {
    /// The images that the worker holds have at least one pixel and four samples for each.
    pub open spec fn wf(&self) -> bool {
        match self {
            Worker::Decoded { image, .. } => image.wf(),
            Worker::Transformed { image, .. } => image.wf(),
            _ => true,
        }
    }

    /// Whether the images that the worker holds have at least one pixel and four
    /// samples for each.
    pub fn is_well_formed(&self) -> (b: bool)
        ensures
            b == self.wf(),
    {
        match self {
            Worker::Decoded { image, .. } => image.is_well_formed(),
            Worker::Transformed { image, .. } => image.is_well_formed(),
            _ => true,
        }
    }

    /// The source file that the worker is about.
    pub open spec fn source(&self) -> Vec<String> {
        match self {
            Worker::Mapped { source, .. } => *source,
            Worker::Checked { source, .. } => *source,
            Worker::Decoded { source, .. } => *source,
            Worker::Transformed { source, .. } => *source,
            Worker::Encoded { source, .. } => *source,
            Worker::Written { source, .. } => *source,
            Worker::Skipped { source, .. } => *source,
            Worker::Failed { source, .. } => *source,
        }
    }

    /// Where the converted file goes, as long as the worker has not failed.
    pub open spec fn output(&self) -> Option<Vec<String>> {
        match self {
            Worker::Mapped { output, .. } => Some(*output),
            Worker::Checked { output, .. } => Some(*output),
            Worker::Decoded { output, .. } => Some(*output),
            Worker::Transformed { output, .. } => Some(*output),
            Worker::Encoded { output, .. } => Some(*output),
            Worker::Written { output, .. } => Some(*output),
            Worker::Skipped { output, .. } => Some(*output),
            Worker::Failed { .. } => None,
        }
    }

    /// What the worker needs from outside.
    pub open spec fn request_of(&self) -> Request {
        match self {
            Worker::Mapped { .. } => Request::Probe,
            Worker::Checked { .. } => Request::Read,
            Worker::Decoded { .. } => Request::Proceed,
            Worker::Transformed { .. } => Request::Proceed,
            Worker::Encoded { .. } => Request::Write,
            Worker::Written { .. } => Request::Done,
            Worker::Skipped { .. } => Request::Done,
            Worker::Failed { .. } => Request::Done,
        }
    }

    /// Begins the conversion of `source` by deriving its output path.
    ///
    /// The output path is `config.output_root`, then what `source` holds below
    /// `config.input_root`, with the extension `webp`: it depends on the source and
    /// the two roots and on nothing else. A source that does not lie below the input
    /// root fails at once.
    pub fn start(source: Vec<String>, config: &Config) -> (worker: Worker)
        ensures
            worker.wf(),
            worker.source() == source,
            is_under(names(source@), names(config.input_root@)) <==> worker is Mapped,
            worker matches Worker::Mapped { output, .. } ==> names(output@) == mapped(
                names(source@),
                names(config.input_root@),
                names(config.output_root@),
            ),
            !is_under(names(source@), names(config.input_root@)) ==> worker == (Worker::Failed {
                source,
                error: ConvertError::OutsideRoot,
            }),
    {
        match output_path(&source, &config.input_root, &config.output_root) {
            Some(output) => Worker::Mapped { source, output },
            None => Worker::Failed { source, error: ConvertError::OutsideRoot },
        }
    }

    /// What the worker needs from outside before its next step.
    pub fn request(&self) -> (request: Request)
        ensures
            request == self.request_of(),
    {
        match self {
            Worker::Mapped { .. } => Request::Probe,
            Worker::Checked { .. } => Request::Read,
            Worker::Decoded { .. } => Request::Proceed,
            Worker::Transformed { .. } => Request::Proceed,
            Worker::Encoded { .. } => Request::Write,
            Worker::Written { .. } => Request::Done,
            Worker::Skipped { .. } => Request::Done,
            Worker::Failed { .. } => Request::Done,
        }
    }

    /// Takes the worker one step further on `event`.
    ///
    /// An existing output ends the worker as skipped, a missing one has the source
    /// read. The bytes of the source are decoded in the format that its extension
    /// names; the image is resized and flattened as `config` says; the result is
    /// encoded; the bytes go out to be written. The first failure ends the worker as
    /// failed, with the source and the cause. An event that the worker did not ask for
    /// changes nothing.
    pub fn step(self, event: Event, config: &Config) -> (next: Worker)
        requires
            self.wf(),
            config.wf(),
        ensures
            next.wf(),
            next.source() == self.source(),
            follows(self, event, *config, next),
    {
        match (self, event) {
            (Worker::Mapped { source, output }, Event::Exists(exists)) => if exists {
                Worker::Skipped { source, output }
            } else {
                Worker::Checked { source, output }
            },
            (Worker::Checked { source, output }, Event::Bytes(bytes)) => match path_format(
                &source,
            ) {
                Some(format) => match decode(bytes.as_slice(), format) {
                    Ok(image) => Worker::Decoded { source, output, image },
                    Err(error) => Worker::Failed { source, error },
                },
                None => Worker::Failed { source, error: ConvertError::UnknownFormat },
            },
            (Worker::Checked { source, output }, Event::Unreadable(why)) => Worker::Failed {
                source,
                error: ConvertError::Read(why),
            },
            (Worker::Decoded { source, output, image }, Event::Proceed) => match transform(
                image,
                config,
            ) {
                Ok(image) => Worker::Transformed { source, output, image },
                Err(error) => Worker::Failed { source, error },
            },
            (Worker::Transformed { source, output, image }, Event::Proceed) => match encode(
                &image,
                config.alpha,
            ) {
                Ok(bytes) => Worker::Encoded { source, output, bytes },
                Err(error) => Worker::Failed { source, error },
            },
            (Worker::Encoded { source, output, bytes }, Event::Stored) => Worker::Written {
                source,
                output,
            },
            (Worker::Encoded { source, output, bytes }, Event::Unwritable(why)) => Worker::Failed {
                source,
                error: ConvertError::Write(why),
            },
            (worker, _) => worker,
        }
    }
}

/// No step changes the source of a worker, nor its output path: a worker that has
/// not failed still goes where it was going.
pub proof fn lemma_step_keeps_paths(worker: Worker, event: Event, config: Config, next: Worker)
    requires
        follows(worker, event, config, next),
    ensures
        next.source() == worker.source(),
        next is Failed || next.output() == worker.output(),
{
}

/// A worker that learns that its output exists ends there: it is skipped and asks for
/// nothing more, so the source is neither read nor decoded, and nothing is encoded or
/// written.
pub proof fn lemma_existing_output_is_skipped(worker: Worker, config: Config, next: Worker)
    requires
        worker is Mapped,
        follows(worker, Event::Exists(true), config, next),
    ensures
        next is Skipped,
        next.source() == worker.source(),
        next.request_of() == Request::Done,
{
}

/// What was converted once is not converted again. Let `first` have written its
/// output, let the paths in `existing` exist, that output among them, and let
/// `second` be a worker that is mapped to the same output, as every worker for the
/// same source under the same roots is. Then `second`, told truly whether its output
/// exists, is skipped and asks for nothing more.
pub proof fn lemma_rerun_is_skipped(
    first: Worker,
    second: Worker,
    existing: Set<Seq<Seq<char>>>,
    config: Config,
    next: Worker,
)
    requires
        first matches Worker::Written { output, .. } && existing.contains(names(output@)),
        second matches Worker::Mapped { output, .. } && first.output() matches Some(written)
            && names(output@) == names(written@) && follows(
            second,
            Event::Exists(existing.contains(names(output@))),
            config,
            next,
        ),
    ensures
        next is Skipped,
        next.request_of() == Request::Done,
{
}

/// A worker that has ended stays as it is, whatever is handed to it.
pub proof fn lemma_ended_worker_stays(worker: Worker, event: Event, config: Config, next: Worker)
    requires
        worker.request_of() == Request::Done,
        follows(worker, event, config, next),
    ensures
        next == worker,
{
}

} // verus!
