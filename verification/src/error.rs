//! Why the conversion of one file was abandoned.

use vstd::prelude::*;
use vstd::string::*;

verus! {

/// Why the encoder gave up, in the encoder's own terms.
#[derive(Clone, Copy, Debug, PartialEq, Eq, Structural)]
pub enum EncoderError {
    /// The code that stands for no error.
    NoError,
    OutOfMemory,
    BitstreamOutOfMemory,
    NullParameter,
    InvalidConfiguration,
    BadDimension,
    Partition0Overflow,
    PartitionOverflow,
    BadWrite,
    FileTooBig,
    UserAbort,
    /// The code that ends the encoder's list.
    LastCode,
}

impl EncoderError {
    /// The encoder's reason in words.
    pub open spec fn words_of(self) -> Seq<char> {
        match self {
            EncoderError::NoError => "no error"@,
            EncoderError::OutOfMemory => "out of memory"@,
            EncoderError::BitstreamOutOfMemory => "out of memory for the bitstream"@,
            EncoderError::NullParameter => "a parameter is missing"@,
            EncoderError::InvalidConfiguration => "the configuration is invalid"@,
            EncoderError::BadDimension => "the dimension is bad"@,
            EncoderError::Partition0Overflow => "the first partition is too big"@,
            EncoderError::PartitionOverflow => "a partition is too big"@,
            EncoderError::BadWrite => "the bytes cannot be written"@,
            EncoderError::FileTooBig => "the file is too big"@,
            EncoderError::UserAbort => "the encoding was aborted"@,
            EncoderError::LastCode => "an unknown error"@,
        }
    }

    /// The encoder's reason in words.
    pub fn words(self) -> (text: &'static str)
        ensures
            text@ == self.words_of(),
    {
        match self {
            EncoderError::NoError => "no error",
            EncoderError::OutOfMemory => "out of memory",
            EncoderError::BitstreamOutOfMemory => "out of memory for the bitstream",
            EncoderError::NullParameter => "a parameter is missing",
            EncoderError::InvalidConfiguration => "the configuration is invalid",
            EncoderError::BadDimension => "the dimension is bad",
            EncoderError::Partition0Overflow => "the first partition is too big",
            EncoderError::PartitionOverflow => "a partition is too big",
            EncoderError::BadWrite => "the bytes cannot be written",
            EncoderError::FileTooBig => "the file is too big",
            EncoderError::UserAbort => "the encoding was aborted",
            EncoderError::LastCode => "an unknown error",
        }
    }
}

/// The failure of one conversion, by the stage at which it happened. A failure belongs
/// to the file it happened on and to no other.
#[derive(Debug)]
pub enum ConvertError {
    /// The source does not lie at or below the input root.
    OutsideRoot,
    /// The source could not be read; the text says why.
    Read(String),
    /// The extension of the source names no format that is read. No decoder was asked.
    UnknownFormat,
    /// The decoder was asked and gave up; the text says why.
    Decode(String),
    /// The decoder gave an image that is no raster with at least one pixel.
    NoPixels,
    /// The resampled raster would not fit in memory.
    Resize,
    /// The raster has a side that the encoder does not take: none at all, or more
    /// than 16383 pixels. The encoder was not asked.
    Unencodable,
    /// The encoder was asked and gave up.
    Encode(EncoderError),
    /// The output could not be written; the text says why.
    Write(String),
}

impl ConvertError {
    /// The text that introduces the cause of a failure of this kind.
    pub open spec fn headline(&self) -> Seq<char> {
        match self {
            ConvertError::OutsideRoot => "the source does not lie below the input root"@,
            ConvertError::Read(_) => "cannot read the source: "@,
            ConvertError::UnknownFormat => "the extension names no format that is read"@,
            ConvertError::Decode(_) => "cannot decode the source: "@,
            ConvertError::NoPixels => "the image holds no pixels"@,
            ConvertError::Resize => "the resampled image would not fit in memory"@,
            ConvertError::Unencodable => "the image has a side of no or of more than 16383 pixels"@,
            ConvertError::Encode(_) => "cannot encode the image: "@,
            ConvertError::Write(_) => "cannot write the output: "@,
        }
    }

    /// The cause that the failure carries, if it carries one.
    pub open spec fn cause(&self) -> Seq<char> {
        match self {
            ConvertError::Read(why) => why@,
            ConvertError::Decode(why) => why@,
            ConvertError::Encode(why) => why.words_of(),
            ConvertError::Write(why) => why@,
            _ => Seq::empty(),
        }
    }

    /// The failure in words, for a report: its headline, then its cause.
    pub fn message(&self) -> (text: String)
        ensures
            text@ == self.headline() + self.cause(),
    {
        match self {
            ConvertError::OutsideRoot => String::from_str(
                "the source does not lie below the input root",
            ),
            ConvertError::Read(why) => String::from_str("cannot read the source: ").concat(
                why.as_str(),
            ),
            ConvertError::UnknownFormat => String::from_str(
                "the extension names no format that is read",
            ),
            ConvertError::Decode(why) => String::from_str("cannot decode the source: ").concat(
                why.as_str(),
            ),
            ConvertError::NoPixels => String::from_str("the image holds no pixels"),
            ConvertError::Resize => String::from_str("the resampled image would not fit in memory"),
            ConvertError::Unencodable => String::from_str(
                "the image has a side of no or of more than 16383 pixels",
            ),
            ConvertError::Encode(why) => String::from_str("cannot encode the image: ").concat(
                why.words(),
            ),
            ConvertError::Write(why) => String::from_str("cannot write the output: ").concat(
                why.as_str(),
            ),
        }
    }
}

} // verus!
