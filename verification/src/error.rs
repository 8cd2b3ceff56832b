use vstd::prelude::*;
use vstd::std_specs::convert::FromSpecImpl;

verus! {

/// What can go wrong when a mammogram is read and classified.
#[derive(Debug)]
pub enum MammocatError {
    /// The file could not be read or decoded.
    DicomError(String),
    /// A tag that the caller required is absent.
    TagNotFound(String),
    /// A value is malformed: a number or a structured field does not parse.
    InvalidValue(String),
    /// The data fails a validation, such as a modality other than
    /// mammography.
    ExtractionError(String),
    /// An input or output operation failed.
    IoError(String),
}

impl MammocatError {
    /// The detail that the error carries.
    pub open spec fn detail(self) -> Seq<char> {
        match self {
            MammocatError::DicomError(m) => m@,
            MammocatError::TagNotFound(m) => m@,
            MammocatError::InvalidValue(m) => m@,
            MammocatError::ExtractionError(m) => m@,
            MammocatError::IoError(m) => m@,
        }
    }

    /// The words that introduce the detail in the message.
    pub open spec fn prefix(self) -> Seq<char> {
        match self {
            MammocatError::DicomError(_) => "DICOM error: "@,
            MammocatError::TagNotFound(_) => "Tag not found: "@,
            MammocatError::InvalidValue(_) => "Invalid tag value: "@,
            MammocatError::ExtractionError(_) => "Extraction error: "@,
            MammocatError::IoError(_) => "IO error: "@,
        }
    }

    /// The message of the error: its prefix followed by its detail.
    pub fn to_string(&self) -> (r: String)
        ensures
            r@ == self.prefix() + self.detail(),
    {
        match self {
            MammocatError::DicomError(m) => "DICOM error: ".to_owned().concat(m.as_str()),
            MammocatError::TagNotFound(m) => "Tag not found: ".to_owned().concat(m.as_str()),
            MammocatError::InvalidValue(m) => "Invalid tag value: ".to_owned().concat(m.as_str()),
            MammocatError::ExtractionError(m) => "Extraction error: ".to_owned().concat(
                m.as_str(),
            ),
            MammocatError::IoError(m) => "IO error: ".to_owned().concat(m.as_str()),
        }
    }
}

impl From<String> for MammocatError {
    fn from(s: String) -> (r: Self) {
        MammocatError::ExtractionError(s)
    }
}

impl FromSpecImpl<String> for MammocatError {
    open spec fn obeys_from_spec() -> bool {
        true
    }

    open spec fn from_spec(s: String) -> Self {
        MammocatError::ExtractionError(s)
    }
}

} // verus!
