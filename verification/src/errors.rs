//! Failures of the file operations, and the text shown for each.

use vstd::prelude::*;

verus! {

/// What a probe of a path on disk finds.
#[derive(Clone, Copy, Debug, PartialEq, Eq, Structural)]
pub enum PathKind {
    Missing,
    Directory,
    File,
    Other,
}

/// Why a conversion or a cleanup failed. `Io` carries its whole text;
/// `Decode` and `Encode` carry the cause as the codec reported it.
#[derive(Clone, Debug, PartialEq, Eq)]
pub enum ConvertError {
    InvalidPath,
    NotAFile,
    WrongExtension,
    Io(String),
    Decode(String),
    Encode(String),
}

/// Is the path a directory that exists?
pub fn check_path_is_directory(kind: PathKind) -> (r: bool)
    ensures
        r == (kind == PathKind::Directory),
{
    kind == PathKind::Directory
}

/// The text shown for a failure.
pub open spec fn message_of(e: ConvertError) -> Seq<char> {
    match e {
        ConvertError::InvalidPath => "Путь не существует"@,
        ConvertError::NotAFile => "Указанный путь не является файлом"@,
        ConvertError::WrongExtension => "Файл не является WebP изображением"@,
        ConvertError::Io(text) => text@,
        ConvertError::Decode(cause) => "Ошибка декодирования: "@ + cause@,
        ConvertError::Encode(cause) => "Ошибка сохранения PNG: "@ + cause@,
    }
}

impl ConvertError {
    /// Renders the failure as the text a user reads.
    pub fn message(&self) -> (r: String)
        ensures
            r@ == message_of(*self),
    {
        match self {
            ConvertError::InvalidPath => String::from_str("Путь не существует"),
            ConvertError::NotAFile => String::from_str("Указанный путь не является файлом"),
            ConvertError::WrongExtension => String::from_str("Файл не является WebP изображением"),
            ConvertError::Io(text) => String::from_str(text.as_str()),
            ConvertError::Decode(cause) => String::from_str("Ошибка декодирования: ").concat(
                cause.as_str(),
            ),
            ConvertError::Encode(cause) => String::from_str("Ошибка сохранения PNG: ").concat(
                cause.as_str(),
            ),
        }
    }
}

/// An `Io` failure whose text is `context` followed by `cause`.
pub fn io_failure(context: &str, cause: &str) -> (e: ConvertError)
    ensures
        e is Io,
        message_of(e) == context@ + cause@,
{
    ConvertError::Io(String::from_str(context).concat(cause))
}

} // verus!
