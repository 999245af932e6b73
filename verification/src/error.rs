use vstd::prelude::*;

verus! {

/// The kinds of failure a command can report, without the attached cause.
#[derive(Clone, Copy, Debug, PartialEq, Eq, Structural)]
pub enum ErrorKind {
    ConnectionError,
    AlreadyConnected,
    NotConnected,
    ConsumedSource,
    InvalidBitrate,
    SourceDecodeError,
    CompressionError,
    UseAsyncConstructor,
}

/// A failed command. The variants that stem from an underlying cause carry
/// that cause's description.
#[derive(Debug)]
pub enum VoiceError {
    /// The handshake or the transport failed, or the retry budget ran out.
    ConnectionError(String),
    /// `connect` was issued while a session is live or being set up.
    AlreadyConnected,
    /// `leave` or `play` was issued without a session.
    NotConnected,
    /// A source that was already handed to playback or compression was used
    /// again, or a handle that holds nothing any more was asked for a source.
    ConsumedSource(String),
    /// The bitrate lies outside the range the wire codec supports.
    InvalidBitrate,
    /// The source's reader failed while samples were pulled from it.
    SourceDecodeError(String),
    /// The encoder's output could not be stored.
    CompressionError(String),
    /// A compressed source was constructed directly instead of from a source.
    UseAsyncConstructor,
}

/// The error as a mathematical value: its kind and the text of its cause
/// (empty where the variant carries none).
pub struct ErrorView {
    pub kind: ErrorKind,
    pub cause: Seq<char>,
}

impl View for VoiceError {
    type V = ErrorView;

    open spec fn view(&self) -> ErrorView {
        match self {
            VoiceError::ConnectionError(m) => ErrorView { kind: ErrorKind::ConnectionError, cause: m@ },
            VoiceError::AlreadyConnected => ErrorView {
                kind: ErrorKind::AlreadyConnected,
                cause: Seq::empty(),
            },
            VoiceError::NotConnected => ErrorView { kind: ErrorKind::NotConnected, cause: Seq::empty() },
            VoiceError::ConsumedSource(m) => ErrorView { kind: ErrorKind::ConsumedSource, cause: m@ },
            VoiceError::InvalidBitrate => ErrorView {
                kind: ErrorKind::InvalidBitrate,
                cause: Seq::empty(),
            },
            VoiceError::SourceDecodeError(m) => ErrorView {
                kind: ErrorKind::SourceDecodeError,
                cause: m@,
            },
            VoiceError::CompressionError(m) => ErrorView { kind: ErrorKind::CompressionError, cause: m@ },
            VoiceError::UseAsyncConstructor => ErrorView {
                kind: ErrorKind::UseAsyncConstructor,
                cause: Seq::empty(),
            },
        }
    }
}

impl ErrorView {
    /// The description of the error: its cause where its kind carries one,
    /// a fixed sentence otherwise.
    pub open spec fn description(self) -> Seq<char> {
        match self.kind {
            ErrorKind::ConnectionError => self.cause,
            ErrorKind::SourceDecodeError => self.cause,
            ErrorKind::CompressionError => self.cause,
            ErrorKind::AlreadyConnected => "a session is already live or being set up"@,
            ErrorKind::NotConnected => "there is no session"@,
            ErrorKind::ConsumedSource => self.cause,
            ErrorKind::InvalidBitrate => "the bitrate is outside the supported range"@,
            ErrorKind::UseAsyncConstructor => "Use `CompressedSource.from_source` to create a `CompressedSource` object."@,
        }
    }
}

/// The view of an error of the given kind that carries no cause.
pub open spec fn bare(kind: ErrorKind) -> ErrorView {
    ErrorView { kind, cause: Seq::empty() }
}

/// The view of an error of the given kind with the given cause.
pub open spec fn caused(kind: ErrorKind, cause: Seq<char>) -> ErrorView {
    ErrorView { kind, cause }
}

impl VoiceError {
    /// The kind of this error.
    pub fn kind(&self) -> (k: ErrorKind)
        ensures
            k == self@.kind,
    {
        match self {
            VoiceError::ConnectionError(_) => ErrorKind::ConnectionError,
            VoiceError::AlreadyConnected => ErrorKind::AlreadyConnected,
            VoiceError::NotConnected => ErrorKind::NotConnected,
            VoiceError::ConsumedSource(_) => ErrorKind::ConsumedSource,
            VoiceError::InvalidBitrate => ErrorKind::InvalidBitrate,
            VoiceError::SourceDecodeError(_) => ErrorKind::SourceDecodeError,
            VoiceError::CompressionError(_) => ErrorKind::CompressionError,
            VoiceError::UseAsyncConstructor => ErrorKind::UseAsyncConstructor,
        }
    }

    /// A description of what went wrong: the underlying cause where the
    /// error carries one, a fixed sentence for the misuse errors.
    pub fn description(&self) -> (text: String)
        ensures
            text@ == self@.description(),
    {
        match self {
            VoiceError::ConnectionError(m) => m.clone(),
            VoiceError::SourceDecodeError(m) => m.clone(),
            VoiceError::CompressionError(m) => m.clone(),
            VoiceError::AlreadyConnected => "a session is already live or being set up".to_owned(),
            VoiceError::NotConnected => "there is no session".to_owned(),
            VoiceError::ConsumedSource(m) => m.clone(),
            VoiceError::InvalidBitrate => "the bitrate is outside the supported range".to_owned(),
            VoiceError::UseAsyncConstructor => "Use `CompressedSource.from_source` to create a `CompressedSource` object.".to_owned(),
        }
    }
}

} // verus!
