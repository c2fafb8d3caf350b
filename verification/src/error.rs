//! The errors of parsing, resolving and checking a target.
//!
//! Each error carries a message and, where another failure caused it, that
//! cause. An error is shown as its message, followed by the words
//! `caused by:` and the cause where there is one.

use vstd::prelude::*;
use vstd::std_specs::convert::FromSpecImpl;

verus! {

/// The message of an error.
pub type ErrorMessage = &'static str;

/// The words that stand between an error's message and its cause.
pub open spec fn caused_by() -> Seq<char> {
    " caused by: "@
}

/// A message followed by the description of what caused the error.
pub open spec fn chained(message: Seq<char>, cause: Seq<char>) -> Seq<char> {
    message + caused_by() + cause
}

/// Joins a message and the description of a cause.
fn chain(message: &str, cause: &str) -> (r: String)
    ensures
        r@ == chained(message@, cause@),
{
    String::from_str(message).concat(" caused by: ").concat(cause)
}

/// An integer that could not be parsed, as the text by which the failure
/// describes itself.
#[derive(Debug)]
pub struct ParseIntCause {
    description: String,
}

impl View for ParseIntCause {
    type V = Seq<char>;

    closed spec fn view(&self) -> Seq<char> {
        self.description@
    }
}

impl ParseIntCause {
    /// A cause with the given description.
    pub fn new(description: String) -> (r: ParseIntCause)
        ensures
            r@ == description@,
    {
        ParseIntCause { description }
    }

    /// The description of the cause.
    pub fn description(&self) -> (r: &String)
        ensures
            r@ == self@,
    {
        &self.description
    }
}

/// A failed input or output operation, as the text by which the failure
/// describes itself.
#[derive(Debug)]
pub struct IoCause {
    description: String,
}

impl View for IoCause {
    type V = Seq<char>;

    closed spec fn view(&self) -> Seq<char> {
        self.description@
    }
}

impl IoCause {
    /// A cause with the given description.
    pub fn new(description: String) -> (r: IoCause)
        ensures
            r@ == description@,
    {
        IoCause { description }
    }

    /// The description of the cause.
    pub fn description(&self) -> (r: &String)
        ensures
            r@ == self@,
    {
        &self.description
    }
}

/// Any other error that caused one of the errors of this module, as the text
/// by which it describes itself.
#[derive(Debug)]
pub struct GenericCause {
    description: String,
}

impl View for GenericCause {
    type V = Seq<char>;

    closed spec fn view(&self) -> Seq<char> {
        self.description@
    }
}

impl GenericCause {
    /// A cause with the given description.
    pub fn new(description: String) -> (r: GenericCause)
        ensures
            r@ == description@,
    {
        GenericCause { description }
    }

    /// The description of the cause.
    pub fn description(&self) -> (r: &String)
        ensures
            r@ == self@,
    {
        &self.description
    }
}

/// Error of parsing a target from a string.
#[derive(Debug)]
pub enum ParseTargetError {
    /// An error that consists of a message.
    Message(ErrorMessage),
    /// An error caused by an integer that could not be parsed.
    ParseIntError(ErrorMessage, ParseIntCause),
    /// An error caused by any other error.
    GenericError(ErrorMessage, GenericCause),
}

impl From<ErrorMessage> for ParseTargetError {
    fn from(message: ErrorMessage) -> (r: ParseTargetError) {
        ParseTargetError::Message(message)
    }
}

impl FromSpecImpl<ErrorMessage> for ParseTargetError {
    open spec fn obeys_from_spec() -> bool {
        true
    }

    open spec fn from_spec(message: ErrorMessage) -> ParseTargetError {
        ParseTargetError::Message(message)
    }
}

impl From<(ErrorMessage, ParseIntCause)> for ParseTargetError {
    fn from(pieces: (ErrorMessage, ParseIntCause)) -> (r: ParseTargetError) {
        let (message, cause) = pieces;
        ParseTargetError::ParseIntError(message, cause)
    }
}

impl FromSpecImpl<(ErrorMessage, ParseIntCause)> for ParseTargetError {
    open spec fn obeys_from_spec() -> bool {
        true
    }

    open spec fn from_spec(pieces: (ErrorMessage, ParseIntCause)) -> ParseTargetError {
        ParseTargetError::ParseIntError(pieces.0, pieces.1)
    }
}

impl From<(ErrorMessage, GenericCause)> for ParseTargetError {
    fn from(pieces: (ErrorMessage, GenericCause)) -> (r: ParseTargetError) {
        let (message, cause) = pieces;
        ParseTargetError::GenericError(message, cause)
    }
}

impl FromSpecImpl<(ErrorMessage, GenericCause)> for ParseTargetError {
    open spec fn obeys_from_spec() -> bool {
        true
    }

    open spec fn from_spec(pieces: (ErrorMessage, GenericCause)) -> ParseTargetError {
        ParseTargetError::GenericError(pieces.0, pieces.1)
    }
}

impl From<GenericCause> for ParseTargetError {
    fn from(cause: GenericCause) -> (r: ParseTargetError) {
        ParseTargetError::GenericError("GenericError", cause)
    }
}

impl FromSpecImpl<GenericCause> for ParseTargetError {
    open spec fn obeys_from_spec() -> bool {
        true
    }

    open spec fn from_spec(cause: GenericCause) -> ParseTargetError {
        ParseTargetError::GenericError("GenericError", cause)
    }
}

impl ParseTargetError {
    /// The message of the error.
    pub open spec fn message(&self) -> Seq<char> {
        match self {
            ParseTargetError::Message(message) => message@,
            ParseTargetError::ParseIntError(message, _) => message@,
            ParseTargetError::GenericError(message, _) => message@,
        }
    }

    /// The description of the cause, where the error has one.
    pub open spec fn source_text(&self) -> Option<Seq<char>> {
        match self {
            ParseTargetError::Message(_) => None,
            ParseTargetError::ParseIntError(_, cause) => Some(cause@),
            ParseTargetError::GenericError(_, cause) => Some(cause@),
        }
    }

    /// The text by which the error is shown: its message, then the words
    /// `caused by:` and the cause where it has one.
    pub open spec fn text(&self) -> Seq<char> {
        match self.source_text() {
            None => self.message(),
            Some(cause) => chained(self.message(), cause),
        }
    }

    /// The description of the cause, where the error has one.
    pub fn source(&self) -> (r: Option<String>)
        ensures
            r is Some == self.source_text() is Some,
            r is Some ==> r.unwrap()@ == self.source_text().unwrap(),
    {
        match self {
            ParseTargetError::Message(_) => None,
            ParseTargetError::ParseIntError(_, cause) => Some(cause.description().clone()),
            ParseTargetError::GenericError(_, cause) => Some(cause.description().clone()),
        }
    }

    /// The error as a string.
    pub fn to_string(&self) -> (r: String)
        ensures
            r@ == self.text(),
    {
        match self {
            ParseTargetError::Message(message) => String::from_str(message),
            ParseTargetError::ParseIntError(message, cause) => chain(
                message,
                cause.description().as_str(),
            ),
            ParseTargetError::GenericError(message, cause) => chain(
                message,
                cause.description().as_str(),
            ),
        }
    }
}

/// Error of resolving the name of a target to addresses.
#[derive(Debug)]
pub enum ResolveTargetError {
    /// An error that consists of a message.
    Message(ErrorMessage),
    /// An error caused by a failed input or output operation.
    IoError(ErrorMessage, IoCause),
    /// An error caused by any other error.
    GenericError(ErrorMessage, GenericCause),
}

impl From<ErrorMessage> for ResolveTargetError {
    fn from(message: ErrorMessage) -> (r: ResolveTargetError) {
        ResolveTargetError::Message(message)
    }
}

impl FromSpecImpl<ErrorMessage> for ResolveTargetError {
    open spec fn obeys_from_spec() -> bool {
        true
    }

    open spec fn from_spec(message: ErrorMessage) -> ResolveTargetError {
        ResolveTargetError::Message(message)
    }
}

impl From<(ErrorMessage, IoCause)> for ResolveTargetError {
    fn from(pieces: (ErrorMessage, IoCause)) -> (r: ResolveTargetError) {
        let (message, cause) = pieces;
        ResolveTargetError::IoError(message, cause)
    }
}

impl FromSpecImpl<(ErrorMessage, IoCause)> for ResolveTargetError {
    open spec fn obeys_from_spec() -> bool {
        true
    }

    open spec fn from_spec(pieces: (ErrorMessage, IoCause)) -> ResolveTargetError {
        ResolveTargetError::IoError(pieces.0, pieces.1)
    }
}

impl From<IoCause> for ResolveTargetError {
    fn from(cause: IoCause) -> (r: ResolveTargetError) {
        ResolveTargetError::IoError("IoError", cause)
    }
}

impl FromSpecImpl<IoCause> for ResolveTargetError {
    open spec fn obeys_from_spec() -> bool {
        true
    }

    open spec fn from_spec(cause: IoCause) -> ResolveTargetError {
        ResolveTargetError::IoError("IoError", cause)
    }
}

impl From<(ErrorMessage, GenericCause)> for ResolveTargetError {
    fn from(pieces: (ErrorMessage, GenericCause)) -> (r: ResolveTargetError) {
        let (message, cause) = pieces;
        ResolveTargetError::GenericError(message, cause)
    }
}

impl FromSpecImpl<(ErrorMessage, GenericCause)> for ResolveTargetError {
    open spec fn obeys_from_spec() -> bool {
        true
    }

    open spec fn from_spec(pieces: (ErrorMessage, GenericCause)) -> ResolveTargetError {
        ResolveTargetError::GenericError(pieces.0, pieces.1)
    }
}

impl From<GenericCause> for ResolveTargetError {
    fn from(cause: GenericCause) -> (r: ResolveTargetError) {
        ResolveTargetError::GenericError("GenericError", cause)
    }
}

impl FromSpecImpl<GenericCause> for ResolveTargetError {
    open spec fn obeys_from_spec() -> bool {
        true
    }

    open spec fn from_spec(cause: GenericCause) -> ResolveTargetError {
        ResolveTargetError::GenericError("GenericError", cause)
    }
}

impl ResolveTargetError {
    /// The message of the error.
    pub open spec fn message(&self) -> Seq<char> {
        match self {
            ResolveTargetError::Message(message) => message@,
            ResolveTargetError::IoError(message, _) => message@,
            ResolveTargetError::GenericError(message, _) => message@,
        }
    }

    /// The description of the cause, where the error has one.
    pub open spec fn source_text(&self) -> Option<Seq<char>> {
        match self {
            ResolveTargetError::Message(_) => None,
            ResolveTargetError::IoError(_, cause) => Some(cause@),
            ResolveTargetError::GenericError(_, cause) => Some(cause@),
        }
    }

    /// The text by which the error is shown: its message, then the words
    /// `caused by:` and the cause where it has one.
    pub open spec fn text(&self) -> Seq<char> {
        match self.source_text() {
            None => self.message(),
            Some(cause) => chained(self.message(), cause),
        }
    }

    /// The description of the cause, where the error has one.
    pub fn source(&self) -> (r: Option<String>)
        ensures
            r is Some == self.source_text() is Some,
            r is Some ==> r.unwrap()@ == self.source_text().unwrap(),
    {
        match self {
            ResolveTargetError::Message(_) => None,
            ResolveTargetError::IoError(_, cause) => Some(cause.description().clone()),
            ResolveTargetError::GenericError(_, cause) => Some(cause.description().clone()),
        }
    }

    /// The error as a string.
    pub fn to_string(&self) -> (r: String)
        ensures
            r@ == self.text(),
    {
        match self {
            ResolveTargetError::Message(message) => String::from_str(message),
            ResolveTargetError::IoError(message, cause) => chain(
                message,
                cause.description().as_str(),
            ),
            ResolveTargetError::GenericError(message, cause) => chain(
                message,
                cause.description().as_str(),
            ),
        }
    }
}

/// Error of checking whether a target is available.
#[derive(Debug)]
pub enum CheckTargetError {
    /// An error that consists of a message.
    Message(ErrorMessage),
    /// An error caused by a name that could not be resolved.
    ResolveTargetError(ErrorMessage, ResolveTargetError),
    /// An error caused by any other error.
    GenericError(ErrorMessage, GenericCause),
}

impl From<ErrorMessage> for CheckTargetError {
    fn from(message: ErrorMessage) -> (r: CheckTargetError) {
        CheckTargetError::Message(message)
    }
}

impl FromSpecImpl<ErrorMessage> for CheckTargetError {
    open spec fn obeys_from_spec() -> bool {
        true
    }

    open spec fn from_spec(message: ErrorMessage) -> CheckTargetError {
        CheckTargetError::Message(message)
    }
}

impl From<(ErrorMessage, ResolveTargetError)> for CheckTargetError {
    fn from(pieces: (ErrorMessage, ResolveTargetError)) -> (r: CheckTargetError) {
        let (message, cause) = pieces;
        CheckTargetError::ResolveTargetError(message, cause)
    }
}

impl FromSpecImpl<(ErrorMessage, ResolveTargetError)> for CheckTargetError {
    open spec fn obeys_from_spec() -> bool {
        true
    }

    open spec fn from_spec(pieces: (ErrorMessage, ResolveTargetError)) -> CheckTargetError {
        CheckTargetError::ResolveTargetError(pieces.0, pieces.1)
    }
}

impl From<ResolveTargetError> for CheckTargetError {
    fn from(cause: ResolveTargetError) -> (r: CheckTargetError) {
        CheckTargetError::ResolveTargetError("ResolveTargetError", cause)
    }
}

impl FromSpecImpl<ResolveTargetError> for CheckTargetError {
    open spec fn obeys_from_spec() -> bool {
        true
    }

    open spec fn from_spec(cause: ResolveTargetError) -> CheckTargetError {
        CheckTargetError::ResolveTargetError("ResolveTargetError", cause)
    }
}

impl From<(ErrorMessage, GenericCause)> for CheckTargetError {
    fn from(pieces: (ErrorMessage, GenericCause)) -> (r: CheckTargetError) {
        let (message, cause) = pieces;
        CheckTargetError::GenericError(message, cause)
    }
}

impl FromSpecImpl<(ErrorMessage, GenericCause)> for CheckTargetError {
    open spec fn obeys_from_spec() -> bool {
        true
    }

    open spec fn from_spec(pieces: (ErrorMessage, GenericCause)) -> CheckTargetError {
        CheckTargetError::GenericError(pieces.0, pieces.1)
    }
}

impl From<GenericCause> for CheckTargetError {
    fn from(cause: GenericCause) -> (r: CheckTargetError) {
        CheckTargetError::GenericError("GenericError", cause)
    }
}

impl FromSpecImpl<GenericCause> for CheckTargetError {
    open spec fn obeys_from_spec() -> bool {
        true
    }

    open spec fn from_spec(cause: GenericCause) -> CheckTargetError {
        CheckTargetError::GenericError("GenericError", cause)
    }
}

impl CheckTargetError {
    /// The message of the error.
    pub open spec fn message(&self) -> Seq<char> {
        match self {
            CheckTargetError::Message(message) => message@,
            CheckTargetError::ResolveTargetError(message, _) => message@,
            CheckTargetError::GenericError(message, _) => message@,
        }
    }

    /// The description of the cause, where the error has one.
    pub open spec fn source_text(&self) -> Option<Seq<char>> {
        match self {
            CheckTargetError::Message(_) => None,
            CheckTargetError::ResolveTargetError(_, cause) => Some(cause.text()),
            CheckTargetError::GenericError(_, cause) => Some(cause@),
        }
    }

    /// The text by which the error is shown: its message, then the words
    /// `caused by:` and the cause where it has one.
    pub open spec fn text(&self) -> Seq<char> {
        match self.source_text() {
            None => self.message(),
            Some(cause) => chained(self.message(), cause),
        }
    }

    /// The description of the cause, where the error has one.
    pub fn source(&self) -> (r: Option<String>)
        ensures
            r is Some == self.source_text() is Some,
            r is Some ==> r.unwrap()@ == self.source_text().unwrap(),
    {
        match self {
            CheckTargetError::Message(_) => None,
            CheckTargetError::ResolveTargetError(_, cause) => Some(cause.to_string()),
            CheckTargetError::GenericError(_, cause) => Some(cause.description().clone()),
        }
    }

    /// The error as a string.
    pub fn to_string(&self) -> (r: String)
        ensures
            r@ == self.text(),
    {
        match self {
            CheckTargetError::Message(message) => String::from_str(message),
            CheckTargetError::ResolveTargetError(message, cause) => chain(
                message,
                cause.to_string().as_str(),
            ),
            CheckTargetError::GenericError(message, cause) => chain(
                message,
                cause.description().as_str(),
            ),
        }
    }
}

} // verus!
