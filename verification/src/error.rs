//! The failure vocabulary shared by every part of the library.
use vstd::prelude::*;
use vstd::string::*;

verus! {

/// Why a payload could not be read as the shape that was expected.
///
/// Only the structure of a payload can be at fault: a field that the
/// library does not know is dropped, and a token that a vocabulary does not
/// know resolves to its unspecified variant.
#[derive(Debug, Clone, PartialEq, Eq)]
pub enum Fault {
    /// The markup itself could not be read; holds the reader's account.
    Unreadable(String),
    /// A field that the shape requires is absent; holds its wire name.
    MissingField(String),
    /// A field's text is not of the field's type; holds its wire name.
    InvalidValue(String),
}

/// Mathematical model of a [`Fault`].
pub enum FaultView {
    Unreadable(Seq<char>),
    MissingField(Seq<char>),
    InvalidValue(Seq<char>),
}

impl View for Fault {
    type V = FaultView;

    open spec fn view(&self) -> FaultView {
        match self {
            Fault::Unreadable(reason) => FaultView::Unreadable(reason@),
            Fault::MissingField(name) => FaultView::MissingField(name@),
            Fault::InvalidValue(name) => FaultView::InvalidValue(name@),
        }
    }
}

/// Everything that can go wrong between asking a player and holding its
/// typed answer, and while searching for players.
#[derive(Debug, Clone, PartialEq, Eq)]
pub enum Error {
    /// Reading a payload failed; holds the cause.
    ReadError(String),
    /// A search ended without a single player.
    NoBluOSError,
    /// A request could not be performed.
    RequestError { source: String, url: String },
    /// The answer to a request could not be fetched.
    RequestFetchError { source: String, url: String },
    /// A payload was not of the expected shape; holds the payload as it
    /// came and where it came from.
    XMLError { source: Fault, xml: String, url: String },
    /// A search could not be told to stop: none was listening any more.
    CancelError,
    /// A search was asked for while one was under way.
    AlreadyDiscovering,
    Unknown,
}

/// Mathematical model of an [`Error`].
pub enum ErrorView {
    ReadError(Seq<char>),
    NoBluOSError,
    RequestError { source: Seq<char>, url: Seq<char> },
    RequestFetchError { source: Seq<char>, url: Seq<char> },
    XMLError { source: FaultView, xml: Seq<char>, url: Seq<char> },
    CancelError,
    AlreadyDiscovering,
    Unknown,
}

impl View for Error {
    type V = ErrorView;

    open spec fn view(&self) -> ErrorView {
        match self {
            Error::ReadError(cause) => ErrorView::ReadError(cause@),
            Error::NoBluOSError => ErrorView::NoBluOSError,
            Error::RequestError { source, url } => ErrorView::RequestError {
                source: source@,
                url: url@,
            },
            Error::RequestFetchError { source, url } => ErrorView::RequestFetchError {
                source: source@,
                url: url@,
            },
            Error::XMLError { source, xml, url } => ErrorView::XMLError {
                source: source@,
                xml: xml@,
                url: url@,
            },
            Error::CancelError => ErrorView::CancelError,
            Error::AlreadyDiscovering => ErrorView::AlreadyDiscovering,
            Error::Unknown => ErrorView::Unknown,
        }
    }
}

/// The sentence that describes a fault.
pub open spec fn fault_message(fault: FaultView) -> Seq<char> {
    match fault {
        FaultView::Unreadable(reason) => reason,
        FaultView::MissingField(name) => "missing field `"@ + name + "`"@,
        FaultView::InvalidValue(name) => "invalid value for field `"@ + name + "`"@,
    }
}

/// The sentence that describes an error.
pub open spec fn error_message(error: ErrorView) -> Seq<char> {
    match error {
        ErrorView::ReadError(cause) => cause,
        ErrorView::NoBluOSError => "Could not find BluOS controller"@,
        ErrorView::RequestError { source, url } => "Error performing GET request to "@ + url
            + ": "@ + source,
        ErrorView::RequestFetchError { source, url } => "Error fetching data from "@ + url + ": "@
            + source,
        ErrorView::XMLError { source, xml, url } => "Error parsing XML "@ + xml + " from "@ + url
            + ": "@ + fault_message(source),
        ErrorView::CancelError => "sending on a closed channel"@,
        ErrorView::AlreadyDiscovering => "Already discovering using zeroconf"@,
        ErrorView::Unknown => "IDK BRO"@,
    }
}

impl Fault {
    /// The sentence that describes this fault.
    pub fn message(&self) -> (r: String)
        ensures
            r@ == fault_message(self@),
    {
        match self {
            Fault::Unreadable(reason) => reason.clone(),
            Fault::MissingField(name) => {
                let mut r = String::from_str("missing field `");
                r.append(name.as_str());
                r.append("`");
                r
            },
            Fault::InvalidValue(name) => {
                let mut r = String::from_str("invalid value for field `");
                r.append(name.as_str());
                r.append("`");
                r
            },
        }
    }
}

impl Error {
    /// The failure of a payload to be of the expected shape.
    pub fn decode_failure(fault: Fault, xml: &str, url: &str) -> (r: Error)
        ensures
            r@ == (ErrorView::XMLError { source: fault@, xml: xml@, url: url@ }),
    {
        Error::XMLError { source: fault, xml: String::from_str(xml), url: String::from_str(url) }
    }

    /// The sentence that describes this error.
    pub fn message(&self) -> (r: String)
        ensures
            r@ == error_message(self@),
    {
        match self {
            Error::ReadError(cause) => cause.clone(),
            Error::NoBluOSError => String::from_str("Could not find BluOS controller"),
            Error::RequestError { source, url } => {
                let mut r = String::from_str("Error performing GET request to ");
                r.append(url.as_str());
                r.append(": ");
                r.append(source.as_str());
                r
            },
            Error::RequestFetchError { source, url } => {
                let mut r = String::from_str("Error fetching data from ");
                r.append(url.as_str());
                r.append(": ");
                r.append(source.as_str());
                r
            },
            Error::XMLError { source, xml, url } => {
                let detail = source.message();
                let mut r = String::from_str("Error parsing XML ");
                r.append(xml.as_str());
                r.append(" from ");
                r.append(url.as_str());
                r.append(": ");
                r.append(detail.as_str());
                r
            },
            Error::CancelError => String::from_str("sending on a closed channel"),
            Error::AlreadyDiscovering => String::from_str("Already discovering using zeroconf"),
            Error::Unknown => String::from_str("IDK BRO"),
        }
    }
}

} // verus!
