//! The failure causes shared by every source adapter.
//!
//! An adapter never panics and never retries: whatever goes wrong is handed
//! back as an [`Error`] that says which source failed, for which host where
//! one is known, and why.

use vstd::prelude::*;
use vstd::string::*;

verus! {

/// Why a network exchange with a source did not yield a decoded answer.
///
/// This is what the caller that performs the exchange reports back; the
/// adapter adds the source and host and turns it into an [`Error`].
#[derive(Debug, PartialEq, Eq)]
pub enum TransportFailure {
    /// The request could not be sent or no answer arrived in time.
    Network { detail: String },
    /// An answer arrived but did not have the shape the source promises.
    Decode { detail: String },
}

/// Mathematical view of a [`TransportFailure`].
pub enum TransportFailureView {
    Network { detail: Seq<char> },
    Decode { detail: Seq<char> },
}

impl View for TransportFailure {
    type V = TransportFailureView;

    open spec fn view(&self) -> TransportFailureView {
        match *self {
            TransportFailure::Network { detail } => TransportFailureView::Network {
                detail: detail@,
            },
            TransportFailure::Decode { detail } => TransportFailureView::Decode { detail: detail@ },
        }
    }
}

/// A failure of one source adapter.
#[derive(Debug, PartialEq, Eq)]
pub enum Error {
    /// Credentials the source requires are not configured.
    KeyError { source: String, env_variable_names: Vec<String> },
    /// The source answered, but knows nothing about the host.
    SourceError { source: String, host: String },
    /// The source could not be reached.
    NetworkError { source: String, host: String, detail: String },
    /// The source's answer could not be decoded.
    DecodeError { source: String, host: String, detail: String },
}

/// Mathematical view of an [`Error`]: the same cases over sequences of
/// characters.
pub enum ErrorView {
    KeyError { source: Seq<char>, env_variable_names: Seq<Seq<char>> },
    SourceError { source: Seq<char>, host: Seq<char> },
    NetworkError { source: Seq<char>, host: Seq<char>, detail: Seq<char> },
    DecodeError { source: Seq<char>, host: Seq<char>, detail: Seq<char> },
}

/// The characters of each string of `names`, in order.
pub open spec fn views_of(names: Seq<String>) -> Seq<Seq<char>> {
    names.map_values(|name: String| name@)
}

impl View for Error {
    type V = ErrorView;

    open spec fn view(&self) -> ErrorView {
        match *self {
            Error::KeyError { source, env_variable_names } => ErrorView::KeyError {
                source: source@,
                env_variable_names: views_of(env_variable_names@),
            },
            Error::SourceError { source, host } => ErrorView::SourceError {
                source: source@,
                host: host@,
            },
            Error::NetworkError { source, host, detail } => ErrorView::NetworkError {
                source: source@,
                host: host@,
                detail: detail@,
            },
            Error::DecodeError { source, host, detail } => ErrorView::DecodeError {
                source: source@,
                host: host@,
                detail: detail@,
            },
        }
    }
}

/// `names` written one after the other, separated by a comma and a space.
pub open spec fn joined(names: Seq<Seq<char>>) -> Seq<char>
    decreases names.len(),
{
    if names.len() == 0 {
        Seq::empty()
    } else if names.len() == 1 {
        names[0]
    } else {
        joined(names.drop_last()) + ", "@ + names.last()
    }
}

/// The message of a source that answered but knows nothing about `host`.
pub open spec fn no_results_message(source: Seq<char>, host: Seq<char>) -> Seq<char> {
    source + " couldn't find any results for: "@ + host
}

/// The message of a source whose credentials are not configured.
pub open spec fn missing_keys_message(source: Seq<char>, names: Seq<Seq<char>>) -> Seq<char> {
    source + " couldn't read its credentials: "@ + joined(names)
}

/// The message of a source that could not be reached.
pub open spec fn network_message(source: Seq<char>, host: Seq<char>, detail: Seq<char>) -> Seq<
    char,
> {
    source + " couldn't be reached for: "@ + host + " ("@ + detail + ")"@
}

/// The message of a source whose answer could not be decoded.
pub open spec fn decode_message(source: Seq<char>, host: Seq<char>, detail: Seq<char>) -> Seq<
    char,
> {
    source + " sent an unreadable answer for: "@ + host + " ("@ + detail + ")"@
}

/// The human-readable message of an error.
pub open spec fn message_of(e: ErrorView) -> Seq<char> {
    match e {
        ErrorView::KeyError { source, env_variable_names } => missing_keys_message(
            source,
            env_variable_names,
        ),
        ErrorView::SourceError { source, host } => no_results_message(source, host),
        ErrorView::NetworkError { source, host, detail } => network_message(source, host, detail),
        ErrorView::DecodeError { source, host, detail } => decode_message(source, host, detail),
    }
}

/// Appends `names`, separated by a comma and a space, to `out`.
fn append_joined(out: &mut String, names: &Vec<String>)
    ensures
        final(out)@ == old(out)@ + joined(views_of(names@)),
{
    let ghost before = out@;
    let ghost all = views_of(names@);
    let mut i: usize = 0;
    while i < names.len()
        invariant
            i <= names.len(),
            all == views_of(names@),
            out@ == before + joined(all.take(i as int)),
        decreases names.len() - i,
    {
        proof {
            let next = all.take(i + 1);
            assert(next.drop_last() =~= all.take(i as int));
            assert(next.last() == names@[i as int]@);
        }
        if i > 0 {
            out.append(", ");
        }
        out.append(names[i].as_str());
        i = i + 1;
    }
    proof {
        assert(all.take(names.len() as int) =~= all);
    }
}

impl Error {
    /// The failure of `source` to find anything about `host`.
    pub fn source_error(source: &str, host: &str) -> (e: Error)
        ensures
            e@ == (ErrorView::SourceError { source: source@, host: host@ }),
    {
        Error::SourceError { source: source.to_owned(), host: host.to_owned() }
    }

    /// The failure of `source` to read the credentials named by
    /// `env_variable_names`.
    pub fn key_error(source: &str, env_variable_names: &[&str]) -> (e: Error)
        ensures
            e@ == (ErrorView::KeyError {
                source: source@,
                env_variable_names: env_variable_names@.map_values(|name: &str| name@),
            }),
    {
        let ghost wanted = env_variable_names@.map_values(|name: &str| name@);
        let mut names: Vec<String> = Vec::new();
        let mut i: usize = 0;
        while i < env_variable_names.len()
            invariant
                i <= env_variable_names.len(),
                wanted == env_variable_names@.map_values(|name: &str| name@),
                views_of(names@) =~= wanted.take(i as int),
            decreases env_variable_names.len() - i,
        {
            let name = env_variable_names[i].to_owned();
            proof {
                assert(views_of(names@.push(name)) =~= views_of(names@).push(name@));
                assert(wanted.take(i + 1) =~= wanted.take(i as int).push(wanted[i as int]));
            }
            names.push(name);
            i = i + 1;
        }
        proof {
            assert(wanted.take(env_variable_names.len() as int) =~= wanted);
        }
        Error::KeyError { source: source.to_owned(), env_variable_names: names }
    }

    /// The failure of an exchange between `source` and its service about
    /// `host`: a network error or a decode error, as `failure` says, with
    /// its detail.
    pub fn transport_error(source: &str, host: &str, failure: TransportFailure) -> (e: Error)
        ensures
            e@ == transport_error_of(source@, host@, failure@),
    {
        match failure {
            TransportFailure::Network { detail } => Error::NetworkError {
                source: source.to_owned(),
                host: host.to_owned(),
                detail,
            },
            TransportFailure::Decode { detail } => Error::DecodeError {
                source: source.to_owned(),
                host: host.to_owned(),
                detail,
            },
        }
    }

    /// The human-readable message of this error.
    pub fn message(&self) -> (text: String)
        ensures
            text@ == message_of(self@),
    {
        match self {
            Error::KeyError { source, env_variable_names } => {
                let mut text = source.clone();
                text.append(" couldn't read its credentials: ");
                append_joined(&mut text, env_variable_names);
                text
            },
            Error::SourceError { source, host } => {
                let mut text = source.clone();
                text.append(" couldn't find any results for: ");
                text.append(host.as_str());
                text
            },
            Error::NetworkError { source, host, detail } => {
                let mut text = source.clone();
                text.append(" couldn't be reached for: ");
                text.append(host.as_str());
                text.append(" (");
                text.append(detail.as_str());
                text.append(")");
                text
            },
            Error::DecodeError { source, host, detail } => {
                let mut text = source.clone();
                text.append(" sent an unreadable answer for: ");
                text.append(host.as_str());
                text.append(" (");
                text.append(detail.as_str());
                text.append(")");
                text
            },
        }
    }
}

/// The error that a transport failure becomes once the source and host of
/// the exchange are known.
pub open spec fn transport_error_of(
    source: Seq<char>,
    host: Seq<char>,
    failure: TransportFailureView,
) -> ErrorView {
    match failure {
        TransportFailureView::Network { detail } => ErrorView::NetworkError {
            source,
            host,
            detail,
        },
        TransportFailureView::Decode { detail } => ErrorView::DecodeError { source, host, detail },
    }
}

} // verus!
