//! The faults that a channel reports.

use vstd::prelude::*;

verus! {

/// Why a channel could not build or read an envelope.
#[derive(Debug)]
pub enum ChannelError {
    /// A request could not be written as text.
    Encoding(serde_json::Error),
    /// The text of an envelope is not a JSON document.
    Decoding(serde_json::Error),
    /// The envelope carries bytes where text was required.
    PayloadKind,
    /// The transport could not send an envelope; the text is its report.
    Transport(String),
}

/// The model of a [`ChannelError`]: which fault it is, and for a fault of the
/// transport its report.
pub enum ChannelErrorView {
    Encoding,
    Decoding,
    PayloadKind,
    Transport(Seq<char>),
}

impl View for ChannelError {
    type V = ChannelErrorView;

    open spec fn view(&self) -> ChannelErrorView {
        match *self {
            ChannelError::Encoding(_) => ChannelErrorView::Encoding,
            ChannelError::Decoding(_) => ChannelErrorView::Decoding,
            ChannelError::PayloadKind => ChannelErrorView::PayloadKind,
            ChannelError::Transport(report) => ChannelErrorView::Transport(report@),
        }
    }
}

/// The model of what a fallible operation of a channel returned.
pub open spec fn outcome<T: View>(result: Result<T, ChannelError>) -> Result<T::V, ChannelErrorView> {
    match result {
        Ok(value) => Ok(value@),
        Err(error) => Err(error@),
    }
}

} // verus!
