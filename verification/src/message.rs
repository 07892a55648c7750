//! The envelope that every channel sends and receives.

use vstd::prelude::*;

verus! {

/// What an envelope carries: JSON text, or bytes.
#[derive(Debug, PartialEq, Eq)]
pub enum CastMessagePayload {
    String(String),
    Binary(Vec<u8>),
}

/// One message on the wire. The namespace names the channel that it belongs
/// to; source and destination name the two endpoints.
#[derive(Debug, PartialEq, Eq)]
pub struct CastMessage {
    pub namespace: String,
    pub source: String,
    pub destination: String,
    pub payload: CastMessagePayload,
}

/// The model of a [`CastMessagePayload`].
pub enum PayloadView {
    Text(Seq<char>),
    Binary(Seq<u8>),
}

/// The model of a [`CastMessage`].
pub struct CastMessageView {
    pub namespace: Seq<char>,
    pub source: Seq<char>,
    pub destination: Seq<char>,
    pub payload: PayloadView,
}

impl View for CastMessagePayload {
    type V = PayloadView;

    open spec fn view(&self) -> PayloadView {
        match *self {
            CastMessagePayload::String(text) => PayloadView::Text(text@),
            CastMessagePayload::Binary(bytes) => PayloadView::Binary(bytes@),
        }
    }
}

impl View for CastMessage {
    type V = CastMessageView;

    open spec fn view(&self) -> CastMessageView {
        CastMessageView {
            namespace: self.namespace@,
            source: self.source@,
            destination: self.destination@,
            payload: self.payload@,
        }
    }
}

impl Clone for CastMessagePayload {
    fn clone(&self) -> (copy: CastMessagePayload)
        ensures
            copy@ == self@,
    {
        match self {
            CastMessagePayload::String(text) => CastMessagePayload::String(text.clone()),
            CastMessagePayload::Binary(bytes) => CastMessagePayload::Binary(bytes.clone()),
        }
    }
}

impl Clone for CastMessage {
    fn clone(&self) -> (copy: CastMessage)
        ensures
            copy@ == self@,
    {
        CastMessage {
            namespace: self.namespace.clone(),
            source: self.source.clone(),
            destination: self.destination.clone(),
            payload: self.payload.clone(),
        }
    }
}

} // verus!
