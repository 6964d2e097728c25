//! The shapes a response can take.

use vstd::prelude::*;
use vstd::string::StringExecFns;
use crate::json::{json_view, JsonView};

verus! {

/// The endpoint that lists the channels. The call is a `GET` without body or
/// query, authorised by a bearer token.
pub const CHANNELS_URL: &'static str =
    "https://api.hubapi.com/conversations/v3/conversations/channels";

/// One channel as the service reports it: an identifier and a display name.
#[derive(Debug, Clone, PartialEq, Eq)]
pub struct Channel {
    pub id: String,
    pub name: String,
}

pub struct ChannelView {
    pub id: Seq<char>,
    pub name: Seq<char>,
}

impl View for Channel {
    type V = ChannelView;

    open spec fn view(&self) -> ChannelView {
        ChannelView { id: self.id@, name: self.name@ }
    }
}

/// The views of a run of channels, in order.
pub open spec fn channel_views(channels: Seq<Channel>) -> Seq<ChannelView> {
    Seq::new(channels.len(), |i: int| channels[i]@)
}

/// The success payload. `total` is what the server reports, of either sign;
/// it is not held against the number of `results`.
#[derive(Debug, Clone, PartialEq, Eq)]
pub struct ChannelList {
    pub results: Vec<Channel>,
    pub total: i128,
}

pub struct ChannelListView {
    pub results: Seq<ChannelView>,
    pub total: int,
}

impl View for ChannelList {
    type V = ChannelListView;

    open spec fn view(&self) -> ChannelListView {
        ChannelListView {
            results: channel_views(self.results@),
            total: self.total as int,
        }
    }
}

/// The structured error the service sends when it rejects a call.
#[derive(Debug, Clone, PartialEq, Eq)]
pub struct ApiError {
    pub category: String,
    pub correlation_id: String,
    pub message: String,
    pub status: String,
}

pub struct ApiErrorView {
    pub category: Seq<char>,
    pub correlation_id: Seq<char>,
    pub message: Seq<char>,
    pub status: Seq<char>,
}

impl View for ApiError {
    type V = ApiErrorView;

    open spec fn view(&self) -> ApiErrorView {
        ApiErrorView {
            category: self.category@,
            correlation_id: self.correlation_id@,
            message: self.message@,
            status: self.status@,
        }
    }
}

impl ApiError {
    /// The line shown to the user for a rejected call: the category, a colon
    /// and a space, then the message.
    pub fn headline(&self) -> (line: String)
        ensures
            line@ == self.category@ + ": "@ + self.message@,
    {
        let mut line = self.category.clone();
        line.append(": ");
        line.append(self.message.as_str());
        line
    }
}

/// What a response body turned out to be. Exactly one variant per body; a body
/// of no known shape is kept whole.
#[derive(Debug, PartialEq)]
pub enum ResponseOutcome {
    ApiError(ApiError),
    ChannelList(ChannelList),
    UnrecognizedJson(serde_json::Value),
}

pub enum OutcomeView {
    ApiError(ApiErrorView),
    ChannelList(ChannelListView),
    UnrecognizedJson(JsonView),
}

impl View for ResponseOutcome {
    type V = OutcomeView;

    open spec fn view(&self) -> OutcomeView {
        match *self {
            ResponseOutcome::ApiError(e) => OutcomeView::ApiError(e@),
            ResponseOutcome::ChannelList(l) => OutcomeView::ChannelList(l@),
            ResponseOutcome::UnrecognizedJson(v) => OutcomeView::UnrecognizedJson(json_view(v)),
        }
    }
}

/// Why a call produced no outcome to classify.
#[derive(Debug, Clone, PartialEq, Eq)]
pub enum CallFailure {
    /// The exchange itself failed; the text is the transport's diagnostic.
    Transport(String),
    /// A body arrived, but it is not a JSON document.
    UndecodableBody,
}

} // verus!
