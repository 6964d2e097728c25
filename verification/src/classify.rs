//! The response classifier.

use vstd::prelude::*;
use crate::json::{
    elements_of, get_elements, get_member, get_signed, get_text, get_unsigned, integer_of,
    json_view, member_of, parse_value, parsed_json, text_of, views_of, JsonView,
};
use crate::model::{
    channel_views, ApiError, ApiErrorView, CallFailure, Channel, ChannelList, ChannelListView,
    ChannelView, OutcomeView, ResponseOutcome,
};

verus! {

/// The text stored under `key` in an object, where there is such a member and
/// it is a JSON string.
pub open spec fn text_member(j: JsonView, key: Seq<char>) -> Option<Seq<char>> {
    match member_of(j, key) {
        Some(m) => text_of(m),
        None => None,
    }
}

/// Reads the string member `key` of `v`.
pub fn read_text_member(v: &serde_json::Value, key: &str) -> (r: Option<String>)
    ensures
        match r {
            Some(s) => text_member(json_view(*v), key@) == Some(s@),
            None => text_member(json_view(*v), key@) is None,
        },
{
    match get_member(v, key) {
        Some(m) => match get_text(m) {
            Some(s) => Some(s.to_owned()),
            None => None,
        },
        None => None,
    }
}

/// The error payload that `j` spells out: an object whose members
/// `category`, `correlationId`, `message` and `status` are all strings.
/// Other members are ignored.
pub open spec fn api_error_of(j: JsonView) -> Option<ApiErrorView> {
    match (
        text_member(j, "category"@),
        text_member(j, "correlationId"@),
        text_member(j, "message"@),
        text_member(j, "status"@),
    ) {
        (Some(category), Some(correlation_id), Some(message), Some(status)) => Some(
            ApiErrorView { category, correlation_id, message, status },
        ),
        _ => None,
    }
}

/// The channel that `j` spells out: an object whose members `id` and `name`
/// are both strings.
pub open spec fn channel_of(j: JsonView) -> Option<ChannelView> {
    match (text_member(j, "id"@), text_member(j, "name"@)) {
        (Some(id), Some(name)) => Some(ChannelView { id, name }),
        _ => None,
    }
}

/// The channels that `items` spell out, in order, provided every single
/// element is a channel.
pub open spec fn channels_of(items: Seq<JsonView>) -> Option<Seq<ChannelView>> {
    if forall|i: int| 0 <= i < items.len() ==> (#[trigger] channel_of(items[i])) is Some {
        Some(Seq::new(items.len(), |i: int| channel_of(items[i]).unwrap()))
    } else {
        None
    }
}

/// The success payload that `j` spells out: an object whose member `results`
/// is an array of channels and whose member `total` is an integer, of either
/// sign.
pub open spec fn channel_list_of(j: JsonView) -> Option<ChannelListView> {
    match (member_of(j, "results"@), member_of(j, "total"@)) {
        (Some(results), Some(total)) => match (
            elements_of(results),
            integer_of(total),
        ) {
            (Some(items), Some(total)) => match channels_of(items) {
                Some(results) => Some(ChannelListView { results, total }),
                None => None,
            },
            _ => None,
        },
        _ => None,
    }
}

/// The outcome a JSON value stands for. The error shape is tried first, the
/// success shape second; a value of neither shape is the outcome itself.
pub open spec fn classify_spec(j: JsonView) -> OutcomeView {
    match api_error_of(j) {
        Some(e) => OutcomeView::ApiError(e),
        None => match channel_list_of(j) {
            Some(l) => OutcomeView::ChannelList(l),
            None => OutcomeView::UnrecognizedJson(j),
        },
    }
}

/// A value that carries the four error members as strings is an error
/// outcome with exactly those texts, whatever else it carries: the error
/// shape wins over the success shape.
pub proof fn error_shape_is_api_error(
    j: JsonView,
    category: Seq<char>,
    correlation_id: Seq<char>,
    message: Seq<char>,
    status: Seq<char>,
)
    requires
        member_of(j, "category"@) == Some(JsonView::Text(category)),
        member_of(j, "correlationId"@) == Some(JsonView::Text(correlation_id)),
        member_of(j, "message"@) == Some(JsonView::Text(message)),
        member_of(j, "status"@) == Some(JsonView::Text(status)),
    ensures
        classify_spec(j) == OutcomeView::ApiError(
            ApiErrorView { category, correlation_id, message, status },
        ),
{
}

/// A value that is no error payload, whose `results` is an array of objects
/// with string members `id` and `name`, and whose `total` is an integer of
/// either sign, is a success outcome: as many channels as the array has elements,
/// each with its own `id` and `name`, in the array's order, and `total` as it
/// was sent, whether or not it agrees with that count.
pub proof fn list_shape_is_channel_list(
    j: JsonView,
    items: Seq<JsonView>,
    channels: Seq<ChannelView>,
    total: int,
)
    requires
        api_error_of(j) is None,
        member_of(j, "results"@) == Some(JsonView::Array(items)),
        member_of(j, "total"@) is Some,
        integer_of(member_of(j, "total"@).unwrap()) == Some(total),
        channels.len() == items.len(),
        forall|i: int|
            0 <= i < items.len() ==> {
                &&& member_of(#[trigger] items[i], "id"@) == Some(JsonView::Text(channels[i].id))
                &&& member_of(items[i], "name"@) == Some(JsonView::Text(channels[i].name))
            },
    ensures
        classify_spec(j) == OutcomeView::ChannelList(ChannelListView { results: channels, total }),
{
    assert forall|i: int| 0 <= i < items.len() implies channel_of(items[i]) == Some(
        channels[i],
    ) by {
        assert(text_member(items[i], "id"@) == Some(channels[i].id));
        assert(text_member(items[i], "name"@) == Some(channels[i].name));
    }
    assert(channels_of(items).unwrap() =~= channels);
}

/// A value of neither known shape is its own outcome, unchanged.
pub proof fn other_shapes_are_kept_whole(j: JsonView)
    requires
        api_error_of(j) is None,
        channel_list_of(j) is None,
    ensures
        classify_spec(j) == OutcomeView::UnrecognizedJson(j),
{
}

/// Nothing but an object has a known shape: `null`, a boolean, a number, a
/// string and an array are each kept whole.
pub proof fn non_objects_are_kept_whole(j: JsonView)
    requires
        !(j is Object),
    ensures
        classify_spec(j) == OutcomeView::UnrecognizedJson(j),
{
}

/// An object without members is kept whole.
pub proof fn empty_object_is_kept_whole()
    ensures
        classify_spec(JsonView::Object(Map::empty())) == OutcomeView::UnrecognizedJson(
            JsonView::Object(Map::empty()),
        ),
{
}

/// A success shape with a member of the wrong type is kept whole: a `total`
/// that is no integer, a `results` that is no array, or an
/// element of `results` that is no channel.
pub proof fn mistyped_list_is_kept_whole(j: JsonView)
    requires
        api_error_of(j) is None,
        ({
            ||| member_of(j, "total"@) is Some && integer_of(member_of(j, "total"@).unwrap()) is None
            ||| member_of(j, "results"@) is Some && elements_of(
                member_of(j, "results"@).unwrap(),
            ) is None
            ||| member_of(j, "results"@) is Some && elements_of(
                member_of(j, "results"@).unwrap(),
            ) is Some && channels_of(elements_of(member_of(j, "results"@).unwrap()).unwrap())
                is None
        }),
    ensures
        classify_spec(j) == OutcomeView::UnrecognizedJson(j),
{
}

/// Exactly one outcome: which variant a value gets is decided by the two
/// shapes alone.
pub proof fn outcome_is_decided_by_shape(j: JsonView)
    ensures
        classify_spec(j) is ApiError <==> api_error_of(j) is Some,
        classify_spec(j) is ChannelList <==> api_error_of(j) is None && channel_list_of(j) is Some,
        classify_spec(j) is UnrecognizedJson <==> api_error_of(j) is None && channel_list_of(j)
            is None,
{
}

/// Reads `v` as an integer of either sign.
pub fn read_integer(v: &serde_json::Value) -> (r: Option<i128>)
    ensures
        match r {
            Some(n) => integer_of(json_view(*v)) == Some(n as int),
            None => integer_of(json_view(*v)) is None,
        },
{
    match get_unsigned(v) {
        Some(n) => Some(n as i128),
        None => match get_signed(v) {
            Some(n) => Some(n as i128),
            None => None,
        },
    }
}

/// Decodes `v` as an error payload.
pub fn decode_api_error(v: &serde_json::Value) -> (r: Option<ApiError>)
    ensures
        match r {
            Some(e) => api_error_of(json_view(*v)) == Some(e@),
            None => api_error_of(json_view(*v)) is None,
        },
{
    let category = match read_text_member(v, "category") {
        Some(s) => s,
        None => return None,
    };
    let correlation_id = match read_text_member(v, "correlationId") {
        Some(s) => s,
        None => return None,
    };
    let message = match read_text_member(v, "message") {
        Some(s) => s,
        None => return None,
    };
    let status = match read_text_member(v, "status") {
        Some(s) => s,
        None => return None,
    };
    Some(ApiError { category, correlation_id, message, status })
}

/// Decodes `v` as one channel.
pub fn decode_channel(v: &serde_json::Value) -> (r: Option<Channel>)
    ensures
        match r {
            Some(c) => channel_of(json_view(*v)) == Some(c@),
            None => channel_of(json_view(*v)) is None,
        },
{
    let id = match read_text_member(v, "id") {
        Some(s) => s,
        None => return None,
    };
    let name = match read_text_member(v, "name") {
        Some(s) => s,
        None => return None,
    };
    Some(Channel { id, name })
}

/// Decodes every element of `items` as a channel, keeping their order. One
/// element that is no channel makes the whole run fail.
pub fn decode_channels(items: &Vec<serde_json::Value>) -> (r: Option<Vec<Channel>>)
    ensures
        match r {
            Some(channels) => channels_of(views_of(items@)) == Some(channel_views(channels@)),
            None => channels_of(views_of(items@)) is None,
        },
{
    let mut channels: Vec<Channel> = Vec::new();
    let mut i: usize = 0;
    while i < items.len()
        invariant
            i <= items.len(),
            channels@.len() == i,
            forall|k: int|
                0 <= k < i ==> channel_of(#[trigger] views_of(items@)[k]) == Some(channels@[k]@),
        decreases items.len() - i,
    {
        match decode_channel(&items[i]) {
            Some(c) => {
                channels.push(c);
            },
            None => {
                assert(channel_of(views_of(items@)[i as int]) is None);
                return None;
            },
        }
        i += 1;
    }
    assert(channels_of(views_of(items@)).unwrap() =~= channel_views(channels@));
    Some(channels)
}

/// Decodes `v` as the success payload.
pub fn decode_channel_list(v: &serde_json::Value) -> (r: Option<ChannelList>)
    ensures
        match r {
            Some(l) => channel_list_of(json_view(*v)) == Some(l@),
            None => channel_list_of(json_view(*v)) is None,
        },
{
    let results = match get_member(v, "results") {
        Some(m) => m,
        None => return None,
    };
    let total = match get_member(v, "total") {
        Some(m) => m,
        None => return None,
    };
    let items = match get_elements(results) {
        Some(items) => items,
        None => return None,
    };
    let total = match read_integer(total) {
        Some(n) => n,
        None => return None,
    };
    match decode_channels(items) {
        Some(results) => Some(ChannelList { results, total }),
        None => None,
    }
}

/// Sorts a decoded body into the one outcome it structurally matches. A value
/// of neither known shape comes back whole, as it was handed in.
pub fn classify(value: serde_json::Value) -> (out: ResponseOutcome)
    ensures
        out@ == classify_spec(json_view(value)),
        classify_spec(json_view(value)) is UnrecognizedJson ==> out
            == ResponseOutcome::UnrecognizedJson(value),
{
    if let Some(e) = decode_api_error(&value) {
        return ResponseOutcome::ApiError(e);
    }
    if let Some(l) = decode_channel_list(&value) {
        return ResponseOutcome::ChannelList(l);
    }
    ResponseOutcome::UnrecognizedJson(value)
}

/// Decodes a response body and classifies it. Only a body that is not a JSON
/// document is a failure; every JSON document has an outcome.
pub fn classify_body(body: &[u8]) -> (r: Result<ResponseOutcome, CallFailure>)
    ensures
        match parsed_json(body@) {
            Some(j) => r is Ok && r.unwrap()@ == classify_spec(j),
            None => r == Err::<ResponseOutcome, CallFailure>(CallFailure::UndecodableBody),
        },
{
    match parse_value(body) {
        Ok(value) => Ok(classify(value)),
        Err(_) => Err(CallFailure::UndecodableBody),
    }
}

/// Turns what the exchange with the server produced into the result of the
/// call. A transport failure is handed on as it is, whatever else is known;
/// only a body that arrived is decoded and classified.
pub fn outcome_of_exchange(exchange: Result<Vec<u8>, String>) -> (r: Result<
    ResponseOutcome,
    CallFailure,
>)
    ensures
        match exchange {
            Err(diagnostic) => r == Err::<ResponseOutcome, CallFailure>(
                CallFailure::Transport(diagnostic),
            ),
            Ok(body) => match parsed_json(body@) {
                Some(j) => r is Ok && r.unwrap()@ == classify_spec(j),
                None => r == Err::<ResponseOutcome, CallFailure>(CallFailure::UndecodableBody),
            },
        },
{
    match exchange {
        Err(diagnostic) => Err(CallFailure::Transport(diagnostic)),
        Ok(body) => classify_body(body.as_slice()),
    }
}

} // verus!
