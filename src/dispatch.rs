//! Routing of a raw message to the decoder of the protocol it came by.
use vstd::prelude::*;
use crate::beatsaberplus::{bsplus_message_of, decode_message, BSPlusMessage};
use crate::error::DecodeError;
use crate::httpsirastatus::{decode_envelope, sira_envelope_of, Event};
use crate::livedata::{decode_live_data, live_data_of, LiveData};
use crate::mapdata::{decode_map_data, map_data_decodes, map_data_error, MapData};
use crate::value::Value;
use crate::wire::str_is;

verus! {

/// A wire protocol, with DataPuller's two channels told apart.
#[derive(Clone, Copy, Debug, PartialEq, Eq, Structural)]
pub enum Protocol {
    BeatSaberPlus,
    DataPullerLiveData,
    DataPullerMapData,
    HttpSiraStatus,
}

/// A decoded message of any protocol.
#[derive(Debug, PartialEq)]
pub enum CanonicalEvent {
    BeatSaberPlus(BSPlusMessage),
    LiveData(LiveData),
    MapData(MapData),
    HttpSiraStatus(Event),
}

/// Why routing failed: the caller named no known protocol, or the chosen
/// decoder refused the message.
#[derive(Clone, Copy, Debug, PartialEq, Eq, Structural)]
pub enum DispatchError {
    UnknownProtocol,
    Decode(DecodeError),
}

/// The protocol that a selector names.
pub open spec fn protocol_of_name(s: Seq<char>) -> Option<Protocol> {
    if s == "BeatSaberPlus"@ {
        Some(Protocol::BeatSaberPlus)
    } else if s == "DataPuller.LiveData"@ {
        Some(Protocol::DataPullerLiveData)
    } else if s == "DataPuller.MapData"@ {
        Some(Protocol::DataPullerMapData)
    } else if s == "HttpSiraStatus"@ {
        Some(Protocol::HttpSiraStatus)
    } else {
        None
    }
}

/// The protocol that a selector names, if any.
pub fn protocol_from_name(s: &String) -> (r: Option<Protocol>)
    ensures
        r == protocol_of_name(s@),
{
    if str_is(s, "BeatSaberPlus") {
        Some(Protocol::BeatSaberPlus)
    } else if str_is(s, "DataPuller.LiveData") {
        Some(Protocol::DataPullerLiveData)
    } else if str_is(s, "DataPuller.MapData") {
        Some(Protocol::DataPullerMapData)
    } else if str_is(s, "HttpSiraStatus") {
        Some(Protocol::HttpSiraStatus)
    } else {
        None
    }
}

/// Whether `r` is what decoding `raw` as protocol `p` gives: the decoder's own
/// result, wrapped and otherwise unchanged.
pub open spec fn decoded_as(p: Protocol, raw: Value, r: Result<CanonicalEvent, DecodeError>) -> bool {
    match p {
        Protocol::BeatSaberPlus => match bsplus_message_of(raw) {
            Ok(m) => r == Ok::<CanonicalEvent, DecodeError>(CanonicalEvent::BeatSaberPlus(m)),
            Err(e) => r == Err::<CanonicalEvent, DecodeError>(e),
        },
        Protocol::DataPullerLiveData => match live_data_of(raw) {
            Ok(m) => r == Ok::<CanonicalEvent, DecodeError>(CanonicalEvent::LiveData(m)),
            Err(e) => r == Err::<CanonicalEvent, DecodeError>(e),
        },
        Protocol::DataPullerMapData => match r {
            Ok(c) => c matches CanonicalEvent::MapData(m) && map_data_error(raw) is None
                && map_data_decodes(raw, m),
            Err(e) => map_data_error(raw) == Some(e),
        },
        Protocol::HttpSiraStatus => match sira_envelope_of(raw) {
            Ok(m) => r == Ok::<CanonicalEvent, DecodeError>(CanonicalEvent::HttpSiraStatus(m)),
            Err(e) => r == Err::<CanonicalEvent, DecodeError>(e),
        },
    }
}

/// Decodes `raw` with the decoder of protocol `p`. A BeatSaberPlus message is
/// decoded statelessly here; sessions enforce the handshake.
pub fn decode(p: Protocol, raw: Value) -> (r: Result<CanonicalEvent, DecodeError>)
    ensures
        decoded_as(p, raw, r),
{
    match p {
        Protocol::BeatSaberPlus => match decode_message(&raw) {
            Ok(m) => Ok(CanonicalEvent::BeatSaberPlus(m)),
            Err(e) => Err(e),
        },
        Protocol::DataPullerLiveData => match decode_live_data(&raw) {
            Ok(m) => Ok(CanonicalEvent::LiveData(m)),
            Err(e) => Err(e),
        },
        Protocol::DataPullerMapData => match decode_map_data(&raw) {
            Ok(m) => Ok(CanonicalEvent::MapData(m)),
            Err(e) => Err(e),
        },
        Protocol::HttpSiraStatus => match decode_envelope(raw) {
            Ok(m) => Ok(CanonicalEvent::HttpSiraStatus(m)),
            Err(e) => Err(e),
        },
    }
}

/// Routes `raw` to the decoder that `protocol` names. An unknown name is
/// `UnknownProtocol`; otherwise the decoder's result comes back unchanged.
pub fn dispatch(protocol: &String, raw: Value) -> (r: Result<CanonicalEvent, DispatchError>)
    ensures
        match protocol_of_name(protocol@) {
            None => r == Err::<CanonicalEvent, DispatchError>(DispatchError::UnknownProtocol),
            Some(p) => match r {
                Ok(c) => decoded_as(p, raw, Ok(c)),
                Err(DispatchError::Decode(e)) => decoded_as(p, raw, Err(e)),
                Err(DispatchError::UnknownProtocol) => false,
            },
        },
{
    match protocol_from_name(protocol) {
        None => Err(DispatchError::UnknownProtocol),
        Some(p) => match decode(p, raw) {
            Ok(c) => Ok(c),
            Err(e) => Err(DispatchError::Decode(e)),
        },
    }
}

} // verus!
