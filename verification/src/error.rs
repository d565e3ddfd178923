//! Failures of the rebinding engine.

use vstd::prelude::*;
use crate::text::{decimal, decimal_text};

verus! {

/// Why a rebind could not be evaluated, or why a document could not be read.
///
/// A failure to resolve a reference affects one rebind for one tick: the
/// processor skips that rebind and goes on.
#[derive(Debug, Clone, PartialEq, Eq)]
pub enum Error {
    /// A channel number of zero, an empty device identifier or a virtual slot of zero.
    EmptyRebindOrInvalidID,
    /// A rebind failed while it was processed; carries the rebind's name.
    RebindProcessingFailed(String),
    /// No such button on the named physical device, or no such device.
    RebindValidatePhysicalButtonFailed(String, u32),
    /// No such hat on the named physical device, or no such device.
    RebindValidatePhysicalHatFailed(String, u32),
    /// No such axis on the named physical device, or no such device.
    RebindValidatePhysicalAxisFailed(String, u32),
    /// No such button on the numbered virtual device, or no such device.
    RebindValidateVirtualButtonFailed(u32, u32),
    /// No such hat on the numbered virtual device, or no such device.
    RebindValidateVirtualHatFailed(u32, u32),
    /// No such axis on the numbered virtual device, or no such device.
    RebindValidateVirtualAxisFailed(u32, u32),
    /// A persisted configuration is malformed; carries what was found wrong.
    ConfigParse(String),
    /// Any other failure, as text.
    Catch(String),
}

impl Error {
    /// Wraps a message.
    pub fn from_message(value: String) -> (error: Error)
        ensures
            error == Error::Catch(value),
    {
        Error::Catch(value)
    }

    /// Whether the failure is one that the processor skips over for the tick.
    pub fn is_per_tick(&self) -> (skipped: bool)
        ensures
            skipped == !(self is Catch || self is ConfigParse),
    {
        match self {
            Error::Catch(_) => false,
            Error::ConfigParse(_) => false,
            _ => true,
        }
    }
}

/// The message of a failure to resolve a reference: which kind of device,
/// which device, which kind of channel and which channel.
pub open spec fn validate_text(source: Seq<char>, device: Seq<char>, kind: Seq<char>, channel: u32) -> Seq<char> {
    "validating rebind failed. "@ + source + " src device: "@ + device + " | src "@ + kind + ": "@ + decimal_text(
        channel as nat,
    )
}

/// The message of a failure.
pub open spec fn error_text(error: Error) -> Seq<char> {
    match error {
        Error::EmptyRebindOrInvalidID => "rebind is empty."@,
        Error::RebindProcessingFailed(name) => "processing rebind failed. Rebind name: "@ + name@,
        Error::RebindValidatePhysicalButtonFailed(device, channel) => validate_text(
            "Physical"@,
            device@,
            "button"@,
            channel,
        ),
        Error::RebindValidatePhysicalHatFailed(device, channel) => validate_text("Physical"@, device@, "hat"@, channel),
        Error::RebindValidatePhysicalAxisFailed(device, channel) => validate_text("Physical"@, device@, "axis"@, channel),
        Error::RebindValidateVirtualButtonFailed(device, channel) => validate_text(
            "Virtual"@,
            decimal_text(device as nat),
            "button"@,
            channel,
        ),
        Error::RebindValidateVirtualHatFailed(device, channel) => validate_text(
            "Virtual"@,
            decimal_text(device as nat),
            "hat"@,
            channel,
        ),
        Error::RebindValidateVirtualAxisFailed(device, channel) => validate_text(
            "Virtual"@,
            decimal_text(device as nat),
            "axis"@,
            channel,
        ),
        Error::ConfigParse(reason) => "failed to deserialize config file. Reason: "@ + reason@,
        Error::Catch(reason) => "untyped error. Reason: "@ + reason@,
    }
}

/// The message of a failure to resolve a reference.
fn validate_message(source: &str, device: &str, kind: &str, channel: u32) -> (text: String)
    ensures
        text@ == validate_text(source@, device@, kind@, channel),
{
    let digits = decimal(channel);
    let text = "validating rebind failed. ".to_owned().concat(source).concat(" src device: ").concat(device).concat(
        " | src ",
    ).concat(kind).concat(": ").concat(digits.as_str());
    assert(text@ =~= validate_text(source@, device@, kind@, channel));
    text
}

impl Error {
    /// The message of the failure.
    pub fn message(&self) -> (text: String)
        ensures
            text@ == error_text(*self),
    {
        match self {
            Error::EmptyRebindOrInvalidID => "rebind is empty.".to_owned(),
            Error::RebindProcessingFailed(name) => "processing rebind failed. Rebind name: ".to_owned().concat(
                name.as_str(),
            ),
            Error::RebindValidatePhysicalButtonFailed(device, channel) => validate_message(
                "Physical",
                device.as_str(),
                "button",
                *channel,
            ),
            Error::RebindValidatePhysicalHatFailed(device, channel) => validate_message(
                "Physical",
                device.as_str(),
                "hat",
                *channel,
            ),
            Error::RebindValidatePhysicalAxisFailed(device, channel) => validate_message(
                "Physical",
                device.as_str(),
                "axis",
                *channel,
            ),
            Error::RebindValidateVirtualButtonFailed(device, channel) => {
                let digits = decimal(*device);
                validate_message("Virtual", digits.as_str(), "button", *channel)
            },
            Error::RebindValidateVirtualHatFailed(device, channel) => {
                let digits = decimal(*device);
                validate_message("Virtual", digits.as_str(), "hat", *channel)
            },
            Error::RebindValidateVirtualAxisFailed(device, channel) => {
                let digits = decimal(*device);
                validate_message("Virtual", digits.as_str(), "axis", *channel)
            },
            Error::ConfigParse(reason) => "failed to deserialize config file. Reason: ".to_owned().concat(
                reason.as_str(),
            ),
            Error::Catch(reason) => "untyped error. Reason: ".to_owned().concat(reason.as_str()),
        }
    }
}

} // verus!
