//! Decisions of the real-time engine: how it answers the requests of the
//! control socket, and which audio devices it takes for input and output.
use vstd::prelude::*;
use crate::params::{
    tube_by_name, tube_named, unknown_tube_message, MainCommand, SharedParams, TubeModel,
};
use crate::text::{contains_seq, contains_str};

verus! {

/// What the engine thread received while it waited.
pub enum Incoming {
    /// A request of the control socket.
    Command(MainCommand),
    /// Nothing arrived in time.
    Timeout,
    /// The control side has gone away.
    Disconnected,
}

/// What the engine does next.
pub enum EngineAction {
    /// The requested model is stored: stop the streams, rebuild, answer
    /// with [`model_switch_reply`] of the rebuild's outcome and start again.
    SwitchModel,
    /// The requested tube is stored: rebuild both channels' simulators
    /// with this tube and answer with this text.
    SwitchTube(TubeModel, String),
    /// Answer with this text and go on.
    Answer(String),
    /// Stop the streams and start them again on the output device of this
    /// name.
    SwitchOutput(String),
    /// Stop the streams and return.
    Shutdown,
    /// Go on waiting.
    Wait,
}

/// The answer line of a failed request: `ERROR ` and the reason.
pub open spec fn error_reply_spec(reason: Seq<char>) -> Seq<char> {
    "ERROR "@ + reason
}

/// The answer of a failed request: `ERROR ` and the reason.
pub fn error_reply(reason: &str) -> (r: String)
    ensures
        r@ == error_reply_spec(reason@),
{
    let mut r = String::from_str("ERROR ");
    r.append(reason);
    r
}

/// The answer to a model switch once the engine was rebuilt: `OK`, or
/// `ERROR ` and the reason the rebuild failed.
pub fn model_switch_reply(rebuilt: &Result<(), String>) -> (r: String)
    ensures
        rebuilt is Ok ==> r@ == "OK"@,
        rebuilt is Err ==> r@ == error_reply_spec(rebuilt->Err_0@),
{
    match rebuilt {
        Ok(()) => String::from_str("OK"),
        Err(e) => error_reply(e.as_str()),
    }
}

/// The stored tube name after the engine received `incoming`, when it
/// was `before`: a tube of the catalogue is stored, anything else leaves it.
pub open spec fn tube_after(incoming: Incoming, before: Seq<char>) -> Seq<char> {
    match incoming {
        Incoming::Command(MainCommand::SetTube { tube, .. }) => {
            if tube_named(tube@) is Some {
                tube@
            } else {
                before
            }
        },
        _ => before,
    }
}

/// The stored model name after the engine received `incoming`, when it
/// was `before`: a model request is stored as it came.
pub open spec fn model_after(incoming: Incoming, before: Seq<char>) -> Seq<char> {
    match incoming {
        Incoming::Command(MainCommand::SetModel { model, .. }) => model@,
        _ => before,
    }
}

/// Decides what the engine does with what it received, and stores the
/// tube or model it switches to in `params`.
pub fn engine_step(incoming: &Incoming, params: &mut SharedParams) -> (r: EngineAction)
    ensures
        incoming matches Incoming::Command(MainCommand::SetModel { .. }) ==> r is SwitchModel,
        incoming matches Incoming::Command(MainCommand::SetTube { tube, .. }) ==> {
            &&& tube_named(tube@) is Some ==> (r matches EngineAction::SwitchTube(t, reply) && t
                == tube_named(tube@)->0 && reply@ == "OK"@)
            &&& tube_named(tube@) is None ==> (r matches EngineAction::Answer(msg) && msg@
                == error_reply_spec(unknown_tube_message(tube@)))
        },
        incoming matches Incoming::Command(MainCommand::SwitchOutput { device }) ==> (r matches EngineAction::SwitchOutput(
            name,
        ) && name@ == device@),
        incoming matches Incoming::Command(MainCommand::Stop) ==> r is Shutdown,
        incoming is Timeout ==> r is Wait,
        incoming is Disconnected ==> r is Shutdown,
        incoming matches Incoming::Command(MainCommand::SetModel { model, .. })
            ==> final(params).model@ == model@,
        !(incoming matches Incoming::Command(MainCommand::SetModel { .. })) ==> final(params).model
            == old(params).model,
        incoming matches Incoming::Command(MainCommand::SetTube { tube, .. }) ==> (tube_named(
            tube@,
        ) is Some ==> final(params).tube@ == tube@),
        !(incoming matches Incoming::Command(MainCommand::SetTube { tube, .. }) && tube_named(
            tube@,
        ) is Some) ==> final(params).tube == old(params).tube,
        final(params).tube@ == tube_after(*incoming, old(params).tube@),
        final(params).model@ == model_after(*incoming, old(params).model@),
        final(params).bypass == old(params).bypass,
        final(params).gain == old(params).gain,
        final(params).volume == old(params).volume,
        final(params).bplus == old(params).bplus,
{
    match incoming {
        Incoming::Command(MainCommand::SetModel { model, .. }) => {
            params.model = String::from_str(model.as_str());
            EngineAction::SwitchModel
        },
        Incoming::Command(MainCommand::SetTube { tube, .. }) => match tube_by_name(tube.as_str()) {
            Ok(t) => {
                params.tube = String::from_str(tube.as_str());
                EngineAction::SwitchTube(t, String::from_str("OK"))
            },
            Err(e) => EngineAction::Answer(error_reply(e.as_str())),
        },
        Incoming::Command(MainCommand::SwitchOutput { device }) => EngineAction::SwitchOutput(
            String::from_str(device.as_str()),
        ),
        Incoming::Command(MainCommand::Stop) => EngineAction::Shutdown,
        Incoming::Timeout => EngineAction::Wait,
        Incoming::Disconnected => EngineAction::Shutdown,
    }
}

/// Whether a device name is that of the virtual loopback device.
pub open spec fn names_loopback(name: Seq<char>) -> bool {
    contains_seq(name, "BlackHole"@)
}

/// Whether a device name is that of a virtual or aggregate device:
/// the loopback device, a multi-output device or an aggregate device.
pub open spec fn names_virtual(name: Seq<char>) -> bool {
    ||| contains_seq(name, "BlackHole"@)
    ||| contains_seq(name, "\u{591a}\u{8f93}\u{51fa}"@)
    ||| contains_seq(name, "Aggregate"@)
}

/// Whether a device name is that of the built-in speakers.
pub open spec fn names_builtin_speaker(name: Seq<char>) -> bool {
    ||| contains_seq(name, "MacBook"@)
    ||| contains_seq(name, "\u{626c}\u{58f0}\u{5668}"@)
    ||| contains_seq(name, "Speakers"@)
}

/// Whether the device of this name is the loopback device that system
/// audio is captured from.
pub fn is_loopback_name(name: &str) -> (r: bool)
    ensures
        r == names_loopback(name@),
{
    contains_str(name, "BlackHole")
}

fn is_virtual_name(name: &str) -> (r: bool)
    ensures
        r == names_virtual(name@),
{
    contains_str(name, "BlackHole") || contains_str(name, "\u{591a}\u{8f93}\u{51fa}")
        || contains_str(name, "Aggregate")
}

/// Whether the device of this name may serve as the physical output:
/// any device that is not virtual.
pub fn is_physical_output_name(name: &str) -> (r: bool)
    ensures
        r == !names_virtual(name@),
{
    !is_virtual_name(name)
}

/// Whether the device of this name is an external output (headphones or
/// an interface): neither virtual nor the built-in speakers.
pub fn is_external_output_name(name: &str) -> (r: bool)
    ensures
        r == (!names_virtual(name@) && !names_builtin_speaker(name@)),
{
    !is_virtual_name(name) && !(contains_str(name, "MacBook") || contains_str(
        name,
        "\u{626c}\u{58f0}\u{5668}",
    ) || contains_str(name, "Speakers"))
}

/// Whether the device of this name is the built-in speakers.
pub fn is_builtin_speaker_name(name: &str) -> (r: bool)
    ensures
        r == (!names_virtual(name@) && names_builtin_speaker(name@)),
{
    !is_virtual_name(name) && (contains_str(name, "MacBook") || contains_str(
        name,
        "\u{626c}\u{58f0}\u{5668}",
    ) || contains_str(name, "Speakers"))
}

} // verus!
