//! What holds of calls to the VPN service.

use crate::bridge::{
    bridge_step, connect_call, delay_call, disconnect_call, kind_of, listens, running_call, Bridge,
    BridgeActionModel, BridgeEventModel, BridgePhase, BridgeReply, BridgeStep, CallModel,
    ReplyKind,
};
use vstd::prelude::*;

verus! {

/// How many steps a call takes at most from where it stands.
pub open spec fn call_steps_left(call: CallModel) -> int {
    match call.phase {
        BridgePhase::Ready => call.texts.len() as int + 5,
        BridgePhase::Attaching => call.texts.len() as int + 4,
        BridgePhase::Finding => call.texts.len() as int + 3,
        BridgePhase::Making(number) => call.texts.len() as int - number + 2,
        BridgePhase::Invoking => 2,
        BridgePhase::Decoding => 1,
        BridgePhase::Over => 0,
    }
}

/// A call comes to its end: each step leaves fewer steps to take.
pub proof fn law_call_comes_to_its_end(
    call: CallModel,
    bridge: Bridge,
    event: BridgeEventModel,
)
    requires
        call.well_formed(),
        call.texts.len() < usize::MAX,
        listens(call, event),
    ensures
        0 <= call_steps_left(bridge_step(call, bridge, event).call) < call_steps_left(call),
{
}

/// A call that succeeds gives back what its method should give back.
pub proof fn law_reply_is_what_was_asked(
    call: CallModel,
    bridge: Bridge,
    event: BridgeEventModel,
)
    requires
        listens(call, event),
    ensures
        bridge_step(call, bridge, event).action matches BridgeActionModel::Finish(Ok(reply))
            ==> kind_of(reply) == call.reply,
{
}

/// What is known of the Java side is not forgotten, and a call does not change which method it
/// is for or what it hands over.
pub proof fn law_call_keeps_what_is_known(
    call: CallModel,
    bridge: Bridge,
    event: BridgeEventModel,
)
    ensures
        ({
            let step = bridge_step(call, bridge, event);
            &&& step.bridge.vm == bridge.vm
            &&& bridge.class ==> step.bridge.class
            &&& step.call == (CallModel { phase: step.call.phase, ..call })
        }),
{
}

/// Without a virtual machine no call is made, and a method is called only once the class is
/// known.
pub proof fn law_call_needs_class(call: CallModel, bridge: Bridge, event: BridgeEventModel)
    requires
        listens(call, event),
        call.phase is Making ==> bridge.class,
    ensures
        ({
            let step = bridge_step(call, bridge, event);
            &&& event == BridgeEventModel::Begin && !bridge.vm ==> step.action
                == BridgeActionModel::Finish(Err("Android JVM not initialized"@))
            &&& step.action is Invoke || step.action is MakeText ==> step.bridge.class
        }),
{
}

/// The configuration and the mode are handed over as they are to start the service; the
/// configuration and the address to measure a delay. The other calls hand nothing over.
pub proof fn law_calls_hand_over_arguments(
    config: Seq<char>,
    url: Seq<char>,
    tunnel_mode: bool,
)
    ensures
        ({
            let call = connect_call(config, tunnel_mode);
            &&& call.method == "connect"@
            &&& call.signature == "(Ljava/lang/String;Z)V"@
            &&& call.texts.len() == 1
            &&& call.texts[0].0 == config
            &&& call.flag == Some(
                if tunnel_mode {
                    1u8
                } else {
                    0u8
                },
            )
            &&& call.reply == ReplyKind::Nothing
            &&& call.phase == BridgePhase::Ready
        }),
        ({
            let call = delay_call(config, url);
            &&& call.method == "measureOutboundDelay"@
            &&& call.signature == "(Ljava/lang/String;Ljava/lang/String;)J"@
            &&& call.texts.len() == 2
            &&& call.texts[0].0 == config
            &&& call.texts[1].0 == url
            &&& call.flag is None
            &&& call.reply == ReplyKind::Number
            &&& call.phase == BridgePhase::Ready
        }),
        ({
            let call = disconnect_call();
            &&& call.method == "disconnect"@
            &&& call.signature == "()V"@
            &&& call.texts.len() == 0
            &&& call.flag is None
            &&& call.reply == ReplyKind::Nothing
            &&& call.phase == BridgePhase::Ready
        }),
        ({
            let call = running_call();
            &&& call.method == "isVpnRunning"@
            &&& call.signature == "()Z"@
            &&& call.texts.len() == 0
            &&& call.flag is None
            &&& call.reply == ReplyKind::Flag
            &&& call.phase == BridgePhase::Ready
        }),
{
}

/// Each call says of itself what went wrong.
pub proof fn law_calls_say_what_went_wrong(config: Seq<char>, url: Seq<char>, tunnel_mode: bool)
    ensures
        connect_call(config, tunnel_mode).texts[0].1 == "Failed to create config string: "@,
        connect_call(config, tunnel_mode).call_error == "Android connect failed: "@,
        disconnect_call().call_error == "Android disconnect failed: "@,
        running_call().call_error == "Android VPN status check failed: "@,
        running_call().decode_error == "Android VPN status decode failed: "@,
        delay_call(config, url).texts[0].1 == "Failed to create config string: "@,
        delay_call(config, url).texts[1].1 == "Failed to create probe url: "@,
        delay_call(config, url).call_error == "Android delay probe failed: "@,
        delay_call(config, url).decode_error == "Android delay result decode failed: "@,
{
}

/// Tells whether the step goes on with the text with the given number, or with the method where
/// there is no such text.
pub open spec fn goes_on_with(call: CallModel, step: BridgeStep, number: int) -> bool {
    &&& number < call.texts.len() ==> {
        &&& step.action == BridgeActionModel::MakeText(call.texts[number].0)
        &&& step.call.phase == BridgePhase::Making(number as usize)
    }
    &&& number >= call.texts.len() ==> {
        &&& step.action == BridgeActionModel::Invoke
        &&& step.call.phase == BridgePhase::Invoking
    }
}

/// A call attaches its thread, looks for the class if it is not known, makes its texts one after
/// the other, calls the method, and takes what it gives back, if it gives anything back.
pub proof fn law_call_takes_its_steps(call: CallModel, bridge: Bridge, reply: BridgeReply)
    ensures
        bridge.vm ==> bridge_step(call, bridge, BridgeEventModel::Begin).action
            == BridgeActionModel::Attach,
        bridge.class ==> goes_on_with(
            call,
            bridge_step(call, bridge, BridgeEventModel::Attached(Ok(()))),
            0,
        ),
        !bridge.class ==> bridge_step(call, bridge, BridgeEventModel::Attached(Ok(()))).action
            == BridgeActionModel::FindClass,
        goes_on_with(call, bridge_step(call, bridge, BridgeEventModel::Found(true)), 0),
        bridge_step(call, bridge, BridgeEventModel::Found(true)).bridge == (Bridge {
            class: true,
            ..bridge
        }),
        bridge.class ==> goes_on_with(
            call,
            bridge_step(call, bridge, BridgeEventModel::Found(false)),
            0,
        ),
        call.phase matches BridgePhase::Making(number) ==> goes_on_with(
            call,
            bridge_step(call, bridge, BridgeEventModel::Made(Ok(()))),
            number + 1,
        ),
        call.reply == ReplyKind::Nothing ==> bridge_step(
            call,
            bridge,
            BridgeEventModel::Invoked(Ok(())),
        ).action == BridgeActionModel::Finish(Ok(BridgeReply::Nothing)),
        call.reply != ReplyKind::Nothing ==> bridge_step(
            call,
            bridge,
            BridgeEventModel::Invoked(Ok(())),
        ).action == BridgeActionModel::Decode(call.reply),
        bridge_step(call, bridge, BridgeEventModel::Decoded(Ok(reply))).action
            == BridgeActionModel::Finish(Ok(reply)),
{
}

/// A call that fails says why, and ends.
pub proof fn law_call_says_why_it_fails(call: CallModel, bridge: Bridge, error: Seq<char>)
    ensures
        bridge_step(call, bridge, BridgeEventModel::Attached(Err(error))).action
            == BridgeActionModel::Finish(Err("Failed to attach JNI thread: "@ + error)),
        !bridge.class ==> bridge_step(call, bridge, BridgeEventModel::Found(false)).action
            == BridgeActionModel::Finish(
            Err("Android bridge class was not registered before native call"@),
        ),
        call.phase matches BridgePhase::Making(number) ==> bridge_step(
            call,
            bridge,
            BridgeEventModel::Made(Err(error)),
        ).action == BridgeActionModel::Finish(Err(call.texts[number as int].1 + error)),
        bridge_step(call, bridge, BridgeEventModel::Invoked(Err(error))).action
            == BridgeActionModel::Finish(Err(call.call_error + error)),
        bridge_step(call, bridge, BridgeEventModel::Decoded(Err(error))).action
            == BridgeActionModel::Finish(Err(call.decode_error + error)),
{
}

} // verus!
