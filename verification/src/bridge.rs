//! Calls to the VPN service of Android, which is reached through a Java class.

use crate::text::unit_outcome;
use vstd::prelude::*;
use vstd::string::*;

verus! {

/// The Java class that the VPN service is reached through.
pub const BRIDGE_CLASS: &'static str = "com/taktaz208/oghabvpn/AndroidVpnBridge";

/// What is known of the Java side.
pub struct Bridge {
    /// Tells whether there is a Java virtual machine.
    pub vm: bool,
    /// Tells whether the class is known.
    pub class: bool,
}

impl Bridge {
    /// Nothing is known.
    pub fn new() -> (bridge: Bridge)
        ensures
            !bridge.vm,
            !bridge.class,
    {
        Bridge { vm: false, class: false }
    }

    /// Takes note of a virtual machine; tells whether it is the one to keep, which is the first.
    pub fn store_java_vm(&mut self) -> (keep: bool)
        ensures
            keep == !old(self).vm,
            *final(self) == (Bridge { vm: true, ..*old(self) }),
    {
        let keep = !self.vm;
        self.vm = true;
        keep
    }

    /// Tells whether a reference to the class is to be made.
    pub fn wants_class(&self) -> (wanted: bool)
        ensures
            wanted == !self.class,
    {
        !self.class
    }

    /// Takes note of whether a reference to the class was made; tells whether it is the one to
    /// keep, which is the first.
    pub fn store_bridge_class(&mut self, made: bool) -> (keep: bool)
        ensures
            keep == (made && !old(self).class),
            *final(self) == (Bridge { class: old(self).class || made, ..*old(self) }),
    {
        let keep = made && !self.class;
        self.class = self.class || made;
        keep
    }

    /// Tells whether to look for the class, so that a reference to it can be made.
    pub fn ensure_bridge_class_cached(&self) -> (look: bool)
        ensures
            look == (!self.class && self.vm),
    {
        !self.class && self.vm
    }
}

/// A text that is handed to a method.
pub struct BridgeText {
    pub value: String,
    /// What the message begins with if there can be no such text on the Java side.
    pub error: String,
}

/// What a method gives back.
#[derive(Clone, Copy, Debug, PartialEq, Eq, Structural)]
pub enum ReplyKind {
    Nothing,
    Flag,
    Number,
}

/// What a method gave back.
#[derive(Clone, Copy, Debug, PartialEq, Eq, Structural)]
pub enum BridgeReply {
    Nothing,
    Flag(bool),
    Number(i64),
}

/// Where a call stands: what it waits for.
#[derive(Clone, Copy, Debug, PartialEq, Eq, Structural)]
pub enum BridgePhase {
    /// The beginning.
    Ready,
    /// The thread, to be attached to the virtual machine.
    Attaching,
    /// A reference to the class.
    Finding,
    /// The text with the given number, on the Java side.
    Making(usize),
    /// The method.
    Invoking,
    /// What the method gave back.
    Decoding,
    /// Nothing; the call is over.
    Over,
}

/// A call of a method of the class.
pub struct BridgeCall {
    pub method: String,
    pub signature: String,
    /// The arguments: these texts, and the flag where there is one.
    pub texts: Vec<BridgeText>,
    pub flag: Option<u8>,
    pub reply: ReplyKind,
    /// What the message begins with if the method fails.
    pub call_error: String,
    /// What the message begins with if the method gives back something else.
    pub decode_error: String,
    pub phase: BridgePhase,
}

/// A call of a method of the class, as mathematical values.
pub struct CallModel {
    pub method: Seq<char>,
    pub signature: Seq<char>,
    pub texts: Seq<(Seq<char>, Seq<char>)>,
    pub flag: Option<u8>,
    pub reply: ReplyKind,
    pub call_error: Seq<char>,
    pub decode_error: Seq<char>,
    pub phase: BridgePhase,
}

/// The views of the texts that are handed to a method.
pub open spec fn text_models(texts: Seq<BridgeText>) -> Seq<(Seq<char>, Seq<char>)> {
    texts.map_values(|text: BridgeText| (text.value@, text.error@))
}

impl View for BridgeCall {
    type V = CallModel;

    open spec fn view(&self) -> CallModel {
        CallModel {
            method: self.method@,
            signature: self.signature@,
            texts: text_models(self.texts@),
            flag: self.flag,
            reply: self.reply,
            call_error: self.call_error@,
            decode_error: self.decode_error@,
            phase: self.phase,
        }
    }
}

impl CallModel {
    /// What holds of a call at any time: the text that is made is one of the arguments, and
    /// nothing is decoded where nothing is given back.
    pub open spec fn well_formed(self) -> bool {
        match self.phase {
            BridgePhase::Making(number) => number < self.texts.len(),
            BridgePhase::Decoding => self.reply != ReplyKind::Nothing,
            _ => true,
        }
    }
}

/// The call that starts the VPN service.
pub open spec fn connect_call(config: Seq<char>, tunnel_mode: bool) -> CallModel {
    CallModel {
        method: "connect"@,
        signature: "(Ljava/lang/String;Z)V"@,
        texts: seq![(config, "Failed to create config string: "@)],
        flag: Some(
            if tunnel_mode {
                1
            } else {
                0
            },
        ),
        reply: ReplyKind::Nothing,
        call_error: "Android connect failed: "@,
        decode_error: ""@,
        phase: BridgePhase::Ready,
    }
}

/// The call that ends the VPN service.
pub open spec fn disconnect_call() -> CallModel {
    CallModel {
        method: "disconnect"@,
        signature: "()V"@,
        texts: Seq::empty(),
        flag: None,
        reply: ReplyKind::Nothing,
        call_error: "Android disconnect failed: "@,
        decode_error: ""@,
        phase: BridgePhase::Ready,
    }
}

/// The call that asks whether the VPN service runs.
pub open spec fn running_call() -> CallModel {
    CallModel {
        method: "isVpnRunning"@,
        signature: "()Z"@,
        texts: Seq::empty(),
        flag: None,
        reply: ReplyKind::Flag,
        call_error: "Android VPN status check failed: "@,
        decode_error: "Android VPN status decode failed: "@,
        phase: BridgePhase::Ready,
    }
}

/// The call that measures the delay of a request through a server.
pub open spec fn delay_call(config: Seq<char>, url: Seq<char>) -> CallModel {
    CallModel {
        method: "measureOutboundDelay"@,
        signature: "(Ljava/lang/String;Ljava/lang/String;)J"@,
        texts: seq![
            (config, "Failed to create config string: "@),
            (url, "Failed to create probe url: "@),
        ],
        flag: None,
        reply: ReplyKind::Number,
        call_error: "Android delay probe failed: "@,
        decode_error: "Android delay result decode failed: "@,
        phase: BridgePhase::Ready,
    }
}

/// The call that starts the VPN service.
pub fn call_connect(config: &str, tunnel_mode: bool) -> (call: BridgeCall)
    ensures
        call@ == connect_call(config@, tunnel_mode),
{
    let mut texts: Vec<BridgeText> = Vec::new();
    texts.push(
        BridgeText {
            value: config.to_owned(),
            error: "Failed to create config string: ".to_owned(),
        },
    );
    let flag: u8 = if tunnel_mode {
        1
    } else {
        0
    };
    assert(text_models(texts@) =~= connect_call(config@, tunnel_mode).texts);
    BridgeCall {
        method: "connect".to_owned(),
        signature: "(Ljava/lang/String;Z)V".to_owned(),
        texts,
        flag: Some(flag),
        reply: ReplyKind::Nothing,
        call_error: "Android connect failed: ".to_owned(),
        decode_error: "".to_owned(),
        phase: BridgePhase::Ready,
    }
}

/// The call that ends the VPN service.
pub fn call_disconnect() -> (call: BridgeCall)
    ensures
        call@ == disconnect_call(),
{
    let texts: Vec<BridgeText> = Vec::new();
    assert(text_models(texts@) =~= Seq::empty());
    BridgeCall {
        method: "disconnect".to_owned(),
        signature: "()V".to_owned(),
        texts,
        flag: None,
        reply: ReplyKind::Nothing,
        call_error: "Android disconnect failed: ".to_owned(),
        decode_error: "".to_owned(),
        phase: BridgePhase::Ready,
    }
}

/// The call that asks whether the VPN service runs.
pub fn call_is_vpn_running() -> (call: BridgeCall)
    ensures
        call@ == running_call(),
{
    let texts: Vec<BridgeText> = Vec::new();
    assert(text_models(texts@) =~= Seq::empty());
    BridgeCall {
        method: "isVpnRunning".to_owned(),
        signature: "()Z".to_owned(),
        texts,
        flag: None,
        reply: ReplyKind::Flag,
        call_error: "Android VPN status check failed: ".to_owned(),
        decode_error: "Android VPN status decode failed: ".to_owned(),
        phase: BridgePhase::Ready,
    }
}

/// The call that measures the delay of a request for `url` through the server that the
/// configuration names.
pub fn call_measure_delay(config: &str, url: &str) -> (call: BridgeCall)
    ensures
        call@ == delay_call(config@, url@),
{
    let mut texts: Vec<BridgeText> = Vec::new();
    texts.push(
        BridgeText {
            value: config.to_owned(),
            error: "Failed to create config string: ".to_owned(),
        },
    );
    texts.push(
        BridgeText { value: url.to_owned(), error: "Failed to create probe url: ".to_owned() },
    );
    assert(text_models(texts@) =~= delay_call(config@, url@).texts);
    BridgeCall {
        method: "measureOutboundDelay".to_owned(),
        signature: "(Ljava/lang/String;Ljava/lang/String;)J".to_owned(),
        texts,
        flag: None,
        reply: ReplyKind::Number,
        call_error: "Android delay probe failed: ".to_owned(),
        decode_error: "Android delay result decode failed: ".to_owned(),
        phase: BridgePhase::Ready,
    }
}

/// What a call waited for.
pub enum BridgeEvent {
    /// The call is to begin.
    Begin,
    /// The thread was attached to the virtual machine, or could not be.
    Attached(Result<(), String>),
    /// The class was looked for; a reference to it was made, or could not be.
    Found(bool),
    /// The text was made on the Java side, or could not be.
    Made(Result<(), String>),
    /// The method was called, or failed.
    Invoked(Result<(), String>),
    /// The method gave back what it should, or something else.
    Decoded(Result<BridgeReply, String>),
}

/// What a call waited for, as a mathematical value.
pub enum BridgeEventModel {
    Begin,
    Attached(Result<(), Seq<char>>),
    Found(bool),
    Made(Result<(), Seq<char>>),
    Invoked(Result<(), Seq<char>>),
    Decoded(Result<BridgeReply, Seq<char>>),
}

/// The view of an outcome of a call.
pub open spec fn reply_outcome(result: Result<BridgeReply, String>) -> Result<
    BridgeReply,
    Seq<char>,
> {
    match result {
        Ok(reply) => Ok(reply),
        Err(error) => Err(error@),
    }
}

impl View for BridgeEvent {
    type V = BridgeEventModel;

    open spec fn view(&self) -> BridgeEventModel {
        match self {
            BridgeEvent::Begin => BridgeEventModel::Begin,
            BridgeEvent::Attached(result) => BridgeEventModel::Attached(unit_outcome(*result)),
            BridgeEvent::Found(found) => BridgeEventModel::Found(*found),
            BridgeEvent::Made(result) => BridgeEventModel::Made(unit_outcome(*result)),
            BridgeEvent::Invoked(result) => BridgeEventModel::Invoked(unit_outcome(*result)),
            BridgeEvent::Decoded(result) => BridgeEventModel::Decoded(reply_outcome(*result)),
        }
    }
}

/// What a call asks for.
pub enum BridgeAction {
    /// Attach the thread to the virtual machine.
    Attach,
    /// Look for the class and make a reference to it.
    FindClass,
    /// Make the text on the Java side.
    MakeText(String),
    /// Call the method with the texts that were made, and the flag where there is one.
    Invoke,
    /// Take what the method gave back for the given.
    Decode(ReplyKind),
    /// End the call.
    Finish(Result<BridgeReply, String>),
}

/// What a call asks for, as a mathematical value.
pub enum BridgeActionModel {
    Attach,
    FindClass,
    MakeText(Seq<char>),
    Invoke,
    Decode(ReplyKind),
    Finish(Result<BridgeReply, Seq<char>>),
}

impl View for BridgeAction {
    type V = BridgeActionModel;

    open spec fn view(&self) -> BridgeActionModel {
        match self {
            BridgeAction::Attach => BridgeActionModel::Attach,
            BridgeAction::FindClass => BridgeActionModel::FindClass,
            BridgeAction::MakeText(text) => BridgeActionModel::MakeText(text@),
            BridgeAction::Invoke => BridgeActionModel::Invoke,
            BridgeAction::Decode(kind) => BridgeActionModel::Decode(*kind),
            BridgeAction::Finish(outcome) => BridgeActionModel::Finish(reply_outcome(*outcome)),
        }
    }
}

/// A step of a call: how it stands afterwards, what is known of the Java side, and what the
/// call asks for.
pub struct BridgeStep {
    pub call: CallModel,
    pub bridge: Bridge,
    pub action: BridgeActionModel,
}

/// The step that leads to the given phase.
pub open spec fn move_on(
    call: CallModel,
    bridge: Bridge,
    phase: BridgePhase,
    action: BridgeActionModel,
) -> BridgeStep {
    BridgeStep { call: CallModel { phase, ..call }, bridge, action }
}

/// The step that ends a call.
pub open spec fn end_call(
    call: CallModel,
    bridge: Bridge,
    outcome: Result<BridgeReply, Seq<char>>,
) -> BridgeStep {
    move_on(call, bridge, BridgePhase::Over, BridgeActionModel::Finish(outcome))
}

/// The step that follows the making of the given number of texts.
pub open spec fn argument_step(call: CallModel, bridge: Bridge, number: nat) -> BridgeStep {
    if number < call.texts.len() {
        move_on(
            call,
            bridge,
            BridgePhase::Making(number as usize),
            BridgeActionModel::MakeText(call.texts[number as int].0),
        )
    } else {
        move_on(call, bridge, BridgePhase::Invoking, BridgeActionModel::Invoke)
    }
}

/// The step that follows the search for the class.
pub open spec fn found_step(call: CallModel, bridge: Bridge) -> BridgeStep {
    if bridge.class {
        argument_step(call, bridge, 0)
    } else {
        end_call(
            call,
            bridge,
            Err("Android bridge class was not registered before native call"@),
        )
    }
}

/// The step of a call that follows what it waited for.
pub open spec fn bridge_step(call: CallModel, bridge: Bridge, event: BridgeEventModel) -> BridgeStep {
    match event {
        BridgeEventModel::Begin => if bridge.vm {
            move_on(call, bridge, BridgePhase::Attaching, BridgeActionModel::Attach)
        } else {
            end_call(call, bridge, Err("Android JVM not initialized"@))
        },
        BridgeEventModel::Attached(Err(error)) => end_call(
            call,
            bridge,
            Err("Failed to attach JNI thread: "@ + error),
        ),
        BridgeEventModel::Attached(Ok(_)) => if bridge.class {
            argument_step(call, bridge, 0)
        } else {
            move_on(call, bridge, BridgePhase::Finding, BridgeActionModel::FindClass)
        },
        BridgeEventModel::Found(found) => found_step(
            call,
            Bridge { class: bridge.class || found, ..bridge },
        ),
        BridgeEventModel::Made(Err(error)) => end_call(
            call,
            bridge,
            Err(call.texts[call.phase->Making_0 as int].1 + error),
        ),
        BridgeEventModel::Made(Ok(_)) => argument_step(
            call,
            bridge,
            (call.phase->Making_0 + 1) as nat,
        ),
        BridgeEventModel::Invoked(Err(error)) => end_call(
            call,
            bridge,
            Err(call.call_error + error),
        ),
        BridgeEventModel::Invoked(Ok(_)) => if call.reply == ReplyKind::Nothing {
            end_call(call, bridge, Ok(BridgeReply::Nothing))
        } else {
            move_on(call, bridge, BridgePhase::Decoding, BridgeActionModel::Decode(call.reply))
        },
        BridgeEventModel::Decoded(Err(error)) => end_call(
            call,
            bridge,
            Err(call.decode_error + error),
        ),
        BridgeEventModel::Decoded(Ok(reply)) => end_call(call, bridge, Ok(reply)),
    }
}

/// What a reply is.
pub open spec fn kind_of(reply: BridgeReply) -> ReplyKind {
    match reply {
        BridgeReply::Nothing => ReplyKind::Nothing,
        BridgeReply::Flag(_) => ReplyKind::Flag,
        BridgeReply::Number(_) => ReplyKind::Number,
    }
}

/// Tells whether a call waits for the event.
pub open spec fn listens(call: CallModel, event: BridgeEventModel) -> bool {
    match event {
        BridgeEventModel::Begin => call.phase == BridgePhase::Ready,
        BridgeEventModel::Attached(_) => call.phase == BridgePhase::Attaching,
        BridgeEventModel::Found(_) => call.phase == BridgePhase::Finding,
        BridgeEventModel::Made(_) => call.phase is Making,
        BridgeEventModel::Invoked(_) => call.phase == BridgePhase::Invoking,
        BridgeEventModel::Decoded(Ok(reply)) => call.phase == BridgePhase::Decoding && kind_of(
            reply,
        ) == call.reply,
        BridgeEventModel::Decoded(Err(_)) => call.phase == BridgePhase::Decoding,
    }
}

/// The two texts, one after the other.
fn joined_text(first: &str, second: &str) -> (text: String)
    ensures
        text@ == first@ + second@,
{
    let mut text = first.to_owned();
    text.append(second);
    text
}

impl BridgeCall {
    /// Ends the call.
    fn end(&mut self, outcome: Result<BridgeReply, String>) -> (action: BridgeAction)
        ensures
            forall|bridge: Bridge| #[trigger]
                end_call(old(self)@, bridge, reply_outcome(outcome)) == (BridgeStep {
                    call: final(self)@,
                    bridge,
                    action: action@,
                }),
    {
        self.phase = BridgePhase::Over;
        BridgeAction::Finish(outcome)
    }

    /// Goes on from the making of the given number of texts.
    fn after_texts(&mut self, number: usize) -> (action: BridgeAction)
        ensures
            forall|bridge: Bridge| #[trigger]
                argument_step(old(self)@, bridge, number as nat) == (BridgeStep {
                    call: final(self)@,
                    bridge,
                    action: action@,
                }),
            final(self)@.well_formed(),
    {
        assert(text_models(self.texts@).len() == self.texts@.len());
        if number < self.texts.len() {
            let value = self.texts[number].value.clone();
            self.phase = BridgePhase::Making(number);
            BridgeAction::MakeText(value)
        } else {
            self.phase = BridgePhase::Invoking;
            BridgeAction::Invoke
        }
    }

    /// Goes on from the attempt to make a text.
    fn after_make(&mut self, number: usize, result: Result<(), String>) -> (action: BridgeAction)
        requires
            old(self)@.phase == BridgePhase::Making(number),
            old(self)@.well_formed(),
        ensures
            forall|bridge: Bridge| #[trigger]
                bridge_step(
                    old(self)@,
                    bridge,
                    BridgeEventModel::Made(unit_outcome(result)),
                ) == (BridgeStep { call: final(self)@, bridge, action: action@ }),
            final(self)@.well_formed(),
    {
        assert(text_models(self.texts@).len() == self.texts@.len());
        match result {
            Err(error) => {
                let message = joined_text(self.texts[number].error.as_str(), error.as_str());
                self.end(Err(message))
            },
            Ok(_) => {
                let count: usize = self.texts.len();
                assert(number < count);
                self.after_texts(number + 1)
            },
        }
    }

    /// Takes the step of the call that follows what it waited for.
    pub fn step(&mut self, bridge: &mut Bridge, event: BridgeEvent) -> (action: BridgeAction)
        requires
            old(self)@.well_formed(),
            listens(old(self)@, event@),
        ensures
            (BridgeStep { call: final(self)@, bridge: *final(bridge), action: action@ })
                == bridge_step(old(self)@, *old(bridge), event@),
            final(self)@.well_formed(),
            (final(self)@.phase == BridgePhase::Over) == (action is Finish),
    {
        match event {
            BridgeEvent::Begin => {
                if bridge.vm {
                    self.phase = BridgePhase::Attaching;
                    BridgeAction::Attach
                } else {
                    self.end(Err("Android JVM not initialized".to_owned()))
                }
            },
            BridgeEvent::Attached(Err(error)) => {
                self.end(Err(joined_text("Failed to attach JNI thread: ", error.as_str())))
            },
            BridgeEvent::Attached(Ok(_)) => {
                if bridge.wants_class() {
                    self.phase = BridgePhase::Finding;
                    BridgeAction::FindClass
                } else {
                    self.after_texts(0)
                }
            },
            BridgeEvent::Found(found) => {
                bridge.store_bridge_class(found);
                if bridge.class {
                    self.after_texts(0)
                } else {
                    self.end(
                        Err(
                            "Android bridge class was not registered before native call".to_owned(),
                        ),
                    )
                }
            },
            BridgeEvent::Made(result) => {
                let number: usize = match self.phase {
                    BridgePhase::Making(number) => number,
                    _ => 0,
                };
                self.after_make(number, result)
            },
            BridgeEvent::Invoked(Err(error)) => {
                let message = joined_text(self.call_error.as_str(), error.as_str());
                self.end(Err(message))
            },
            BridgeEvent::Invoked(Ok(_)) => {
                if self.reply == ReplyKind::Nothing {
                    self.end(Ok(BridgeReply::Nothing))
                } else {
                    self.phase = BridgePhase::Decoding;
                    BridgeAction::Decode(self.reply)
                }
            },
            BridgeEvent::Decoded(Err(error)) => {
                let message = joined_text(self.decode_error.as_str(), error.as_str());
                self.end(Err(message))
            },
            BridgeEvent::Decoded(Ok(reply)) => self.end(Ok(reply)),
        }
    }
}

} // verus!
