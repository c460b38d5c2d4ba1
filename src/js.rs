use vstd::prelude::*;
use vstd::string::StringExecFns;

use std::sync::mpsc::Sender;

verus! {

/// std::sync::mpsc::Sender, the sending end of a channel, carried as an
/// opaque value.
#[verifier::external_type_specification]
#[verifier::external_body]
#[verifier::reject_recursive_types(T)]
pub struct ExSender<T>(std::sync::mpsc::Sender<T>);

/// A request for the scripting thread.
#[derive(Debug)]
pub enum JsCommand {
    /// Evaluate a piece of source text.
    Eval(String),
}

/// Relies on std::sync::mpsc::Sender::send: queues the command for the
/// receiving thread. Delivery fails only once that thread is gone, which the
/// caller cannot know beforehand, so nothing is promised.
#[verifier::external_body]
fn post_command(sender: &Sender<JsCommand>, cmd: JsCommand) {
    let _ = sender.send(cmd);
}

/// The sending side of the scripting thread's command queue. It keeps, as a
/// ghost record, the source text of every command it has queued, in order.
pub struct JsThread {
    sender: Sender<JsCommand>,
    queued: Ghost<Seq<Seq<char>>>,
}

impl JsThread {
    /// The source texts queued through this handle so far, oldest first.
    pub closed spec fn queued(&self) -> Seq<Seq<char>> {
        self.queued@
    }

    /// Wraps the sending end of a channel whose receiver evaluates commands.
    /// Nothing has been queued through the new handle.
    pub fn with_sender(sender: Sender<JsCommand>) -> (r: JsThread)
        ensures
            r.queued() == Seq::<Seq<char>>::empty(),
    {
        JsThread { sender, queued: Ghost(Seq::empty()) }
    }

    /// Queues one command that evaluates `code`, after all earlier ones, and
    /// returns without waiting for it. A command sent after the scripting
    /// thread has gone is dropped.
    pub fn eval(&mut self, code: &str)
        ensures
            final(self).queued() == old(self).queued().push(code@),
    {
        let text = String::from_str(code);
        post_command(&self.sender, JsCommand::Eval(text));
        self.queued = Ghost(self.queued@.push(code@));
    }
}

/// The server plugin that owns the scripting thread.
pub struct BedrockEnginePlugin {
    js: JsThread,
}

impl BedrockEnginePlugin {
    /// The handle through which the plugin queues its scripts.
    pub closed spec fn handle(&self) -> JsThread {
        self.js
    }

    /// A plugin that queues its scripts through `js`.
    pub fn new(js: JsThread) -> (r: BedrockEnginePlugin)
        ensures
            r.handle() == js,
    {
        BedrockEnginePlugin { js }
    }

    pub fn js(&self) -> (r: &JsThread)
        ensures
            *r == self.handle(),
    {
        &self.js
    }

    /// Queues the start-up scripts on the scripting thread, in order: an
    /// announcement logged by the interpreter, then a bare string expression.
    /// Loading never fails.
    pub fn on_load(&mut self) -> (r: Result<(), String>)
        ensures
            r is Ok,
            final(self).handle().queued() == old(self).handle().queued().push(
                "\n        console.log(\"Bedrock Engine plugin is running!\");\n    "@,
            ).push("Bedrock Engine plugin running!"@),
    {
        self.js.eval("\n        console.log(\"Bedrock Engine plugin is running!\");\n    ");
        self.js.eval("Bedrock Engine plugin running!");
        Ok(())
    }
}

} // verus!
