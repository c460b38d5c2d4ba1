use std::sync::mpsc::channel;

use rustcraft::js::{BedrockEnginePlugin, JsCommand, JsThread};

fn code_of(cmd: JsCommand) -> String {
    match cmd {
        JsCommand::Eval(code) => code,
    }
}

#[test]
fn eval_queues_the_code() {
    let (tx, rx) = channel();
    let mut js = JsThread::with_sender(tx);
    js.eval("1 + 1");
    let owned = String::from("globalThis.x = 2;");
    js.eval(&owned);
    assert_eq!(code_of(rx.try_recv().unwrap()), "1 + 1");
    assert_eq!(code_of(rx.try_recv().unwrap()), "globalThis.x = 2;");
    assert!(rx.try_recv().is_err());
}

#[test]
fn eval_without_receiver_is_ignored() {
    let (tx, rx) = channel();
    drop(rx);
    let mut js = JsThread::with_sender(tx);
    js.eval("ignored");
}

#[test]
fn new_plugin_has_sent_nothing() {
    let (tx, rx) = channel();
    let _plugin = BedrockEnginePlugin::new(JsThread::with_sender(tx));
    assert!(rx.try_recv().is_err());
}

#[test]
fn loading_runs_the_start_up_scripts_in_order() {
    let (tx, rx) = channel();
    let mut plugin = BedrockEnginePlugin::new(JsThread::with_sender(tx));
    assert_eq!(plugin.on_load(), Ok(()));
    assert_eq!(
        code_of(rx.try_recv().unwrap()),
        "\n        console.log(\"Bedrock Engine plugin is running!\");\n    "
    );
    assert_eq!(code_of(rx.try_recv().unwrap()), "Bedrock Engine plugin running!");
    assert!(rx.try_recv().is_err());
}
