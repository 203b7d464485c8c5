use futures::channel::oneshot;
use futures::executor::block_on;
use lsp_rpc_core::error::Error;
use lsp_rpc_core::id::ResponseId;
use lsp_rpc_core::pending::PendingClientRequests;
use lsp_rpc_core::pending::Registered;
use lsp_rpc_core::pending::Routed;
use lsp_rpc_core::request::RequestMessage;
use lsp_rpc_core::response::ResponseMessage;
use serde_json::Value;

fn from_ok(id: ResponseId, result: Value) -> ResponseMessage<Value> {
    ResponseMessage::new(id, Ok(result))
}

fn empty_object() -> Value {
    Value::Object(serde_json::Map::new())
}

fn text(value: &str) -> Value {
    Value::String(value.to_string())
}

fn counts(pending: &PendingClientRequests) -> Vec<(ResponseId, usize)> {
    let mut counts = pending.waiter_counts();
    counts.sort_by_key(|(id, _)| format!("{:?}", id));
    counts
}

#[test]
fn waits_for_client_response() {
    let mut pending = PendingClientRequests::new();

    let id = ResponseId::Number(1);
    let wait_fut = pending.await_response(id.clone());

    let response = from_ok(id.clone(), empty_object());
    pending.register_response(from_ok(id, empty_object()));

    assert_eq!(block_on(wait_fut).unwrap(), response);
}

#[test]
fn routes_responses_in_fifo_order() {
    let mut pending = PendingClientRequests::new();

    let id = ResponseId::Number(1);
    let wait_fut1 = pending.await_response(id.clone());
    let wait_fut2 = pending.await_response(id.clone());

    let foo = from_ok(id.clone(), text("foo"));
    let bar = from_ok(id.clone(), text("bar"));
    pending.register_response(from_ok(id.clone(), text("bar")));
    pending.register_response(from_ok(id, text("foo")));

    assert_eq!(block_on(wait_fut1).unwrap(), bar);
    assert_eq!(block_on(wait_fut2).unwrap(), foo);
}

#[test]
fn a_new_table_holds_nobody() {
    let pending = PendingClientRequests::new();
    assert_eq!(pending.waiter_counts(), vec![]);
}

#[test]
fn a_delivered_response_is_reported_as_delivered() {
    let mut pending = PendingClientRequests::new();
    let mut receiver = pending.await_response(ResponseId::String("a".to_string()));
    assert_eq!(receiver.try_recv(), Ok(None));
    let outcome =
        pending.register_response(from_ok(ResponseId::String("a".to_string()), Value::from(1)));
    assert!(matches!(outcome, Registered::Delivered));
    assert_eq!(
        receiver.try_recv(),
        Ok(Some(from_ok(ResponseId::String("a".to_string()), Value::from(1))))
    );
}

#[test]
fn a_failed_call_reaches_its_waiter_too() {
    let mut pending = PendingClientRequests::new();
    let receiver = pending.await_response(ResponseId::Number(9));
    let failed = Error { code: -32601, message: "no such method".to_string(), data: None };
    pending.register_response(ResponseMessage::new(ResponseId::Number(9), Err(failed.clone())));
    assert_eq!(
        block_on(receiver).unwrap(),
        ResponseMessage::new(ResponseId::Number(9), Err(failed))
    );
}

#[test]
fn waiters_are_served_in_the_order_in_which_they_came() {
    let mut pending = PendingClientRequests::new();
    let id = ResponseId::Number(7);
    let mut receivers = Vec::new();
    for _ in 0..5 {
        receivers.push(pending.await_response(id.clone()));
    }
    assert_eq!(counts(&pending), vec![(id.clone(), 5)]);
    for turn in 0..5 {
        let outcome = pending.register_response(from_ok(id.clone(), Value::from(turn)));
        assert!(matches!(outcome, Registered::Delivered));
        assert_eq!(
            counts(&pending),
            if turn < 4 { vec![(id.clone(), (4 - turn) as usize)] } else { vec![] }
        );
    }
    for (turn, receiver) in receivers.into_iter().enumerate() {
        assert_eq!(block_on(receiver).unwrap(), from_ok(id.clone(), Value::from(turn)));
    }
}

#[test]
fn the_order_does_not_depend_on_what_responses_carry() {
    for (first, second) in [(text("a"), text("b")), (text("b"), text("a")), (text("a"), text("a"))]
    {
        let mut pending = PendingClientRequests::new();
        let id = ResponseId::Number(1);
        let one = pending.await_response(id.clone());
        let two = pending.await_response(id.clone());
        pending.register_response(from_ok(id.clone(), first.clone()));
        pending.register_response(from_ok(id.clone(), second.clone()));
        assert_eq!(block_on(one).unwrap(), from_ok(id.clone(), first));
        assert_eq!(block_on(two).unwrap(), from_ok(id.clone(), second));
    }
}

#[test]
fn identifiers_do_not_disturb_each_other() {
    let mut pending = PendingClientRequests::new();
    let number = pending.await_response(ResponseId::Number(1));
    let string = pending.await_response(ResponseId::String("1".to_string()));
    let other = pending.await_response(ResponseId::Number(2));
    assert_eq!(
        counts(&pending),
        vec![
            (ResponseId::Number(1), 1),
            (ResponseId::Number(2), 1),
            (ResponseId::String("1".to_string()), 1),
        ]
    );
    pending.register_response(from_ok(ResponseId::String("1".to_string()), text("string")));
    pending.register_response(from_ok(ResponseId::Number(2), text("other")));
    assert_eq!(counts(&pending), vec![(ResponseId::Number(1), 1)]);
    pending.register_response(from_ok(ResponseId::Number(1), text("number")));
    assert_eq!(block_on(number).unwrap(), from_ok(ResponseId::Number(1), text("number")));
    assert_eq!(
        block_on(string).unwrap(),
        from_ok(ResponseId::String("1".to_string()), text("string"))
    );
    assert_eq!(block_on(other).unwrap(), from_ok(ResponseId::Number(2), text("other")));
}

#[test]
fn an_unknown_identifier_changes_nothing() {
    let mut pending = PendingClientRequests::new();
    let outcome = pending.register_response(from_ok(ResponseId::Number(1), Value::Null));
    match outcome {
        Registered::UnknownId(back) => {
            assert_eq!(back, from_ok(ResponseId::Number(1), Value::Null))
        }
        other => panic!("unexpected outcome: {:?}", other),
    }
    assert_eq!(pending.waiter_counts(), vec![]);

    let mut receiver = pending.await_response(ResponseId::Number(1));
    let outcome = pending.register_response(from_ok(ResponseId::Number(2), Value::Null));
    assert!(matches!(outcome, Registered::UnknownId(_)));
    let outcome =
        pending.register_response(from_ok(ResponseId::String("1".to_string()), Value::Null));
    assert!(matches!(outcome, Registered::UnknownId(_)));
    assert_eq!(counts(&pending), vec![(ResponseId::Number(1), 1)]);
    assert_eq!(receiver.try_recv(), Ok(None));
}

#[test]
fn the_null_identifier_is_never_matched() {
    let mut pending = PendingClientRequests::new();
    let outcome = pending.register_response(from_ok(ResponseId::Null, text("x")));
    match outcome {
        Registered::NullId(back) => assert_eq!(back, from_ok(ResponseId::Null, text("x"))),
        other => panic!("unexpected outcome: {:?}", other),
    }
    assert_eq!(pending.waiter_counts(), vec![]);

    // Somebody may wait under the null identifier, but is never served.
    let mut receiver = pending.await_response(ResponseId::Null);
    let outcome = pending.register_response(from_ok(ResponseId::Null, text("x")));
    assert!(matches!(outcome, Registered::NullId(_)));
    assert_eq!(counts(&pending), vec![(ResponseId::Null, 1)]);
    assert_eq!(receiver.try_recv(), Ok(None));
}

#[test]
fn the_entry_leaves_with_its_last_waiter() {
    let mut pending = PendingClientRequests::new();
    let id = ResponseId::Number(3);
    let _one = pending.await_response(id.clone());
    let _two = pending.await_response(id.clone());
    assert_eq!(counts(&pending), vec![(id.clone(), 2)]);
    pending.register_response(from_ok(id.clone(), Value::Null));
    assert_eq!(counts(&pending), vec![(id.clone(), 1)]);
    pending.register_response(from_ok(id.clone(), Value::Null));
    assert_eq!(pending.waiter_counts(), vec![]);
    let outcome = pending.register_response(from_ok(id.clone(), Value::Null));
    assert!(matches!(outcome, Registered::UnknownId(_)));

    // The identifier can be waited for again afterwards.
    let again = pending.await_response(id.clone());
    assert_eq!(counts(&pending), vec![(id.clone(), 1)]);
    pending.register_response(from_ok(id.clone(), text("again")));
    assert_eq!(block_on(again).unwrap(), from_ok(id, text("again")));
}

#[test]
fn a_response_for_a_caller_that_left_comes_back() {
    let mut pending = PendingClientRequests::new();
    let id = ResponseId::Number(4);
    let gone = pending.await_response(id.clone());
    let stays = pending.await_response(id.clone());
    drop(gone);
    let outcome = pending.register_response(from_ok(id.clone(), text("first")));
    match outcome {
        Registered::Abandoned(back) => assert_eq!(back, from_ok(id.clone(), text("first"))),
        other => panic!("unexpected outcome: {:?}", other),
    }
    // The place of the caller that left is used up all the same.
    assert_eq!(counts(&pending), vec![(id.clone(), 1)]);
    pending.register_response(from_ok(id.clone(), text("second")));
    assert_eq!(block_on(stays).unwrap(), from_ok(id, text("second")));
}

#[test]
fn enlisted_senders_come_out_oldest_first() {
    let mut pending = PendingClientRequests::new();
    let id = ResponseId::String("x".to_string());
    let (first_tx, mut first_rx) = oneshot::channel();
    let (second_tx, mut second_rx) = oneshot::channel();
    pending.enlist(id.clone(), first_tx);
    pending.enlist(id.clone(), second_tx);
    assert_eq!(counts(&pending), vec![(id.clone(), 2)]);

    match pending.route(from_ok(id.clone(), text("one"))) {
        Routed::Deliver { waiter, response } => {
            assert!(waiter.is_connected_to(&first_rx));
            assert_eq!(response, from_ok(id.clone(), text("one")));
            // Nothing was sent yet.
            assert_eq!(first_rx.try_recv(), Ok(None));
            waiter.send(response).unwrap();
        }
        other => panic!("unexpected route: {:?}", other),
    }
    assert_eq!(first_rx.try_recv(), Ok(Some(from_ok(id.clone(), text("one")))));
    assert_eq!(second_rx.try_recv(), Ok(None));

    match pending.route(from_ok(id.clone(), text("two"))) {
        Routed::Deliver { waiter, .. } => assert!(waiter.is_connected_to(&second_rx)),
        other => panic!("unexpected route: {:?}", other),
    }
    assert_eq!(pending.waiter_counts(), vec![]);
    assert!(matches!(pending.route(from_ok(id, Value::Null)), Routed::UnknownId(_)));
    assert!(matches!(pending.route(from_ok(ResponseId::Null, Value::Null)), Routed::NullId(_)));
}

#[test]
fn the_response_to_initialize_reaches_its_caller() {
    let mut pending = PendingClientRequests::new();

    let mut capabilities = serde_json::Map::new();
    capabilities.insert("textDocumentSync".to_string(), Value::from(1));
    let mut params = serde_json::Map::new();
    params.insert("capabilities".to_string(), Value::Object(capabilities));
    let request = RequestMessage::new(ResponseId::Number(1), Some(Value::Object(params)));
    let written = request.serialize("initialize");
    assert_eq!(written.len(), 4);

    let caller = pending.await_response(request.id().clone());
    let outcome = pending.register_response(from_ok(ResponseId::Number(1), empty_object()));
    assert!(matches!(outcome, Registered::Delivered));

    let awaited = block_on(caller).unwrap();
    assert_eq!(awaited.id(), request.id());
    assert_eq!(awaited.kind(), Ok(&empty_object()));
    assert_eq!(pending.waiter_counts(), vec![]);
}
