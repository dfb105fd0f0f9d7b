use syd::actor::Actor;
use syd::dispatch::run_batch;
use syd::dispatch::scan_decision;
use syd::dispatch::Registry;
use syd::example::ExampleActor;
use syd::example::ExampleMessage;
use syd::example::ExampleReturn;
use syd::inbox::Inbox;
use syd::query::collect_results;

#[test]
fn sends_messages() {
    let actor1 = ExampleActor::new(1);
    let actor2 = ExampleActor::new(2);
    let result = actor1.send_msg(ExampleMessage::Foo { x: 2, y: 5 }, Box::new(actor2));
    assert_eq!(ExampleReturn::Foo(7), result);
}

#[test]
fn handles_in_enqueue_order() {
    let mut actor = ExampleActor::new(3);
    assert_eq!(actor.id(), 3);
    actor.enqueue(ExampleMessage::Foo { x: 2, y: 5 });
    actor.enqueue(ExampleMessage::Bar { z: 1 });
    assert_eq!(actor.inbox_len(), 2);
    let batch = actor.drain_chunk(100);
    let results = run_batch(&actor, batch);
    assert_eq!(results, vec![ExampleReturn::Foo(7), ExampleReturn::Bar(11)]);
    assert_eq!(actor.inbox_len(), 0);
}

#[test]
fn caps_drain_at_throughput() {
    let mut inbox: Inbox<u32> = Inbox::new();
    for i in 0..150u32 {
        inbox.enqueue(i);
    }
    assert_eq!(inbox.len(), 150);
    let first = inbox.drain_chunk(100);
    assert_eq!(first.len(), 100);
    assert_eq!(inbox.len(), 50);
    let second = inbox.drain_chunk(100);
    assert_eq!(second.len(), 50);
    assert_eq!(inbox.len(), 0);
    let third = inbox.drain_chunk(100);
    assert_eq!(third.len(), 0);
    let mut all = first;
    all.extend(second);
    let expected: Vec<u32> = (0..150u32).collect();
    assert_eq!(all, expected);
}

#[test]
fn no_batch_for_idle_or_in_flight_actors() {
    assert_eq!(scan_decision(false, 0), None);
    assert_eq!(scan_decision(true, 0), None);
    assert_eq!(scan_decision(true, 42), None);
    assert_eq!(scan_decision(false, 42), Some(42));
    assert_eq!(scan_decision(false, 100), Some(100));
    assert_eq!(scan_decision(false, 250), Some(100));
}

#[test]
fn drains_in_bounded_batches_per_cycle() {
    let mut registry: Registry<ExampleActor> = Registry::new();
    for id in 0..10usize {
        let mut actor = ExampleActor::new(id);
        for k in 0..250u32 {
            actor.enqueue(ExampleMessage::Bar { z: (k % 100) as u8 });
        }
        registry.add_actor(actor);
    }
    assert_eq!(registry.n_actors(), 10);

    let first = registry.dispatch_cycle();
    assert_eq!(first.len(), 10);
    let mut submitted = 0;
    for entry in &first {
        let batch = entry.as_ref().expect("a loaded actor must be scheduled");
        assert_eq!(batch.len(), 100);
        submitted += batch.len();
    }
    assert_eq!(submitted, 1000);

    let second = registry.dispatch_cycle();
    for entry in &second {
        assert_eq!(entry.as_ref().unwrap().len(), 100);
    }

    let third = registry.dispatch_cycle();
    for entry in &third {
        assert_eq!(entry.as_ref().unwrap().len(), 50);
    }

    let fourth = registry.dispatch_cycle();
    for entry in &fourth {
        assert!(entry.is_none());
    }
}

#[test]
fn names_follow_ids() {
    assert_eq!(ExampleActor::new(0).name().as_str(), "actor-0");
    assert_eq!(ExampleActor::new(9).name().as_str(), "actor-9");
    assert_eq!(ExampleActor::new(10).name().as_str(), "actor-10");
    assert_eq!(ExampleActor::new(123).name().as_str(), "actor-123");
    assert_eq!(ExampleActor::new(1000).name().as_str(), "actor-1000");
}

#[test]
fn collects_query_results_in_submission_order() {
    let mut outcomes = Vec::new();
    for id in 0..10usize {
        outcomes.push(ExampleActor::new(id).decide());
    }
    let collected = collect_results(outcomes).expect("every query succeeds");
    let expected: Vec<String> = (0..10).map(|id| format!("actor-{}", id)).collect();
    assert_eq!(collected, expected);
}

#[test]
fn query_collection_fails_as_a_whole() {
    let outcomes: Vec<Result<String, String>> = vec![
        Ok(String::from("first")),
        Err(String::from("broken query")),
        Ok(String::from("third")),
        Err(String::from("later failure")),
    ];
    assert_eq!(collect_results(outcomes), Err(String::from("broken query")));
}

#[test]
fn rejects_messages_the_handler_cannot_take() {
    let actor = ExampleActor::new(7);
    assert!(actor.check_msg(&ExampleMessage::Foo { x: 2, y: 5 }));
    assert!(actor.check_msg(&ExampleMessage::Foo { x: 255, y: 0 }));
    assert!(!actor.check_msg(&ExampleMessage::Foo { x: 200, y: 100 }));
    assert!(actor.check_msg(&ExampleMessage::Bar { z: 245 }));
    assert!(!actor.check_msg(&ExampleMessage::Bar { z: 246 }));
}

#[test]
fn inbox_view_is_shared() {
    let mut actor = ExampleActor::new(4);
    actor.enqueue(ExampleMessage::Bar { z: 9 });
    assert_eq!(actor.inbox().len(), 1);
    assert_eq!(actor.inbox_len(), 1);
}
