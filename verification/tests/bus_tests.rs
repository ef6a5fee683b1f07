use sly::bus::{conclude, interpret, plan_handler, register_core_handlers, run_directive, BusError,
    CoreHandler, DirectiveBus, EventDraft, HandlerPlan};
use sly::events::{route_impulse, should_shutdown, Directive, Impulse};
use sly::json::{Json, Member};
use sly::lanes::{lane_of, select_lane, ImpulseLanes, Lane, BACKGROUND_CAPACITY,
    PRIORITY_CAPACITY};

fn object(members: Vec<(&str, Json)>) -> Json {
    Json::Object(
        members.into_iter().map(|(k, v)| Member { key: k.to_string(), value: v }).collect(),
    )
}

#[test]
fn session_impulses_give_one_directive_each() {
    let d = route_impulse(Impulse::InitiateSession("hi".to_string()));
    assert_eq!(d, vec![Directive {
        kind: "initiate_session".to_string(),
        payload: object(vec![("input", Json::Text("hi".to_string()))]),
    }]);
    let d = route_impulse(Impulse::ThinkStep("S".to_string()));
    assert_eq!(d, vec![Directive {
        kind: "think".to_string(),
        payload: object(vec![("session_id", Json::Text("S".to_string()))]),
    }]);
    let d = route_impulse(Impulse::Observation("S".to_string(), "seen".to_string()));
    assert_eq!(d, vec![Directive {
        kind: "observe".to_string(),
        payload: object(vec![
            ("observation", Json::Text("seen".to_string())),
            ("session_id", Json::Text("S".to_string())),
        ]),
    }]);
}

#[test]
fn file_events_collapse_into_one_batch() {
    let d = route_impulse(Impulse::FileSystemEvent(vec!["a.txt".to_string(), "b.rs".to_string()]));
    assert_eq!(d.len(), 1);
    assert_eq!(d[0].kind, "fs_batch");
    assert_eq!(
        d[0].payload,
        object(vec![(
            "paths",
            Json::Array(vec![Json::Text("a.txt".to_string()), Json::Text("b.rs".to_string())])
        )])
    );
}

#[test]
fn other_impulses_route_as_specified() {
    assert!(route_impulse(Impulse::SwarmSignal(3, "busy".to_string())).is_empty());
    assert_eq!(route_impulse(Impulse::BootstrapSkills)[0].kind, "bootstrap_skills");
    assert_eq!(route_impulse(Impulse::JanitorWakeup)[0].kind, "maintenance");
    let stop = route_impulse(Impulse::SystemInterrupt);
    assert_eq!(stop[0].kind, "shutdown");
    assert_eq!(stop[0].payload, object(vec![]));
    assert!(should_shutdown(&stop));
    let err = route_impulse(Impulse::Error("boom".to_string()));
    assert_eq!(err[0].kind, "error");
    assert_eq!(err[0].payload, object(vec![("message", Json::Text("boom".to_string()))]));
    assert!(!should_shutdown(&err));
}

#[test]
fn bus_finds_the_handler_registered_last() {
    let mut bus: DirectiveBus<u32> = DirectiveBus::new();
    bus.register("think", 1);
    bus.register("observe", 2);
    bus.register("think", 3);
    assert_eq!(bus.dispatch("think"), Ok(&3));
    assert_eq!(bus.dispatch("observe"), Ok(&2));
    let missing = bus.dispatch("maintenance").err().expect("no handler");
    assert_eq!(missing, BusError::NoHandler { name: "maintenance".to_string() });
    assert_eq!(missing.message(), "No handler registered for directive: maintenance");
}

#[test]
fn every_dispatch_is_recorded_before_the_handler_runs() {
    let mut bus: DirectiveBus<CoreHandler> = DirectiveBus::new();
    register_core_handlers(&mut bus);
    let d = Directive::new("think", object(vec![("session_id", Json::Text("S".to_string()))]));
    let i = interpret(&bus, &d);
    assert_eq!(i.record.op, "EXEC:think");
    assert_eq!(i.record.data, d.payload);
    assert_eq!(i.handler, Ok(&CoreHandler::Think));
    assert_eq!(conclude(&d, &Ok(())), None);
    let failed = conclude(&d, &Err("it broke".to_string())).expect("error record");
    assert_eq!(failed.op, "ERROR:think");
    assert_eq!(failed.data, object(vec![("error", Json::Text("it broke".to_string()))]));
}

#[test]
fn unknown_directive_is_recorded_and_reported() {
    let mut bus: DirectiveBus<CoreHandler> = DirectiveBus::new();
    register_core_handlers(&mut bus);
    let d = Directive::new("maintenance", object(vec![]));
    let i = interpret(&bus, &d);
    assert_eq!(i.record.op, "EXEC:maintenance");
    let e = i.handler.err().expect("no handler");
    let record = conclude(&d, &Err(e.message())).expect("error record");
    assert_eq!(record.op, "ERROR:maintenance");
    assert_eq!(
        record.data,
        object(vec![(
            "error",
            Json::Text("No handler registered for directive: maintenance".to_string())
        )])
    );
}

#[test]
fn core_handlers_read_their_payloads() {
    let p = object(vec![
        ("session_id", Json::Text("S".to_string())),
        ("observation", Json::Text("o".to_string())),
        ("input", Json::Text("go".to_string())),
        ("path", Json::Text("a.rs".to_string())),
        ("paths", Json::Array(vec![Json::Text("x".to_string()), Json::Null, Json::Text("y".to_string())])),
    ]);
    assert_eq!(
        plan_handler(CoreHandler::InitiateSession, &p),
        HandlerPlan::StartSession { input: "go".to_string() }
    );
    assert_eq!(plan_handler(CoreHandler::Think, &p), HandlerPlan::Step { session_id: "S".to_string() });
    assert_eq!(
        plan_handler(CoreHandler::Observe, &p),
        HandlerPlan::Observe { session_id: "S".to_string(), observation: "o".to_string() }
    );
    assert_eq!(
        plan_handler(CoreHandler::IngestFile, &p),
        HandlerPlan::Ingest { paths: vec!["a.rs".to_string()] }
    );
    assert_eq!(
        plan_handler(CoreHandler::FsBatch, &p),
        HandlerPlan::Ingest { paths: vec!["x".to_string(), "y".to_string()] }
    );
    assert_eq!(plan_handler(CoreHandler::FsBatch, &object(vec![])), HandlerPlan::Nothing);
    assert_eq!(plan_handler(CoreHandler::BootstrapSkills, &p), HandlerPlan::LoadSkills);
    assert_eq!(plan_handler(CoreHandler::Shutdown, &p), HandlerPlan::Nothing);
    assert_eq!(
        plan_handler(CoreHandler::Think, &Json::Null),
        HandlerPlan::Step { session_id: String::new() }
    );
}

#[test]
fn priority_impulse_is_handled_before_background_impulse() {
    let mut lanes = ImpulseLanes::new();
    let fs = Impulse::FileSystemEvent(vec!["a.txt".to_string()]);
    let think = Impulse::ThinkStep("S".to_string());
    assert_eq!(lane_of(&fs), Lane::Background);
    assert_eq!(lane_of(&think), Lane::Priority);
    assert_eq!(lanes.enqueue(Lane::Background, fs.clone()), Ok(()));
    assert_eq!(lanes.enqueue(Lane::Priority, think.clone()), Ok(()));
    assert_eq!(lanes.select(), Some((Lane::Priority, think)));
    assert_eq!(lanes.select(), Some((Lane::Background, fs)));
    assert_eq!(lanes.select(), None);
}

#[test]
fn lanes_are_bounded() {
    let mut lanes = ImpulseLanes::new();
    for _ in 0..PRIORITY_CAPACITY {
        assert!(lanes.enqueue(Lane::Priority, Impulse::SystemInterrupt).is_ok());
    }
    assert_eq!(
        lanes.enqueue(Lane::Priority, Impulse::ThinkStep("late".to_string())),
        Err(Impulse::ThinkStep("late".to_string()))
    );
    assert_eq!(lanes.waiting(Lane::Priority), 100);
    for _ in 0..BACKGROUND_CAPACITY {
        assert!(lanes.enqueue(Lane::Background, Impulse::JanitorWakeup).is_ok());
    }
    assert!(lanes.enqueue(Lane::Background, Impulse::JanitorWakeup).is_err());
    assert_eq!(lanes.waiting(Lane::Background), 1000);
    assert!(lanes.select().is_some());
    assert!(lanes.enqueue(Lane::Priority, Impulse::SystemInterrupt).is_ok());
}

#[test]
fn selection_is_strictly_biased() {
    assert_eq!(select_lane(true, true), Some(Lane::Priority));
    assert_eq!(select_lane(true, false), Some(Lane::Priority));
    assert_eq!(select_lane(false, true), Some(Lane::Background));
    assert_eq!(select_lane(false, false), None);
    assert_eq!(lane_of(&Impulse::SystemInterrupt), Lane::Priority);
    assert_eq!(lane_of(&Impulse::BootstrapSkills), Lane::Background);
}

#[test]
fn handler_sees_its_dispatch_on_record() {
    let mut bus: DirectiveBus<CoreHandler> = DirectiveBus::new();
    register_core_handlers(&mut bus);
    let mut log: Vec<EventDraft> = Vec::new();
    let d = Directive::new("think", object(vec![("session_id", Json::Text("S".to_string()))]));
    let out = run_directive(&bus, &d, &mut log, |h, payload, seen| {
        assert_eq!(*h, CoreHandler::Think);
        assert_eq!(payload, &d.payload);
        assert_eq!(seen.len(), 1);
        assert_eq!(seen[0].op, "EXEC:think");
        assert_eq!(seen[0].data, d.payload);
        Ok(())
    });
    assert_eq!(out, Ok(()));
    assert_eq!(log.len(), 1);

    let out = run_directive(&bus, &d, &mut log, |_, _, seen| {
        assert_eq!(seen.len(), 2);
        Err("handler failed".to_string())
    });
    assert_eq!(out, Err("handler failed".to_string()));
    let ops: Vec<&str> = log.iter().map(|r| r.op.as_str()).collect();
    assert_eq!(ops, vec!["EXEC:think", "EXEC:think", "ERROR:think"]);
    assert_eq!(log[2].data, object(vec![("error", Json::Text("handler failed".to_string()))]));

    let unknown = Directive::new("error", object(vec![("message", Json::Text("m".to_string()))]));
    let out = run_directive(&bus, &unknown, &mut log, |_, _, _| panic!("no handler to call"));
    assert_eq!(out, Err("No handler registered for directive: error".to_string()));
    let ops: Vec<&str> = log.iter().map(|r| r.op.as_str()).collect();
    assert_eq!(ops[3..], ["EXEC:error", "ERROR:error"]);
}
