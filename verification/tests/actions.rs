use dockrtui::containers::actions::{
    launch_action, ActionCall, ActionEvent, ActionKind, BarPhase, HealthStatus, Inspection,
};

fn inspected(running: bool, health: Option<Option<HealthStatus>>) -> ActionEvent {
    ActionEvent::Inspected(Some(Inspection { running: Some(running), health }))
}

#[test]
fn start_waits_until_it_runs() {
    let (mut task, step) = launch_action(ActionKind::Starting);
    assert_eq!(step.updates.len(), 1);
    assert_eq!((step.updates[0].pct, step.updates[0].phase), (5, BarPhase::StartingRuntime));
    assert!(matches!(step.next, ActionCall::Start));
    let step = task.advance(ActionEvent::Called(Ok(())));
    assert_eq!(step.updates[0].pct, 30);
    assert!(matches!(step.next, ActionCall::Inspect));
    let step = task.advance(inspected(false, None));
    assert!(step.updates.is_empty());
    assert!(matches!(step.next, ActionCall::Sleep(200)));
    let step = task.advance(ActionEvent::Slept);
    assert!(matches!(step.next, ActionCall::Inspect));
    let step = task.advance(inspected(true, None));
    let pcts: Vec<u8> = step.updates.iter().map(|u| u.pct).collect();
    assert_eq!(pcts, vec![60, 92, 100]);
    assert!(matches!(step.next, ActionCall::End(Ok(()))));
}

#[test]
fn start_waits_until_it_is_healthy() {
    let (mut task, _) = launch_action(ActionKind::Starting);
    task.advance(ActionEvent::Called(Ok(())));
    let step = task.advance(inspected(true, Some(Some(HealthStatus::Starting))));
    assert_eq!(step.updates[0].pct, 60);
    assert!(matches!(step.next, ActionCall::Inspect));
    let step = task.advance(inspected(true, Some(Some(HealthStatus::Starting))));
    assert_eq!(step.updates[0].pct, 90);
    assert!(matches!(step.next, ActionCall::Sleep(240)));
    task.advance(ActionEvent::Slept);
    let step = task.advance(inspected(true, Some(Some(HealthStatus::Healthy))));
    let pcts: Vec<u8> = step.updates.iter().map(|u| u.pct).collect();
    assert_eq!(pcts, vec![98, 100]);
}

#[test]
fn stop_waits_until_it_is_gone() {
    let (mut task, step) = launch_action(ActionKind::Stopping);
    let pcts: Vec<u8> = step.updates.iter().map(|u| u.pct).collect();
    assert_eq!(pcts, vec![5, 25]);
    assert!(matches!(step.next, ActionCall::Stop(2)));
    let step = task.advance(ActionEvent::Called(Ok(())));
    assert_eq!(step.updates[0].pct, 60);
    task.advance(inspected(true, None));
    task.advance(ActionEvent::Slept);
    let step = task.advance(inspected(false, None));
    assert_eq!(step.updates[0].pct, 98);
    assert!(matches!(step.next, ActionCall::End(Ok(()))));
}

#[test]
fn failure_ends_an_action() {
    let (mut task, _) = launch_action(ActionKind::Starting);
    let step = task.advance(ActionEvent::Called(Err("no".to_string())));
    assert_eq!(step.updates.last().unwrap().pct, 100);
    match step.next {
        ActionCall::End(Err(e)) => assert_eq!(e, "no"),
        _ => panic!("not ended"),
    }
}
