use bills::session::{run_program, Event, Notice, Phase, Session};

fn line(s: &str) -> Event {
    Event::Line(Some(String::from(s)))
}

#[test]
fn cancelling_each_prompt_leaves_the_store_unchanged() {
    let mut session = Session::new();
    // Add, cancelled at the name prompt.
    assert_eq!(session.step(&line("1")), None);
    assert!(matches!(*session.phase(), Phase::AddName));
    assert_eq!(session.step(&Event::Line(None)), None);
    assert!(matches!(*session.phase(), Phase::Menu));
    assert_eq!(session.bills().get_all().len(), 0);
    // Add, cancelled at the amount prompt.
    assert_eq!(session.step(&line("1")), None);
    assert_eq!(session.step(&line("Rent")), None);
    assert!(matches!(*session.phase(), Phase::AddAmount(_)));
    assert_eq!(session.step(&Event::Amount(None)), None);
    assert!(matches!(*session.phase(), Phase::Menu));
    assert_eq!(session.bills().get_all().len(), 0);
    // Remove, cancelled at the name prompt.
    assert_eq!(session.step(&line("3")), None);
    assert!(matches!(*session.phase(), Phase::RemoveName));
    assert_eq!(session.step(&Event::Line(None)), None);
    assert!(matches!(*session.phase(), Phase::Menu));
    // Update, cancelled at the name prompt, then at the amount prompt.
    assert_eq!(session.step(&line("4")), None);
    assert!(matches!(*session.phase(), Phase::UpdateName));
    assert_eq!(session.step(&Event::Line(None)), None);
    assert!(matches!(*session.phase(), Phase::Menu));
    assert_eq!(session.step(&line("4")), None);
    assert_eq!(session.step(&line("Rent")), None);
    assert!(matches!(*session.phase(), Phase::UpdateAmount(_)));
    assert_eq!(session.step(&Event::Amount(None)), None);
    assert!(matches!(*session.phase(), Phase::Menu));
    assert_eq!(session.bills().get_all().len(), 0);
}

#[test]
fn empty_or_unrecognized_selection_ends_the_session() {
    let mut session = Session::new();
    assert_eq!(session.step(&Event::Line(None)), None);
    assert!(matches!(*session.phase(), Phase::Done));
    let mut session = Session::new();
    assert_eq!(session.step(&line("7")), None);
    assert!(matches!(*session.phase(), Phase::Done));
}

#[test]
fn view_selection_announces_a_listing() {
    let mut session = Session::new();
    assert_eq!(session.step(&line("2")), Some(Notice::Listed));
    assert!(matches!(*session.phase(), Phase::Menu));
}

#[test]
fn full_dialogue_announces_each_outcome() {
    let rent_first = f64::to_bits(1200.0);
    let rent_second = f64::to_bits(1350.0);
    let mut session = Session::new();
    assert_eq!(session.step(&line("1")), None);
    assert_eq!(session.step(&line("Rent")), None);
    assert_eq!(session.step(&Event::Amount(Some(rent_first))), Some(Notice::BillAdded));
    let listed = session.bills().get_all();
    assert_eq!(listed.len(), 1);
    assert_eq!(listed[0].name, "Rent");
    assert_eq!(f64::from_bits(listed[0].amount), 1200.0);
    assert_eq!(session.step(&line("4")), None);
    assert_eq!(session.step(&line("Rent")), None);
    assert_eq!(session.step(&Event::Amount(Some(rent_second))), Some(Notice::BillUpdated));
    let listed = session.bills().get_all();
    assert_eq!(listed.len(), 1);
    assert_eq!(f64::from_bits(listed[0].amount), 1350.0);
    assert_eq!(session.step(&line("3")), None);
    assert_eq!(session.step(&line("Rent")), Some(Notice::BillRemoved));
    assert_eq!(session.bills().get_all().len(), 0);
    assert_eq!(session.step(&line("3")), None);
    assert_eq!(session.step(&line("Rent")), Some(Notice::BillNotRemoved));
    assert_eq!(session.step(&line("4")), None);
    assert_eq!(session.step(&line("Rent")), None);
    assert_eq!(session.step(&Event::Amount(Some(rent_second))), Some(Notice::BillNotFound));
}

#[test]
fn scripted_session_runs_to_the_expected_store() {
    let events = vec![
        line("1"),
        line("Rent"),
        Event::Amount(Some(f64::to_bits(1200.0))),
        line("1"),
        line("Water"),
        Event::Amount(Some(f64::to_bits(30.5))),
        line("3"),
        line("Rent"),
        line("quit"),
    ];
    let bills = run_program(events);
    let listed = bills.get_all();
    assert_eq!(listed.len(), 1);
    assert_eq!(listed[0].name, "Water");
    assert_eq!(f64::from_bits(listed[0].amount), 30.5);
}

#[test]
fn scripted_session_ignores_replies_after_the_end() {
    let events = vec![
        line("nonsense"),
        line("1"),
        line("Rent"),
        Event::Amount(Some(f64::to_bits(1.0))),
    ];
    let bills = run_program(events);
    assert_eq!(bills.get_all().len(), 0);
}
