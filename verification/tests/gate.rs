use freeze::{Admission, RequestGate};

#[test]
fn five_requests_through_a_gate_of_two_take_three_rounds() {
    let mut gate = RequestGate::new(Some(2));
    let mut admissions = Vec::new();
    for _ in 0..5 {
        assert!(gate.can_acquire());
        admissions.push(gate.acquire());
        assert!(gate.holders() <= 2);
    }
    assert_eq!(
        admissions,
        vec![
            Admission::Granted,
            Admission::Granted,
            Admission::Queued(0),
            Admission::Queued(1),
            Admission::Queued(2),
        ]
    );
    assert_eq!(gate.holders(), 2);
    assert_eq!(gate.waiting(), 3);

    let mut rounds = 0;
    let mut completed = 0;
    let mut admitted_later = Vec::new();
    while gate.holders() > 0 {
        let finishing = gate.holders();
        for _ in 0..finishing {
            if let Some(ticket) = gate.release() {
                admitted_later.push(ticket);
            }
            completed += 1;
            assert!(gate.holders() <= 2);
        }
        rounds += 1;
    }
    assert_eq!(rounds, 3);
    assert_eq!(completed, 5);
    assert_eq!(admitted_later, vec![0, 1, 2]);
    assert_eq!(gate.waiting(), 0);
}

#[test]
fn a_gate_without_a_bound_admits_everyone() {
    let mut gate = RequestGate::new(None);
    for _ in 0..100 {
        assert_eq!(gate.acquire(), Admission::Granted);
    }
    assert_eq!(gate.holders(), 100);
    assert_eq!(gate.waiting(), 0);
    assert_eq!(gate.max_concurrent(), None);
    assert_eq!(gate.release(), None);
    assert_eq!(gate.holders(), 99);
}

#[test]
fn a_released_slot_goes_to_the_longest_waiting_request() {
    let mut gate = RequestGate::new(Some(1));
    assert_eq!(gate.acquire(), Admission::Granted);
    assert_eq!(gate.acquire(), Admission::Queued(0));
    assert_eq!(gate.acquire(), Admission::Queued(1));
    assert_eq!(gate.release(), Some(0));
    assert_eq!(gate.holders(), 1);
    assert_eq!(gate.acquire(), Admission::Queued(2));
    assert_eq!(gate.release(), Some(1));
    assert_eq!(gate.release(), Some(2));
    assert_eq!(gate.release(), None);
    assert_eq!(gate.holders(), 0);
    assert_eq!(gate.acquire(), Admission::Granted);
}

#[test]
fn a_withdrawn_request_is_never_admitted() {
    let mut gate = RequestGate::new(Some(1));
    assert_eq!(gate.acquire(), Admission::Granted);
    assert_eq!(gate.acquire(), Admission::Queued(0));
    assert_eq!(gate.acquire(), Admission::Queued(1));
    assert!(gate.withdraw(0));
    assert!(!gate.withdraw(0));
    assert!(!gate.withdraw(7));
    assert_eq!(gate.waiting(), 1);
    assert_eq!(gate.release(), Some(1));
    assert_eq!(gate.release(), None);
}

#[test]
fn a_gate_of_zero_admits_nobody() {
    let mut gate = RequestGate::new(Some(0));
    assert_eq!(gate.acquire(), Admission::Queued(0));
    assert_eq!(gate.holders(), 0);
    assert_eq!(gate.max_concurrent(), Some(0));
}
