use light_n2n::nat_detect::{
    AttemptOutcome, Endpoint, NatError, NatMachine, NatStep, NatType, ProbeKind,
};

fn ep(ip: u32, port: u16) -> AttemptOutcome {
    AttemptOutcome::Mapped(Endpoint { ip, port })
}

const LOCAL: u32 = 0x0a000001;

#[test]
fn open_internet_needs_no_second_or_third_probe() {
    // The script holds only the first probe's outcome: the classifier never
    // asks for more.
    let outcomes = vec![ep(LOCAL, 600)];
    assert!(NatType::detect(LOCAL, &outcomes) == Ok(NatType::OpenInternet));
}

#[test]
fn different_mappings_per_server_classify_symmetric_without_probe_three() {
    let outcomes = vec![ep(0x01010101, 600), ep(0x02020202, 600)];
    assert!(NatType::detect(LOCAL, &outcomes) == Ok(NatType::Symmetric));
}

#[test]
fn no_reply_at_all_is_blocked_udp() {
    let outcomes = vec![];
    assert!(NatType::detect(LOCAL, &outcomes) == Err(NatError::UdpBlocked));
}

#[test]
fn silence_from_the_second_server_is_a_symmetric_firewall() {
    let outcomes = vec![ep(0x01010101, 600)];
    assert!(NatType::detect(LOCAL, &outcomes) == Err(NatError::SymmetricUdpFirewall));
}

#[test]
fn silence_on_the_rebound_socket_is_unknown() {
    let outcomes = vec![ep(0x01010101, 600), ep(0x01010101, 700)];
    assert!(NatType::detect(LOCAL, &outcomes) == Err(NatError::Unknown));
}

#[test]
fn the_exact_mapping_again_is_a_full_cone() {
    let outcomes = vec![ep(0x01010101, 600), ep(0x01010101, 700), ep(0x01010101, 600)];
    assert!(NatType::detect(LOCAL, &outcomes) == Ok(NatType::FullCone));
}

#[test]
fn the_same_address_on_another_port_is_port_restricted() {
    let outcomes = vec![ep(0x01010101, 600), ep(0x01010101, 700), ep(0x01010101, 601)];
    assert!(NatType::detect(LOCAL, &outcomes) == Ok(NatType::PortRestrictedCone));
}

#[test]
fn a_different_address_on_the_same_port_is_the_degenerate_restricted_cone() {
    let outcomes = vec![ep(0x01010101, 600), ep(0x01010101, 700), ep(0x03030303, 600)];
    assert!(NatType::detect(LOCAL, &outcomes) == Ok(NatType::RestrictedCone));
}

#[test]
fn probes_are_retried_up_to_three_times() {
    let outcomes = vec![
        AttemptOutcome::NoReply,
        AttemptOutcome::NoReply,
        ep(LOCAL, 600),
    ];
    assert!(NatType::detect(LOCAL, &outcomes) == Ok(NatType::OpenInternet));
    let exhausted = vec![
        AttemptOutcome::NoReply,
        AttemptOutcome::NoReply,
        AttemptOutcome::NoReply,
        ep(LOCAL, 600),
    ];
    assert!(NatType::detect(LOCAL, &exhausted) == Err(NatError::UdpBlocked));
}

#[test]
fn the_machine_reports_each_requested_probe() {
    let mut m = NatMachine::begin(LOCAL);
    assert!(m.step(AttemptOutcome::NoReply) == NatStep::Retry(ProbeKind::InitialMapping));
    assert!(m.step(ep(0x01010101, 600)) == NatStep::Probe(ProbeKind::SecondServer));
    assert!(m.step(ep(0x01010101, 600)) == NatStep::Probe(ProbeKind::Rebind));
    assert!(m.step(ep(0x01010101, 600)) == NatStep::Classified(NatType::FullCone));
}
