use sidecar_supervisor::port::{PortAction, PortScan, PORT_SEARCH_BASE, PORT_SEARCH_TRIES};
use sidecar_supervisor::text::port_text;

fn drive(start: u16, tries: u16, free: &[bool]) -> (u16, usize) {
    let (mut scan, mut action) = PortScan::new(start, tries);
    let mut probes: usize = 0;
    loop {
        match action {
            PortAction::Use(p) => return (p, probes),
            PortAction::Probe(p) => {
                assert_eq!(p, start + probes as u16);
                let bound = free[probes];
                probes += 1;
                action = scan.record(bound);
            }
        }
    }
}

#[test]
fn first_free_candidate_is_used() {
    let free = [false, false, true, true];
    assert_eq!(drive(5174, 4, &free), (5176, 3));
}

#[test]
fn free_base_port_is_used_at_once() {
    assert_eq!(drive(8000, 3, &[true, false, false]), (8000, 1));
}

#[test]
fn fully_occupied_range_falls_back_to_start() {
    let free = vec![false; PORT_SEARCH_TRIES as usize];
    assert_eq!(
        drive(PORT_SEARCH_BASE, PORT_SEARCH_TRIES, &free),
        (PORT_SEARCH_BASE, PORT_SEARCH_TRIES as usize)
    );
}

#[test]
fn last_candidate_is_reachable() {
    let mut free = vec![false; 50];
    free[49] = true;
    assert_eq!(drive(5174, 50, &free), (5223, 50));
}

#[test]
fn empty_range_uses_start() {
    let (scan, action) = PortScan::new(9000, 0);
    assert_eq!(action, PortAction::Use(9000));
    assert_eq!(scan.offset, 0);
}

#[test]
fn top_of_port_space() {
    assert_eq!(drive(65535, 1, &[true]), (65535, 1));
    assert_eq!(drive(65534, 2, &[false, false]), (65534, 2));
    assert_eq!(drive(65534, 2, &[false, true]), (65535, 2));
}

#[test]
fn range_past_last_port_stops_at_last_port() {
    let free = vec![false; 50];
    assert_eq!(drive(65534, 50, &free), (65534, 2));
    let mut free = vec![false; 50];
    free[1] = true;
    assert_eq!(drive(65534, 50, &free), (65535, 2));
    assert_eq!(drive(65535, 50, &vec![false; 50]), (65535, 1));
    assert_eq!(drive(65535, u16::MAX, &[true]), (65535, 1));
}

#[test]
fn chosen_port_stays_in_range_for_every_pattern() {
    let start: u16 = 1;
    let tries: u16 = 5;
    for mask in 0u32..32 {
        let free: Vec<bool> = (0..5).map(|i| mask & (1 << i) != 0).collect();
        let (p, _) = drive(start, tries, &free);
        if free.iter().any(|b| *b) {
            assert!(p >= start && p < start + tries);
            assert!(free[(p - start) as usize]);
        } else {
            assert_eq!(p, start);
        }
    }
}

#[test]
fn port_text_is_decimal() {
    assert_eq!(port_text(0), "0");
    assert_eq!(port_text(7), "7");
    assert_eq!(port_text(10), "10");
    assert_eq!(port_text(5174), "5174");
    assert_eq!(port_text(65535), "65535");
}
