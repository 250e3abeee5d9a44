use board_tasks::ports::{Port, PortUpdate};
use board_tasks::stepper::{step_pattern, stop, Stepper};

#[test]
fn ccw_walks_phases_forward() {
    let mut s = Stepper::new();
    let mut pats = Vec::new();
    for _ in 0..8 {
        pats.push(s.step_ccw().set);
    }
    assert_eq!(pats, vec![0x30, 0x10, 0x18, 0x08, 0x0C, 0x04, 0x24, 0x20]);
    assert_eq!(s.step_idx, 0);
}

#[test]
fn cw_undoes_ccw() {
    let mut s = Stepper::new();
    s.step_ccw();
    s.step_ccw();
    s.step_cw();
    assert_eq!(s.step_idx, 1);
    let u = s.step_cw();
    assert_eq!(s.step_idx, 0);
    assert_eq!(u, PortUpdate { port: Port::B, clear: 0x3C, set: 0x20 });
    s.step_cw();
    assert_eq!(s.step_idx, 7);
}

#[test]
fn stop_releases_coils() {
    assert_eq!(stop(), PortUpdate { port: Port::B, clear: 0x3C, set: 0 });
    assert_eq!(step_pattern(3), 0x18);
}
