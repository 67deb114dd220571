use blvm_commons::database::{health_step, HealthAction, HealthEvent, HealthMonitor};

fn failures(n: u32) -> HealthMonitor {
    HealthMonitor { consecutive_failures: n }
}

#[test]
fn third_failed_check_asks_about_the_pool() {
    let (m, a) = health_step(failures(0), HealthEvent::Checked(false));
    assert_eq!((m, a), (failures(1), HealthAction::Wait));
    let (m, a) = health_step(m, HealthEvent::Checked(false));
    assert_eq!((m, a), (failures(2), HealthAction::Wait));
    let (m, a) = health_step(m, HealthEvent::Checked(false));
    assert_eq!((m, a), (failures(3), HealthAction::QueryPool));
}

#[test]
fn closed_or_unreadable_pool_is_reconnected() {
    assert_eq!(health_step(failures(3), HealthEvent::PoolClosed(Some(true))), (failures(3), HealthAction::Reconnect));
    assert_eq!(health_step(failures(3), HealthEvent::PoolClosed(None)), (failures(3), HealthAction::Reconnect));
    assert_eq!(health_step(failures(3), HealthEvent::PoolClosed(Some(false))), (failures(3), HealthAction::Wait));
}

#[test]
fn reconnection_and_passed_checks_clear_the_count() {
    assert_eq!(health_step(failures(4), HealthEvent::Reconnected(true)), (failures(0), HealthAction::UseNewConnection));
    assert_eq!(health_step(failures(4), HealthEvent::Reconnected(false)), (failures(4), HealthAction::Wait));
    assert_eq!(health_step(failures(7), HealthEvent::Checked(true)), (failures(0), HealthAction::LogPoolStats));
    assert_eq!(health_step(failures(u32::MAX), HealthEvent::Checked(false)), (failures(u32::MAX), HealthAction::QueryPool));
}
