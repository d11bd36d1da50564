use auv::seek::SeekCtl;

#[test]
fn request_ready_take_target() {
    let mut ctl: SeekCtl<f64> = SeekCtl::new(2);
    assert!(ctl.snapshot_new(0).is_none());

    ctl.request(12.5);
    let (e, t) = ctl.snapshot_new(0).expect("应看到新代数");
    assert_eq!(e, 1);
    assert_eq!(t, Some(12.5));

    ctl.report_ready(e);
    ctl.report_ready(e);
    assert!(ctl.wait_ready(e));
    assert_eq!(ctl.take_target(e), Some(12.5));
    assert_eq!(ctl.take_target(e), None);
}

#[test]
fn rapid_seek_supersedes_old_target() {
    let mut ctl: SeekCtl<f64> = SeekCtl::new(2);

    ctl.request(1.0);
    let (e1, _) = ctl.snapshot_new(0).unwrap();
    ctl.report_ready(e1);

    ctl.request(2.0);
    let (e2, _) = ctl.snapshot_new(e1).unwrap();
    assert_eq!(e2, e1 + 1);

    ctl.report_ready(e2);
    ctl.report_ready(e2);

    assert!(ctl.wait_ready(e1));
    assert_eq!(ctl.take_target(e1), None);
    assert_eq!(ctl.take_target(e2), Some(2.0));
}

#[test]
fn no_seek_snapshot_is_none() {
    let mut ctl: SeekCtl<f64> = SeekCtl::new(1);
    assert!(ctl.snapshot_new(0).is_none());
    assert_eq!(ctl.epoch(), 0);
    assert!(ctl.take_target(0).is_none());
}

#[test]
fn barrier_waits_for_every_decoder() {
    let mut ctl: SeekCtl<f64> = SeekCtl::new(2);
    ctl.request(3.0);
    assert!(!ctl.wait_ready(1));
    ctl.report_ready(1);
    assert!(!ctl.wait_ready(1));
    assert_eq!(ctl.barrier(), (1, 1));
    ctl.report_ready(1);
    assert!(ctl.wait_ready(1));
    assert!(!ctl.wait_ready(2));
}

#[test]
fn newer_epoch_restarts_the_count() {
    let mut ctl: SeekCtl<f64> = SeekCtl::new(2);
    ctl.report_ready(1);
    assert_eq!(ctl.barrier(), (1, 1));
    ctl.report_ready(2);
    assert_eq!(ctl.barrier(), (2, 1));
    ctl.report_ready(2);
    assert_eq!(ctl.barrier(), (2, 2));
}

#[test]
fn late_report_for_an_older_seek_changes_nothing() {
    let mut ctl: SeekCtl<f64> = SeekCtl::new(2);
    ctl.request(1.0);
    ctl.request(2.0);
    ctl.report_ready(2);
    ctl.report_ready(1);
    assert_eq!(ctl.barrier(), (2, 1));
    assert!(!ctl.wait_ready(1));
    ctl.report_ready(2);
    assert!(ctl.wait_ready(1));
    assert!(ctl.wait_ready(2));
    assert_eq!(ctl.take_target(2), Some(2.0));
}

#[test]
fn barrier_opens_in_every_order_of_reports() {
    for reports in [[1, 1, 2, 2], [1, 2, 1, 2], [1, 2, 2, 1], [2, 1, 1, 2], [2, 1, 2, 1], [2, 2, 1, 1]] {
        let mut ctl: SeekCtl<f64> = SeekCtl::new(2);
        for epoch in reports {
            ctl.report_ready(epoch);
        }
        assert_eq!(ctl.barrier(), (2, 2));
        assert!(ctl.wait_ready(2));
    }
}

#[test]
fn epoch_counts_requests() {
    let mut ctl: SeekCtl<f64> = SeekCtl::new(1);
    ctl.request(1.0);
    ctl.request(2.0);
    ctl.request(3.0);
    assert_eq!(ctl.epoch(), 3);
    assert_eq!(ctl.snapshot_new(1), Some((3, Some(3.0))));
    assert_eq!(ctl.snapshot_new(3), None);
}
