use lyvoxa::scheduler::{PassAction, SessionScheduler};

#[test]
fn redraw_fires_ten_times_per_data_refresh() {
    let mut s = SessionScheduler::new(500, 5000, 25, 0);
    // run until the second data refresh, counting redraws in between
    let mut data_fires = 0u32;
    let mut redraws_between = 0u32;
    let mut counting = false;
    for _ in 0..2000 {
        match s.next_pass() {
            PassAction::Data => {
                data_fires += 1;
                if data_fires == 1 {
                    counting = true;
                } else if data_fires == 2 {
                    break;
                }
            }
            PassAction::Redraw => {
                if counting {
                    redraws_between += 1;
                }
            }
            PassAction::Input => {}
            PassAction::Exit => unreachable!(),
        }
    }
    assert_eq!(data_fires, 2);
    assert_eq!(redraws_between, 10);
}

#[test]
fn pass_ids_increase_monotonically() {
    let mut s = SessionScheduler::new(500, 5000, 25, 0);
    let mut last = s.pass_id;
    for _ in 0..100 {
        s.next_pass();
        assert!(s.pass_id > last);
        last = s.pass_id;
    }
}

#[test]
fn quit_exits_before_any_pending_tick() {
    let mut s = SessionScheduler::new(500, 5000, 25, 0);
    // a data refresh is far from due; quit must not wait for it
    for _ in 0..5 {
        s.next_pass();
    }
    let before = s;
    let mut s = before;
    s.request_quit();
    let a = s.next_pass();
    assert_eq!(a, PassAction::Exit);
    assert_eq!(s.now_ms, before.now_ms);
    assert_eq!(s.pass_id, before.pass_id);
}

#[test]
fn late_trigger_resets_one_period_ahead_without_backlog() {
    let mut s = SessionScheduler::new(10, 10_000, 10_000, 0);
    // all deadlines start due; the redraw wins the first pass
    assert_eq!(s.next_pass(), PassAction::Redraw);
    assert_eq!(s.now_ms, 0);
    assert_eq!(s.redraw_deadline, 10);
    // data and input fire once each at time zero, then redraw again
    assert_eq!(s.next_pass(), PassAction::Data);
    assert_eq!(s.next_pass(), PassAction::Input);
    assert_eq!(s.next_pass(), PassAction::Redraw);
    assert_eq!(s.now_ms, 10);
    assert_eq!(s.redraw_deadline, 20);
}

#[test]
fn zero_period_is_raised_to_one_millisecond() {
    let s = SessionScheduler::new(0, 0, 0, 7);
    assert_eq!(s.redraw_period_ms, 1);
    assert_eq!(s.data_period_ms, 1);
    assert_eq!(s.input_period_ms, 1);
    assert_eq!(s.now_ms, 7);
}
