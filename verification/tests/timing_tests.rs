use courier::operations::timing::tick_offsets;

#[test]
fn ticks_fire_one_period_apart_when_cycles_fit() {
    let offs = tick_offsets(5, &vec![1, 2, 0]).unwrap();
    assert_eq!(offs, vec![0, 5, 10, 15]);
}

#[test]
fn an_overrunning_cycle_delays_the_next_tick() {
    let offs = tick_offsets(5, &vec![1, 7, 2]).unwrap();
    assert_eq!(offs, vec![0, 5, 12, 17]);
}

#[test]
fn ticks_never_bunch_up() {
    let period = 5u64;
    let busy = vec![13, 1, 1, 9, 1];
    let offs = tick_offsets(period, &busy).unwrap();
    assert_eq!(offs.len(), busy.len() + 1);
    for n in 1..offs.len() {
        assert!(offs[n] - offs[n - 1] >= period);
        assert!(offs[n] >= (n as u64) * period);
    }
}

#[test]
fn an_unrepresentable_schedule_is_reported() {
    assert!(tick_offsets(u64::MAX, &vec![1, 1]).is_none());
}
