use mcmc_demo::simulation::algo::{self, Algo};
use mcmc_demo::simulation::random_walk_metropolis_hastings::{
    AcceptRecord, IPromiseThisIsNonZeroUsize, ProgressMode, Rwmh,
};

fn weight_sum(h: &[AcceptRecord<(i32, i32)>]) -> u64 {
    h.iter().map(|r| r.remain_count as u64 + 1).sum()
}

fn remain_sum(h: &[AcceptRecord<(i32, i32)>]) -> u64 {
    h.iter().map(|r| r.remain_count as u64).sum()
}

#[test]
fn new_chain_has_placeholder_record() {
    let c = Rwmh::new((0, 0));
    assert_eq!(c.history.len(), 1);
    assert_eq!(c.history[0].position, (0, 0));
    assert_eq!(c.history[0].remain_count, 0);
    assert_eq!(c.current_loc.position, (0, 0));
    assert_eq!(c.current_loc.remain_count, 0);
    assert_eq!(c.total_point_count, 0);
    assert_eq!(c.max_remain_count, 0);
    assert!(c.rejected_history.is_empty());
}

#[test]
fn empty_chain_has_no_history() {
    let c: Algo<(i32, i32)> = Algo::new_empty((3, 4));
    assert!(c.history.is_empty());
    assert_eq!(c.current_loc.position, (3, 4));
}

#[test]
fn accept_moves_and_closes_record() {
    let mut c = Rwmh::new((0, 0));
    c.record_step((1, 1), false);
    c.record_step((2, 2), false);
    c.record_step((5, 5), true);
    assert_eq!(c.current_loc.position, (5, 5));
    assert_eq!(c.current_loc.remain_count, 0);
    assert_eq!(c.history.len(), 2);
    assert_eq!(c.history[1].position, (0, 0));
    assert_eq!(c.history[1].remain_count, 2);
    assert_eq!(c.total_point_count, 3);
    assert_eq!(c.max_remain_count, 2);
    assert_eq!(c.rejected_history, vec![(1, 1), (2, 2)]);
}

#[test]
fn reject_counts_at_current_position() {
    let mut c = Rwmh::new((7, -7));
    c.record_step((1, 2), false);
    assert_eq!(c.current_loc.position, (7, -7));
    assert_eq!(c.current_loc.remain_count, 1);
    assert_eq!(c.max_remain_count, 1);
    assert_eq!(c.total_point_count, 0);
    assert_eq!(c.history.len(), 1);
    assert_eq!(c.rejected_history, vec![(1, 2)]);
}

#[test]
fn max_remain_count_is_largest_stay() {
    let mut c = Rwmh::new((0, 0));
    for i in 0..3 {
        c.record_step((i, 0), false);
    }
    c.record_step((9, 9), true);
    c.record_step((1, 0), false);
    assert_eq!(c.max_remain_count, 3);
    c.record_step((2, 0), true);
    assert_eq!(c.max_remain_count, 3);
    assert_eq!(c.total_point_count, 4 + 2);
}

#[test]
fn bookkeeping_stays_consistent() {
    let decisions = [false, true, true, false, false, false, true, false, true, true, false];
    let mut c = Rwmh::new((0, 0));
    let mut e: Algo<(i32, i32)> = Algo::new_empty((0, 0));
    for (i, &acc) in decisions.iter().enumerate() {
        c.record_step((i as i32, -(i as i32)), acc);
        e.record_step((i as i32, -(i as i32)), acc);
        assert_eq!(weight_sum(&c.history), c.total_point_count as u64 + 1);
        assert_eq!(weight_sum(&e.history), e.total_point_count as u64);
        assert_eq!(
            c.rejected_history.len() as u64,
            remain_sum(&c.history) + c.current_loc.remain_count as u64
        );
        assert_eq!(c.history.len() + c.rejected_history.len(), i + 2);
        let max_seen = c
            .history
            .iter()
            .map(|r| r.remain_count)
            .chain(std::iter::once(c.current_loc.remain_count))
            .max()
            .unwrap();
        assert_eq!(c.max_remain_count, max_seen);
    }
}

#[test]
fn nonzero_usize_keeps_value() {
    assert_eq!(IPromiseThisIsNonZeroUsize::new(5).get_inner(), 5);
    assert_eq!(IPromiseThisIsNonZeroUsize::new(usize::MAX).get_inner(), usize::MAX);
}

#[test]
fn default_batch_sizes() {
    let ProgressMode::Batched { size } = ProgressMode::default();
    assert_eq!(size.get_inner(), 500);
    let algo::ProgressMode::Batched { size } = algo::ProgressMode::default();
    assert_eq!(size.get_inner(), 2000);
}
