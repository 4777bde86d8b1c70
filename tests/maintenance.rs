use sc_transaction_pool::maintenance::{Command, Event, MaintenanceCycle, Phase};
use sc_transaction_pool::revalidation::{RevalidationAction, RevalidationStatus, RevalidationStrategy};

type Body = Option<Vec<u32>>;
type RetractedBody = Option<Vec<(u32, Option<bool>)>>;

#[derive(Default)]
struct Record {
    fetched_head: bool,
    pruned: Vec<Vec<u32>>,
    fetched_retracted: Vec<usize>,
    resubmitted: Vec<Vec<u32>>,
    revalidated: Vec<Option<usize>>,
    cleared: bool,
}

/// Runs one cycle against a pool that is a list of pending transactions.
fn run_cycle(
    strategy: &mut RevalidationStrategy,
    head: Option<u64>,
    now: u64,
    head_body: Body,
    retracted: &[RetractedBody],
    pool: &mut Vec<u32>,
) -> Option<Record> {
    let mut cycle: MaintenanceCycle<u32> =
        MaintenanceCycle::begin(strategy, head, now, retracted.len())?;
    let mut rec = Record::default();
    let mut cmd = cycle.step(Event::Begin(pool.is_empty()));
    loop {
        cmd = match cmd {
            Command::FetchHeadBody => {
                rec.fetched_head = true;
                cycle.step(Event::HeadBody(head_body.clone()))
            }
            Command::PruneKnown(txs) => {
                pool.retain(|t| !txs.contains(t));
                rec.pruned.push(txs);
                cycle.step(Event::Completed)
            }
            Command::FetchRetractedBody(i) => {
                rec.fetched_retracted.push(i);
                cycle.step(Event::RetractedBody(retracted[i].clone()))
            }
            Command::Resubmit(txs) => {
                for t in &txs {
                    if !pool.contains(t) {
                        pool.push(*t);
                    }
                }
                rec.resubmitted.push(txs);
                cycle.step(Event::Completed)
            }
            Command::RevalidateReady(n) => {
                rec.revalidated.push(n);
                cycle.step(Event::Completed)
            }
            Command::ClearStrategy => {
                strategy.clear();
                rec.cleared = true;
                assert_eq!(cycle.phase(), Phase::Done);
                return Some(rec);
            }
        };
    }
}

#[test]
fn pruning_removes_included_and_keeps_the_rest() {
    let mut s = RevalidationStrategy::Always;
    let mut pool = vec![1, 2];
    let rec = run_cycle(&mut s, Some(10), 0, Some(vec![1]), &[], &mut pool).unwrap();
    assert_eq!(pool, vec![2]);
    assert!(rec.fetched_head);
    assert_eq!(rec.pruned, vec![vec![1]]);
    assert_eq!(rec.revalidated, vec![Some(16)]);
    assert!(rec.cleared);
}

#[test]
fn empty_pool_fetches_no_head_body() {
    let mut s = RevalidationStrategy::Always;
    let mut pool: Vec<u32> = Vec::new();
    let rec = run_cycle(&mut s, Some(10), 0, Some(vec![1]), &[], &mut pool).unwrap();
    assert!(!rec.fetched_head);
    assert!(rec.pruned.is_empty());
    assert_eq!(rec.resubmitted, vec![Vec::<u32>::new()]);
    assert!(rec.cleared);
}

#[test]
fn always_resubmits_signed_transactions_of_retracted_blocks() {
    let mut s = RevalidationStrategy::Always;
    let mut pool = vec![1];
    let retracted = vec![
        Some(vec![(3, Some(true)), (4, Some(false))]),
        None,
        Some(vec![(5, None), (6, Some(true))]),
    ];
    let rec = run_cycle(&mut s, Some(10), 0, Some(vec![]), &retracted, &mut pool).unwrap();
    assert_eq!(rec.fetched_retracted, vec![0, 1, 2]);
    assert_eq!(rec.resubmitted, vec![vec![3, 5, 6]]);
    assert_eq!(pool, vec![1, 3, 5, 6]);
    assert_eq!(rec.pruned, vec![Vec::<u32>::new()]);
}

#[test]
fn light_never_resubmits() {
    let mut s = RevalidationStrategy::Light(RevalidationStatus::NotScheduled);
    let mut pool = vec![1];
    let retracted = vec![Some(vec![(3, Some(true))])];
    let rec = run_cycle(&mut s, Some(10), 0, Some(vec![]), &retracted, &mut pool).unwrap();
    assert!(rec.fetched_retracted.is_empty());
    assert!(rec.resubmitted.is_empty());
    assert!(rec.revalidated.is_empty());
    assert_eq!(pool, vec![1]);
    assert_eq!(s, RevalidationStrategy::Light(RevalidationStatus::NotScheduled));
}

#[test]
fn light_revalidates_when_due_and_clears() {
    let mut s = RevalidationStrategy::Light(RevalidationStatus::Scheduled(None, Some(20)));
    let mut pool = vec![1];
    let rec = run_cycle(&mut s, Some(20), 0, None, &[], &mut pool).unwrap();
    assert_eq!(rec.revalidated, vec![None]);
    assert_eq!(s, RevalidationStrategy::Light(RevalidationStatus::NotScheduled));
}

#[test]
fn failed_head_fetch_still_completes_and_clears() {
    let mut s = RevalidationStrategy::Light(RevalidationStatus::Scheduled(Some(5), None));
    let mut pool = vec![1, 2];
    let rec = run_cycle(&mut s, Some(3), 10, None, &[], &mut pool).unwrap();
    assert!(rec.fetched_head);
    assert_eq!(rec.pruned, vec![Vec::<u32>::new()]);
    assert_eq!(pool, vec![1, 2]);
    assert_eq!(rec.revalidated, vec![None]);
    assert!(rec.cleared);
    assert_eq!(s, RevalidationStrategy::Light(RevalidationStatus::NotScheduled));
}

#[test]
fn unknown_head_aborts_without_change() {
    let start = RevalidationStrategy::Light(RevalidationStatus::Scheduled(Some(5), Some(7)));
    let mut s = start;
    let mut pool = vec![1];
    assert!(run_cycle(&mut s, None, 100, Some(vec![1]), &[], &mut pool).is_none());
    assert_eq!(s, start);
    assert_eq!(pool, vec![1]);
}

#[test]
fn cycle_accepts_only_the_awaited_event() {
    let action = RevalidationAction { revalidate: false, resubmit: false, revalidate_amount: None };
    let mut c: MaintenanceCycle<u32> = MaintenanceCycle::new(action, 0);
    assert_eq!(c.phase(), Phase::Start);
    assert!(c.accepts(&Event::Begin(false)));
    assert!(!c.accepts(&Event::Completed));
    assert!(!c.accepts(&Event::HeadBody(None)));
    match c.step(Event::Begin(false)) {
        Command::FetchHeadBody => {}
        _ => panic!("expected a head body request"),
    }
    assert_eq!(c.phase(), Phase::AwaitHeadBody);
    assert!(c.accepts(&Event::HeadBody(None)));
    assert!(!c.accepts(&Event::RetractedBody(None)));
    match c.step(Event::HeadBody(Some(vec![4, 5]))) {
        Command::PruneKnown(v) => assert_eq!(v, vec![4, 5]),
        _ => panic!("expected a prune request"),
    }
    match c.step(Event::Completed) {
        Command::ClearStrategy => {}
        _ => panic!("expected the clearing request"),
    }
    assert_eq!(c.phase(), Phase::Done);
    assert!(!c.accepts(&Event::Completed));
}
