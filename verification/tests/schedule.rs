use alkahest::renderer::schedule::{refresh_order, select};

/// What the standard library's stable sort and a truncation give.
fn by_std(frames: &[u64], budget: usize) -> Vec<usize> {
    let mut order: Vec<usize> = (0..frames.len()).collect();
    order.sort_by_key(|&i| frames[i]);
    order.truncate(budget);
    order
}

fn pseudo_random(seed: u64, count: usize, modulus: u64) -> Vec<u64> {
    let mut state = seed;
    let mut out = Vec::new();
    for _ in 0..count {
        state = state.wrapping_mul(6364136223846793005).wrapping_add(1442695040888963407);
        out.push((state >> 33) % modulus);
    }
    out
}

#[test]
fn refresh_order_of_nothing_is_empty() {
    assert_eq!(refresh_order(&vec![]), Vec::<usize>::new());
}

#[test]
fn refresh_order_puts_the_oldest_first() {
    assert_eq!(refresh_order(&vec![30, 10, 20]), vec![1, 2, 0]);
}

#[test]
fn refresh_order_keeps_equal_stamps_in_their_order() {
    assert_eq!(refresh_order(&vec![5, 5, 5, 5]), vec![0, 1, 2, 3]);
    assert_eq!(refresh_order(&vec![7, 3, 7, 3, 1]), vec![4, 1, 3, 0, 2]);
}

#[test]
fn refresh_order_handles_the_extreme_stamps() {
    assert_eq!(refresh_order(&vec![u64::MAX, 0, u64::MAX, 0]), vec![1, 3, 0, 2]);
}

#[test]
fn select_takes_no_more_than_the_budget() {
    let frames = vec![9, 8, 7, 6, 5, 4];
    assert_eq!(select(&frames, 0), Vec::<usize>::new());
    assert_eq!(select(&frames, 1), vec![5]);
    assert_eq!(select(&frames, 3), vec![5, 4, 3]);
}

#[test]
fn select_takes_all_where_the_budget_is_larger() {
    let frames = vec![2, 1];
    assert_eq!(select(&frames, 2), vec![1, 0]);
    assert_eq!(select(&frames, 3), vec![1, 0]);
    assert_eq!(select(&frames, usize::MAX), vec![1, 0]);
}

#[test]
fn select_breaks_ties_by_position() {
    // Three lights share the oldest stamp; a budget of two takes the two
    // that were listed first.
    let frames = vec![4, 1, 1, 9, 1];
    assert_eq!(select(&frames, 2), vec![1, 2]);
}

#[test]
fn select_agrees_with_a_stable_sort_and_truncate() {
    for seed in 0..40u64 {
        let count = (seed % 13) as usize;
        let frames = pseudo_random(seed, count, 1 + seed % 5);
        for budget in 0..(count + 2) {
            assert_eq!(select(&frames, budget), by_std(&frames, budget), "{frames:?} {budget}");
        }
        assert_eq!(refresh_order(&frames), by_std(&frames, count));
    }
}
