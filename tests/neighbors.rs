use sph_sim::neighbors::{gather, nearest_neighbors, nearest_to};

fn key(d2: f64) -> u64 {
    d2.to_bits()
}

fn line_keys(xs: &[f64]) -> Vec<Vec<u64>> {
    xs.iter()
        .map(|&a| xs.iter().map(|&b| key((a - b) * (a - b))).collect())
        .collect()
}

fn sorted(mut v: Vec<usize>) -> Vec<usize> {
    v.sort();
    v
}

#[test]
fn nearest_on_a_line() {
    let keys = line_keys(&[0.0, 1.0, 3.0, 7.0, 15.0]);
    let r = nearest_neighbors(&keys, 2);
    assert_eq!(r.len(), 5);
    assert_eq!(sorted(r[0].clone()), vec![1, 2]);
    assert_eq!(sorted(r[1].clone()), vec![0, 2]);
    assert_eq!(sorted(r[2].clone()), vec![0, 1]);
    assert_eq!(sorted(r[3].clone()), vec![1, 2]);
    assert_eq!(sorted(r[4].clone()), vec![2, 3]);
}

#[test]
fn selection_is_distinct_excludes_self_and_is_nearest() {
    let xs = [5.0, -2.0, 0.5, 9.0, 1.0, -7.5, 3.25, 4.0];
    let keys = line_keys(&xs);
    let k = 3;
    let r = nearest_neighbors(&keys, k);
    for (i, sel) in r.iter().enumerate() {
        assert_eq!(sel.len(), k);
        let s = sorted(sel.clone());
        assert!(s.windows(2).all(|w| w[0] != w[1]));
        assert!(!sel.contains(&i));
        let worst = sel.iter().map(|&j| (xs[i] - xs[j]).abs()).fold(0.0, f64::max);
        for j in 0..xs.len() {
            if j != i && !sel.contains(&j) {
                assert!(worst <= (xs[i] - xs[j]).abs());
            }
        }
    }
}

#[test]
fn zero_neighbors() {
    let keys = line_keys(&[0.0, 1.0, 2.0]);
    let r = nearest_neighbors(&keys, 0);
    assert_eq!(r, vec![Vec::<usize>::new(); 3]);
}

#[test]
fn all_other_points_when_k_is_count_less_one() {
    let keys = line_keys(&[4.0, -1.0, 2.0, 8.0]);
    let r = nearest_neighbors(&keys, 3);
    assert_eq!(sorted(r[0].clone()), vec![1, 2, 3]);
    assert_eq!(sorted(r[1].clone()), vec![0, 2, 3]);
    assert_eq!(sorted(r[2].clone()), vec![0, 1, 3]);
    assert_eq!(sorted(r[3].clone()), vec![0, 1, 2]);
}

#[test]
fn own_key_is_ignored() {
    // the centre's own entry is the smallest key but is never chosen
    let keys = vec![9, 0, 4, 1, 16];
    assert_eq!(sorted(nearest_to(&keys, 1, 2)), vec![2, 3]);
    assert_eq!(sorted(nearest_to(&keys, 3, 2)), vec![1, 2]);
}

#[test]
fn equal_keys_pick_any_of_the_tied() {
    let keys = vec![0, 5, 5, 5, 1];
    let sel = nearest_to(&keys, 0, 2);
    assert_eq!(sel.len(), 2);
    assert!(sel.contains(&4));
    let other = *sel.iter().find(|&&j| j != 4).unwrap();
    assert!(other == 1 || other == 2 || other == 3);
}

#[test]
fn later_nearer_points_replace_farther_ones() {
    let keys = vec![0, 100, 90, 80, 3, 2, 1];
    assert_eq!(sorted(nearest_to(&keys, 0, 3)), vec![4, 5, 6]);
}

#[test]
fn gather_follows_indices() {
    let values = vec![1.5, 2.5, 3.5, 4.5];
    assert_eq!(gather(&values, &vec![3, 0, 3, 1]), vec![4.5, 1.5, 4.5, 2.5]);
    assert_eq!(gather(&values, &vec![]), Vec::<f64>::new());
}
