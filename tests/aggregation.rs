use urandom_bench::stats::{Aggregate, AggregateError, Percentiles, Stats, StatsError};

fn percentiles_of(a: &Aggregate) -> Percentiles {
    let h = a.histogram();
    Percentiles {
        p50: h.percentile(50.0).unwrap(),
        p90: h.percentile(90.0).unwrap(),
        p99: h.percentile(99.0).unwrap(),
        p999: h.percentile(99.9).unwrap(),
    }
}

#[test]
fn one_to_ten_summary() {
    let a = Aggregate::from_samples(&vec![(1u64..=10).collect()]).unwrap();
    assert_eq!(a.count(), 10);
    let p = percentiles_of(&a);
    assert_eq!(p, Percentiles { p50: 6, p90: 10, p99: 10, p999: 10 });
    let s = a.stats(p).unwrap();
    assert_eq!(
        s,
        Stats { num_entries: 10, mean: 6, stddev: 3, min: 1, max: 10, p50: 6, p90: 10, p99: 10, p999: 10 }
    );
}

#[test]
fn two_workers_five_draws_each() {
    let w1: Vec<u64> = vec![1200, 1300, 1250, 5000, 1100];
    let w2: Vec<u64> = vec![900, 2000, 1800, 1700, 250_000];
    let a = Aggregate::from_samples(&vec![w1, w2]).unwrap();
    assert_eq!(a.count(), 10);
    let s = a.stats(percentiles_of(&a)).unwrap();
    assert_eq!(s.num_entries, 10);
    let line = String::from_utf8(s.results_line()).unwrap();
    let fields: Vec<&str> = line.split_whitespace().collect();
    assert_eq!(fields.len(), 9);
    assert!(fields.iter().all(|f| f.parse::<u64>().is_ok()));
    assert_eq!(fields[0], "10");
}

#[test]
fn count_is_sum_of_draws_per_worker() {
    let a = Aggregate::from_samples(&vec![vec![5, 6, 7], vec![], vec![8], vec![9, 10]]).unwrap();
    assert_eq!(a.count(), 6);
}

#[test]
fn percentiles_are_ordered() {
    let samples: Vec<u64> = (0..500u64).map(|i| 1000 + (i * 7919) % 100_000).collect();
    let a = Aggregate::from_samples(&vec![samples]).unwrap();
    let s = a.stats(percentiles_of(&a)).unwrap();
    assert!(s.min <= s.p50);
    assert!(s.p50 <= s.p90);
    assert!(s.p90 <= s.p99);
    assert!(s.p99 <= s.p999);
    assert!(s.p999 <= s.max);
}

#[test]
fn no_samples_fail_to_summarise() {
    let a = Aggregate::from_samples(&vec![vec![], vec![]]).unwrap();
    assert_eq!(a.count(), 0);
    let p = Percentiles { p50: 0, p90: 0, p99: 0, p999: 0 };
    assert_eq!(a.stats(p), Err(StatsError::Empty));
    let none = Aggregate::from_samples(&Vec::new()).unwrap();
    assert_eq!(none.stats(p), Err(StatsError::Empty));
}

#[test]
fn largest_sample_is_accepted() {
    let a = Aggregate::from_samples(&vec![vec![60_000_000_000]]).unwrap();
    assert_eq!(a.count(), 1);
}

#[test]
fn too_large_sample_is_rejected() {
    let r = Aggregate::from_samples(&vec![vec![10], vec![60_000_000_001]]);
    assert!(matches!(r, Err(AggregateError::SampleTooLarge)));
}

#[test]
fn results_line_order() {
    let s = Stats { num_entries: 10, mean: 6, stddev: 3, min: 1, max: 10, p50: 6, p90: 11, p99: 12, p999: 13 };
    assert_eq!(s.results_line(), b"10 6 3 10 1 6 11 12 13".to_vec());
}

#[test]
fn results_line_of_zeros_and_extremes() {
    let s = Stats { num_entries: 0, mean: 0, stddev: 0, min: 0, max: u64::MAX, p50: 100, p90: 1000, p99: 10, p999: 9 };
    assert_eq!(s.results_line(), b"0 0 0 18446744073709551615 0 100 1000 10 9".to_vec());
}
