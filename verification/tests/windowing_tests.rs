use iced_graphs::binning::{aggregate_into_bins, BinAggregator};
use iced_graphs::graph_state::calculate_visible_range;
use iced_graphs::mapper::{DefaultMap, ValueMapper, VALUE_LIMIT};
use iced_graphs::zoom::Zoom;

#[test]
fn full_view_shows_everything_from_the_start() {
    assert_eq!(calculate_visible_range(100, Zoom::Full, 50), (0, 100));
    assert_eq!(calculate_visible_range(3, Zoom::Full, 50), (0, 3));
}

#[test]
fn empty_data_yields_an_empty_window() {
    assert_eq!(calculate_visible_range(0, Zoom::Full, 50), (0, 0));
    assert_eq!(calculate_visible_range(0, Zoom::Value(10), 50), (0, 0));
}

#[test]
fn one_x_zoom_shows_the_base_window_of_recent_items() {
    // 1.0x over 100 items with a base window of 50: the most recent 50
    assert_eq!(calculate_visible_range(100, Zoom::Value(10), 50), (50, 50));
}

#[test]
fn zooming_in_narrows_the_window() {
    // 2.0x: 50 / 2 = 25 items
    assert_eq!(calculate_visible_range(100, Zoom::Value(20), 50), (75, 25));
}

#[test]
fn zooming_out_widens_the_window_up_to_everything() {
    // 0.5x: 50 / 0.5 = 100 items
    assert_eq!(calculate_visible_range(100, Zoom::Value(5), 50), (0, 100));
    // 0.5x over 300 items: window of 100, anchored at the end
    assert_eq!(calculate_visible_range(300, Zoom::Value(5), 50), (200, 100));
}

#[test]
fn window_width_rounds_to_the_nearest_count() {
    // 1.5x: 50 / 1.5 = 33.3 rounds to 33
    assert_eq!(calculate_visible_range(100, Zoom::Value(15), 50), (67, 33));
    // 4.0x: 50 / 4 = 12.5 rounds up to 13
    assert_eq!(calculate_visible_range(100, Zoom::Value(40), 50), (87, 13));
}

#[test]
fn zoomed_in_window_never_narrows_below_five() {
    // 10.0x over a base of 10 would be one item; the floor keeps five
    assert_eq!(calculate_visible_range(100, Zoom::Value(100), 10), (95, 5));
    // unless fewer items exist
    assert_eq!(calculate_visible_range(3, Zoom::Value(100), 10), (0, 3));
}

#[test]
fn degenerate_zero_factor_shows_everything() {
    assert_eq!(calculate_visible_range(42, Zoom::Value(0), 50), (0, 42));
}

#[test]
fn window_is_always_contained() {
    let totals = [0usize, 1, 4, 5, 99, 1000];
    let zooms = [Zoom::Full, Zoom::Value(0), Zoom::Value(1), Zoom::Value(9), Zoom::Value(10), Zoom::Value(100)];
    let bases = [0u64, 1, 5, 50, 1000];
    for &n in &totals {
        for &z in &zooms {
            for &b in &bases {
                let (start, count) = calculate_visible_range(n, z, b);
                assert!(count <= n);
                assert!(start + count <= n);
            }
        }
    }
}

#[test]
fn ten_samples_in_five_average_bins() {
    // the values 1..=10 in tenths of a unit: averages land on half units
    let values: Vec<i64> = vec![10, 20, 30, 40, 50, 60, 70, 80, 90, 100];
    let bins = aggregate_into_bins(&values, 5, BinAggregator::Average);
    assert_eq!(bins, vec![15, 35, 55, 75, 95]);
}

#[test]
fn sum_bins_conserve_the_total() {
    let values: Vec<i64> = vec![3, -7, 12, 5, -1, 9, 4];
    let total: i64 = values.iter().sum();
    for k in 1..=7usize {
        let bins = aggregate_into_bins(&values, k, BinAggregator::Sum);
        assert_eq!(bins.iter().sum::<i64>(), total);
    }
}

#[test]
fn bin_count_never_exceeds_target_or_item_count() {
    let values: Vec<i64> = vec![1, 2, 3, 4, 5];
    // five items in four bins: width two, so only three bins come out
    let bins = aggregate_into_bins(&values, 4, BinAggregator::Sum);
    assert_eq!(bins.len(), 3);
    for k in 1..=8usize {
        for agg in [BinAggregator::Average, BinAggregator::Sum, BinAggregator::Max] {
            let bins = aggregate_into_bins(&values, k, agg);
            assert!(bins.len() <= k);
            assert!(bins.len() <= values.len());
        }
    }
}

#[test]
fn max_bins_keep_the_true_maximum_of_all_negative_values() {
    let values: Vec<i64> = vec![-5, -3, -9];
    let bins = aggregate_into_bins(&values, 1, BinAggregator::Max);
    assert_eq!(bins, vec![-3]);
}

#[test]
fn short_final_bin_averages_over_its_own_length() {
    // width ceil(5/2) = 3: bins [1,2,3] and [4,5]; the second averages by 2
    let values: Vec<i64> = vec![10, 20, 30, 40, 50];
    let bins = aggregate_into_bins(&values, 2, BinAggregator::Average);
    assert_eq!(bins, vec![20, 45]);
}

#[test]
fn empty_input_produces_no_bins() {
    let values: Vec<i64> = Vec::new();
    for agg in [BinAggregator::Average, BinAggregator::Sum, BinAggregator::Max] {
        assert_eq!(aggregate_into_bins(&values, 3, agg), Vec::<i64>::new());
    }
}

#[test]
fn default_mapper_clamps_into_range() {
    let m = DefaultMap;
    assert_eq!(m.map(&5i64), 5);
    assert_eq!(m.map(&(5_000_000i64)), VALUE_LIMIT);
    assert_eq!(m.map(&(-5_000_000i64)), -VALUE_LIMIT);
    assert_eq!(m.map(&(-3i32)), -3);
    assert_eq!(m.map(&(2_000_000u32)), VALUE_LIMIT);
    assert_eq!(m.map(&(1000u16)), 1000);
    assert_eq!(m.map(&(-2i16)), -2);
    assert_eq!(m.map(&(255u8)), 255);
}
