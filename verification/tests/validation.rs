use pyarc2::{check_cluster_timings, low_channels, str_eq, DirectiveError, CLUSTER_COUNT};

#[test]
fn cluster_timings_accept_one_entry_per_cluster() {
    let timings: Vec<Option<u128>> = vec![
        Some(100),
        None,
        Some(250),
        None,
        None,
        Some(1),
        Some(500_000_000),
        None,
    ];
    assert_eq!(timings.len(), CLUSTER_COUNT);
    assert_eq!(check_cluster_timings(&timings), Ok(()));
}

#[test]
fn cluster_timings_reject_short_lists() {
    let timings: Vec<Option<u128>> = vec![Some(100); 7];
    assert_eq!(
        check_cluster_timings(&timings),
        Err(DirectiveError::ClusterTimingCount)
    );
    let empty: Vec<Option<u128>> = Vec::new();
    assert_eq!(
        check_cluster_timings(&empty),
        Err(DirectiveError::ClusterTimingCount)
    );
}

#[test]
fn cluster_timings_reject_long_lists() {
    let timings: Vec<Option<u128>> = vec![None; 9];
    assert_eq!(
        check_cluster_timings(&timings),
        Err(DirectiveError::ClusterTimingCount)
    );
}

#[test]
fn low_channels_keep_given_list() {
    assert_eq!(low_channels(Some(vec![7, 22, 9])), vec![7, 22, 9]);
    assert_eq!(low_channels(Some(Vec::new())), Vec::<usize>::new());
}

#[test]
fn low_channels_absent_list_is_empty() {
    assert_eq!(low_channels(None), Vec::<usize>::new());
}

#[test]
fn str_eq_compares_by_characters() {
    assert!(str_eq("", ""));
    assert!(str_eq("pulse", "pulse"));
    assert!(!str_eq("pulse", "ramp"));
    assert!(!str_eq("ab", "abc"));
    assert!(!str_eq("abc", "ab"));
    assert!(str_eq("näver", "näver"));
    assert!(!str_eq("näver", "never"));
}
