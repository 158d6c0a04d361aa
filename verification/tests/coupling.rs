use creative_engine::coupling::coupling_pattern;

#[test]
fn low_expertise_couples_to_high() {
    // expertise 0.1, 0.5, 0.9 ordered as ranks 10, 50, 90
    let pattern = coupling_pattern(&vec![Some(10), Some(50), Some(90)]);
    assert_eq!(pattern.len(), 3);
    assert!(pattern[0][1]);
    assert!(pattern[0][2]);
    assert!(!pattern[2][0]);
}

#[test]
fn coupling_is_one_way_and_never_to_self() {
    let pattern = coupling_pattern(&vec![Some(20), Some(50), Some(80)]);
    assert!(pattern[0][2]);
    assert!(!pattern[2][0]);
    for i in 0..3 {
        assert!(!pattern[i][i]);
    }
    for i in 0..3 {
        for j in 0..3 {
            assert!(!(pattern[i][j] && pattern[j][i]));
        }
    }
}

#[test]
fn full_pattern_for_three_agents() {
    let pattern = coupling_pattern(&vec![Some(30), Some(60), Some(90)]);
    assert_eq!(
        pattern,
        vec![
            vec![false, true, true],
            vec![false, false, true],
            vec![false, false, false],
        ]
    );
}

#[test]
fn equal_expertise_does_not_couple() {
    let pattern = coupling_pattern(&vec![Some(7), Some(7), Some(3)]);
    assert!(!pattern[0][1]);
    assert!(!pattern[1][0]);
    assert!(pattern[2][0]);
    assert!(pattern[2][1]);
}

#[test]
fn coupling_is_transitive() {
    let pattern = coupling_pattern(&vec![Some(5), Some(1), Some(3), Some(9)]);
    for i in 0..4 {
        for j in 0..4 {
            for k in 0..4 {
                if pattern[i][j] && pattern[j][k] {
                    assert!(pattern[i][k]);
                }
            }
        }
    }
}

#[test]
fn empty_network_has_empty_pattern() {
    let pattern = coupling_pattern(&Vec::<Option<u64>>::new());
    assert!(pattern.is_empty());
}

#[test]
fn single_agent_couples_to_nobody() {
    let pattern = coupling_pattern(&vec![Some(42)]);
    assert_eq!(pattern, vec![vec![false]]);
}

#[test]
fn unordered_expertise_couples_with_nobody() {
    let pattern = coupling_pattern(&vec![Some(1), None, Some(9)]);
    assert!(pattern[0][2]);
    assert!(!pattern[0][1]);
    assert!(!pattern[1][0]);
    assert!(!pattern[1][2]);
    assert!(!pattern[2][1]);
    assert!(!pattern[1][1]);
}
