use ropesim::banded::{
    band_length, pentadiagonal_slot, place_jacobian_block, tridiagonal_slot, Band, BandSlot,
    BlockPlacement,
};
use ropesim::numbering::{
    projection_unknown_count,
    dynamic_node_flags, is_dynamic_node, number_unknowns, payload_index, NOT_DYNAMIC,
};
use ropesim::ode_layout::{pos_x, pos_y, state_len, vel_x, vel_y};
use ropesim::replay::release_due_commands;
use ropesim::retry::{
    next_retry_action, retry_subdivisions, RetryAction, SubstepOutcome, MAX_ADAPTIVE_RETRY_LEVELS,
};
use ropesim::stats::median_duration;

#[test]
fn anchor_and_held_payload_are_not_dynamic() {
    assert_eq!(payload_index(5), 4);
    assert!(!is_dynamic_node(0, 5, false));
    assert!(is_dynamic_node(2, 5, true));
    assert!(is_dynamic_node(4, 5, false));
    assert!(!is_dynamic_node(4, 5, true));
    assert_eq!(dynamic_node_flags(4, true), vec![false, true, true, false]);
    assert_eq!(dynamic_node_flags(4, false), vec![false, true, true, true]);
}

#[test]
fn unknowns_are_numbered_in_node_order() {
    let numbering = number_unknowns(&dynamic_node_flags(5, true));
    assert_eq!(numbering.dynamic_nodes, vec![1, 2, 3]);
    assert_eq!(numbering.node_to_unknown, vec![NOT_DYNAMIC, 0, 2, 4, NOT_DYNAMIC]);

    let numbering = number_unknowns(&dynamic_node_flags(5, false));
    assert_eq!(numbering.dynamic_nodes, vec![1, 2, 3, 4]);
    assert_eq!(numbering.node_to_unknown, vec![NOT_DYNAMIC, 0, 2, 4, 6]);

    let numbering = number_unknowns(&[true, false, false, true, true]);
    assert_eq!(numbering.dynamic_nodes, vec![0, 3, 4]);
    assert_eq!(numbering.node_to_unknown, vec![0, NOT_DYNAMIC, NOT_DYNAMIC, 2, 4]);

    let numbering = number_unknowns(&[]);
    assert!(numbering.dynamic_nodes.is_empty());
    assert!(numbering.node_to_unknown.is_empty());
}

#[test]
fn band_storage_lengths() {
    assert_eq!(band_length(Band::Diagonal, 4), 4);
    assert_eq!(band_length(Band::Lower, 4), 3);
    assert_eq!(band_length(Band::Upper, 4), 3);
    assert_eq!(band_length(Band::SecondLower, 4), 2);
    assert_eq!(band_length(Band::SecondUpper, 4), 2);
    assert_eq!(band_length(Band::Lower, 0), 0);
    assert_eq!(band_length(Band::SecondUpper, 1), 0);
}

#[test]
fn tridiagonal_slots() {
    let slot = |band, index| Some(BandSlot { band, index });
    assert_eq!(tridiagonal_slot(3, 3), slot(Band::Diagonal, 3));
    assert_eq!(tridiagonal_slot(3, 2), slot(Band::Lower, 2));
    assert_eq!(tridiagonal_slot(2, 3), slot(Band::Upper, 2));
    assert_eq!(tridiagonal_slot(4, 2), None);
    assert_eq!(tridiagonal_slot(0, usize::MAX), None);
}

#[test]
fn pentadiagonal_slots() {
    let slot = |band, index| Some(BandSlot { band, index });
    assert_eq!(pentadiagonal_slot(3, 3), slot(Band::Diagonal, 3));
    assert_eq!(pentadiagonal_slot(3, 2), slot(Band::Lower, 2));
    assert_eq!(pentadiagonal_slot(2, 3), slot(Band::Upper, 2));
    assert_eq!(pentadiagonal_slot(4, 2), slot(Band::SecondLower, 2));
    assert_eq!(pentadiagonal_slot(2, 4), slot(Band::SecondUpper, 2));
    assert_eq!(pentadiagonal_slot(5, 2), None);
    assert_eq!(pentadiagonal_slot(2, 5), None);
}

#[test]
fn jacobian_blocks_are_placed_by_unknown_offset() {
    let node_to_unknown = [NOT_DYNAMIC, 0, 2, 4, 6, NOT_DYNAMIC];
    assert_eq!(place_jacobian_block(&node_to_unknown, 0, 1), BlockPlacement::Skipped);
    assert_eq!(place_jacobian_block(&node_to_unknown, 4, 5), BlockPlacement::Skipped);
    assert_eq!(
        place_jacobian_block(&node_to_unknown, 2, 1),
        BlockPlacement::Placed(BandSlot { band: Band::Lower, index: 0 })
    );
    assert_eq!(
        place_jacobian_block(&node_to_unknown, 2, 4),
        BlockPlacement::Placed(BandSlot { band: Band::SecondUpper, index: 1 })
    );
    assert_eq!(place_jacobian_block(&node_to_unknown, 1, 4), BlockPlacement::OutsideBand);
}

#[test]
fn ode_state_layout() {
    assert_eq!(pos_x(0), 0);
    assert_eq!(pos_y(0), 1);
    assert_eq!(vel_x(0), 2);
    assert_eq!(vel_y(0), 3);
    assert_eq!(pos_x(5), 20);
    assert_eq!(pos_y(5), 21);
    assert_eq!(vel_x(5), 22);
    assert_eq!(vel_y(5), 23);
    assert_eq!(state_len(20), 84);
    let mut seen = vec![false; state_len(3)];
    for node in 0..=3 {
        for index in [pos_x(node), pos_y(node), vel_x(node), vel_y(node)] {
            assert!(!seen[index]);
            seen[index] = true;
        }
    }
    assert!(seen.into_iter().all(|entry| entry));
}

#[test]
fn median_of_unsorted_samples() {
    let mut samples = [5_u128, 1, 3];
    assert_eq!(median_duration(&mut samples), 3);
    assert_eq!(samples, [1, 3, 5]);

    let mut samples = [40_u128, 10, 30, 20];
    assert_eq!(median_duration(&mut samples), 30);
    assert_eq!(samples, [10, 20, 30, 40]);

    let mut samples = [7_u128];
    assert_eq!(median_duration(&mut samples), 7);
}

#[test]
fn retries_double_the_substeps() {
    let counts: Vec<usize> = (0..=MAX_ADAPTIVE_RETRY_LEVELS).map(retry_subdivisions).collect();
    assert_eq!(counts, vec![1, 2, 4, 8, 16]);
}

#[test]
fn numbering_is_a_bijection_onto_unknown_pairs() {
    let flags = [false, true, true, false, true, true, true, false];
    let numbering = number_unknowns(&flags);
    for (k, &node) in numbering.dynamic_nodes.iter().enumerate() {
        assert!(flags[node]);
        assert_eq!(numbering.node_to_unknown[node], 2 * k);
    }
    for (node, &dynamic) in flags.iter().enumerate() {
        assert_eq!(dynamic, numbering.dynamic_nodes.contains(&node));
        assert_eq!(dynamic, numbering.node_to_unknown[node] != NOT_DYNAMIC);
    }
    assert!(numbering.dynamic_nodes.windows(2).all(|pair| pair[0] < pair[1]));
}

#[test]
fn rope_dimension_counts_two_unknowns_per_dynamic_node() {
    for node_count in 2..10 {
        let held = number_unknowns(&dynamic_node_flags(node_count, true));
        let free = number_unknowns(&dynamic_node_flags(node_count, false));
        assert_eq!(held.dynamic_nodes.len(), node_count - 2);
        assert_eq!(free.dynamic_nodes.len(), node_count - 1);
        assert_eq!(projection_unknown_count(node_count, true), held.dynamic_nodes.len());
        assert_eq!(projection_unknown_count(node_count, false), free.dynamic_nodes.len());
        for (k, &node) in free.dynamic_nodes.iter().enumerate() {
            assert_eq!(node, k + 1);
        }
    }
}

#[test]
fn band_slots_are_distinct_and_in_range() {
    let block_count: usize = 6;
    let mut seen = Vec::new();
    for row in 0..block_count {
        for column in 0..block_count {
            let within = row.abs_diff(column) <= 2;
            let slot = pentadiagonal_slot(row, column);
            assert_eq!(slot.is_some(), within);
            assert_eq!(tridiagonal_slot(row, column).is_some(), row.abs_diff(column) <= 1);
            if let Some(tri) = tridiagonal_slot(row, column) {
                assert_eq!(slot, Some(tri));
            }
            if let Some(slot) = slot {
                assert!(slot.index < band_length(slot.band, block_count));
                assert!(!seen.contains(&slot));
                seen.push(slot);
            }
        }
    }
    let stored: usize = [Band::Diagonal, Band::Lower, Band::Upper, Band::SecondLower, Band::SecondUpper]
        .into_iter()
        .map(|band| band_length(band, block_count))
        .sum();
    assert_eq!(seen.len(), stored);
}

#[test]
fn axial_and_bending_couplings_fit_the_band() {
    for held in [false, true] {
        let numbering = number_unknowns(&dynamic_node_flags(9, held));
        for &row in &numbering.dynamic_nodes {
            for &column in &numbering.dynamic_nodes {
                let placement = place_jacobian_block(&numbering.node_to_unknown, row, column);
                assert_eq!(row.abs_diff(column) <= 2, placement != BlockPlacement::OutsideBand);
            }
        }
    }
    for center in 2..8 {
        for a in 0..3 {
            for b in a + 1..3 {
                let row = center - 1 + a - 1;
                let column = center - 1 + b - 1;
                let slot = pentadiagonal_slot(row, column).unwrap();
                assert!(slot.band == Band::Upper || slot.band == Band::SecondUpper);
                assert_eq!(slot.index, row);
            }
        }
    }
}

#[test]
fn median_is_bracketed_by_the_sorted_halves() {
    let mut samples = [9_u128, 2, 7, 4, 4, 1, 8];
    let median = median_duration(&mut samples);
    assert_eq!(median, 4);
    let half = samples.len() / 2;
    assert!(samples[..=half].iter().all(|&sample| sample <= median));
    assert!(samples[half..].iter().all(|&sample| sample >= median));
}

#[test]
fn retry_controller_walks_the_levels() {
    assert_eq!(next_retry_action(0, 0, SubstepOutcome::Converged), RetryAction::Succeeded);
    assert_eq!(
        next_retry_action(0, 0, SubstepOutcome::Failed),
        RetryAction::Restart { retry_level: 1 }
    );
    assert_eq!(
        next_retry_action(1, 0, SubstepOutcome::Converged),
        RetryAction::Solve { retry_level: 1, subdivision: 1 }
    );
    assert_eq!(next_retry_action(1, 1, SubstepOutcome::Converged), RetryAction::Succeeded);
    assert_eq!(
        next_retry_action(3, 5, SubstepOutcome::Failed),
        RetryAction::Restart { retry_level: 4 }
    );
    assert_eq!(next_retry_action(4, 15, SubstepOutcome::Converged), RetryAction::Succeeded);
    assert_eq!(next_retry_action(4, 3, SubstepOutcome::Failed), RetryAction::GiveUp);
    assert_eq!(next_retry_action(2, 1, SubstepOutcome::InvalidTimeStep), RetryAction::Abort);
}

#[test]
fn retry_controller_makes_at_most_thirty_one_solves() {
    let (mut level, mut subdivision, mut solves) = (0, 0, 1);
    loop {
        match next_retry_action(level, subdivision, SubstepOutcome::Failed) {
            RetryAction::Restart { retry_level } => {
                level = retry_level;
                subdivision = 0;
                solves += 1;
            }
            RetryAction::GiveUp => break,
            other => panic!("unexpected {other:?}"),
        }
    }
    assert_eq!((level, solves), (4, 5));

    let mut solves = 0;
    let mut state = Some((0, 0));
    while let Some((level, subdivision)) = state {
        solves += 1;
        let outcome = if level < 4 || subdivision == 15 { SubstepOutcome::Failed } else { SubstepOutcome::Converged };
        state = match next_retry_action(level, subdivision, outcome) {
            RetryAction::Solve { retry_level, subdivision } => Some((retry_level, subdivision)),
            RetryAction::Restart { retry_level } => Some((retry_level, 0)),
            _ => None,
        };
    }
    assert_eq!(solves, 20);
}

#[test]
fn replay_releases_each_due_command_once_in_order() {
    let at_quarter = [true, false, false];
    let at_half = [true, true, false];
    let end = release_due_commands(0, &at_quarter);
    assert_eq!(end, 1);
    assert_eq!(release_due_commands(end, &at_quarter), 1);
    let later = release_due_commands(end, &at_half);
    assert_eq!(later, 2);
    assert_eq!(release_due_commands(later, &[true, true, true]), 3);
    assert_eq!(release_due_commands(3, &[true, true, true]), 3);
    assert_eq!(release_due_commands(0, &[]), 0);
}
