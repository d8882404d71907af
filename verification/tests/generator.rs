use display_topology_fuzzer::computer::{ComputerFuzzer, FuzzedComputer, FuzzerError};
use display_topology_fuzzer::win32::{FakeApiError, DISP_CHANGE_BADMODE, DISP_CHANGE_FAILED, DISP_CHANGE_SUCCESSFUL};
use rand::rngs::StdRng;
use rand::SeedableRng;

fn fuzzer(seed: u64) -> ComputerFuzzer {
    ComputerFuzzer::new(StdRng::seed_from_u64(seed))
}

fn plugged_names(computer: &FuzzedComputer) -> Vec<String> {
    computer
        .win32
        .video_outputs
        .iter()
        .filter_map(|output| output.monitor.as_ref().map(|m| m.name.clone()))
        .collect()
}

fn plugged_paths(computer: &FuzzedComputer) -> Vec<String> {
    computer
        .win32
        .video_outputs
        .iter()
        .filter(|output| output.monitor.is_some())
        .map(|output| output.device_name.clone())
        .collect()
}

#[test]
fn scenario_exact_three_monitors() {
    let mut f = fuzzer(42).with_n_monitors(3);
    let computer = f.build().unwrap();
    let names = plugged_names(&computer);
    assert_eq!(names.len(), 3);
    for i in 0..names.len() {
        for j in (i + 1)..names.len() {
            assert_ne!(names[i], names[j]);
        }
    }
    let primaries: Vec<_> = computer
        .win32
        .video_outputs
        .iter()
        .filter_map(|o| o.monitor.as_ref())
        .filter(|m| m.primary)
        .collect();
    assert_eq!(primaries.len(), 1);
    assert_eq!(primaries[0].position.x, 0);
    assert_eq!(primaries[0].position.y, 0);
    assert_eq!(computer.monitors.len(), 3);
}

#[test]
fn reproducibility_same_seed_same_computer() {
    let mut f1 = fuzzer(1234).with_two_monitors_or_more();
    let mut f2 = fuzzer(1234).with_two_monitors_or_more();
    let c1 = f1.build().unwrap();
    let c2 = f2.build().unwrap();
    assert_eq!(c1.primary_monitor, c2.primary_monitor);
    assert_eq!(c1.secondary_monitor, c2.secondary_monitor);
    assert_eq!(c1.monitors, c2.monitors);
    assert_eq!(c1.win32.video_outputs.len(), c2.win32.video_outputs.len());
    for (o1, o2) in c1
        .win32
        .video_outputs
        .iter()
        .zip(c2.win32.video_outputs.iter())
    {
        assert_eq!(o1.device_name, o2.device_name);
        assert_eq!(o1.monitor.is_some(), o2.monitor.is_some());
        if let (Some(m1), Some(m2)) = (&o1.monitor, &o2.monitor) {
            assert_eq!(m1.name, m2.name);
            assert_eq!(m1.primary, m2.primary);
            assert_eq!(m1.device_id, m2.device_id);
            assert_eq!(m1.config_mode_info_id, m2.config_mode_info_id);
            assert_eq!(m1.resolution.width, m2.resolution.width);
            assert_eq!(m1.resolution.height, m2.resolution.height);
            assert_eq!(m1.position.x, m2.position.x);
            assert_eq!(m1.position.y, m2.position.y);
        }
    }
}

#[test]
fn internal_display_has_empty_primary_name() {
    let mut f = fuzzer(7).with_an_internal_display_and_at_least_one_more_monitor();
    let computer = f.build().unwrap();
    assert!(plugged_names(&computer).len() >= 2);
    assert_eq!(computer.primary_monitor, "");
    for m in computer
        .win32
        .video_outputs
        .iter()
        .filter_map(|o| o.monitor.as_ref())
    {
        if m.primary {
            assert_eq!(m.name, "");
        } else {
            assert!(!m.name.is_empty());
        }
    }
}

#[test]
fn without_internal_display_no_name_is_empty() {
    let mut f = fuzzer(8).with_two_monitors_or_more();
    let computer = f.build().unwrap();
    for name in plugged_names(&computer) {
        assert!(!name.is_empty());
    }
    assert!(!computer.primary_monitor.is_empty());
}

#[test]
fn excluded_names_never_appear() {
    let forbidden = vec![String::from("DISPLAY1"), String::from("DISPLAY2")];
    let mut f = fuzzer(99).with_two_monitors_or_more_with_names_different_than(forbidden.clone());
    let computer = f.build().unwrap();
    for name in plugged_names(&computer) {
        assert!(!forbidden.contains(&name));
    }
    assert!(!forbidden.contains(&computer.primary_monitor));
    assert!(!forbidden.contains(&computer.secondary_monitor));
    for name in &computer.monitors {
        assert!(!forbidden.contains(name));
    }
}

#[test]
fn excluded_device_ids_never_appear() {
    let forbidden = vec![String::from("\\\\?\\DISPLAY#GSM0001#5&1&0&UID1")];
    let mut f = fuzzer(5).with_two_monitors_or_more_with_device_ids_different_than(forbidden.clone());
    let computer = f.build().unwrap();
    for m in computer
        .win32
        .video_outputs
        .iter()
        .filter_map(|o| o.monitor.as_ref())
    {
        assert!(!forbidden.contains(&m.device_id));
    }
}

#[test]
fn per_monitor_failure_injection_is_partial() {
    let code: i32 = DISP_CHANGE_BADMODE;
    let mut f = fuzzer(77)
        .with_n_monitors(5)
        .for_which_changing_the_display_settings_fails_for_some_monitors(code);
    let computer = f.build().unwrap();
    let paths = plugged_paths(&computer);
    assert_eq!(paths.len(), 5);
    let map = &computer.win32.change_display_settings_error_by_monitor;
    assert!(1 <= map.len() && map.len() <= 4);
    for (path, entry_code) in map.iter() {
        assert_eq!(*entry_code, code);
        assert!(paths.contains(path));
    }
    for i in 0..map.len() {
        for j in (i + 1)..map.len() {
            assert_ne!(map[i].0, map[j].0);
        }
    }
    for (path, _) in map.iter() {
        assert_eq!(computer.win32.change_display_settings(path), code);
    }
}

#[test]
fn change_display_settings_succeeds_without_injection() {
    let mut f = fuzzer(3).with_n_monitors(2);
    let computer = f.build().unwrap();
    for path in plugged_paths(&computer) {
        assert_eq!(
            computer.win32.change_display_settings(&path),
            DISP_CHANGE_SUCCESSFUL
        );
    }
}

#[test]
fn cardinality_respects_limits() {
    let mut f = fuzzer(2024).with_two_monitors_or_more();
    let computer = f.build().unwrap();
    let n_outputs = computer.win32.video_outputs.len();
    let n_monitors = plugged_names(&computer).len();
    assert!(n_monitors <= n_outputs);
    assert!(n_outputs <= 162);
    assert!(n_monitors >= 2);
    assert_eq!(computer.monitors.len(), n_monitors);
}

#[test]
fn commit_error_injection() {
    let code: i32 = DISP_CHANGE_FAILED;
    let mut f = fuzzer(11)
        .with_n_monitors(2)
        .for_which_committing_the_display_changes_fails_with(code);
    let computer = f.build().unwrap();
    assert_eq!(computer.win32.commit_display_changes(), code);

    let mut plain = fuzzer(11).with_n_monitors(2);
    let computer = plain.build().unwrap();
    assert_eq!(computer.win32.commit_display_changes(), DISP_CHANGE_SUCCESSFUL);
}

#[test]
fn get_primary_monitor_name_failure_injection() {
    let mut f = fuzzer(21)
        .with_n_monitors(2)
        .for_which_getting_the_primary_monitor_fails();
    let computer = f.build().unwrap();
    assert_eq!(
        computer.win32.get_primary_monitor_name(),
        Err(FakeApiError::GetPrimaryMonitorNameFailed)
    );

    let mut plain = fuzzer(21).with_n_monitors(2);
    let computer = plain.build().unwrap();
    assert_eq!(
        computer.win32.get_primary_monitor_name().unwrap(),
        computer.primary_monitor
    );
}

#[test]
fn query_display_config_failure_injection() {
    let mut f = fuzzer(22)
        .with_n_monitors(2)
        .for_which_querying_the_display_config_of_the_primary_monitor_fails();
    let computer = f.build().unwrap();
    assert!(computer.win32.query_display_config_of_primary().is_err());

    let mut plain = fuzzer(22).with_n_monitors(2);
    let computer = plain.build().unwrap();
    let config = computer.win32.query_display_config_of_primary().unwrap();
    assert_eq!(config.position.x, 0);
    assert_eq!(config.position.y, 0);
    let primary = computer
        .win32
        .video_outputs
        .iter()
        .filter_map(|o| o.monitor.as_ref())
        .find(|m| m.primary)
        .unwrap();
    assert_eq!(config.device_id, primary.device_id);
    assert_eq!(config.config_mode_info_id, primary.config_mode_info_id);
}

#[test]
fn zero_monitors_is_rejected() {
    let mut f = fuzzer(1).with_n_monitors(0);
    assert!(matches!(f.build(), Err(FuzzerError::InvalidMonitorCount)));
}

#[test]
fn too_many_monitors_is_rejected() {
    let mut f = fuzzer(1).with_n_monitors(163);
    assert!(matches!(f.build(), Err(FuzzerError::InvalidMonitorCount)));
}

#[test]
fn partial_failure_needs_two_monitors() {
    let mut f = fuzzer(1)
        .with_n_monitors(1)
        .for_which_changing_the_display_settings_fails_for_some_monitors(-3);
    assert!(matches!(f.build(), Err(FuzzerError::PartialFailureNeedsTwoMonitors)));

    let mut unconfigured =
        fuzzer(1).for_which_changing_the_display_settings_fails_for_some_monitors(-3);
    assert!(matches!(
        unconfigured.build(),
        Err(FuzzerError::PartialFailureNeedsTwoMonitors)
    ));
}

#[test]
fn internal_display_with_empty_name_excluded_is_rejected() {
    let mut base = fuzzer(1).with_two_monitors_or_more_with_names_different_than(vec![
        String::from(""),
    ]);
    // The exclusion list survives, the internal display is requested after.
    base.has_an_internal_display = true;
    assert!(matches!(
        base.build(),
        Err(FuzzerError::EmptyNameExcludedWithInternalDisplay)
    ));
}

#[test]
fn unconfigured_fuzzer_builds_empty_computer() {
    let mut f = fuzzer(0);
    let computer = f.build().unwrap();
    assert_eq!(computer.win32.video_outputs.len(), 0);
    assert_eq!(computer.monitors.len(), 0);
    assert_eq!(computer.primary_monitor, "<primary>");
    assert_eq!(computer.secondary_monitor, "<secondary>");
    assert_eq!(
        computer.win32.get_primary_monitor_name(),
        Err(FakeApiError::NoPrimaryMonitor)
    );
}

#[test]
fn device_paths_follow_slot_template() {
    let mut f = fuzzer(6).with_n_monitors(2);
    let computer = f.build().unwrap();
    for (slot, output) in computer.win32.video_outputs.iter().enumerate() {
        assert_eq!(output.device_name, format!("\\\\.\\DISPLAY{}", slot + 1));
    }
}

#[test]
fn device_ids_follow_template_and_are_distinct() {
    let mut f = fuzzer(13).with_n_monitors(4);
    let computer = f.build().unwrap();
    let ids: Vec<String> = computer
        .win32
        .video_outputs
        .iter()
        .filter_map(|o| o.monitor.as_ref().map(|m| m.device_id.clone()))
        .collect();
    assert_eq!(ids.len(), 4);
    for id in &ids {
        assert!(id.starts_with("\\\\?\\DISPLAY#GSM"));
        assert!(id.contains("&UID"));
    }
    for i in 0..ids.len() {
        for j in (i + 1)..ids.len() {
            assert_ne!(ids[i], ids[j]);
        }
    }
}

#[test]
fn monitor_summary_list_is_sorted() {
    let mut f = fuzzer(31).with_two_monitors_or_more();
    let computer = f.build().unwrap();
    for pair in computer.monitors.windows(2) {
        assert!(pair[0] <= pair[1]);
    }
    let mut expected = plugged_names(&computer);
    expected.sort();
    assert_eq!(computer.monitors, expected);
}

#[test]
fn sorted_list_puts_empty_internal_name_first() {
    // Find a seed where the lowest plugged slot holds a non-primary monitor,
    // so the plug-order name list does not already start with the empty
    // primary name and the sort visibly reorders it.
    for seed in 0..200 {
        let mut f = fuzzer(seed).with_an_internal_display_and_at_least_one_more_monitor();
        let computer = f.build().unwrap();
        let names = plugged_names(&computer);
        if !names[0].is_empty() {
            assert_eq!(computer.monitors[0], "");
            return;
        }
    }
    panic!("no seed produced a non-primary monitor in the lowest slot");
}

#[test]
fn oversized_exclusion_list_is_rejected() {
    let forbidden = vec![String::from("DISPLAY1"); 100001];
    let mut f = fuzzer(1).with_two_monitors_or_more_with_names_different_than(forbidden);
    assert!(matches!(f.build(), Err(FuzzerError::TooManyExclusions)));
}

#[test]
fn build_leaves_configuration_unchanged() {
    let mut f = fuzzer(9)
        .with_n_monitors(4)
        .for_which_committing_the_display_changes_fails_with(DISP_CHANGE_FAILED);
    let first = f.build().unwrap();
    assert_eq!(f.monitor_range, Some((4, 4)));
    assert_eq!(
        f.change_display_settings_error_on_commit,
        Some(DISP_CHANGE_FAILED)
    );
    assert!(!f.has_an_internal_display);
    assert!(f.forbidden_monitor_names.is_empty());
    assert!(f.forbidden_device_ids.is_empty());
    let second = f.build().unwrap();
    assert_eq!(first.monitors.len(), 4);
    assert_eq!(second.monitors.len(), 4);
    assert_eq!(second.win32.commit_display_changes(), DISP_CHANGE_FAILED);
}
