use sigma_racer_efi::efi;
use sigma_racer_efi::efi_core::config::{EngineConfig as CoreConfig, FiringOrder};
use sigma_racer_efi::engine::firing;
use sigma_racer_efi::engine::{ConfigError, EngineConfig, IgnitionMode, InjectionMode};

fn config(cylinders: u8, firing_sequence: &'static [u8]) -> EngineConfig {
    EngineConfig {
        cylinders,
        firing_sequence,
        injection_mode: InjectionMode::Sequential,
        ignition_mode: IgnitionMode::IndividualCoils,
        cranking_injection_mode: InjectionMode::Simultaneous,
        displacement_cc: 890,
        target_idle_rpm: 1_200,
    }
}

#[test]
fn default_config_is_rotax_v990() {
    let config = CoreConfig::default();
    assert!(config.validate().is_ok());
    assert_eq!(config.cylinders, 2);
    assert_eq!(config.displacement_cc, 998);
}

#[test]
fn firing_order_sequence_respects_cylinder_count() {
    let order = FiringOrder::RotaxV990;
    assert_eq!(order.sequence().len(), 2);
}

#[test]
fn firing_preset_length_matches_four_cylinder_count() {
    let config = efi::config::EngineConfig {
        cylinders: 4,
        firing_sequence: efi::config::firing::inline_4_1342(),
        injection_mode: InjectionMode::Sequential,
        ignition_mode: IgnitionMode::IndividualCoils,
        cranking_injection_mode: InjectionMode::Simultaneous,
        displacement_cc: 1_600,
        target_idle_rpm: 850,
    };
    assert!(config.validate().is_ok());
}

#[test]
fn config_rejects_mismatched_firing_sequence() {
    let first_generation = efi::config::EngineConfig {
        cylinders: 3,
        firing_sequence: efi::config::firing::inline_4_1342(),
        injection_mode: InjectionMode::Sequential,
        ignition_mode: IgnitionMode::IndividualCoils,
        cranking_injection_mode: InjectionMode::Simultaneous,
        displacement_cc: 890,
        target_idle_rpm: 1_200,
    };
    assert_eq!(
        first_generation.validate(),
        Err(efi::config::ConfigError::FiringSequenceLength)
    );

    let current = config(3, &[0, 2, 3, 1]);
    assert_eq!(current.validate(), Err(ConfigError::FiringSequenceLength));
}

#[test]
fn firing_sequence_length_matches_cylinder_count() {
    let config = EngineConfig {
        cylinders: 4,
        firing_sequence: &[0, 2, 3, 1],
        injection_mode: InjectionMode::Sequential,
        ignition_mode: IgnitionMode::IndividualCoils,
        cranking_injection_mode: InjectionMode::Simultaneous,
        displacement_cc: 1_600,
        target_idle_rpm: 850,
    };
    assert!(config.validate().is_ok());
}

#[test]
fn rejects_out_of_range_firing_index() {
    assert_eq!(
        config(3, &[0, 1, 4]).validate(),
        Err(ConfigError::InvalidFiringIndex)
    );
}

#[test]
fn rejects_duplicate_firing_index() {
    assert_eq!(
        config(3, &[0, 1, 0]).validate(),
        Err(ConfigError::DuplicateFiringIndex)
    );
}

#[test]
fn rejects_incomplete_firing_sequence() {
    assert_eq!(
        config(3, &[0, 1]).validate(),
        Err(ConfigError::FiringSequenceLength)
    );
}

#[test]
fn cylinder_count_bounds_are_checked_first() {
    assert_eq!(config(0, &[]).validate(), Err(ConfigError::InvalidCylinderCount));
    assert_eq!(
        config(5, &[0, 1, 2, 3, 4]).validate(),
        Err(ConfigError::InvalidCylinderCount)
    );
    assert_eq!(config(1, &[0]).validate(), Ok(()));
    assert_eq!(config(3, &[2, 0, 1]).cylinder_count(), 3);
}

#[test]
fn out_of_range_entry_wins_over_a_later_duplicate() {
    // The first offending entry decides: index 3 is out of range for three
    // cylinders before the duplicate `0` is reached.
    assert_eq!(
        config(3, &[0, 3, 0]).validate(),
        Err(ConfigError::InvalidFiringIndex)
    );
    assert_eq!(
        config(3, &[1, 1, 5]).validate(),
        Err(ConfigError::DuplicateFiringIndex)
    );
}

#[test]
fn every_permutation_of_four_cylinders_is_accepted() {
    for seq in [
        firing::inline_4_1342(),
        firing::inline_4_1324(),
        firing::inline_4_1234(),
    ] {
        assert_eq!(config(4, seq).validate(), Ok(()));
    }
    assert_eq!(config(3, firing::inline_3_123()).validate(), Ok(()));
    assert_eq!(config(2, firing::v_twin_front_rear()).validate(), Ok(()));
}

#[test]
fn first_generation_config_only_checks_count_and_length() {
    let mut c = efi::config::EngineConfig {
        cylinders: 0,
        firing_sequence: &[],
        injection_mode: InjectionMode::Sequential,
        ignition_mode: IgnitionMode::IndividualCoils,
        cranking_injection_mode: InjectionMode::Simultaneous,
        displacement_cc: 890,
        target_idle_rpm: 1_200,
    };
    assert_eq!(c.validate(), Err(efi::config::ConfigError::InvalidCylinderCount));
    c.cylinders = 2;
    c.firing_sequence = &[7, 7];
    assert_eq!(c.validate(), Ok(()));
    assert_eq!(c.cylinder_count(), 2);
}

#[test]
fn firing_orders_list_their_cylinders() {
    assert_eq!(FiringOrder::OneThreeFourTwo.sequence(), &[0, 2, 3, 1]);
    assert_eq!(FiringOrder::OneThreeTwoFour.sequence(), &[0, 2, 1, 3]);
    assert_eq!(FiringOrder::OneTwoThreeFour.sequence(), &[0, 1, 2, 3]);
    assert_eq!(FiringOrder::RotaxV990.sequence(), &[0, 1]);
    assert_eq!(FiringOrder::default(), FiringOrder::OneThreeFourTwo);
}

#[test]
fn core_config_rejects_bad_cylinder_counts() {
    let mut c = CoreConfig::default();
    assert_eq!(c.cylinder_count(), 2);
    c.cylinders = 0;
    assert_eq!(
        c.validate(),
        Err(sigma_racer_efi::efi_core::config::ConfigError::InvalidCylinderCount)
    );
    c.cylinders = 5;
    assert!(c.validate().is_err());
    c.cylinders = 4;
    assert!(c.validate().is_ok());
}
