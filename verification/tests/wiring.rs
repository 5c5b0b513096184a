use sigma_racer_efi::board::wiring::{
    WiringError, ignition_for, injector_for, trigger_cam, trigger_crank, validate_profile,
};
use sigma_racer_efi::board::{BoardPins, GpioPin, GpioPort, TleOutput};
use sigma_racer_efi::board_mre;
use sigma_racer_efi::board_mre::defaults::wiring as v990_wiring;
use sigma_racer_efi::efi::defaults::wiring as efi_wiring;
use sigma_racer_efi::efi;
use sigma_racer_efi::engine::{
    CYCLE_DEGREES_FOUR_STROKE, EngineConfig, EngineProfile, IgnitionMode, InjectionMode,
    ProfileError, yamaha_cp3,
};
use sigma_racer_efi::engines::rotax_v990::{CYLINDER_FRONT, CYLINDER_REAR};
use sigma_racer_efi::trigger::{TriggerInputKind, TriggerSetup, TriggerWheel};

#[test]
fn wiring_yamaha_cp3_fits_mre_outputs() {
    assert!(validate_profile(&yamaha_cp3::profile()).is_ok());
}

#[test]
fn wiring_cylinder_index_maps_sequential_outputs() {
    assert_eq!(injector_for(0), Some(TleOutput::Injector1));
    assert_eq!(injector_for(2), Some(TleOutput::Injector3));
    let pins = BoardPins::mre_f7();
    assert_eq!(ignition_for(&pins, 1), Some(GpioPin::new(GpioPort::D, 3)));
}

#[test]
fn rejects_profile_with_invalid_firing_index() {
    let bad = EngineProfile {
        id: "bad",
        engine: EngineConfig {
            cylinders: 3,
            firing_sequence: &[0, 1, 4],
            injection_mode: InjectionMode::Sequential,
            ignition_mode: IgnitionMode::IndividualCoils,
            cranking_injection_mode: InjectionMode::Simultaneous,
            displacement_cc: 890,
            target_idle_rpm: 1_200,
        },
        trigger: TriggerSetup {
            crank_wheel: TriggerWheel::twelve_minus_one(),
            crank_input: TriggerInputKind::Hall,
            cam_input: TriggerInputKind::Hall,
            cam_required: true,
        },
        cycle_degrees: CYCLE_DEGREES_FOUR_STROKE,
        fire_intervals_deg: &[240, 240, 240],
        soft_rev_limit_rpm: 8_000,
        hard_rev_limit_rpm: 8_500,
        spark_plugs_per_cylinder: 1,
    };

    assert!(validate_profile(&bad).is_err());
    assert_eq!(
        validate_profile(&bad),
        Err(WiringError::Profile(ProfileError::EngineConfig(
            sigma_racer_efi::engine::ConfigError::InvalidFiringIndex
        )))
    );
}

#[test]
fn board_wiring_has_no_fifth_cylinder() {
    let pins = BoardPins::mre_f7();
    assert_eq!(injector_for(3), Some(TleOutput::Injector4));
    assert_eq!(injector_for(4), None);
    assert_eq!(ignition_for(&pins, 3), Some(GpioPin::new(GpioPort::D, 1)));
    assert_eq!(ignition_for(&pins, 4), None);
    assert_eq!(trigger_crank(&pins), GpioPin::new(GpioPort::C, 6));
    assert_eq!(trigger_cam(&pins), GpioPin::new(GpioPort::A, 5));
}

#[test]
fn wiring_error_wraps_profile_error() {
    assert_eq!(
        WiringError::from(ProfileError::RevLimitOrder),
        WiringError::Profile(ProfileError::RevLimitOrder)
    );
    let mut p = yamaha_cp3::profile();
    p.soft_rev_limit_rpm = 12_000;
    assert_eq!(
        validate_profile(&p),
        Err(WiringError::Profile(ProfileError::RevLimitOrder))
    );
}

#[test]
fn defaults_yamaha_cp3_fits_mre_outputs() {
    assert!(
        efi_wiring::validate_profile(&efi::engines::yamaha_cp3::profile()).is_ok()
    );
}

#[test]
fn defaults_cylinder_index_maps_sequential_outputs() {
    assert_eq!(efi_wiring::injector_for(0), Some(TleOutput::Injector1));
    assert_eq!(efi_wiring::injector_for(2), Some(TleOutput::Injector3));
    assert_eq!(efi_wiring::ignition_for(1), Some(GpioPin::new(GpioPort::D, 3)));
}

#[test]
fn first_generation_wiring_reports_profile_errors() {
    assert_eq!(efi_wiring::injector_for(4), None);
    assert_eq!(efi_wiring::ignition_for(4), None);
    let mut p = efi::engines::rotax_v990::profile();
    assert_eq!(efi_wiring::validate_profile(&p), Ok(()));
    p.fire_intervals_deg = &[300, 400];
    assert_eq!(
        efi_wiring::validate_profile(&p),
        Err(efi_wiring::WiringError::Profile(
            efi::engines::profile::ProfileError::FireIntervalSum
        ))
    );
    let pins = BoardPins::mre_f7();
    assert_eq!(efi_wiring::trigger_crank(&pins), pins.trigger_crank);
    assert_eq!(efi_wiring::trigger_cam(&pins), pins.trigger_cam);
}

#[test]
fn default_profile_is_rotax_v990() {
    let profile = board_mre::default_profile();
    assert!(profile.engine.validate().is_ok());
    assert_eq!(profile.engine.cylinders, 2);
    assert_eq!(profile.engine.displacement_cc, 998);
    assert_eq!(profile.spark_plugs_per_cylinder, 1);
    assert!(profile.trigger.cam_required);
    assert_eq!(board_mre::default_engine_config(), profile.engine);
}

#[test]
fn cylinder_wiring_maps_front_and_rear() {
    assert_eq!(
        v990_wiring::injector_for(CYLINDER_FRONT),
        Some(v990_wiring::FRONT_INJECTOR)
    );
    assert_eq!(v990_wiring::injector_for(CYLINDER_REAR), Some(v990_wiring::REAR_INJECTOR));
    assert_eq!(
        v990_wiring::ignition_for(CYLINDER_FRONT),
        Some(GpioPin::new(GpioPort::D, 4))
    );
    assert_eq!(
        v990_wiring::ignition_for(CYLINDER_REAR),
        Some(GpioPin::new(GpioPort::D, 3))
    );
    assert_eq!(v990_wiring::injector_for(2), None);
    assert_eq!(v990_wiring::ignition_for(2), None);
}
