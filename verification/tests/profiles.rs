use sigma_racer_efi::efi;
use sigma_racer_efi::engine::state::{
    cranking_pulse_divisor, ignition_events_per_cycle, injection_events_per_cycle,
    running_pulse_multiplier,
};
use sigma_racer_efi::engine::{self, IgnitionMode, InjectionMode, ProfileError};
use sigma_racer_efi::engines;
use sigma_racer_efi::engines::rotax_v990::{
    CYLINDER_FRONT, CYLINDER_REAR, FIRE_INTERVAL_DEG, Profile, fire_interval_after,
    trigger_edges_per_rev, trigger_wheel,
};

#[test]
fn reference_profile_is_valid() {
    assert_eq!(engine::yamaha_cp3::profile().validate(), Ok(()));
}

#[test]
fn rejects_zero_rev_limit() {
    let mut p = engine::yamaha_cp3::profile();
    p.soft_rev_limit_rpm = 0;
    assert_eq!(p.validate(), Err(ProfileError::InvalidRevLimit));
}

#[test]
fn rejects_soft_above_hard_rev_limit() {
    let mut p = engine::yamaha_cp3::profile();
    p.soft_rev_limit_rpm = p.hard_rev_limit_rpm + 100;
    assert_eq!(p.validate(), Err(ProfileError::RevLimitOrder));
}

#[test]
fn yamaha_cp3_profile_is_valid() {
    assert!(engine::yamaha_cp3::profile().validate().is_ok());
    assert!(engines::yamaha_cp3::profile().validate().is_ok());
    assert!(efi::engines::yamaha_cp3::profile().validate().is_ok());
}

#[test]
fn yamaha_cp3_rejects_invalid_cycle_degrees() {
    let mut profile = engine::yamaha_cp3::profile();
    profile.cycle_degrees = 0;
    assert_eq!(profile.validate(), Err(ProfileError::InvalidCycleDegrees));

    let mut profile = engines::yamaha_cp3::profile();
    profile.cycle_degrees = 0;
    assert_eq!(
        profile.validate(),
        Err(engines::profile::ProfileError::InvalidCycleDegrees)
    );
}

#[test]
fn yamaha_cp3_rejects_fire_interval_sum_mismatch() {
    let mut profile = engine::yamaha_cp3::profile();
    profile.fire_intervals_deg = &[240, 240, 240, 240];
    assert_eq!(profile.validate(), Err(ProfileError::FireIntervalCount));

    let mut profile = engines::yamaha_cp3::profile();
    profile.fire_intervals_deg = &[240, 240, 240, 240];
    assert_eq!(
        profile.validate(),
        Err(engines::profile::ProfileError::FireIntervalCount)
    );
}

#[test]
fn rotax_v990_profile_is_valid() {
    assert!(efi::engines::rotax_v990::profile().validate().is_ok());
}

#[test]
fn rotax_v990_uneven_firing_intervals_sum_to_one_cycle() {
    let sum: u16 = efi::engines::rotax_v990::profile().fire_intervals_deg.iter().sum();
    assert_eq!(sum, 720);
    let sum: u16 = FIRE_INTERVAL_DEG.iter().sum();
    assert_eq!(sum, 720);
}

#[test]
fn best_profile_is_valid() {
    let p = Profile::best();
    assert!(p.engine.validate().is_ok());
    assert_eq!(p.engine.cylinders, 2);
    assert!(p.trigger.cam_required);
    assert_eq!(p.spark_plugs_per_cylinder, 1);
}

#[test]
fn fire_intervals_alternate_front_rear() {
    assert_eq!(fire_interval_after(CYLINDER_FRONT), Some(300));
    assert_eq!(fire_interval_after(CYLINDER_REAR), Some(420));
}

#[test]
fn fire_interval_is_unknown_for_other_cylinders() {
    assert_eq!(fire_interval_after(2), None);
    assert_eq!(fire_interval_after(255), None);
}

#[test]
fn trigger_wheel_has_six_sixty_degree_slots() {
    let wheel = trigger_wheel();
    assert_eq!(wheel.teeth, 6);
    assert_eq!(wheel.missing, 0);
    assert_eq!(wheel.effective_edges_per_rev(), 6);
    assert_eq!(trigger_edges_per_rev(), 6);
}

#[test]
fn rotax_shorthands_agree_with_best() {
    assert_eq!(engines::rotax_v990::profile(), Profile::best());
    assert_eq!(engines::rotax_v990::engine_config(), Profile::best().engine);
    assert_eq!(engines::rotax_v990::engine_config().firing_order.sequence(), &[0, 1]);
}

#[test]
fn profile_errors_in_validation_order() {
    let mut p = engine::yamaha_cp3::profile();
    p.engine.cylinders = 0;
    p.cycle_degrees = 0;
    assert_eq!(
        p.validate(),
        Err(ProfileError::EngineConfig(engine::ConfigError::InvalidCylinderCount))
    );

    let mut p = engine::yamaha_cp3::profile();
    p.fire_intervals_deg = &[240, 240, 200];
    assert_eq!(p.validate(), Err(ProfileError::FireIntervalSum));

    let mut p = engine::yamaha_cp3::profile();
    p.spark_plugs_per_cylinder = 0;
    assert_eq!(p.validate(), Err(ProfileError::InvalidSparkPlugCount));

    let mut p = engine::yamaha_cp3::profile();
    p.hard_rev_limit_rpm = 0;
    assert_eq!(p.validate(), Err(ProfileError::InvalidRevLimit));

    let mut p = engine::yamaha_cp3::profile();
    p.cycle_degrees = 360;
    p.fire_intervals_deg = &[120, 120, 120];
    assert_eq!(p.validate(), Ok(()));
}

#[test]
fn first_generation_profile_needs_a_full_four_stroke_cycle() {
    let mut p = efi::engines::yamaha_cp3::profile();
    p.fire_intervals_deg = &[120, 120, 120];
    assert_eq!(
        p.validate(),
        Err(efi::engines::profile::ProfileError::FireIntervalSum)
    );
    p.fire_intervals_deg = &[360, 360];
    assert_eq!(
        p.validate(),
        Err(efi::engines::profile::ProfileError::FireIntervalCount)
    );
    p.engine.cylinders = 9;
    assert_eq!(
        p.validate(),
        Err(efi::engines::profile::ProfileError::EngineConfig(
            efi::config::ConfigError::InvalidCylinderCount
        ))
    );
}

#[test]
fn cycle_aware_profile_checks_plugs() {
    let mut p = engines::yamaha_cp3::profile();
    p.spark_plugs_per_cylinder = 0;
    assert_eq!(
        p.validate(),
        Err(engines::profile::ProfileError::InvalidSparkPlugCount)
    );
    p.spark_plugs_per_cylinder = 2;
    p.cycle_degrees = engines::profile::CYCLE_DEGREES_TWO_STROKE;
    p.fire_intervals_deg = &[120, 120, 120];
    assert_eq!(p.validate(), Ok(()));
}

#[test]
fn profile_error_from_config_error() {
    assert_eq!(
        ProfileError::from(engine::ConfigError::DuplicateFiringIndex),
        ProfileError::EngineConfig(engine::ConfigError::DuplicateFiringIndex)
    );
}

#[test]
fn active_profile_is_the_yamaha_cp3() {
    assert_eq!(engine::active_profile(), engine::yamaha_cp3::profile());
    assert_eq!(efi::active_profile(), efi::engines::yamaha_cp3::profile());
    assert_eq!(engine::active_profile().id, "Yamaha CP3");
}

#[test]
fn injection_events_respect_mode() {
    let config = engine::yamaha_cp3::profile().engine;
    assert_eq!(injection_events_per_cycle(&config), 3);

    let mut batch = config.clone();
    batch.injection_mode = InjectionMode::Batch;
    assert_eq!(injection_events_per_cycle(&batch), 2);

    let mut sim = config;
    sim.injection_mode = InjectionMode::Simultaneous;
    assert_eq!(injection_events_per_cycle(&sim), 1);
}

#[test]
fn ignition_events_respect_mode_and_plug_count() {
    let profile = engine::yamaha_cp3::profile();
    assert_eq!(ignition_events_per_cycle(&profile), 3);

    let mut wasted = profile.clone();
    wasted.engine.ignition_mode = IgnitionMode::WastedSpark;
    assert_eq!(ignition_events_per_cycle(&wasted), 2);

    let mut twin_plug = profile;
    twin_plug.spark_plugs_per_cylinder = 2;
    assert_eq!(ignition_events_per_cycle(&twin_plug), 6);
}

#[test]
fn ignition_events_saturate() {
    let mut p = engine::yamaha_cp3::profile();
    p.engine.cylinders = 200;
    p.spark_plugs_per_cylinder = 2;
    assert_eq!(ignition_events_per_cycle(&p), 255);
    p.engine.cylinders = 255;
    p.engine.ignition_mode = IgnitionMode::WastedSpark;
    p.spark_plugs_per_cylinder = 1;
    assert_eq!(ignition_events_per_cycle(&p), 128);
    p.spark_plugs_per_cylinder = 0;
    assert_eq!(ignition_events_per_cycle(&p), 0);
}

#[test]
fn cranking_pulse_is_split_per_cylinder_unless_simultaneous() {
    let mut config = engine::yamaha_cp3::profile().engine;
    assert_eq!(cranking_pulse_divisor(&config), 1);
    config.cranking_injection_mode = InjectionMode::Sequential;
    assert_eq!(cranking_pulse_divisor(&config), 3);
    config.cranking_injection_mode = InjectionMode::Batch;
    config.cylinders = 0;
    assert_eq!(cranking_pulse_divisor(&config), 1);
}

#[test]
fn batch_mode_doubles_the_running_pulse() {
    let mut config = engine::yamaha_cp3::profile().engine;
    assert_eq!(running_pulse_multiplier(&config), 1);
    config.injection_mode = InjectionMode::Batch;
    assert_eq!(running_pulse_multiplier(&config), 2);
    config.injection_mode = InjectionMode::Simultaneous;
    assert_eq!(running_pulse_multiplier(&config), 1);
}
