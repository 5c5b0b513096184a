use sigma_racer_efi::board::bor::{self, BorLevel};
use sigma_racer_efi::board::tle8888::command::{
    CMD_CHIP_UNLOCK, CMD_OE_CLR, CMD_OE_SET, CMD_SR, CMD_WRITE, CMD_WWDSERVICECMD,
    DEFAULT_INCONFIG, INIT_SAFE, INIT_SAFE_LEN, cmd_ddconfig, cmd_inconfig, cmd_oeconfig,
    cmd_outconfig, cmd_r, cmd_vrsconfig, cmd_w, data_from_cmd, register_from_cmd,
};
use sigma_racer_efi::pins::{BoardPins, GpioPin, GpioPort, TleOutput};

#[test]
fn target_bor_is_not_off() {
    assert_ne!(BorLevel::TARGET, BorLevel::Off);
}

#[test]
fn bor_levels_below_target_need_programming() {
    assert!(BorLevel::needs_programming(BorLevel::Off));
    assert!(BorLevel::needs_programming(BorLevel::Level2));
    assert!(!BorLevel::needs_programming(BorLevel::Level3));
    assert_eq!(BorLevel::from_field(0), BorLevel::Off);
    assert_eq!(BorLevel::from_field(2), BorLevel::Level2);
    assert_eq!(BorLevel::from_field(7), BorLevel::Level3);
    assert_eq!(BorLevel::Level1.value(), 1);
    assert_eq!(BorLevel::target_field_bits(), 0x0c);
}

#[test]
fn option_byte_merge_touches_only_the_field() {
    let field = BorLevel::target_field_bits();
    assert_eq!(bor::option_bytes_merge(0xffff_aaa1, bor::OPTCR_BOR_LEV_MASK, field), Some(0xffff_aaad));
    assert_eq!(bor::option_bytes_merge(0x0000_00ed, bor::OPTCR_BOR_LEV_MASK, field), None);
}

#[test]
fn write_command_encoding_matches_rusefi_macros() {
    assert_eq!(CMD_WWDSERVICECMD, cmd_w(0x15, 0x03));
    assert_eq!(CMD_CHIP_UNLOCK, cmd_w(0x1e, 0x01));
    assert_eq!(CMD_OE_CLR, cmd_w(0x1c, 0x01));
}

#[test]
fn read_command_has_write_bit_clear() {
    let read_status = cmd_r(0x1a);
    assert_eq!(read_status & CMD_WRITE, 0);
    assert_eq!(register_from_cmd(read_status), 0x1a);
}

#[test]
fn init_safe_ends_with_output_enable_clear() {
    assert_eq!(INIT_SAFE.last(), Some(&CMD_OE_CLR));
}

#[test]
fn command_fields_round_trip() {
    let w = cmd_w(0xff, 0xa5);
    assert_eq!(w, 0xa5ff);
    assert_eq!(register_from_cmd(w), 0x7f);
    assert_eq!(data_from_cmd(w), 0xa5);
    assert_eq!(CMD_SR, cmd_w(0x1a, 0x03));
    assert_eq!(CMD_OE_SET, cmd_w(0x1c, 0x02));
    assert_eq!(cmd_inconfig(5, 7), cmd_w(0x54, 7));
    assert_eq!(cmd_vrsconfig(1, 0), cmd_w(0x4a, 0));
}

#[test]
fn init_safe_is_the_documented_sequence() {
    let expected = [
        CMD_CHIP_UNLOCK,
        cmd_inconfig(0, DEFAULT_INCONFIG),
        cmd_inconfig(1, DEFAULT_INCONFIG),
        cmd_inconfig(2, DEFAULT_INCONFIG),
        cmd_inconfig(3, DEFAULT_INCONFIG),
        cmd_outconfig(0, (1 << 7) | (1 << 5) | (1 << 3) | (1 << 1)),
        cmd_outconfig(1, (1 << 5) | (1 << 3) | (1 << 1)),
        cmd_outconfig(2, 0),
        cmd_outconfig(3, 1 << 5),
        cmd_outconfig(4, (1 << 5) | (1 << 3) | (1 << 1)),
        cmd_outconfig(5, (1 << 5) | (1 << 3) | (1 << 1)),
        cmd_oeconfig(0, 0),
        cmd_ddconfig(0, 0),
        cmd_oeconfig(1, 0),
        cmd_ddconfig(1, 0),
        cmd_oeconfig(2, 0),
        cmd_ddconfig(2, 0),
        cmd_oeconfig(3, 0),
        cmd_ddconfig(3, 0),
        cmd_vrsconfig(1, 0),
        CMD_OE_CLR,
    ];
    assert_eq!(INIT_SAFE, expected);
    assert_eq!(INIT_SAFE.len(), INIT_SAFE_LEN);
}

#[test]
fn ignition_pins_match_rusefi_board_config() {
    let pins = BoardPins::mre_f7();
    assert_eq!(pins.ignition[0], GpioPin::new(GpioPort::D, 4));
    assert_eq!(pins.ignition[3], GpioPin::new(GpioPort::D, 1));
}

#[test]
fn tle8888_enables_match_mre_wiring() {
    let pins = BoardPins::mre_f7();
    assert_eq!(pins.tle8888_inj_en, GpioPin::new(GpioPort::D, 11));
    assert_eq!(pins.tle8888_ign_en, GpioPin::new(GpioPort::D, 10));
}

#[test]
fn etb_disable_is_tle9201_dis_pin() {
    let pins = BoardPins::mre_f7();
    assert_eq!(pins.etb_disable, GpioPin::new(GpioPort::C, 8));
}

#[test]
fn output_roles_describe_their_connector_pins() {
    assert_eq!(TleOutput::Injector1.default_function(), "Injector 1 (pin 37)");
    assert_eq!(TleOutput::GpOut1.default_function(), "Fuel pump (pin 35)");
    assert_eq!(TleOutput::LowSide2.default_function(), "Idle IAC solenoid (pin 3)");
}
