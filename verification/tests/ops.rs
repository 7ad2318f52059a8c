use mchp_gpio_ctl::hal::{
    dev_power_ctl, gpio_header_get, gpio_header_get_mode, gpio_header_set, gpio_header_set_mode,
    is_dev_power_on, is_dev_pwr_fault, pcb_revision, slg_io_get, slg_io_get_mode, slg_io_set,
    slg_io_set_mode, usb_switch_configure, usb_switch_is_connected, usb_switch_set,
};
use mchp_gpio_ctl::pins::{HalError, HeaderPin, PcbRevision, PinMode, PinState, Session, SlgPin};
use mchp_gpio_ctl::regfile::RegFile;
use mchp_gpio_ctl::regmap::{capability_map, PinCapability, GPIO0_7_DIR, GPIO17_20_DIR,
    GPIO8_10_OUT};

fn zeroed() -> RegFile {
    RegFile {
        gpio0_7_dir: 0,
        gpio0_7_out: 0,
        gpio0_7_in: 0,
        gpio8_10_dir: 0,
        gpio8_10_out: 0,
        gpio8_10_in: 0,
        gpio17_20_dir: 0,
        gpio17_20_out: 0,
        gpio17_20_in: 0,
    }
}

/// A session whose detection saw the revision strap high.
fn revc_session() -> Session {
    let mut session = Session::new();
    let mut regs = zeroed();
    regs.gpio8_10_in = 0x02;
    let rev = pcb_revision(&mut session, &regs);
    assert_eq!(rev, PcbRevision::RevC);
    session
}

/// A session whose detection saw the revision strap low.
fn revab_session() -> Session {
    let mut session = Session::new();
    let regs = zeroed();
    let rev = pcb_revision(&mut session, &regs);
    assert_eq!(rev, PcbRevision::RevAorB);
    session
}

#[test]
fn power_round_trip_on() {
    let mut regs = zeroed();
    dev_power_ctl(&mut regs, true);
    assert!(is_dev_power_on(&regs));
}

#[test]
fn power_round_trip_off() {
    let mut regs = zeroed();
    dev_power_ctl(&mut regs, false);
    assert!(!is_dev_power_on(&regs));
}

#[test]
fn power_round_trip_from_arbitrary_state() {
    for dir in [0x00u8, 0xffu8, 0xa5u8] {
        for out in [0x00u8, 0xffu8, 0x5au8] {
            let mut regs = zeroed();
            regs.gpio0_7_dir = dir;
            regs.gpio0_7_out = out;
            dev_power_ctl(&mut regs, true);
            assert!(is_dev_power_on(&regs));
            dev_power_ctl(&mut regs, false);
            assert!(!is_dev_power_on(&regs));
        }
    }
}

#[test]
fn power_on_drives_output_bit_low() {
    let mut regs = zeroed();
    regs.gpio0_7_out = 0x01;
    dev_power_ctl(&mut regs, true);
    assert_eq!(regs.gpio0_7_out & 0x01, 0);
}

#[test]
fn power_off_drives_output_bit_high() {
    let mut regs = zeroed();
    dev_power_ctl(&mut regs, false);
    assert_eq!(regs.gpio0_7_out & 0x01, 0x01);
}

#[test]
fn power_ctl_leaves_unrelated_bits_alone() {
    let mut regs = zeroed();
    regs.gpio0_7_dir = 0xaa;
    regs.gpio0_7_out = 0x54;
    regs.gpio17_20_dir = 0x0f;
    dev_power_ctl(&mut regs, true);
    // Direction gains only bit 0; the output's bit 0 was already 0.
    assert_eq!(regs.gpio0_7_dir, 0xab);
    assert_eq!(regs.gpio0_7_out, 0x54);
    assert_eq!(regs.gpio17_20_dir, 0x0f);
}

#[test]
fn power_defaults_on_with_cleared_output() {
    // The pin is pulled so that a never-configured (all-zero) output
    // register reads back as power on.
    let regs = zeroed();
    assert!(is_dev_power_on(&regs));
}

#[test]
fn modify_register_changes_only_the_target_bit() {
    for initial in [0x00u8, 0xffu8, 0xa5u8, 0x5au8] {
        for bit in 0u8..8u8 {
            for on in [false, true] {
                let mut regs = zeroed();
                regs.gpio8_10_out = initial;
                regs.modify_register(GPIO8_10_OUT, bit, on);
                let expected = if on {
                    initial | (1u8 << bit)
                } else {
                    initial & !(1u8 << bit)
                };
                assert_eq!(regs.gpio8_10_out, expected);
                // Every other register of the file is untouched.
                assert_eq!(regs.gpio0_7_dir, 0);
                assert_eq!(regs.gpio0_7_out, 0);
                assert_eq!(regs.gpio8_10_dir, 0);
                assert_eq!(regs.gpio17_20_out, 0);
            }
        }
    }
}

#[test]
fn fault_sense_reads_active_low_and_forces_input() {
    let mut regs = zeroed();
    regs.gpio8_10_dir = 0x04;
    // Fault line low: a fault is present.
    assert!(is_dev_pwr_fault(&mut regs));
    // The sense forced the fault pin's direction bit to input.
    assert_eq!(regs.gpio8_10_dir & 0x04, 0);

    let mut regs = zeroed();
    regs.gpio8_10_in = 0x04;
    assert!(!is_dev_pwr_fault(&mut regs));
}

#[test]
fn detect_revision_reads_strap() {
    let mut session = Session::new();
    let mut regs = zeroed();
    regs.gpio8_10_in = 0x02;
    assert_eq!(pcb_revision(&mut session, &regs), PcbRevision::RevC);

    let mut session = Session::new();
    let regs = zeroed();
    assert_eq!(pcb_revision(&mut session, &regs), PcbRevision::RevAorB);
}

#[test]
fn detect_revision_is_stable_within_a_session() {
    let mut session = Session::new();
    let mut regs = zeroed();
    regs.gpio8_10_in = 0x02;
    let first = pcb_revision(&mut session, &regs);
    // Even if the strap register were to read differently later, the
    // session keeps reporting the first detection.
    regs.gpio8_10_in = 0x00;
    let second = pcb_revision(&mut session, &regs);
    assert_eq!(first, second);
    let third = pcb_revision(&mut session, &regs);
    assert_eq!(first, third);
}

#[test]
fn note_revision_first_one_wins() {
    let mut session = Session::new();
    session.note_revision(PcbRevision::RevAorB);
    session.note_revision(PcbRevision::RevC);
    assert_eq!(session.revision(), Some(PcbRevision::RevAorB));
}

#[test]
fn header_set_mode_sets_exactly_the_mapped_bit() {
    let session = revc_session();
    let mut regs = zeroed();
    let r = gpio_header_set_mode(&session, &mut regs, HeaderPin::P0, PinMode::Output);
    assert_eq!(r, Ok(()));
    // Header pin 0 sits on PIO 19: bit 2 of the 17..=20 bank, and
    // nothing else moved.
    assert_eq!(regs.gpio17_20_dir, 0x04);
    assert_eq!(regs.gpio17_20_out, 0);
    assert_eq!(regs.gpio0_7_dir, 0);
    assert_eq!(regs.gpio8_10_dir, 0);
}

#[test]
fn header_set_mode_round_trips_through_get_mode() {
    let session = revc_session();
    let mut regs = zeroed();
    gpio_header_set_mode(&session, &mut regs, HeaderPin::P1, PinMode::Output).unwrap();
    assert_eq!(
        gpio_header_get_mode(&session, &regs, HeaderPin::P1),
        Ok(PinMode::Output)
    );
    gpio_header_set_mode(&session, &mut regs, HeaderPin::P1, PinMode::Input).unwrap();
    assert_eq!(
        gpio_header_get_mode(&session, &regs, HeaderPin::P1),
        Ok(PinMode::Input)
    );
}

#[test]
fn header_set_on_input_pin_is_refused_without_writing() {
    let session = revc_session();
    let mut regs = zeroed();
    let before = regs;
    let r = gpio_header_set(&session, &mut regs, HeaderPin::P0, PinState::High);
    assert_eq!(r, Err(HalError::ModeMismatch));
    assert_eq!(regs, before);
}

#[test]
fn header_set_drives_the_output_bit() {
    let session = revc_session();
    let mut regs = zeroed();
    gpio_header_set_mode(&session, &mut regs, HeaderPin::P1, PinMode::Output).unwrap();
    let r = gpio_header_set(&session, &mut regs, HeaderPin::P1, PinState::High);
    assert_eq!(r, Ok(()));
    assert_eq!(regs.gpio17_20_out, 0x08);
    assert_eq!(
        gpio_header_get(&session, &regs, HeaderPin::P1),
        Ok(PinState::High)
    );
    gpio_header_set(&session, &mut regs, HeaderPin::P1, PinState::Low).unwrap();
    assert_eq!(regs.gpio17_20_out, 0);
    assert_eq!(
        gpio_header_get(&session, &regs, HeaderPin::P1),
        Ok(PinState::Low)
    );
}

#[test]
fn header_get_senses_input_register_in_input_mode() {
    let session = revc_session();
    let mut regs = zeroed();
    regs.gpio17_20_in = 0x04;
    regs.gpio17_20_out = 0x00;
    // Input mode: the sensed level decides.
    assert_eq!(
        gpio_header_get(&session, &regs, HeaderPin::P0),
        Ok(PinState::High)
    );
    // Output mode: the driven level decides, the sensed one is ignored.
    regs.gpio17_20_dir = 0x04;
    assert_eq!(
        gpio_header_get(&session, &regs, HeaderPin::P0),
        Ok(PinState::Low)
    );
}

#[test]
fn header_ops_unsupported_before_revc() {
    let session = revab_session();
    let mut regs = zeroed();
    let before = regs;
    assert_eq!(
        gpio_header_set_mode(&session, &mut regs, HeaderPin::P0, PinMode::Output),
        Err(HalError::UnsupportedOnRevision)
    );
    assert_eq!(
        gpio_header_get_mode(&session, &regs, HeaderPin::P0),
        Err(HalError::UnsupportedOnRevision)
    );
    assert_eq!(
        gpio_header_set(&session, &mut regs, HeaderPin::P0, PinState::High),
        Err(HalError::UnsupportedOnRevision)
    );
    assert_eq!(
        gpio_header_get(&session, &regs, HeaderPin::P0),
        Err(HalError::UnsupportedOnRevision)
    );
    assert_eq!(regs, before);
}

#[test]
fn slg_set_on_input_pin_is_refused_without_writing() {
    let session = revc_session();
    let mut regs = zeroed();
    let before = regs;
    let r = slg_io_set(&session, &mut regs, SlgPin::SlgIo0, PinState::High);
    assert_eq!(r, Err(HalError::ModeMismatch));
    assert_eq!(regs, before);
}

#[test]
fn slg_lines_drive_and_read_active_high() {
    let session = revc_session();
    let mut regs = zeroed();
    // SlgIo0 sits on PIO 8: bit 0 of the 8..=10 bank.
    slg_io_set_mode(&session, &mut regs, SlgPin::SlgIo0, PinMode::Output).unwrap();
    assert_eq!(regs.gpio8_10_dir & 0x01, 0x01);
    assert_eq!(
        slg_io_get_mode(&session, &regs, SlgPin::SlgIo0),
        Ok(PinMode::Output)
    );
    slg_io_set(&session, &mut regs, SlgPin::SlgIo0, PinState::High).unwrap();
    assert_eq!(regs.gpio8_10_out & 0x01, 0x01);
    assert_eq!(
        slg_io_get(&session, &regs, SlgPin::SlgIo0),
        Ok(PinState::High)
    );
    // SlgIo1 sits on PIO 3: bit 3 of the 0..=7 bank.
    slg_io_set_mode(&session, &mut regs, SlgPin::SlgIo1, PinMode::Output).unwrap();
    slg_io_set(&session, &mut regs, SlgPin::SlgIo1, PinState::High).unwrap();
    assert_eq!(regs.gpio0_7_out & 0x08, 0x08);
}

#[test]
fn slg_ops_unsupported_before_revc() {
    let session = revab_session();
    let mut regs = zeroed();
    assert_eq!(
        slg_io_set_mode(&session, &mut regs, SlgPin::SlgIo0, PinMode::Output),
        Err(HalError::UnsupportedOnRevision)
    );
    assert_eq!(
        slg_io_get(&session, &regs, SlgPin::SlgIo1),
        Err(HalError::UnsupportedOnRevision)
    );
}

#[test]
fn usb_switch_configure_enables_output() {
    let session = revc_session();
    let mut regs = zeroed();
    assert_eq!(usb_switch_configure(&session, &mut regs), Ok(()));
    assert_eq!(regs.gpio0_7_dir, 0x02);
}

#[test]
fn usb_switch_set_drives_inverted() {
    let session = revc_session();
    let mut regs = zeroed();
    usb_switch_configure(&session, &mut regs).unwrap();
    // Connecting drives the underlying (active-low) bit to 0.
    assert_eq!(usb_switch_set(&session, &mut regs, true), Ok(()));
    assert_eq!(regs.gpio0_7_out & 0x02, 0);
    assert_eq!(usb_switch_is_connected(&session, &regs), Ok(true));
    // Disconnecting drives it to 1.
    assert_eq!(usb_switch_set(&session, &mut regs, false), Ok(()));
    assert_eq!(regs.gpio0_7_out & 0x02, 0x02);
    assert_eq!(usb_switch_is_connected(&session, &regs), Ok(false));
}

#[test]
fn usb_switch_set_on_input_pin_is_refused_without_writing() {
    let session = revc_session();
    let mut regs = zeroed();
    let before = regs;
    let r = usb_switch_set(&session, &mut regs, true);
    assert_eq!(r, Err(HalError::ModeMismatch));
    assert_eq!(regs, before);
}

#[test]
fn usb_switch_unsupported_before_revc() {
    let session = revab_session();
    let mut regs = zeroed();
    let before = regs;
    assert_eq!(
        usb_switch_set(&session, &mut regs, true),
        Err(HalError::UnsupportedOnRevision)
    );
    assert_eq!(
        usb_switch_configure(&session, &mut regs),
        Err(HalError::UnsupportedOnRevision)
    );
    assert_eq!(
        usb_switch_is_connected(&session, &regs),
        Err(HalError::UnsupportedOnRevision)
    );
    assert_eq!(regs, before);
}

#[test]
fn usb_switch_sense_prefers_a_high_input_level() {
    let session = revc_session();
    let mut regs = zeroed();
    // A high sensed level means disconnected whatever the output holds.
    regs.gpio0_7_in = 0x02;
    assert_eq!(usb_switch_is_connected(&session, &regs), Ok(false));
    regs.gpio0_7_out = 0x02;
    assert_eq!(usb_switch_is_connected(&session, &regs), Ok(false));
}

#[test]
fn capability_map_is_gated_by_revision() {
    assert!(capability_map(PcbRevision::RevAorB, PinCapability::PowerEnable).is_some());
    assert!(capability_map(PcbRevision::RevAorB, PinCapability::UsbSwitch).is_none());
    assert!(capability_map(PcbRevision::RevAorB, PinCapability::Header(HeaderPin::P0)).is_none());
    assert!(capability_map(PcbRevision::RevC, PinCapability::UsbSwitch).is_some());
    assert!(
        capability_map(PcbRevision::RevC, PinCapability::ForceMode(SlgPin::SlgIo1)).is_some()
    );
}

#[test]
fn dir_register_addresses_are_distinct() {
    assert_ne!(GPIO0_7_DIR, GPIO17_20_DIR);
}
