use panic_usb_boot::config::BootOptions;
use panic_usb_boot::config::ConfigError;
use panic_usb_boot::config::NO_INTERFACE_MESSAGE;
use panic_usb_boot::handler::FaultInfo;
use panic_usb_boot::handler::HandlerState;
use panic_usb_boot::handler::handle_fault;
use panic_usb_boot::handler::on_fault;
use panic_usb_boot::rom::FUNC_TABLE_ADDR;
use panic_usb_boot::rom::RESET_TO_USB_BOOT_CODE_0;
use panic_usb_boot::rom::RESET_TO_USB_BOOT_CODE_1;
use panic_usb_boot::rom::ROM_TABLE_LOOKUP_PTR_ADDR;
use panic_usb_boot::rom::table_code_key;

fn valid_options(usb_mass_storage: bool, picoboot: bool) -> BootOptions {
    BootOptions::new(usb_mass_storage, picoboot).unwrap()
}

#[test]
fn mask_both_interfaces_enabled() {
    let o = valid_options(true, true);
    assert_eq!(o.disable_interface_mask(), 0);
}

#[test]
fn mask_picoboot_only() {
    let o = valid_options(false, true);
    assert_eq!(o.disable_interface_mask(), 1);
}

#[test]
fn mask_mass_storage_only() {
    let o = valid_options(true, false);
    assert_eq!(o.disable_interface_mask(), 2);
}

#[test]
fn neither_interface_is_rejected() {
    let r = BootOptions::new(false, false);
    assert_eq!(r, Err(ConfigError::NoInterfaceSelected));
}

#[test]
fn error_message_names_both_options() {
    let e = BootOptions::new(false, false).unwrap_err();
    let msg = e.message();
    assert_eq!(msg, NO_INTERFACE_MESSAGE);
    assert!(msg.contains("picoboot"));
    assert!(msg.contains("usb_mass_storage"));
}

#[test]
fn rom_constants_match_the_bootrom_contents() {
    assert_eq!(ROM_TABLE_LOOKUP_PTR_ADDR, 0x18);
    assert_eq!(FUNC_TABLE_ADDR, 0x14);
    assert_eq!(RESET_TO_USB_BOOT_CODE_0, b'U');
    assert_eq!(RESET_TO_USB_BOOT_CODE_1, b'B');
}

#[test]
fn lookup_key_is_little_endian() {
    let k = table_code_key(RESET_TO_USB_BOOT_CODE_0, RESET_TO_USB_BOOT_CODE_1);
    assert_eq!(k, u16::from_le_bytes(*b"UB") as u32);
    assert_eq!(k, 0x4255);
    assert_eq!(table_code_key(0x00, 0x00), 0);
    assert_eq!(table_code_key(0xff, 0xff), 0xffff);
}

#[test]
fn reserved_argument_is_zero_for_every_mask() {
    let info = FaultInfo { message: None };
    for (usb_mass_storage, picoboot) in [(true, true), (false, true), (true, false)] {
        let o = valid_options(usb_mass_storage, picoboot);
        let plan = handle_fault(&info, &o);
        assert_eq!(plan.call.reserved, 0);
    }
}

#[test]
fn plan_mask_follows_the_table() {
    let info = FaultInfo { message: None };
    assert_eq!(handle_fault(&info, &valid_options(true, true)).call.disable_interface_mask, 0);
    assert_eq!(handle_fault(&info, &valid_options(false, true)).call.disable_interface_mask, 1);
    assert_eq!(handle_fault(&info, &valid_options(true, false)).call.disable_interface_mask, 2);
}

#[test]
fn fault_description_is_ignored() {
    let o = valid_options(true, true);
    let silent = handle_fault(&FaultInfo { message: None }, &o);
    let chatty = handle_fault(&FaultInfo { message: Some(String::from("index out of bounds")) }, &o);
    assert_eq!(silent, chatty);
}

#[test]
fn fault_state_is_terminal() {
    let s = on_fault(HandlerState::Running);
    assert_eq!(s, HandlerState::ResettingToBootloader);
    let s = on_fault(s);
    assert_eq!(s, HandlerState::ResettingToBootloader);
}

#[test]
fn mass_storage_build_end_to_end() {
    // Build with mass storage enabled and the vendor protocol disabled,
    // trigger a fault, and observe one reset invocation with bitmask 2 and
    // a zero reserved argument before the handler would loop.
    let o = valid_options(true, false);
    let info = FaultInfo { message: Some(String::from("unrecoverable fault")) };
    let plan = handle_fault(&info, &o);
    assert_eq!(plan.lookup_key, 0x4255);
    assert_eq!(plan.call.reserved, 0);
    assert_eq!(plan.call.disable_interface_mask, 2);
    let s = on_fault(HandlerState::Running);
    assert_eq!(s, HandlerState::ResettingToBootloader);
}
