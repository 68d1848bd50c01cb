//! Build-time configuration: which USB interfaces the bootloader exposes.

use vstd::prelude::*;

verus! {

/// The message returned when neither interface option is enabled. It names
/// the two valid options.
pub const NO_INTERFACE_MESSAGE: &'static str = "No interface was selected. Enable at least one of the following options: picoboot, usb_mass_storage";

/// The two independent interface options chosen when the firmware is built.
/// Both may be enabled; at least one must be.
#[derive(Clone, Copy, Debug, PartialEq, Eq, Structural)]
pub struct BootOptions {
    /// Expose the USB mass-storage interface after the reset.
    pub usb_mass_storage: bool,
    /// Expose the vendor boot-protocol interface after the reset.
    pub picoboot: bool,
}

/// The single configuration error: no interface option was enabled.
#[derive(Clone, Copy, Debug, PartialEq, Eq, Structural)]
pub enum ConfigError {
    NoInterfaceSelected,
}

impl BootOptions {
    /// A configuration is valid when at least one interface is enabled.
    pub open spec fn is_valid(self) -> bool {
        self.usb_mass_storage || self.picoboot
    }

    /// The bitmask of interfaces the bootloader must disable:
    /// 0 when both interfaces are enabled, 1 when only the vendor boot
    /// protocol is, 2 when only mass storage is.
    pub open spec fn spec_disable_interface_mask(self) -> u32 {
        if self.usb_mass_storage && self.picoboot {
            0
        } else if self.picoboot {
            1
        } else {
            2
        }
    }

    /// Build a configuration from the two options, rejecting the combination
    /// in which neither interface is enabled.
    pub fn new(usb_mass_storage: bool, picoboot: bool) -> (r: Result<BootOptions, ConfigError>)
        ensures
            r is Ok <==> (usb_mass_storage || picoboot),
            r matches Ok(o) ==> o == (BootOptions { usb_mass_storage, picoboot }),
            r matches Err(e) ==> e == ConfigError::NoInterfaceSelected,
    {
        if usb_mass_storage || picoboot {
            Ok(BootOptions { usb_mass_storage, picoboot })
        } else {
            Err(ConfigError::NoInterfaceSelected)
        }
    }

    /// The bitmask handed to the ROM reset routine for this configuration.
    pub fn disable_interface_mask(&self) -> (r: u32)
        requires
            self.is_valid(),
        ensures
            r == self.spec_disable_interface_mask(),
    {
        if self.usb_mass_storage && self.picoboot {
            0
        } else if self.picoboot {
            1
        } else {
            2
        }
    }
}

impl ConfigError {
    /// A descriptive message for the error, naming the two valid options.
    pub fn message(&self) -> (r: &'static str)
        ensures
            r@ == NO_INTERFACE_MESSAGE@,
    {
        NO_INTERFACE_MESSAGE
    }
}

/// Law: over the four combinations of the two options, the disable bitmask
/// matches the configuration table exactly, and the combination with neither
/// interface enabled is the one invalid configuration.
pub proof fn lemma_mask_table(o: BootOptions)
    ensures
        o.usb_mass_storage && o.picoboot ==> o.spec_disable_interface_mask() == 0,
        !o.usb_mass_storage && o.picoboot ==> o.spec_disable_interface_mask() == 1,
        o.usb_mass_storage && !o.picoboot ==> o.spec_disable_interface_mask() == 2,
        !o.usb_mass_storage && !o.picoboot <==> !o.is_valid(),
{
}

} // verus!
