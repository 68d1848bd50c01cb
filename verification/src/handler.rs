//! The panic handler's decisions: what to look up in the ROM and what
//! arguments to pass, and the terminal state machine it follows.

use vstd::prelude::*;
use crate::config::BootOptions;
use crate::rom::RESET_TO_USB_BOOT_CODE_0;
use crate::rom::RESET_TO_USB_BOOT_CODE_1;
use crate::rom::spec_table_code_key;
use crate::rom::table_code_key;

verus! {

/// The fault description the runtime hands to the handler. The handler
/// accepts it and ignores it entirely: no formatting, no output.
pub struct FaultInfo {
    /// The fault message, if the runtime supplies one.
    pub message: Option<String>,
}

/// The two arguments of the ROM reset routine: a reserved first argument,
/// always zero, and the bitmask of interfaces to disable.
#[derive(Clone, Copy, Debug, PartialEq, Eq, Structural)]
pub struct ResetCall {
    /// Reserved by the ROM; the handler always passes zero.
    pub reserved: u32,
    /// Which USB interfaces the bootloader must not expose.
    pub disable_interface_mask: u32,
}

/// Everything the bare-metal shim needs to redirect into the bootloader:
/// the key under which the reset routine stands in the ROM's function table,
/// and the two arguments to call it with.
#[derive(Clone, Copy, Debug, PartialEq, Eq, Structural)]
pub struct ResetPlan {
    /// The lookup key of the reset-to-USB-boot routine.
    pub lookup_key: u32,
    /// The arguments of the reset call.
    pub call: ResetCall,
}

/// The plan a valid configuration determines: the reset-to-USB-boot key,
/// a zero reserved argument, and the configuration's bitmask.
pub open spec fn spec_reset_plan(o: BootOptions) -> ResetPlan {
    ResetPlan {
        lookup_key: spec_table_code_key(RESET_TO_USB_BOOT_CODE_0, RESET_TO_USB_BOOT_CODE_1),
        call: ResetCall { reserved: 0, disable_interface_mask: o.spec_disable_interface_mask() },
    }
}

/// Decide what the handler does on a fault. The fault description plays no
/// part: the plan depends on the configuration alone, its reserved argument
/// is zero whatever the bitmask, and its bitmask follows the configuration
/// table.
pub fn handle_fault(_info: &FaultInfo, opts: &BootOptions) -> (r: ResetPlan)
    requires
        opts.is_valid(),
    ensures
        r == spec_reset_plan(*opts),
        r.call.reserved == 0,
        r.call.disable_interface_mask == opts.spec_disable_interface_mask(),
        r.lookup_key == spec_table_code_key(RESET_TO_USB_BOOT_CODE_0, RESET_TO_USB_BOOT_CODE_1),
{
    let key: u32 = table_code_key(RESET_TO_USB_BOOT_CODE_0, RESET_TO_USB_BOOT_CODE_1);
    let mask: u32 = opts.disable_interface_mask();
    ResetPlan { lookup_key: key, call: ResetCall { reserved: 0, disable_interface_mask: mask } }
}

/// The handler's trivial state machine: normal execution, and the terminal
/// state in which the device is being reset into the bootloader.
#[derive(Clone, Copy, Debug, PartialEq, Eq, Structural)]
pub enum HandlerState {
    /// The program runs normally.
    Running,
    /// A fault occurred and the handler has taken over; terminal.
    ResettingToBootloader,
}

/// One step of the state machine: a fault leaves `Running` for
/// `ResettingToBootloader`, and the resetting state never leaves, whether or
/// not another fault arrives.
pub open spec fn spec_step(s: HandlerState, fault: bool) -> HandlerState {
    match s {
        HandlerState::Running => if fault {
            HandlerState::ResettingToBootloader
        } else {
            HandlerState::Running
        },
        HandlerState::ResettingToBootloader => HandlerState::ResettingToBootloader,
    }
}

/// The state after a sequence of steps, each step marked by whether a fault
/// arrived during it.
pub open spec fn spec_run(s: HandlerState, faults: Seq<bool>) -> HandlerState
    decreases faults.len(),
{
    if faults.len() == 0 {
        s
    } else {
        spec_run(spec_step(s, faults[0]), faults.subrange(1, faults.len() as int))
    }
}

/// The step the bare-metal shim takes when a fault arrives.
pub fn on_fault(s: HandlerState) -> (r: HandlerState)
    ensures
        r == spec_step(s, true),
        r == HandlerState::ResettingToBootloader,
{
    HandlerState::ResettingToBootloader
}

/// Law: once the handler is invoked, control never returns to normal
/// execution. A fault moves any state to `ResettingToBootloader`, and from
/// there every later sequence of steps, with or without further faults,
/// stays there: no transition leads back to `Running`.
pub proof fn lemma_handler_never_returns(s: HandlerState, later: Seq<bool>)
    ensures
        spec_step(s, true) == HandlerState::ResettingToBootloader,
        spec_run(HandlerState::ResettingToBootloader, later) == HandlerState::ResettingToBootloader,
    decreases later.len(),
{
    if later.len() > 0 {
        lemma_handler_never_returns(s, later.subrange(1, later.len() as int));
    }
}

} // verus!
