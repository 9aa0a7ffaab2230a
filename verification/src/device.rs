//! Virtual pointing-device registration: identity, capability declarations,
//! and the ordered control-operation plans for construction and teardown.
//!
//! A virtual input device is registered through the kernel's uinput control
//! node by a fixed sequence of control operations: declare the key event
//! class, declare each button the device must report, hand over the device
//! identity, and finalize creation. Teardown revokes the registration before
//! the handle is closed. Construction is all-or-nothing: a failure of any
//! operation fails the whole construction, and the caller maps the failed
//! operation to a typed error here.

use crate::events::{Button, EVENT_CLASS_KEY};
use vstd::bytes::*;
use vstd::prelude::*;

verus! {

/// Control code of "declare an event class" (`UI_SET_EVBIT`).
pub const IOCTL_SET_EVENT_BIT: u64 = 0x40045564;

/// Control code of "declare a reportable key" (`UI_SET_KEYBIT`).
pub const IOCTL_SET_KEY_BIT: u64 = 0x40045565;

/// Control code of "set the device identity" (`UI_DEV_SETUP`).
pub const IOCTL_DEVICE_SETUP: u64 = 0x405C5503;

/// Control code of "finalize device creation" (`UI_DEV_CREATE`).
pub const IOCTL_DEVICE_CREATE: u64 = 0x5501;

/// Control code of "revoke the device registration" (`UI_DEV_DESTROY`).
pub const IOCTL_DEVICE_DESTROY: u64 = 0x5502;

/// Bus type reported for virtual devices (`BUS_USB`).
pub const BUS_TYPE_USB: u16 = 0x03;

/// Length of the fixed device-name buffer in the identity image.
pub const NAME_BUFFER_LEN: usize = 80;

/// One control operation on the uinput handle. Operations carry plain
/// values only; the caller turns each into one device-control call.
#[derive(Clone, Copy, Debug, PartialEq, Eq, Structural)]
pub enum ControlOp {
    /// Declare that the device reports events of the given class.
    SetEventBit(u16),
    /// Declare that the device can report the key with the given code.
    SetKeyBit(u16),
    /// Hand the encoded device identity to the kernel.
    DeviceSetup,
    /// Finalize creation, so the kernel instantiates the device node.
    DeviceCreate,
    /// Revoke the device registration.
    DeviceDestroy,
}

impl ControlOp {
    /// The control code the kernel expects for this operation.
    pub open spec fn spec_request_code(self) -> u64 {
        match self {
            ControlOp::SetEventBit(_) => IOCTL_SET_EVENT_BIT,
            ControlOp::SetKeyBit(_) => IOCTL_SET_KEY_BIT,
            ControlOp::DeviceSetup => IOCTL_DEVICE_SETUP,
            ControlOp::DeviceCreate => IOCTL_DEVICE_CREATE,
            ControlOp::DeviceDestroy => IOCTL_DEVICE_DESTROY,
        }
    }

    /// Returns the control code the kernel expects for this operation.
    pub fn request_code(&self) -> (r: u64)
        ensures
            r == self.spec_request_code(),
    {
        match self {
            ControlOp::SetEventBit(_) => IOCTL_SET_EVENT_BIT,
            ControlOp::SetKeyBit(_) => IOCTL_SET_KEY_BIT,
            ControlOp::DeviceSetup => IOCTL_DEVICE_SETUP,
            ControlOp::DeviceCreate => IOCTL_DEVICE_CREATE,
            ControlOp::DeviceDestroy => IOCTL_DEVICE_DESTROY,
        }
    }

    /// The integer argument of this operation: the event class or key code
    /// for the two declaration operations, nothing for the others (device
    /// setup passes the encoded identity instead, creation and teardown
    /// take no argument).
    pub open spec fn spec_int_arg(self) -> Option<i32> {
        match self {
            ControlOp::SetEventBit(class) => Some(class as i32),
            ControlOp::SetKeyBit(code) => Some(code as i32),
            ControlOp::DeviceSetup => None,
            ControlOp::DeviceCreate => None,
            ControlOp::DeviceDestroy => None,
        }
    }

    /// Returns the integer argument of this operation, if it takes one.
    pub fn int_arg(&self) -> (r: Option<i32>)
        ensures
            r == self.spec_int_arg(),
    {
        match self {
            ControlOp::SetEventBit(class) => Some(*class as i32),
            ControlOp::SetKeyBit(code) => Some(*code as i32),
            ControlOp::DeviceSetup => None,
            ControlOp::DeviceCreate => None,
            ControlOp::DeviceDestroy => None,
        }
    }
}

/// A construction or emission failure, carrying the underlying OS error
/// code. Emission failures also carry which of the four record writes of a
/// click failed.
#[derive(Clone, Copy, Debug, PartialEq, Eq, Structural)]
pub enum DeviceError {
    /// Opening the uinput control node failed.
    DeviceOpenFailed(i32),
    /// Declaring an event class or a key capability failed.
    CapabilityDeclarationFailed(i32),
    /// Handing over the device identity failed.
    DeviceSetupFailed(i32),
    /// Finalizing device creation failed.
    DeviceCreateFailed(i32),
    /// Writing one of the four records of a click failed; the second field
    /// is the index of the failed write in the click sequence.
    EventWriteFailed(i32, usize),
}

/// Maps a failed construction-time control operation to the typed error of
/// its construction step, carrying the OS error code.
pub fn construction_error(op: &ControlOp, os_error: i32) -> (r: DeviceError)
    requires
        !(op is DeviceDestroy),
    ensures
        (op is SetEventBit || op is SetKeyBit) ==> r == DeviceError::CapabilityDeclarationFailed(
            os_error,
        ),
        op is DeviceSetup ==> r == DeviceError::DeviceSetupFailed(os_error),
        op is DeviceCreate ==> r == DeviceError::DeviceCreateFailed(os_error),
{
    match op {
        ControlOp::SetEventBit(_) => DeviceError::CapabilityDeclarationFailed(os_error),
        ControlOp::SetKeyBit(_) => DeviceError::CapabilityDeclarationFailed(os_error),
        ControlOp::DeviceSetup => DeviceError::DeviceSetupFailed(os_error),
        ControlOp::DeviceCreate => DeviceError::DeviceCreateFailed(os_error),
        // Excluded by the precondition: teardown failures are best-effort
        // reported by the caller, never mapped to a construction error.
        ControlOp::DeviceDestroy => DeviceError::DeviceCreateFailed(os_error),
    }
}

/// The identity tuple of a virtual device: bus type, vendor id, product id,
/// version, and a display name of at most `NAME_BUFFER_LEN` bytes (longer
/// names are truncated, shorter ones null-padded, when encoded).
pub struct DeviceIdentity {
    /// Bus type (`BUS_TYPE_USB` for virtual devices).
    pub bus_type: u16,
    /// Vendor id: arbitrary but stable.
    pub vendor: u16,
    /// Product id: arbitrary but stable.
    pub product: u16,
    /// Version number.
    pub version: u16,
    /// Display name, as ASCII bytes.
    pub name: Vec<u8>,
}

/// The fixed name buffer: the first `NAME_BUFFER_LEN` bytes of the name,
/// null-padded to exactly `NAME_BUFFER_LEN` bytes.
pub open spec fn padded_name(name: Seq<u8>) -> Seq<u8> {
    Seq::new(
        NAME_BUFFER_LEN as nat,
        |i: int| if i < name.len() { name[i] } else { 0u8 },
    )
}

/// Builds the fixed name buffer from a name: truncated to the buffer
/// length, null-padded up to it.
pub fn name_buffer(name: &Vec<u8>) -> (b: Vec<u8>)
    ensures
        b@ == padded_name(name@),
        b@.len() == NAME_BUFFER_LEN,
{
    let mut b: Vec<u8> = Vec::new();
    let mut i: usize = 0;
    while i < NAME_BUFFER_LEN
        invariant
            i <= NAME_BUFFER_LEN,
            b@.len() == i,
            forall|j: int| 0 <= j < i ==> b@[j] == padded_name(name@)[j],
        decreases NAME_BUFFER_LEN - i,
    {
        if i < name.len() {
            b.push(name[i]);
        } else {
            b.push(0);
        }
        i = i + 1;
    }
    proof {
        assert(b@ =~= padded_name(name@));
    }
    b
}

/// The binary image of the device identity, as `UI_DEV_SETUP` expects it:
/// bus type, vendor, product, version (each 16-bit little-endian), the
/// fixed name buffer, and a 32-bit zero effect count, 92 bytes in all.
pub open spec fn identity_bytes(
    bus_type: u16,
    vendor: u16,
    product: u16,
    version: u16,
    name: Seq<u8>,
) -> Seq<u8> {
    spec_u16_to_le_bytes(bus_type) + spec_u16_to_le_bytes(vendor) + spec_u16_to_le_bytes(product)
        + spec_u16_to_le_bytes(version) + padded_name(name) + spec_u32_to_le_bytes(0)
}

/// The ASCII bytes of the default display name, "VirtualMouse".
pub open spec fn default_name_bytes() -> Seq<u8> {
    seq![0x56u8, 0x69, 0x72, 0x74, 0x75, 0x61, 0x6C, 0x4D, 0x6F, 0x75, 0x73, 0x65]
}

impl DeviceIdentity {
    /// The identity the autoclicker registers: a USB-class virtual device
    /// named "VirtualMouse" with stable vendor and product ids.
    pub fn default_identity() -> (r: DeviceIdentity)
        ensures
            r.bus_type == BUS_TYPE_USB,
            r.vendor == 0x1337,
            r.product == 0x7331,
            r.version == 0,
            r.name@ =~= default_name_bytes(),
    {
        // "VirtualMouse", as ASCII byte values.
        let name: Vec<u8> = vec![
            0x56, 0x69, 0x72, 0x74, 0x75, 0x61, 0x6C, 0x4D, 0x6F, 0x75, 0x73, 0x65,
        ];
        DeviceIdentity {
            bus_type: BUS_TYPE_USB,
            vendor: 0x1337,
            product: 0x7331,
            version: 0,
            name,
        }
    }

    /// Encodes this identity into the 92-byte image handed to the kernel.
    pub fn encode(&self) -> (b: Vec<u8>)
        ensures
            b@ == identity_bytes(self.bus_type, self.vendor, self.product, self.version, self.name@),
            b@.len() == 92,
    {
        let mut b = u16_to_le_bytes(self.bus_type);
        let mut part = u16_to_le_bytes(self.vendor);
        b.append(&mut part);
        let mut part = u16_to_le_bytes(self.product);
        b.append(&mut part);
        let mut part = u16_to_le_bytes(self.version);
        b.append(&mut part);
        let mut part = name_buffer(&self.name);
        b.append(&mut part);
        let mut part = u32_to_le_bytes(0);
        b.append(&mut part);
        proof {
            assert(b@ =~= identity_bytes(
                self.bus_type,
                self.vendor,
                self.product,
                self.version,
                self.name@,
            ));
        }
        b
    }
}

/// The key-capability declarations for a button set, one per declared
/// button, in declaration order.
pub open spec fn key_ops(buttons: Seq<Button>) -> Seq<ControlOp> {
    buttons.map(|i: int, b: Button| ControlOp::SetKeyBit(b.spec_code()))
}

/// The full construction plan for a device that must report the given
/// buttons: declare the key event class, declare each button, hand over the
/// identity, finalize creation. Every operation must succeed for the device
/// to exist; the plan declares exactly the given buttons and nothing else.
pub open spec fn setup_ops(buttons: Seq<Button>) -> Seq<ControlOp> {
    seq![ControlOp::SetEventBit(EVENT_CLASS_KEY)] + key_ops(buttons) + seq![
        ControlOp::DeviceSetup,
        ControlOp::DeviceCreate,
    ]
}

/// Device construction is all-or-nothing and declares exactly the
/// configured buttons: the construction plan holds one key-capability
/// declaration per configured button, in order, and no operation of the
/// plan besides those declares a key.
pub proof fn lemma_plan_declares_exactly(buttons: Seq<Button>)
    ensures
        setup_ops(buttons).len() == buttons.len() + 3,
        forall|i: int| 0 <= i < buttons.len() ==> setup_ops(buttons)[i + 1] == ControlOp::SetKeyBit(
            buttons[i].spec_code(),
        ),
        forall|i: int|
            0 <= i < setup_ops(buttons).len() ==> ((setup_ops(buttons)[i] is SetKeyBit) <==> (1 <= i
                <= buttons.len())),
{
    let plan = setup_ops(buttons);
    assert forall|i: int|
        0 <= i < plan.len() implies ((plan[i] is SetKeyBit) <==> (1 <= i <= buttons.len())) by {
        if i == 0 {
            assert(plan[i] == ControlOp::SetEventBit(EVENT_CLASS_KEY));
        } else if i <= buttons.len() {
            assert(plan[i] == key_ops(buttons)[i - 1]);
        } else if i == buttons.len() + 1 {
            assert(plan[i] == ControlOp::DeviceSetup);
        } else {
            assert(plan[i] == ControlOp::DeviceCreate);
        }
    }
}

/// The teardown plan: revoke the device registration. Closing the handle
/// itself follows unconditionally, whether or not creation had finalized.
pub open spec fn teardown_ops() -> Seq<ControlOp> {
    seq![ControlOp::DeviceDestroy]
}

/// The declared capabilities and identity of a virtual pointing device,
/// fixed at construction time.
pub struct DeviceConfig {
    /// The identity registered with the kernel.
    pub identity: DeviceIdentity,
    /// The buttons the device can report: exactly these are declared.
    pub buttons: Vec<Button>,
}

impl DeviceConfig {
    /// A pointing device with the default identity that reports the left
    /// and right buttons.
    pub fn pointer_with_left_and_right() -> (r: DeviceConfig)
        ensures
            r.buttons@ =~= seq![Button::Left, Button::Right],
            r.identity.bus_type == BUS_TYPE_USB,
    {
        let buttons: Vec<Button> = vec![Button::Left, Button::Right];
        DeviceConfig { identity: DeviceIdentity::default_identity(), buttons }
    }

    /// Whether the given button was declared at construction time. Click
    /// emission is only ever allowed for declared buttons.
    pub fn declares(&self, b: Button) -> (r: bool)
        ensures
            r == self.buttons@.contains(b),
    {
        let mut i: usize = 0;
        while i < self.buttons.len()
            invariant
                i <= self.buttons@.len(),
                forall|j: int| 0 <= j < i ==> self.buttons@[j] != b,
            decreases self.buttons@.len() - i,
        {
            if self.buttons[i] == b {
                return true;
            }
            i = i + 1;
        }
        false
    }

    /// Builds the ordered construction plan for this configuration.
    pub fn setup_plan(&self) -> (r: Vec<ControlOp>)
        ensures
            r@ == setup_ops(self.buttons@),
    {
        let mut r: Vec<ControlOp> = Vec::new();
        r.push(ControlOp::SetEventBit(EVENT_CLASS_KEY));
        let mut i: usize = 0;
        while i < self.buttons.len()
            invariant
                i <= self.buttons@.len(),
                r@.len() == 1 + i,
                r@[0] == ControlOp::SetEventBit(EVENT_CLASS_KEY),
                forall|j: int| 0 <= j < i ==> r@[1 + j] == ControlOp::SetKeyBit(
                    self.buttons@[j].spec_code(),
                ),
            decreases self.buttons@.len() - i,
        {
            let code = self.buttons[i].code();
            r.push(ControlOp::SetKeyBit(code));
            i = i + 1;
        }
        r.push(ControlOp::DeviceSetup);
        r.push(ControlOp::DeviceCreate);
        proof {
            assert(r@ =~= setup_ops(self.buttons@));
        }
        r
    }
}

/// Builds the ordered teardown plan.
pub fn teardown_plan() -> (r: Vec<ControlOp>)
    ensures
        r@ == teardown_ops(),
{
    let r: Vec<ControlOp> = vec![ControlOp::DeviceDestroy];
    proof {
        assert(r@ =~= teardown_ops());
    }
    r
}

} // verus!
