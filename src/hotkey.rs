use vstd::prelude::*;

verus! {

/// The Ctrl modifier flag.
pub const MOD_CONTROL: i32 = 0x0002;

/// The Shift modifier flag.
pub const MOD_SHIFT: i32 = 0x0004;

/// The Alt modifier flag.
pub const MOD_ALT: i32 = 0x0001;

/// The fixed id under which the listener registers its one hotkey.
pub const HOTKEY_ID: i32 = 1;

/// Why a listener refused a request.
#[derive(Debug, Clone, Copy, PartialEq, Eq, Structural)]
pub enum HotkeyError {
    /// The listener already holds a registration.
    AlreadyRegistered,
}

/// What the listener thread is to register: the fixed id, the modifier flags
/// and the key.
#[derive(Debug, Clone, Copy, PartialEq, Eq, Structural)]
pub struct HotkeyRegistration {
    pub id: i32,
    pub modifiers: i32,
    pub key: i32,
}

/// What ending a registration asks of the listener thread.
#[derive(Debug, Clone, Copy, PartialEq, Eq, Structural)]
pub enum Teardown {
    /// A registration was live: its loop must be sent the cancellation signal.
    SignalCancel,
    /// Nothing was registered: nothing is to be done.
    Nothing,
}

/// What the listener loop does with one delivery of its message wait.
#[derive(Debug, Clone, Copy, PartialEq, Eq, Structural)]
pub enum ListenerStep {
    /// Leave the loop and unregister the hotkey.
    Stop,
    /// The hotkey fired: report it, then dispatch the message.
    Trigger,
    /// Dispatch the message and wait for the next one.
    Pass,
}

/// Whether one global hotkey is registered by this listener.
pub struct HotkeyManager {
    pub registered: bool,
}

impl HotkeyManager {
    /// A listener with nothing registered.
    pub fn new() -> (r: HotkeyManager)
        ensures
            !r.registered,
    {
        HotkeyManager { registered: false }
    }

    /// Claims the registration of one hotkey under the fixed id. A second
    /// call on a listener that is registered fails and changes nothing.
    pub fn register(&mut self, modifiers: i32, key: i32) -> (r: Result<
        HotkeyRegistration,
        HotkeyError,
    >)
        ensures
            (final(self).registered, r) == register_effect(old(self).registered, modifiers, key),
    {
        if self.registered {
            return Err(HotkeyError::AlreadyRegistered);
        }
        self.registered = true;
        Ok(HotkeyRegistration { id: HOTKEY_ID, modifiers, key })
    }

    /// Ends the registration, if there is one. It never fails; the
    /// cancellation signal is asked for only when a registration was live.
    pub fn unregister(&mut self) -> (r: Result<Teardown, HotkeyError>)
        ensures
            r is Ok,
            (final(self).registered, r->Ok_0) == unregister_effect(old(self).registered),
    {
        if !self.registered {
            return Ok(Teardown::Nothing);
        }
        self.registered = false;
        Ok(Teardown::SignalCancel)
    }

    /// Whether a registration is live.
    pub fn is_registered(&self) -> (r: bool)
        ensures
            r == self.registered,
    {
        self.registered
    }
}

/// The listener's decision for one delivery: `got_message` is false when the
/// wait returned its quit value; `cancel_requested` is whether the
/// cancellation signal has arrived; `is_hotkey` and `param` describe the
/// message. Cancellation is looked at only here, between deliveries.
pub open spec fn listener_step(
    got_message: bool,
    cancel_requested: bool,
    is_hotkey: bool,
    param: u64,
) -> ListenerStep {
    if !got_message || cancel_requested {
        ListenerStep::Stop
    } else if is_hotkey && param == HOTKEY_ID as u64 {
        ListenerStep::Trigger
    } else {
        ListenerStep::Pass
    }
}

impl HotkeyRegistration {
    /// Decides what the message loop does with one delivery.
    pub fn on_message(&self, got_message: bool, cancel_requested: bool, is_hotkey: bool, param: u64)
        -> (r: ListenerStep)
        requires
            self.id == HOTKEY_ID,
        ensures
            r == listener_step(got_message, cancel_requested, is_hotkey, param),
    {
        if !got_message || cancel_requested {
            ListenerStep::Stop
        } else if is_hotkey && param == self.id as u64 {
            ListenerStep::Trigger
        } else {
            ListenerStep::Pass
        }
    }
}

/// The state after `register`, and its result, from the state before.
pub open spec fn register_effect(registered: bool, modifiers: i32, key: i32) -> (
    bool,
    Result<HotkeyRegistration, HotkeyError>,
) {
    if registered {
        (true, Err(HotkeyError::AlreadyRegistered))
    } else {
        (true, Ok(HotkeyRegistration { id: HOTKEY_ID, modifiers, key }))
    }
}

/// Ending a registration twice, or before any, never fails, and the
/// cancellation signal is asked for at most once per registration: the
/// second call, and a call on a listener never registered, asks for nothing.
pub proof fn lemma_unregister_idempotent(registered: bool)
    ensures
        !registered ==> unregister_effect(registered) == (false, Teardown::Nothing),
        unregister_effect(unregister_effect(registered).0) == (false, Teardown::Nothing),
{
}

/// A second `register` on the same listener fails with `AlreadyRegistered`
/// and leaves the first registration live: no teardown is asked for and the
/// listener stays registered.
pub proof fn lemma_register_twice(m1: i32, k1: i32, m2: i32, k2: i32)
    ensures
        register_effect(false, m1, k1).1 is Ok,
        register_effect(register_effect(false, m1, k1).0, m2, k2) == (
            true,
            Err::<HotkeyRegistration, HotkeyError>(HotkeyError::AlreadyRegistered),
        ),
{
}

/// The state after `unregister`, and what it asks for, from the state before.
pub open spec fn unregister_effect(registered: bool) -> (bool, Teardown) {
    if registered {
        (false, Teardown::SignalCancel)
    } else {
        (false, Teardown::Nothing)
    }
}

} // verus!
