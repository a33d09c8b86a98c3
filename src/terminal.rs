//! The terminal's attribute block, the raw-mode rule, and the lifecycle of a
//! raw-mode session.
use vstd::prelude::*;

verus! {

/// Number of entries in the control-character table.
pub const CONTROL_CHAR_COUNT: usize = 32;

/// Index of the minimum-read-count entry in the control-character table.
pub const VMIN_INDEX: usize = 6;

/// Index of the inter-byte timeout entry in the control-character table.
pub const VTIME_INDEX: usize = 5;

/// Local flag: generate signals from the interrupt, quit and suspend characters.
pub const ISIG: u32 = 0x1;

/// Local flag: canonical (line-at-a-time) input.
pub const ICANON: u32 = 0x2;

/// Local flag: echo typed characters.
pub const ECHO: u32 = 0x8;

/// Local flag: implementation-defined input processing.
pub const IEXTEN: u32 = 0x8000;

/// Input flag: translate carriage return to newline on input.
pub const ICRNL: u32 = 0x100;

/// The local flags that raw mode clears.
pub const RAW_LOCAL_CLEARED: u32 = ECHO | ICANON | ISIG | IEXTEN;

/// The input flags that raw mode clears.
pub const RAW_INPUT_CLEARED: u32 = ICRNL;

/// A snapshot of a terminal device's attribute block.
#[derive(Debug)]
pub struct TerminalConfig {
    pub input_flags: u32,
    pub output_flags: u32,
    pub control_flags: u32,
    pub local_flags: u32,
    pub line_discipline: u8,
    pub control_chars: Vec<u8>,
    pub input_speed: u32,
    pub output_speed: u32,
}

/// The mathematical value of a `TerminalConfig`.
pub ghost struct ConfigView {
    pub input_flags: u32,
    pub output_flags: u32,
    pub control_flags: u32,
    pub local_flags: u32,
    pub line_discipline: u8,
    pub control_chars: Seq<u8>,
    pub input_speed: u32,
    pub output_speed: u32,
}

impl View for TerminalConfig {
    type V = ConfigView;

    open spec fn view(&self) -> ConfigView {
        ConfigView {
            input_flags: self.input_flags,
            output_flags: self.output_flags,
            control_flags: self.control_flags,
            local_flags: self.local_flags,
            line_discipline: self.line_discipline,
            control_chars: self.control_chars@,
            input_speed: self.input_speed,
            output_speed: self.output_speed,
        }
    }
}

/// A configuration is well formed when its control-character table is complete.
pub open spec fn config_wf(c: ConfigView) -> bool {
    c.control_chars.len() == CONTROL_CHAR_COUNT
}

/// The raw-mode configuration derived from `c`: canonical input, echo, signal
/// generation, extended processing and CR-to-NL translation are cleared on top of
/// whatever `c` holds, and a read returns as soon as one byte is there, with no
/// timeout. Nothing else changes.
pub open spec fn raw_view(c: ConfigView) -> ConfigView {
    ConfigView {
        input_flags: c.input_flags & !RAW_INPUT_CLEARED,
        local_flags: c.local_flags & !RAW_LOCAL_CLEARED,
        control_chars: c.control_chars.update(VMIN_INDEX as int, 1u8).update(
            VTIME_INDEX as int,
            0u8,
        ),
        ..c
    }
}

/// The configuration a device holds after `action` is applied to it: a new
/// configuration replaces the old one, no action leaves it as it is.
pub open spec fn device_after(device: ConfigView, action: Option<ConfigView>) -> ConfigView {
    match action {
        Some(c) => c,
        None => device,
    }
}

impl TerminalConfig {
    pub open spec fn wf(&self) -> bool {
        config_wf(self@)
    }

    /// A copy of this configuration.
    pub fn duplicate(&self) -> (r: TerminalConfig)
        ensures
            r@ == self@,
    {
        let control_chars = self.control_chars.clone();
        assert(control_chars@ =~= self.control_chars@);
        TerminalConfig {
            input_flags: self.input_flags,
            output_flags: self.output_flags,
            control_flags: self.control_flags,
            local_flags: self.local_flags,
            line_discipline: self.line_discipline,
            control_chars,
            input_speed: self.input_speed,
            output_speed: self.output_speed,
        }
    }

    /// The raw-mode configuration derived from this one.
    pub fn raw_mode(&self) -> (r: TerminalConfig)
        requires
            self.wf(),
        ensures
            r@ == raw_view(self@),
            r.wf(),
    {
        let mut r = self.duplicate();
        r.input_flags = self.input_flags & !RAW_INPUT_CLEARED;
        r.local_flags = self.local_flags & !RAW_LOCAL_CLEARED;
        r.control_chars.set(VMIN_INDEX, 1);
        r.control_chars.set(VTIME_INDEX, 0);
        assert(r@.control_chars =~= raw_view(self@).control_chars);
        r
    }
}

/// Why a raw-mode session could not be created or cleanly released.
#[derive(Debug, Clone, Copy, PartialEq, Eq, Structural)]
pub enum TerminalError {
    /// The device's configuration could not be read (not a terminal, say).
    DeviceQuery,
    /// A configuration could not be applied to the device.
    DeviceConfig,
}

/// The state of a raw-mode session: the configuration to restore, and whether
/// the session still holds the device in raw mode.
pub ghost struct SessionView {
    pub original: ConfigView,
    pub active: bool,
}

/// The session that applying raw mode over `original` starts.
pub open spec fn started_view(original: ConfigView) -> SessionView {
    SessionView { original, active: true }
}

/// Releasing a session: an active one ends and hands back its original
/// configuration to apply; an ended one stays as it is and asks for nothing.
pub open spec fn release_view(s: SessionView) -> (SessionView, Option<ConfigView>) {
    if s.active {
        (SessionView { active: false, ..s }, Some(s.original))
    } else {
        (s, None)
    }
}

/// A raw-mode session. It owns the configuration that the device had before
/// raw mode, and gives it back exactly once.
#[derive(Debug)]
pub struct RawModeSession {
    original: TerminalConfig,
    active: bool,
}

impl View for RawModeSession {
    type V = SessionView;

    closed spec fn view(&self) -> SessionView {
        SessionView { original: self.original@, active: self.active }
    }
}

impl RawModeSession {
    pub open spec fn wf(&self) -> bool {
        config_wf(self@.original)
    }

    /// Whether the session still holds the device in raw mode.
    pub fn is_active(&self) -> (r: bool)
        ensures
            r == self@.active,
    {
        self.active
    }

    /// The configuration that releasing the session restores.
    pub fn original(&self) -> (r: &TerminalConfig)
        ensures
            r@ == self@.original,
    {
        &self.original
    }

    /// Ends the session. The first call returns the original configuration, to
    /// be applied to the device; every later call returns `None`.
    pub fn release(&mut self) -> (r: Option<TerminalConfig>)
        ensures
            final(self)@ == release_view(old(self)@).0,
            r is None <==> release_view(old(self)@).1 is None,
            r matches Some(c) ==> Some(c@) == release_view(old(self)@).1,
            final(self).wf() == old(self).wf(),
    {
        if self.active {
            self.active = false;
            Some(self.original.duplicate())
        } else {
            None
        }
    }
}

/// Begins a raw-mode session from the outcome of querying the device: `None`
/// when the query failed. On success it returns the session, which keeps the
/// queried configuration, and the raw-mode configuration to apply.
pub fn enter_raw_mode(queried: Option<TerminalConfig>) -> (r: Result<
    (RawModeSession, TerminalConfig),
    TerminalError,
>)
    requires
        queried matches Some(c) ==> c.wf(),
    ensures
        queried is None <==> r == Err::<(RawModeSession, TerminalConfig), _>(
            TerminalError::DeviceQuery,
        ),
        queried matches Some(c) ==> (r matches Ok((s, raw)) && s@ == started_view(c@) && raw@
            == raw_view(c@) && s.wf() && raw.wf()),
{
    match queried {
        None => Err(TerminalError::DeviceQuery),
        Some(original) => {
            let raw = original.raw_mode();
            Ok((RawModeSession { original, active: true }, raw))
        },
    }
}

/// Completes entry into raw mode once the device was asked to apply the raw
/// configuration: the session stands if that succeeded. If it failed, the
/// device kept its configuration and no session exists.
pub fn confirm_raw_mode(session: RawModeSession, applied: bool) -> (r: Result<
    RawModeSession,
    TerminalError,
>)
    ensures
        applied ==> (r matches Ok(s) && s@ == session@),
        !applied ==> r == Err::<RawModeSession, _>(TerminalError::DeviceConfig),
{
    if applied {
        Ok(session)
    } else {
        Err(TerminalError::DeviceConfig)
    }
}

/// The outcome of releasing a session, given whether the device accepted the
/// restored configuration: a failure is reported, and the session is over
/// either way.
pub fn release_outcome(restored: bool) -> (r: Result<(), TerminalError>)
    ensures
        restored <==> r is Ok,
        !restored ==> r == Err::<(), _>(TerminalError::DeviceConfig),
{
    if restored {
        Ok(())
    } else {
        Err(TerminalError::DeviceConfig)
    }
}

/// Entering raw mode on a device that holds `c`, then releasing the session,
/// leaves the device holding `c` again.
pub proof fn lemma_round_trip(c: ConfigView)
    requires
        config_wf(c),
    ensures
        device_after(device_after(c, Some(raw_view(c))), release_view(started_view(c)).1) == c,
{
}

/// While a session is active the device is in raw mode: canonical input, echo
/// and signal generation are all off, and a read waits for one byte with no
/// timeout.
pub proof fn lemma_raw_mode_excludes(c: ConfigView)
    requires
        config_wf(c),
    ensures
        raw_view(c).local_flags & ICANON == 0,
        raw_view(c).local_flags & ECHO == 0,
        raw_view(c).local_flags & ISIG == 0,
        raw_view(c).local_flags & IEXTEN == 0,
        raw_view(c).input_flags & ICRNL == 0,
        raw_view(c).control_chars[VMIN_INDEX as int] == 1,
        raw_view(c).control_chars[VTIME_INDEX as int] == 0,
        config_wf(raw_view(c)),
{
    let l = c.local_flags;
    let i = c.input_flags;
    assert(l & !(0x8u32 | 0x2u32 | 0x1u32 | 0x8000u32) & 0x2u32 == 0) by (bit_vector);
    assert(l & !(0x8u32 | 0x2u32 | 0x1u32 | 0x8000u32) & 0x8u32 == 0) by (bit_vector);
    assert(l & !(0x8u32 | 0x2u32 | 0x1u32 | 0x8000u32) & 0x1u32 == 0) by (bit_vector);
    assert(l & !(0x8u32 | 0x2u32 | 0x1u32 | 0x8000u32) & 0x8000u32 == 0) by (bit_vector);
    assert(i & !0x100u32 & 0x100u32 == 0) by (bit_vector);
}

/// Releasing a session that was already released changes neither the session
/// nor the device.
pub proof fn lemma_release_idempotent(s: SessionView, device: ConfigView)
    ensures
        release_view(release_view(s).0).1 is None,
        release_view(release_view(s).0).0 == release_view(s).0,
        device_after(device_after(device, release_view(s).1), release_view(release_view(s).0).1)
            == device_after(device, release_view(s).1),
{
}

} // verus!
