//! Interrupt callback registry and the interrupt-controller capability.
//!
//! A pipeline's background handler must be reachable from the vector-table
//! stub of its interrupt line.  The registry slot for one line is a
//! write-once cell: it is set exactly once, at wiring time — which also
//! enables the line at the interrupt controller — and read on every
//! interrupt for the rest of program execution; there is no teardown path.
//! A second registration is a programming error, which the contract of
//! `set` rules out; the code that dispatches the stored descriptor lives
//! with the vector table outside this crate.

use vstd::prelude::*;

verus! {

/// The contract of the interrupt controller: enabling or disabling one
/// named line, optionally with a priority, leaves every other line alone.
pub trait InterruptController: Sized {
    /// Whether the interrupt line `line` is enabled.
    spec fn line_enabled(&self, line: u16) -> bool;

    /// Enables or disables one interrupt line.
    fn enable(&mut self, line: u16, enable: bool)
        ensures
            final(self).line_enabled(line) == enable,
            forall|l: u16|
                l != line ==> #[trigger] final(self).line_enabled(l) == old(self).line_enabled(
                    l,
                ),
    ;

    /// Sets the priority of one interrupt line; no line is enabled or
    /// disabled by it.
    fn set_priority(&mut self, line: u16, priority: u8)
        ensures
            forall|l: u16|
                #[trigger] final(self).line_enabled(l) == old(self).line_enabled(l),
    ;
}

/// An in-memory interrupt controller for targets without the hardware one:
/// one enable bit per line, the table grown on demand.  It is also the
/// checked model of [`InterruptController`]: its implementation is verified
/// against the trait's contract.
pub struct SoftInterruptController {
    lines: Vec<bool>,
}

impl SoftInterruptController {
    /// A controller with every line disabled.
    pub fn new() -> (r: SoftInterruptController)
        ensures
            forall|l: u16| !#[trigger] r.line_enabled(l),
    {
        SoftInterruptController { lines: Vec::new() }
    }

    /// Whether one line is enabled.
    pub fn enabled(&self, line: u16) -> (r: bool)
        ensures
            r == self.line_enabled(line),
    {
        if (line as usize) < self.lines.len() {
            self.lines[line as usize]
        } else {
            false
        }
    }
}

impl InterruptController for SoftInterruptController {
    closed spec fn line_enabled(&self, line: u16) -> bool {
        line < self.lines@.len() && self.lines@[line as int]
    }

    fn enable(&mut self, line: u16, enable: bool) {
        let idx = line as usize;
        while self.lines.len() <= idx
            invariant
                forall|i: int|
                    0 <= i < self.lines@.len() ==> #[trigger] self.lines@[i] == (if i < old(
                        self,
                    ).lines@.len() {
                        old(self).lines@[i]
                    } else {
                        false
                    }),
                old(self).lines@.len() <= self.lines@.len(),
            decreases idx + 1 - self.lines@.len(),
        {
            self.lines.push(false);
        }
        self.lines[idx] = enable;
    }

    fn set_priority(&mut self, line: u16, priority: u8) {
    }
}

/// Write-once registry slot for one interrupt line: the line number, and the
/// handler descriptor registered for it.
pub struct Callback {
    it_line: u16,
    handler: Option<usize>,
}

impl Callback {
    /// The interrupt line this slot belongs to.
    pub closed spec fn line_spec(&self) -> u16 {
        self.it_line
    }

    /// The registered handler descriptor, if one was set.
    pub closed spec fn handler_spec(&self) -> Option<usize> {
        self.handler
    }

    /// An empty slot for `it_line`.
    pub fn new(it_line: u16) -> (r: Callback)
        ensures
            r.line_spec() == it_line,
            r.handler_spec() is None,
    {
        Callback { it_line, handler: None }
    }

    /// Registers the handler descriptor, then enables the slot's line at
    /// the controller.  A slot accepts exactly one registration, so the
    /// caller must hold an unset slot.
    pub fn set<C: InterruptController>(&mut self, handler: usize, ctl: &mut C)
        requires
            old(self).handler_spec() is None,
        ensures
            final(self).handler_spec() == Some(handler),
            final(self).line_spec() == old(self).line_spec(),
            final(ctl).line_enabled(old(self).line_spec()),
            forall|l: u16|
                l != old(self).line_spec() ==> #[trigger] final(ctl).line_enabled(l) == old(
                    ctl,
                ).line_enabled(l),
    {
        self.handler = Some(handler);
        ctl.enable(self.it_line, true);
    }

    /// Whether a handler was registered.
    pub fn is_set(&self) -> (r: bool)
        ensures
            r == (self.handler_spec() is Some),
    {
        self.handler.is_some()
    }

    /// The registered handler descriptor, `None` while the slot is empty.
    pub fn get(&self) -> (r: Option<usize>)
        ensures
            r == self.handler_spec(),
    {
        self.handler
    }

    /// The interrupt line this slot belongs to.
    pub fn line(&self) -> (r: u16)
        ensures
            r == self.line_spec(),
    {
        self.it_line
    }
}

} // verus!
