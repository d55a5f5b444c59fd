use vstd::prelude::*;

verus! {

/// Number of peripheral interrupt lines that this layer configures.
pub const LINE_COUNT: usize = 10;

/// Highest priority level; the scheduling lines use it.
pub const MAX_PRIORITY: u8 = 15;

/// Highest CPU interrupt slot number.
pub const MAX_CPU_SLOT: u8 = 31;

/// The peripheral interrupt lines that this layer binds or parks.
#[derive(Clone, Copy, Debug, PartialEq, Eq, Structural)]
pub enum InterruptLine {
    SystimerTarget0,
    FromCpuIntr3,
    WifiMac,
    WifiPwr,
    BtBb,
    Rwble,
    LpTimer,
    BtMac,
    WifiBb,
    ModemPeriTimeout,
}

impl InterruptLine {
    pub open spec fn idx(self) -> nat {
        match self {
            InterruptLine::SystimerTarget0 => 0,
            InterruptLine::FromCpuIntr3 => 1,
            InterruptLine::WifiMac => 2,
            InterruptLine::WifiPwr => 3,
            InterruptLine::BtBb => 4,
            InterruptLine::Rwble => 5,
            InterruptLine::LpTimer => 6,
            InterruptLine::BtMac => 7,
            InterruptLine::WifiBb => 8,
            InterruptLine::ModemPeriTimeout => 9,
        }
    }

    /// Position of the line in the controller's table.
    pub fn index(&self) -> (r: usize)
        ensures
            r == self.idx(),
            r < LINE_COUNT,
    {
        match self {
            InterruptLine::SystimerTarget0 => 0,
            InterruptLine::FromCpuIntr3 => 1,
            InterruptLine::WifiMac => 2,
            InterruptLine::WifiPwr => 3,
            InterruptLine::BtBb => 4,
            InterruptLine::Rwble => 5,
            InterruptLine::LpTimer => 6,
            InterruptLine::BtMac => 7,
            InterruptLine::WifiBb => 8,
            InterruptLine::ModemPeriTimeout => 9,
        }
    }
}

/// What the controller holds for one line: the CPU interrupt slot its map
/// register points at, and the priority it was enabled at (`None`: not enabled).
#[derive(Clone, Copy, Debug, PartialEq, Eq, Structural)]
pub struct LineState {
    pub cpu_slot: Option<u8>,
    pub priority: Option<u8>,
}

/// Why binding a line failed.
#[derive(Clone, Copy, Debug, PartialEq, Eq, Structural)]
pub enum InterruptError {
    /// The line is already bound; binding it again is a configuration fault.
    AlreadyEnabled,
}

/// The interrupt matrix: one entry per line, all unbound at reset.
pub struct InterruptController {
    pub lines: Vec<LineState>,
}

/// An enabled line has a priority between 1 and the highest level.
pub open spec fn valid_priority(p: Option<u8>) -> bool {
    p matches Some(v) ==> 1 <= v <= MAX_PRIORITY
}

pub open spec fn unbound() -> LineState {
    LineState { cpu_slot: None, priority: None }
}

impl InterruptController {
    pub open spec fn wf(&self) -> bool {
        &&& self.lines@.len() == LINE_COUNT
        &&& forall|i: int| 0 <= i < LINE_COUNT ==> valid_priority((#[trigger] self.lines@[i]).priority)
    }

    pub open spec fn line(&self, l: InterruptLine) -> LineState {
        self.lines@[l.idx() as int]
    }

    pub open spec fn enabled(&self, l: InterruptLine) -> bool {
        self.line(l).priority is Some
    }

    /// A controller straight out of reset: no line mapped or enabled.
    pub fn new() -> (r: InterruptController)
        ensures
            r.wf(),
            forall|l: InterruptLine| #[trigger] r.line(l) == unbound(),
    {
        let mut lines: Vec<LineState> = Vec::new();
        let mut i: usize = 0;
        while i < LINE_COUNT
            invariant
                i <= LINE_COUNT,
                lines@.len() == i,
                forall|j: int| 0 <= j < i ==> lines@[j] == unbound(),
            decreases LINE_COUNT - i,
        {
            lines.push(LineState { cpu_slot: None, priority: None });
            i = i + 1;
        }
        let r = InterruptController { lines };
        assert forall|l: InterruptLine| #[trigger] r.line(l) == unbound() by {
            assert(l.idx() < LINE_COUNT);
        }
        r
    }

    /// Whether the line has been enabled.
    pub fn is_enabled(&self, l: InterruptLine) -> (r: bool)
        requires
            self.wf(),
        ensures
            r == self.enabled(l),
    {
        self.lines[l.index()].priority.is_some()
    }

    /// Binds `l` to CPU interrupt `slot` at `priority` and enables it. Fails,
    /// changing nothing, exactly when the line is already enabled.
    pub fn enable_at(&mut self, l: InterruptLine, priority: u8, slot: u8) -> (r: Result<(), InterruptError>)
        requires
            old(self).wf(),
            1 <= priority <= MAX_PRIORITY,
            slot <= MAX_CPU_SLOT,
        ensures
            final(self).wf(),
            r is Err <==> old(self).enabled(l),
            r is Err ==> r == Err::<(), InterruptError>(InterruptError::AlreadyEnabled) && final(self).lines@ == old(self).lines@,
            r is Ok ==> final(self).lines@ == old(self).lines@.update(
                l.idx() as int,
                LineState { cpu_slot: Some(slot), priority: Some(priority) },
            ),
    {
        let i = l.index();
        if self.lines[i].priority.is_some() {
            return Err(InterruptError::AlreadyEnabled);
        }
        self.lines.set(i, LineState { cpu_slot: Some(slot), priority: Some(priority) });
        Ok(())
    }

    /// Enables `l` at `priority` in vectored mode, where each priority level is
    /// served by the CPU interrupt of the same number.
    pub fn enable(&mut self, l: InterruptLine, priority: u8) -> (r: Result<(), InterruptError>)
        requires
            old(self).wf(),
            1 <= priority <= MAX_PRIORITY,
        ensures
            final(self).wf(),
            r is Err <==> old(self).enabled(l),
            r is Err ==> r == Err::<(), InterruptError>(InterruptError::AlreadyEnabled) && final(self).lines@ == old(self).lines@,
            r is Ok ==> final(self).lines@ == old(self).lines@.update(
                l.idx() as int,
                LineState { cpu_slot: Some(priority), priority: Some(priority) },
            ),
    {
        self.enable_at(l, priority, priority)
    }

    /// Writes the map register of `l` so that it points at CPU interrupt `slot`,
    /// leaving its enable state as it is.
    pub fn map_to_slot(&mut self, l: InterruptLine, slot: u8)
        requires
            old(self).wf(),
            slot <= MAX_CPU_SLOT,
        ensures
            final(self).wf(),
            final(self).lines@ == old(self).lines@.update(
                l.idx() as int,
                LineState { cpu_slot: Some(slot), priority: old(self).line(l).priority },
            ),
    {
        let i = l.index();
        let p = self.lines[i].priority;
        self.lines.set(i, LineState { cpu_slot: Some(slot), priority: p });
    }
}

} // verus!
