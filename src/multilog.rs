//! The policy that feeds log lines to the USB serial log backlog.
//!
//! Lines go into a bounded queue that the serial log task drains. When
//! the queue is full a line is lost; the next time there is room, one
//! "(missed log)" notice goes in ahead of the next line, once for each
//! run of lost lines.
use vstd::prelude::*;

verus! {

/// How severe a log record is, most severe first.
#[derive(Debug, Clone, Copy, PartialEq, Eq, Structural)]
pub enum Severity {
    Error,
    Warn,
    Info,
    Debug,
    Trace,
}

/// Whether lines were lost since the last one queued.
#[derive(Debug, Clone, Copy, PartialEq, Eq, Structural)]
pub enum LostLine {
    /// No line was lost since the last one queued.
    No,
    /// Lines were lost and no notice of it is queued yet.
    Lost,
    /// Lines were lost and the notice of it is queued.
    Warned,
}

/// What to put into the backlog for one log record.
#[derive(Debug, Clone, Copy, PartialEq, Eq, Structural)]
pub struct Enqueue {
    /// Queue the "(missed log)" notice first.
    pub notice: bool,
    /// Queue the record's line.
    pub line: bool,
}

/// Whether records of `severity` go to the serial log at all: debug and
/// trace records would crowd the backlog out.
pub open spec fn forwarded(severity: Severity) -> bool {
    severity == Severity::Error || severity == Severity::Warn || severity == Severity::Info
}

/// What to queue for a forwarded record, and the next lost-line state,
/// when the backlog has room for `free` more lines.
pub open spec fn plan_for(lost: LostLine, free: nat) -> (Enqueue, LostLine) {
    if lost == LostLine::Lost {
        if free == 0 {
            (Enqueue { notice: false, line: false }, LostLine::Lost)
        } else if free == 1 {
            (Enqueue { notice: true, line: false }, LostLine::Warned)
        } else {
            (Enqueue { notice: true, line: true }, LostLine::No)
        }
    } else if free == 0 {
        (Enqueue { notice: false, line: false }, if lost == LostLine::No {
            LostLine::Lost
        } else {
            lost
        })
    } else {
        (Enqueue { notice: false, line: true }, LostLine::No)
    }
}

/// The backlog policy's state.
pub struct SerialLog {
    lost: LostLine,
}

/// The policy's state at start-up: nothing lost yet.
pub fn init() -> (r: SerialLog)
    ensures
        r.lost_state() == LostLine::No,
{
    SerialLog { lost: LostLine::No }
}

impl SerialLog {
    /// Whether lines were lost since the last one queued.
    pub closed spec fn lost_state(&self) -> LostLine {
        self.lost
    }

    /// Whether lines were lost since the last one queued.
    pub fn lost(&self) -> (r: LostLine)
        ensures
            r == self.lost_state(),
    {
        self.lost
    }

    /// Decides what to queue for a record of `severity` while the backlog
    /// has room for `free` more lines, and records what is then lost.
    ///
    /// The caller queues the notice, then the line, as the result says;
    /// with room for them known beforehand, both fit.
    pub fn plan(&mut self, severity: Severity, free: usize) -> (r: Enqueue)
        ensures
            !forwarded(severity) ==> r == (Enqueue { notice: false, line: false })
                && final(self).lost_state() == old(self).lost_state(),
            forwarded(severity) ==> (r, final(self).lost_state()) == plan_for(
                old(self).lost_state(),
                free as nat,
            ),
    {
        let quiet = Enqueue { notice: false, line: false };
        match severity {
            Severity::Debug | Severity::Trace => return quiet,
            _ => {},
        }
        let mut room = free;
        let mut notice = false;
        if self.lost == LostLine::Lost {
            if room == 0 {
                return quiet;
            }
            notice = true;
            room = room - 1;
            self.lost = LostLine::Warned;
        }
        if room > 0 {
            self.lost = LostLine::No;
            Enqueue { notice, line: true }
        } else {
            if self.lost == LostLine::No {
                self.lost = LostLine::Lost;
            }
            Enqueue { notice, line: false }
        }
    }
}

/// Size of a USB serial (CDC ACM) packet.
pub const CDC_PACKET: usize = 64;

/// Whether writing `len` bytes as CDC packets must end with a zero length
/// packet: when the last packet is full, or there is none, the host would
/// otherwise wait for more.
pub fn needs_zero_length_packet(len: usize) -> (r: bool)
    ensures
        r == (len % CDC_PACKET == 0),
{
    len % CDC_PACKET == 0
}

/// Whether a queued log line was cut short: every complete line ends with
/// a carriage return.
pub fn is_truncated(line: &[u8]) -> (r: bool)
    ensures
        r == (line@.len() == 0 || line@.last() != 0x0d),
{
    line.len() == 0 || line[line.len() - 1] != 0x0d
}

/// Lost lines are reported once per run: after a notice has been queued,
/// further lost lines queue no other notice until a line gets through.
pub proof fn lemma_one_notice_per_run(lost: LostLine, free: nat)
    requires
        lost != LostLine::Lost,
    ensures
        !plan_for(lost, free).0.notice,
        plan_for(lost, free).0.line <==> free > 0,
{
}

} // verus!
