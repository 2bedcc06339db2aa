//! The connection to the display server, and the ledger of native
//! allocations that backs the resource-lifetime discipline.
//!
//! Every native resource this library models — the connection itself and
//! each server-allocated buffer — must be released exactly once. The
//! [`Ledger`] counts the acquire and release calls; a caller that threads
//! one ledger through a whole session can check at any point that the
//! books are balanced.

use vstd::prelude::*;

use crate::ConnectionFailed;

verus! {

/// Counts the native acquire and release calls made through this library:
/// connection opens and closes, buffer allocations and frees. Balanced
/// books mean no resource has leaked.
pub struct Ledger {
    /// Connections opened.
    pub opens: u64,
    /// Connections closed.
    pub closes: u64,
    /// Server buffers taken over.
    pub allocs: u64,
    /// Server buffers released.
    pub frees: u64,
}

impl Ledger {
    /// Nothing has been released that was never acquired.
    pub open spec fn wf(self) -> bool {
        self.frees <= self.allocs && self.closes <= self.opens
    }

    /// Every acquisition has its matching release: nothing leaked.
    pub open spec fn balanced(self) -> bool {
        self.frees == self.allocs && self.closes == self.opens
    }

    /// The ledger after one more connection open.
    pub open spec fn after_open(self) -> Ledger {
        Ledger { opens: (self.opens + 1) as u64, ..self }
    }

    /// The ledger after one more connection close.
    pub open spec fn after_close(self) -> Ledger {
        Ledger { closes: (self.closes + 1) as u64, ..self }
    }

    /// The ledger after one more buffer acquisition.
    pub open spec fn after_alloc(self) -> Ledger {
        Ledger { allocs: (self.allocs + 1) as u64, ..self }
    }

    /// The ledger after one more buffer release.
    pub open spec fn after_free(self) -> Ledger {
        Ledger { frees: (self.frees + 1) as u64, ..self }
    }

    /// A fresh ledger: no acquisitions, no releases, balanced books.
    pub fn new() -> (l: Ledger)
        ensures
            l.opens == 0 && l.closes == 0 && l.allocs == 0 && l.frees == 0,
            l.wf(),
            l.balanced(),
    {
        Ledger { opens: 0, closes: 0, allocs: 0, frees: 0 }
    }

    /// Whether the books are balanced right now.
    pub fn is_balanced(&self) -> (b: bool)
        ensures
            b == self.balanced(),
    {
        self.frees == self.allocs && self.closes == self.opens
    }

    pub(crate) fn count_open(&mut self)
        requires
            old(self).opens < u64::MAX,
        ensures
            *final(self) == old(self).after_open(),
    {
        self.opens = self.opens + 1;
    }

    pub(crate) fn count_close(&mut self)
        requires
            old(self).closes < u64::MAX,
        ensures
            *final(self) == old(self).after_close(),
    {
        self.closes = self.closes + 1;
    }

    pub(crate) fn count_alloc(&mut self)
        requires
            old(self).allocs < u64::MAX,
        ensures
            *final(self) == old(self).after_alloc(),
    {
        self.allocs = self.allocs + 1;
    }

    pub(crate) fn count_free(&mut self)
        requires
            old(self).frees < u64::MAX,
        ensures
            *final(self) == old(self).after_free(),
    {
        self.frees = self.frees + 1;
    }
}

/// One live connection to the display server. The value stands for the
/// native handle: constructing it counts the open, consuming it through
/// [`Connection::close`] counts the close.
#[derive(Debug)]
pub struct Connection {
    marker: bool,
}

impl Connection {
    /// Records the outcome of a native attempt to open a connection:
    /// `accepted` tells whether the server accepted. On acceptance the open
    /// is counted and a connection value is handed out; on refusal nothing
    /// was acquired and nothing is counted.
    pub fn open(accepted: bool, ledger: &mut Ledger) -> (r: Result<Connection, ConnectionFailed>)
        requires
            old(ledger).wf(),
            old(ledger).opens < u64::MAX,
        ensures
            final(ledger).wf(),
            accepted ==> r is Ok && *final(ledger) == old(ledger).after_open(),
            !accepted ==> r is Err && *final(ledger) == *old(ledger),
    {
        if accepted {
            ledger.count_open();
            Ok(Connection { marker: true })
        } else {
            Err(ConnectionFailed)
        }
    }

    /// Closes the connection, counting the close. Consuming the value
    /// stands for the one and only release of the native handle.
    pub fn close(self, ledger: &mut Ledger)
        requires
            old(ledger).wf(),
            old(ledger).closes < old(ledger).opens,
        ensures
            *final(ledger) == old(ledger).after_close(),
            final(ledger).wf(),
    {
        ledger.count_close();
    }
}

/// Law: on a balanced ledger, an open followed immediately by a close
/// leaves the books balanced again — the connection did not leak.
pub proof fn lemma_open_close_no_leak(l: Ledger)
    requires
        l.wf(),
        l.balanced(),
        l.opens < u64::MAX,
    ensures
        l.after_open().after_close().wf(),
        l.after_open().after_close().balanced(),
{
}

} // verus!
