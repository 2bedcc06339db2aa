//! The session: memoized handles and the enumeration and search
//! conveniences built on the property decoder.
//!
//! A session caches three values that are resolved lazily from the
//! connection — the root window, the window-list atom and the
//! active-window atom. Each cell resolves at most once: the first access
//! stores the freshly resolved value, every later access returns the
//! stored one and resolves nothing.

use vstd::prelude::*;

use crate::NotSupported;
use crate::connection::Ledger;
use crate::prop::{PropBuffer, XA_WINDOW, decode_ids, format_supported, id_at, item_count};
use crate::window::{Window, title_matches};

verus! {

/// A write-once cell for a lazily resolved handle, with a counter of how
/// often it has resolved. One-way state: unresolved until the first
/// access, resolved with that first value ever after.
#[derive(Clone, Copy, Debug, PartialEq, Eq, Structural)]
pub struct MemoCell {
    /// The resolved value, if any access has resolved the cell yet.
    pub value: Option<u64>,
    /// How many accesses resolved the cell: never more than one.
    pub resolutions: u64,
}

impl MemoCell {
    /// The cell resolved at most once, and holds a value exactly when it
    /// resolved.
    pub open spec fn wf(self) -> bool {
        self.resolutions <= 1 && (self.value is Some <==> self.resolutions == 1)
    }

    /// Whether the cell holds a value.
    pub open spec fn resolved(self) -> bool {
        self.value is Some
    }

    /// The value the cell holds.
    pub open spec fn value_of(self) -> u64
        recommends
            self.resolved(),
    {
        match self.value {
            Option::Some(v) => v,
            Option::None => 0,
        }
    }

    /// The cell after one access that would resolve it to `fresh`: a
    /// resolved cell is left as it is, an unresolved one stores `fresh`.
    pub open spec fn spec_step(self, fresh: u64) -> MemoCell {
        if self.value is Some {
            self
        } else {
            MemoCell { value: Option::Some(fresh), resolutions: 1 }
        }
    }

    /// A fresh, unresolved cell.
    pub fn new() -> (c: MemoCell)
        ensures
            c.wf(),
            !c.resolved(),
            c.resolutions == 0,
    {
        MemoCell { value: None, resolutions: 0 }
    }

    /// One access: returns the stored value if the cell is resolved, and
    /// otherwise stores and returns `fresh`, counting the one resolution.
    pub fn get_or_resolve(&mut self, fresh: u64) -> (v: u64)
        requires
            old(self).wf(),
        ensures
            *final(self) == old(self).spec_step(fresh),
            final(self).wf(),
            final(self).resolved(),
            v == final(self).value_of(),
            old(self).resolved() ==> *final(self) == *old(self) && v == old(self).value_of(),
            !old(self).resolved() ==> v == fresh && final(self).resolutions == 1,
    {
        match self.value {
            Some(v) => v,
            None => {
                self.value = Some(fresh);
                self.resolutions = self.resolutions + 1;
                fresh
            },
        }
    }

    /// Whether the cell has resolved yet.
    pub fn is_resolved(&self) -> (b: bool)
        ensures
            b == self.resolved(),
    {
        self.value.is_some()
    }

    /// How many accesses resolved the cell.
    pub fn resolution_count(&self) -> (n: u64)
        ensures
            n == self.resolutions,
    {
        self.resolutions
    }
}

/// The cell after a whole sequence of accesses, each of which would
/// resolve it to its own value.
pub open spec fn memo_steps(c: MemoCell, vs: Seq<u64>) -> MemoCell
    decreases vs.len(),
{
    if vs.len() == 0 {
        c
    } else {
        memo_steps(c.spec_step(vs[0]), vs.subrange(1, vs.len() as int))
    }
}

/// A resolved cell is left untouched by any further accesses.
pub proof fn lemma_memo_steps_resolved(c: MemoCell, vs: Seq<u64>)
    requires
        c.resolved(),
    ensures
        memo_steps(c, vs) == c,
    decreases vs.len(),
{
    if vs.len() > 0 {
        assert(c.spec_step(vs[0]) == c);
        lemma_memo_steps_resolved(c, vs.subrange(1, vs.len() as int));
    }
}

/// Law: however many accesses reach a fresh cell, it resolves exactly
/// once, and the value of the first access is the one stored.
pub proof fn lemma_memo_resolves_once(c: MemoCell, vs: Seq<u64>)
    requires
        c.wf(),
        !c.resolved(),
        vs.len() >= 1,
    ensures
        memo_steps(c, vs).wf(),
        memo_steps(c, vs).resolutions == 1,
        memo_steps(c, vs).value_of() == vs[0],
{
    let c1 = c.spec_step(vs[0]);
    lemma_memo_steps_resolved(c1, vs.subrange(1, vs.len() as int));
}

/// Whether position `i` of the fetched titles matches the wanted name.
pub open spec fn matching_at(titles: Seq<Option<Vec<u8>>>, name: Seq<u8>, i: int) -> bool {
    0 <= i < titles.len() && title_matches(titles[i], name)
}

/// A session over one connection: the three lazily resolved handles, and
/// the enumeration and search operations built on the property decoder.
pub struct Session {
    /// The root window of the display, resolved on first use.
    pub root_window: MemoCell,
    /// The atom naming the window-list property, resolved on first use.
    pub client_list_atom: MemoCell,
    /// The atom naming the active-window property, resolved on first use.
    pub active_window_atom: MemoCell,
}

impl Session {
    /// All three cells are well formed.
    pub open spec fn wf(self) -> bool {
        self.root_window.wf() && self.client_list_atom.wf() && self.active_window_atom.wf()
    }

    /// A session with nothing resolved yet.
    pub fn new() -> (s: Session)
        ensures
            s.wf(),
            !s.root_window.resolved(),
            !s.client_list_atom.resolved(),
            !s.active_window_atom.resolved(),
            s.root_window.resolutions == 0,
            s.client_list_atom.resolutions == 0,
            s.active_window_atom.resolutions == 0,
    {
        Session {
            root_window: MemoCell::new(),
            client_list_atom: MemoCell::new(),
            active_window_atom: MemoCell::new(),
        }
    }

    /// The root window of this session, memoized: the first access stores
    /// the freshly resolved identifier, later accesses return it and
    /// ignore `fresh`.
    pub fn root(&mut self, fresh: u64) -> (w: Window)
        requires
            old(self).wf(),
        ensures
            final(self).wf(),
            final(self).root_window == old(self).root_window.spec_step(fresh),
            final(self).client_list_atom == old(self).client_list_atom,
            final(self).active_window_atom == old(self).active_window_atom,
            w.id == final(self).root_window.value_of(),
            old(self).root_window.resolved() ==> w.id == old(self).root_window.value_of(),
            !old(self).root_window.resolved() ==> w.id == fresh,
    {
        let id = self.root_window.get_or_resolve(fresh);
        Window { id }
    }

    /// The window-list atom of this session, memoized the same way.
    pub fn client_list(&mut self, fresh: u64) -> (atom: u64)
        requires
            old(self).wf(),
        ensures
            final(self).wf(),
            final(self).client_list_atom == old(self).client_list_atom.spec_step(fresh),
            final(self).root_window == old(self).root_window,
            final(self).active_window_atom == old(self).active_window_atom,
            atom == final(self).client_list_atom.value_of(),
            old(self).client_list_atom.resolved() ==> atom == old(self).client_list_atom.value_of(),
            !old(self).client_list_atom.resolved() ==> atom == fresh,
    {
        self.client_list_atom.get_or_resolve(fresh)
    }

    /// The active-window atom of this session, memoized the same way.
    pub fn active_list(&mut self, fresh: u64) -> (atom: u64)
        requires
            old(self).wf(),
        ensures
            final(self).wf(),
            final(self).active_window_atom == old(self).active_window_atom.spec_step(fresh),
            final(self).root_window == old(self).root_window,
            final(self).client_list_atom == old(self).client_list_atom,
            atom == final(self).active_window_atom.value_of(),
            old(self).active_window_atom.resolved() ==> atom == old(
                self,
            ).active_window_atom.value_of(),
            !old(self).active_window_atom.resolved() ==> atom == fresh,
    {
        self.active_window_atom.get_or_resolve(fresh)
    }

    /// Decodes a window-list property response into the windows on the
    /// screen, in the server-provided order, releasing the buffer on every
    /// path. The response is unsupported when its actual type is not the
    /// window type or its element width is unrecognized.
    pub fn get_windows(&self, buf: PropBuffer, ledger: &mut Ledger) -> (r: Result<
        Vec<Window>,
        NotSupported,
    >)
        requires
            old(ledger).wf(),
            old(ledger).frees < old(ledger).allocs,
        ensures
            *final(ledger) == old(ledger).after_free(),
            final(ledger).wf(),
            r is Ok <==> (buf.actual_type == XA_WINDOW && format_supported(buf.format)),
            r matches Ok(ws) ==> ws@.len() == item_count(buf.data@, buf.format) && (forall|i: int|
                0 <= i < ws@.len() ==> ws@[i].id == id_at(buf.data@, buf.format, i)),
    {
        let type_ok: bool = buf.actual_type == XA_WINDOW;
        let decoded = decode_ids(&buf.data, buf.format);
        buf.release(ledger);
        if !type_ok {
            return Err(NotSupported);
        }
        match decoded {
            Ok(ids) => {
                let n: usize = ids.len();
                let mut ws: Vec<Window> = Vec::new();
                let mut k: usize = 0;
                while k < n
                    invariant
                        n == ids@.len(),
                        n == item_count(buf.data@, buf.format),
                        forall|i: int| 0 <= i < n ==> ids@[i] == id_at(buf.data@, buf.format, i),
                        k <= n,
                        ws@.len() == k,
                        forall|i: int| 0 <= i < k ==> ws@[i].id == ids@[i],
                    decreases n - k,
                {
                    ws.push(Window { id: ids[k] });
                    k = k + 1;
                }
                proof {
                    assert forall|i: int| 0 <= i < ws@.len() implies ws@[i].id == id_at(
                        buf.data@,
                        buf.format,
                        i,
                    ) by {
                        assert(ws@[i].id == ids@[i]);
                        assert(ids@[i] == id_at(buf.data@, buf.format, i));
                    }
                }
                Ok(ws)
            },
            Err(e) => Err(e),
        }
    }

    /// Searches the decoded window list for the first window whose fetched
    /// title matches `name` byte for byte, releasing the buffer on every
    /// path. `titles` holds, position by position, the titles fetched for
    /// the listed windows; a position without a fetched title matches
    /// nothing. Absence — no match, or a response that cannot be decoded —
    /// is not an error.
    pub fn get_window_by_name(
        &self,
        buf: PropBuffer,
        titles: &Vec<Option<Vec<u8>>>,
        name: &Vec<u8>,
        ledger: &mut Ledger,
    ) -> (r: Option<Window>)
        requires
            old(ledger).wf(),
            old(ledger).frees < old(ledger).allocs,
        ensures
            *final(ledger) == old(ledger).after_free(),
            final(ledger).wf(),
            r matches Some(w) ==> buf.actual_type == XA_WINDOW && format_supported(buf.format)
                && exists|i: int|
                0 <= i < item_count(buf.data@, buf.format) && matching_at(titles@, name@, i)
                    && w.id == id_at(buf.data@, buf.format, i) && (forall|j: int|
                    0 <= j < i ==> !matching_at(titles@, name@, j)),
            r is None ==> !(buf.actual_type == XA_WINDOW && format_supported(buf.format)) || (
            forall|i: int|
                0 <= i < item_count(buf.data@, buf.format) ==> !matching_at(titles@, name@, i)),
    {
        let type_ok: bool = buf.actual_type == XA_WINDOW;
        let decoded = decode_ids(&buf.data, buf.format);
        buf.release(ledger);
        if !type_ok {
            return None;
        }
        match decoded {
            Ok(ids) => {
                let n: usize = ids.len();
                let mut k: usize = 0;
                while k < n
                    invariant
                        n == ids@.len(),
                        n == item_count(buf.data@, buf.format),
                        forall|i: int| 0 <= i < n ==> ids@[i] == id_at(buf.data@, buf.format, i),
                        k <= n,
                        forall|j: int| 0 <= j < k ==> !matching_at(titles@, name@, j),
                        *ledger == old(ledger).after_free(),
                        ledger.wf(),
                        buf.actual_type == XA_WINDOW,
                        format_supported(buf.format),
                    decreases n - k,
                {
                    if k < titles.len() {
                        let w = Window { id: ids[k] };
                        if w.match_title(&titles[k], name) {
                            proof {
                                assert(matching_at(titles@, name@, k as int));
                            }
                            return Some(w);
                        }
                    }
                    k = k + 1;
                }
                None
            },
            Err(_) => None,
        }
    }

    /// Decodes the active-window property response: the first identifier
    /// found names the active window. The buffer is released on every
    /// path.
    pub fn active_window(&self, buf: PropBuffer, ledger: &mut Ledger) -> (r: Result<
        Window,
        NotSupported,
    >)
        requires
            old(ledger).wf(),
            old(ledger).frees < old(ledger).allocs,
        ensures
            *final(ledger) == old(ledger).after_free(),
            final(ledger).wf(),
            r is Ok <==> (buf.actual_type == XA_WINDOW && format_supported(buf.format)
                && item_count(buf.data@, buf.format) >= 1),
            r matches Ok(w) ==> w.id == id_at(buf.data@, buf.format, 0),
    {
        Window::active_window(buf, ledger)
    }
}

} // verus!
