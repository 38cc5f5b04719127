//! The registration table: one row per registered window, holding the size
//! to restore when the window leaves fullscreen.

use vstd::prelude::*;
use crate::event::{PhysicalSize, WindowId};

verus! {

/// One row of the registration table.
#[derive(Clone, Copy, Debug)]
struct Registration {
    window: WindowId,
    /// The size to go back to when fullscreen is left.
    intended_size: PhysicalSize,
}

/// The table as a map: the windows that have a row, each with the size of
/// its row.
spec fn table_map(rows: Seq<Registration>) -> Map<WindowId, PhysicalSize> {
    Map::new(
        |w: WindowId| exists|i: int| 0 <= i < rows.len() && (#[trigger] rows[i]).window == w,
        |w: WindowId|
            rows[choose|i: int| 0 <= i < rows.len() && (#[trigger] rows[i]).window == w].intended_size,
    )
}

/// No window has two rows.
spec fn distinct_windows(rows: Seq<Registration>) -> bool {
    forall|i: int, j: int|
        0 <= i < j < rows.len() ==> (#[trigger] rows[i]).window != (#[trigger] rows[j]).window
}

proof fn lemma_table_row(rows: Seq<Registration>, i: int)
    requires
        distinct_windows(rows),
        0 <= i < rows.len(),
    ensures
        table_map(rows).dom().contains(rows[i].window),
        table_map(rows)[rows[i].window] == rows[i].intended_size,
{
    let w = rows[i].window;
    let k = choose|k: int| 0 <= k < rows.len() && (#[trigger] rows[k]).window == w;
    if k < i {
        assert(rows[k].window != rows[i].window);
    } else if i < k {
        assert(rows[i].window != rows[k].window);
    }
}

proof fn lemma_table_update(rows: Seq<Registration>, i: int, size: PhysicalSize)
    requires
        distinct_windows(rows),
        0 <= i < rows.len(),
    ensures
        distinct_windows(rows.update(i, Registration { window: rows[i].window, intended_size: size })),
        table_map(rows.update(i, Registration { window: rows[i].window, intended_size: size }))
            == table_map(rows).insert(rows[i].window, size),
{
    let w = rows[i].window;
    let updated = rows.update(i, Registration { window: w, intended_size: size });
    assert(distinct_windows(updated)) by {
        assert forall|a: int, b: int| 0 <= a < b < updated.len() implies (#[trigger] updated[a]).window
            != (#[trigger] updated[b]).window by {
            assert(updated[a].window == rows[a].window);
            assert(updated[b].window == rows[b].window);
        }
    }
    let expected = table_map(rows).insert(w, size);
    assert forall|v: WindowId| table_map(updated).dom().contains(v) <==> expected.dom().contains(
        v,
    ) by {
        if table_map(updated).dom().contains(v) {
            let k = choose|k: int| 0 <= k < updated.len() && (#[trigger] updated[k]).window == v;
            assert(rows[k].window == v);
        }
        if expected.dom().contains(v) {
            if v == w {
                assert(updated[i].window == v);
            } else {
                let k = choose|k: int| 0 <= k < rows.len() && (#[trigger] rows[k]).window == v;
                assert(updated[k].window == v);
            }
        }
    }
    assert forall|v: WindowId| table_map(updated).dom().contains(v) implies table_map(updated)[v]
        == expected[v] by {
        let k = choose|k: int| 0 <= k < updated.len() && (#[trigger] updated[k]).window == v;
        lemma_table_row(updated, k);
        if v != w {
            assert(k != i);
            assert(rows[k].window == v);
            lemma_table_row(rows, k);
        } else {
            lemma_table_row(updated, i);
        }
    }
    assert(table_map(updated) =~= expected);
}

proof fn lemma_table_push(rows: Seq<Registration>, row: Registration)
    requires
        distinct_windows(rows),
        !table_map(rows).dom().contains(row.window),
    ensures
        distinct_windows(rows.push(row)),
        table_map(rows.push(row)) == table_map(rows).insert(row.window, row.intended_size),
{
    let pushed = rows.push(row);
    let n = rows.len() as int;
    assert(distinct_windows(pushed)) by {
        assert forall|a: int, b: int| 0 <= a < b < pushed.len() implies (#[trigger] pushed[a]).window
            != (#[trigger] pushed[b]).window by {
            if b == n {
                assert(pushed[a] == rows[a]);
                if rows[a].window == row.window {
                    assert(table_map(rows).dom().contains(row.window));
                }
            } else {
                assert(pushed[a] == rows[a]);
                assert(pushed[b] == rows[b]);
            }
        }
    }
    let expected = table_map(rows).insert(row.window, row.intended_size);
    assert forall|v: WindowId| table_map(pushed).dom().contains(v) <==> expected.dom().contains(
        v,
    ) by {
        if table_map(pushed).dom().contains(v) {
            let k = choose|k: int| 0 <= k < pushed.len() && (#[trigger] pushed[k]).window == v;
            if k < n {
                assert(rows[k].window == v);
            }
        }
        if expected.dom().contains(v) {
            if v == row.window {
                assert(pushed[n].window == v);
            } else {
                let k = choose|k: int| 0 <= k < rows.len() && (#[trigger] rows[k]).window == v;
                assert(pushed[k].window == v);
            }
        }
    }
    assert forall|v: WindowId| table_map(pushed).dom().contains(v) implies table_map(pushed)[v]
        == expected[v] by {
        let k = choose|k: int| 0 <= k < pushed.len() && (#[trigger] pushed[k]).window == v;
        lemma_table_row(pushed, k);
        if k < n {
            assert(rows[k].window == v);
            lemma_table_row(rows, k);
        }
    }
    assert(table_map(pushed) =~= expected);
}

pub struct RegistrationTable {
    rows: Vec<Registration>,
}

impl View for RegistrationTable {
    type V = Map<WindowId, PhysicalSize>;

    closed spec fn view(&self) -> Map<WindowId, PhysicalSize> {
        table_map(self.rows@)
    }
}

impl RegistrationTable {
    pub closed spec fn wf(&self) -> bool {
        distinct_windows(self.rows@)
    }

    /// A table without rows.
    pub fn new() -> (table: RegistrationTable)
        ensures
            table.wf(),
            table@ == Map::<WindowId, PhysicalSize>::empty(),
    {
        let table = RegistrationTable { rows: Vec::new() };
        assert(table_map(table.rows@) =~= Map::<WindowId, PhysicalSize>::empty());
        table
    }

    fn find(&self, window: WindowId) -> (slot: Option<usize>)
        requires
            self.wf(),
        ensures
            slot.is_some() == self@.dom().contains(window),
            slot.is_some() ==> slot.unwrap() < self.rows@.len() && self.rows@[slot.unwrap() as int].window
                == window && self.rows@[slot.unwrap() as int].intended_size == self@[window],
    {
        let mut i: usize = 0;
        while i < self.rows.len()
            invariant
                self.wf(),
                i <= self.rows.len(),
                forall|j: int| 0 <= j < i ==> (#[trigger] self.rows@[j]).window != window,
            decreases self.rows.len() - i,
        {
            if self.rows[i].window.0 == window.0 {
                proof {
                    lemma_table_row(self.rows@, i as int);
                }
                return Some(i);
            }
            i = i + 1;
        }
        None
    }

    /// Remembers `size` for `window`, in a new row or in place of the size
    /// remembered before.
    pub fn insert(&mut self, window: WindowId, size: PhysicalSize)
        requires
            old(self).wf(),
        ensures
            final(self).wf(),
            final(self)@ == old(self)@.insert(window, size),
    {
        let row = Registration { window, intended_size: size };
        match self.find(window) {
            Some(slot) => {
                proof {
                    lemma_table_update(self.rows@, slot as int, size);
                }
                self.rows.set(slot, row);
            },
            None => {
                proof {
                    lemma_table_push(self.rows@, row);
                }
                self.rows.push(row);
            },
        }
    }

    /// The size remembered for `window`, if it has a row.
    pub fn get(&self, window: WindowId) -> (size: Option<PhysicalSize>)
        requires
            self.wf(),
        ensures
            size.is_some() == self@.dom().contains(window),
            size.is_some() ==> size.unwrap() == self@[window],
    {
        match self.find(window) {
            Some(slot) => Some(self.rows[slot].intended_size),
            None => None,
        }
    }
}

} // verus!
