use vstd::prelude::*;
use crate::text::{append_str, u64_to_decimal, decimal};

verus! {

/// Only `i` is selected among `n` rows.
pub open spec fn only(n: nat, i: int) -> Seq<bool> {
    Seq::new(n, |k: int| k == i)
}

/// The rows between `a` and `b` (both included, in either order) are
/// selected on top of `s`.
pub open spec fn with_range(s: Seq<bool>, a: int, b: int) -> Seq<bool> {
    let lo = if a <= b { a } else { b };
    let hi = if a <= b { b } else { a };
    Seq::new(s.len(), |k: int| s[k] || (lo <= k && k <= hi))
}

/// The number of selected rows.
pub open spec fn count_selected(s: Seq<bool>) -> nat
    decreases s.len(),
{
    if s.len() == 0 {
        0
    } else {
        count_selected(s.drop_last()) + if s.last() { 1nat } else { 0nat }
    }
}

/// The total size of the selected rows.
pub open spec fn selected_total(s: Seq<bool>, sizes: Seq<u64>) -> nat
    decreases s.len(),
{
    if s.len() == 0 {
        0
    } else {
        selected_total(s.drop_last(), sizes) + if s.last() { sizes[s.len() - 1] as nat } else { 0nat }
    }
}

/// The first selected row, if any.
pub open spec fn first_selected(s: Seq<bool>) -> Option<int>
    decreases s.len(),
{
    if s.len() == 0 {
        None
    } else {
        match first_selected(s.drop_last()) {
            Some(i) => Some(i),
            None => if s.last() { Some(s.len() - 1) } else { None },
        }
    }
}

/// The row the up arrow selects among `n > 0` rows: the one above the last
/// clicked row (the first row stays first, a row past the end gives the last
/// row), or the last visible row when none was clicked.
pub open spec fn arrow_up_target(n: nat, last: Option<usize>, last_visible: usize) -> int {
    let prev: int = match last {
        Some(l) => if l == 0 { 0 } else { l - 1 },
        None => if last_visible < n - 1 { last_visible as int } else { n - 1 },
    };
    if prev < n { prev } else { n - 1 }
}

/// The row the down arrow selects among `n > 0` rows: the one below the last
/// clicked row (the last row stays last), or the first visible row when
/// none was clicked.
pub open spec fn arrow_down_target(n: nat, last: Option<usize>, first_visible: usize) -> int {
    match last {
        Some(l) => if l + 1 < n - 1 { l + 1 } else { n - 1 },
        None => if first_visible < n - 1 { first_visible as int } else { n - 1 },
    }
}

/// What a selection holds: the flag of each row, the last clicked row, the
/// anchor of keyboard and shift selection, and the row to scroll to.
pub struct SelectionModel {
    pub flags: Seq<bool>,
    pub last: Option<usize>,
    pub anchor: Option<usize>,
    pub scroll: Option<usize>,
}

/// The selection after a key chose row `t`: `t` alone, as last clicked row,
/// anchor and scroll target; an empty list only forgets its rows.
pub open spec fn key_select(s: SelectionModel, t: int) -> SelectionModel {
    if s.flags.len() == 0 {
        SelectionModel { flags: s.flags, last: None, anchor: None, scroll: s.scroll }
    } else {
        SelectionModel {
            flags: only(s.flags.len(), t),
            last: Some(t as usize),
            anchor: Some(t as usize),
            scroll: Some(t as usize),
        }
    }
}

/// The selection after the up arrow.
pub open spec fn after_arrow_up(s: SelectionModel, last_visible: usize) -> SelectionModel {
    key_select(s, arrow_up_target(s.flags.len(), s.last, last_visible))
}

/// The selection after the down arrow.
pub open spec fn after_arrow_down(s: SelectionModel, first_visible: usize) -> SelectionModel {
    key_select(s, arrow_down_target(s.flags.len(), s.last, first_visible))
}

/// The row Enter opens: the last clicked row, when it is a row of the list.
pub open spec fn enter_row(s: SelectionModel) -> Option<usize> {
    match s.last {
        Some(l) => if l < s.flags.len() { Some(l) } else { None },
        None => None,
    }
}

/// The selection after Enter: a last clicked row past the end is forgotten.
pub open spec fn after_enter(s: SelectionModel) -> SelectionModel {
    SelectionModel { flags: s.flags, last: enter_row(s), anchor: s.anchor, scroll: s.scroll }
}

/// The selection with every row selected.
pub open spec fn after_select_all(s: SelectionModel) -> SelectionModel {
    SelectionModel {
        flags: Seq::new(s.flags.len(), |k: int| true),
        last: s.last,
        anchor: s.anchor,
        scroll: s.scroll,
    }
}

/// Where dragged files would be dropped.
#[derive(Clone, Copy, Debug, PartialEq, Eq, Structural)]
pub enum DropTarget {
    /// Not over a row.
    Nothing,
    /// Over a folder that is not being dragged: the files move into it.
    Folder(usize),
    /// Over a file: nothing can be moved there.
    Invalid(usize),
}

/// The selection of the rows of a file listing, with the row last clicked
/// (from which a shift-click extends), the anchor of keyboard selection and
/// the row the view should scroll to.
pub struct ListSelection {
    pub selected: Vec<bool>,
    pub last_selected_index: Option<usize>,
    pub selection_anchor: Option<usize>,
    pub pending_scroll_to: Option<usize>,
}

impl ListSelection {
    /// Which rows are selected, one flag per row.
    pub open spec fn flags(self) -> Seq<bool> {
        self.selected@
    }

    /// What the selection holds.
    pub open spec fn model(self) -> SelectionModel {
        SelectionModel {
            flags: self.selected@,
            last: self.last_selected_index,
            anchor: self.selection_anchor,
            scroll: self.pending_scroll_to,
        }
    }

    /// A selection of `n` rows with no row selected.
    pub fn new(n: usize) -> (s: Self)
        ensures
            s.flags() == Seq::new(n as nat, |k: int| false),
            s.last_selected_index is None,
            s.selection_anchor is None,
            s.pending_scroll_to is None,
    {
        let mut v: Vec<bool> = Vec::new();
        let mut i: usize = 0;
        while i < n
            invariant
                i <= n,
                v@ == Seq::new(i as nat, |k: int| false),
            decreases n - i,
        {
            v.push(false);
            i = i + 1;
        }
        ListSelection {
            selected: v,
            last_selected_index: None,
            selection_anchor: None,
            pending_scroll_to: None,
        }
    }

    /// The number of rows.
    pub fn len(&self) -> (n: usize)
        ensures
            n == self.flags().len(),
    {
        self.selected.len()
    }

    /// Whether row `i` is selected.
    pub fn is_selected(&self, i: usize) -> (b: bool)
        requires
            i < self.flags().len(),
        ensures
            b == self.flags()[i as int],
    {
        self.selected[i]
    }

    fn fill(&mut self, value: bool)
        ensures
            final(self).flags() == Seq::new(old(self).flags().len(), |k: int| value),
            final(self).last_selected_index == old(self).last_selected_index,
            final(self).selection_anchor == old(self).selection_anchor,
            final(self).pending_scroll_to == old(self).pending_scroll_to,
    {
        let n = self.selected.len();
        let mut i: usize = 0;
        while i < n
            invariant
                i <= n,
                n == self.selected@.len(),
                n == old(self).selected@.len(),
                forall|k: int| 0 <= k < i ==> self.selected@[k] == value,
                self.last_selected_index == old(self).last_selected_index,
                self.selection_anchor == old(self).selection_anchor,
                self.pending_scroll_to == old(self).pending_scroll_to,
            decreases n - i,
        {
            self.selected.set(i, value);
            i = i + 1;
        }
        assert(self.selected@ =~= Seq::new(n as nat, |k: int| value));
    }

    /// Deselects every row.
    pub fn deselect_all(&mut self)
        ensures
            final(self).flags() == Seq::new(old(self).flags().len(), |k: int| false),
            final(self).last_selected_index == old(self).last_selected_index,
            final(self).selection_anchor == old(self).selection_anchor,
            final(self).pending_scroll_to == old(self).pending_scroll_to,
    {
        self.fill(false);
    }

    /// Selects every row (Ctrl+A).
    pub fn select_all(&mut self)
        ensures
            final(self).model() == after_select_all(old(self).model()),
            final(self).flags() == Seq::new(old(self).flags().len(), |k: int| true),
            final(self).last_selected_index == old(self).last_selected_index,
            final(self).selection_anchor == old(self).selection_anchor,
            final(self).pending_scroll_to == old(self).pending_scroll_to,
    {
        self.fill(true);
    }

    /// A click on the empty background: nothing stays selected and no row
    /// is the last clicked one.
    pub fn background_click(&mut self)
        ensures
            final(self).flags() == Seq::new(old(self).flags().len(), |k: int| false),
            final(self).last_selected_index is None,
            final(self).selection_anchor == old(self).selection_anchor,
            final(self).pending_scroll_to == old(self).pending_scroll_to,
    {
        self.fill(false);
        self.last_selected_index = None;
    }

    fn select_only(&mut self, i: usize)
        requires
            i < old(self).flags().len(),
        ensures
            final(self).flags() == only(old(self).flags().len(), i as int),
            final(self).last_selected_index == Some(i),
            final(self).selection_anchor == old(self).selection_anchor,
            final(self).pending_scroll_to == old(self).pending_scroll_to,
    {
        self.fill(false);
        self.selected.set(i, true);
        self.last_selected_index = Some(i);
        assert(self.selected@ =~= only(old(self).flags().len(), i as int));
    }

    /// A primary click on row `i`. With shift and an anchor, the rows from
    /// the anchor to `i` are added and the anchor stays; with shift and no
    /// anchor, `i` alone is selected; with ctrl, row `i` is flipped;
    /// otherwise `i` alone is selected. The clicked row becomes the last
    /// clicked one and, but for a shift-click from an anchor, the anchor.
    pub fn click(&mut self, i: usize, shift: bool, ctrl: bool)
        requires
            i < old(self).flags().len(),
        ensures
            final(self).last_selected_index == Some(i),
            final(self).pending_scroll_to == old(self).pending_scroll_to,
            shift && old(self).selection_anchor is Some ==> {
                &&& final(self).flags() == with_range(
                    old(self).flags(),
                    old(self).selection_anchor.unwrap() as int,
                    i as int,
                )
                &&& final(self).selection_anchor == old(self).selection_anchor
            },
            shift && old(self).selection_anchor is None ==> {
                &&& final(self).flags() == only(old(self).flags().len(), i as int)
                &&& final(self).selection_anchor == Some(i)
            },
            !shift && ctrl ==> {
                &&& final(self).flags() == old(self).flags().update(i as int, !old(self).flags()[i as int])
                &&& final(self).selection_anchor == Some(i)
            },
            !shift && !ctrl ==> {
                &&& final(self).flags() == only(old(self).flags().len(), i as int)
                &&& final(self).selection_anchor == Some(i)
            },
    {
        if shift {
            match self.selection_anchor {
                Some(anchor) => {
                    let n = self.selected.len();
                    let start = if anchor <= i { anchor } else { i };
                    let far = if anchor <= i { i } else { anchor };
                    let end = if far < n { far } else { n - 1 };
                    let ghost before = self.selected@;
                    let mut idx = start;
                    while idx <= end
                        invariant
                            start <= idx <= end + 1,
                            n == self.selected@.len(),
                            end < self.selected@.len(),
                            self.selected@.len() == before.len(),
                            forall|k: int| 0 <= k < before.len() ==> #[trigger] self.selected@[k]
                                == (before[k] || (start <= k && k < idx)),
                            self.selection_anchor == Some(anchor),
                            self.pending_scroll_to == old(self).pending_scroll_to,
                        decreases end + 1 - idx,
                    {
                        self.selected.set(idx, true);
                        idx = idx + 1;
                    }
                    assert(self.selected@ =~= with_range(before, anchor as int, i as int));
                    self.last_selected_index = Some(i);
                },
                None => {
                    self.select_only(i);
                    self.selection_anchor = Some(i);
                },
            }
        } else if ctrl {
            self.toggle(i);
            self.selection_anchor = Some(i);
        } else {
            self.select_only(i);
            self.selection_anchor = Some(i);
        }
    }

    /// A secondary click on row `i` (which opens the context menu): with
    /// ctrl the row is flipped, otherwise an unselected row becomes the only
    /// selected one; `i` becomes the last clicked row unless it was already
    /// selected and ctrl was not held. The anchor stays.
    pub fn secondary_click(&mut self, i: usize, ctrl: bool)
        requires
            i < old(self).flags().len(),
        ensures
            final(self).selection_anchor == old(self).selection_anchor,
            final(self).pending_scroll_to == old(self).pending_scroll_to,
            ctrl ==> final(self).flags() == old(self).flags().update(i as int, !old(self).flags()[i as int])
                && final(self).last_selected_index == Some(i),
            !ctrl && !old(self).flags()[i as int] ==> final(self).flags() == only(
                old(self).flags().len(),
                i as int,
            ) && final(self).last_selected_index == Some(i),
            !ctrl && old(self).flags()[i as int] ==> final(self).flags() == old(self).flags()
                && final(self).last_selected_index == old(self).last_selected_index,
    {
        if ctrl {
            self.toggle(i);
        } else if !self.selected[i] {
            self.select_only(i);
        }
    }

    /// Flips row `i` (a middle click, or a ctrl-secondary-click), which
    /// becomes the last clicked row.
    pub fn toggle(&mut self, i: usize)
        requires
            i < old(self).flags().len(),
        ensures
            final(self).flags() == old(self).flags().update(i as int, !old(self).flags()[i as int]),
            final(self).last_selected_index == Some(i),
            final(self).selection_anchor == old(self).selection_anchor,
            final(self).pending_scroll_to == old(self).pending_scroll_to,
    {
        let current = self.selected[i];
        self.selected.set(i, !current);
        self.last_selected_index = Some(i);
    }

    /// The start of a drag on row `i`: an unselected row becomes the only
    /// selected one, the last clicked one and the anchor; a selected row
    /// drags the whole selection unchanged.
    pub fn drag_start(&mut self, i: usize)
        requires
            i < old(self).flags().len(),
        ensures
            final(self).pending_scroll_to == old(self).pending_scroll_to,
            !old(self).flags()[i as int] ==> final(self).flags() == only(old(self).flags().len(), i as int)
                && final(self).last_selected_index == Some(i)
                && final(self).selection_anchor == Some(i),
            old(self).flags()[i as int] ==> final(self).flags() == old(self).flags()
                && final(self).last_selected_index == old(self).last_selected_index
                && final(self).selection_anchor == old(self).selection_anchor,
    {
        if !self.selected[i] {
            self.select_only(i);
            self.selection_anchor = Some(i);
        }
    }

    fn select_key_target(&mut self, target: usize)
        ensures
            old(self).flags().len() == 0 ==> {
                &&& final(self).flags() == old(self).flags()
                &&& final(self).last_selected_index is None
                &&& final(self).selection_anchor is None
                &&& final(self).pending_scroll_to == old(self).pending_scroll_to
            },
            old(self).flags().len() > 0 ==> {
                let t = if target < old(self).flags().len() {
                    target as int
                } else {
                    old(self).flags().len() - 1
                };
                &&& final(self).flags() == only(old(self).flags().len(), t)
                &&& final(self).last_selected_index == Some(t as usize)
                &&& final(self).selection_anchor == Some(t as usize)
                &&& final(self).pending_scroll_to == Some(t as usize)
            },
    {
        let n = self.selected.len();
        if n == 0 {
            self.last_selected_index = None;
            self.selection_anchor = None;
        } else {
            let safe = if target < n { target } else { n - 1 };
            self.select_only(safe);
            self.selection_anchor = Some(safe);
            self.pending_scroll_to = Some(safe);
        }
    }

    /// The up arrow: the row above the last clicked one is selected alone
    /// (the first row stays first); with no row clicked, the last visible
    /// row is. The chosen row becomes the anchor and is scrolled to.
    pub fn arrow_up(&mut self, last_visible: usize)
        ensures
            final(self).model() == after_arrow_up(old(self).model(), last_visible),
            old(self).flags().len() == 0 ==> {
                &&& final(self).flags() == old(self).flags()
                &&& final(self).last_selected_index is None
                &&& final(self).selection_anchor is None
            },
            old(self).flags().len() > 0 ==> {
                let n = old(self).flags().len();
                let t = arrow_up_target(n, old(self).last_selected_index, last_visible);
                &&& final(self).flags() == only(n, t)
                &&& final(self).last_selected_index == Some(t as usize)
                &&& final(self).selection_anchor == Some(t as usize)
                &&& final(self).pending_scroll_to == Some(t as usize)
            },
    {
        let n = self.selected.len();
        let max_index = if n == 0 { 0 } else { n - 1 };
        let prev = match self.last_selected_index {
            Some(l) => if l == 0 { 0 } else { l - 1 },
            None => if last_visible < max_index { last_visible } else { max_index },
        };
        self.select_key_target(prev);
    }

    /// The down arrow: the row below the last clicked one is selected alone
    /// (the last row stays last); with no row clicked, the first visible row
    /// is. The chosen row becomes the anchor and is scrolled to.
    pub fn arrow_down(&mut self, first_visible: usize)
        ensures
            final(self).model() == after_arrow_down(old(self).model(), first_visible),
            old(self).flags().len() == 0 ==> {
                &&& final(self).flags() == old(self).flags()
                &&& final(self).last_selected_index is None
                &&& final(self).selection_anchor is None
            },
            old(self).flags().len() > 0 ==> {
                let n = old(self).flags().len();
                let t = arrow_down_target(n, old(self).last_selected_index, first_visible);
                &&& final(self).flags() == only(n, t)
                &&& final(self).last_selected_index == Some(t as usize)
                &&& final(self).selection_anchor == Some(t as usize)
                &&& final(self).pending_scroll_to == Some(t as usize)
            },
    {
        let n = self.selected.len();
        let max_index = if n == 0 { 0 } else { n - 1 };
        let next = match self.last_selected_index {
            Some(l) => if l < max_index { l + 1 } else { max_index },
            None => if first_visible < max_index { first_visible } else { max_index },
        };
        self.select_key_target(next);
    }

    /// The Enter key: the last clicked row is opened when it is a row of the
    /// listing; a last clicked row past the end is forgotten.
    pub fn enter(&mut self) -> (r: Option<usize>)
        ensures
            final(self).model() == after_enter(old(self).model()),
            r == enter_row(old(self).model()),
            final(self).flags() == old(self).flags(),
            final(self).selection_anchor == old(self).selection_anchor,
            final(self).pending_scroll_to == old(self).pending_scroll_to,
            match old(self).last_selected_index {
                Some(l) => if l < old(self).flags().len() {
                    r == Some(l) && final(self).last_selected_index == Some(l)
                } else {
                    r is None && final(self).last_selected_index is None
                },
                None => r is None && final(self).last_selected_index is None,
            },
    {
        match self.last_selected_index {
            Some(l) => {
                if l < self.selected.len() {
                    Some(l)
                } else {
                    self.last_selected_index = None;
                    None
                }
            },
            None => None,
        }
    }

    /// The number of selected rows.
    pub fn selected_count(&self) -> (c: usize)
        ensures
            c == count_selected(self.flags()),
    {
        let mut c: usize = 0;
        let mut i: usize = 0;
        while i < self.selected.len()
            invariant
                i <= self.selected@.len(),
                c == count_selected(self.selected@.take(i as int)),
                c <= i,
            decreases self.selected@.len() - i,
        {
            assert(self.selected@.take(i + 1).drop_last() =~= self.selected@.take(i as int));
            if self.selected[i] {
                c = c + 1;
            }
            i = i + 1;
        }
        assert(self.selected@.take(i as int) =~= self.selected@);
        c
    }

    /// Whether every row is selected and there is at least one row.
    pub fn all_selected(&self) -> (b: bool)
        ensures
            b == (self.flags().len() > 0 && forall|k: int| 0 <= k < self.flags().len() ==> self.flags()[k]),
    {
        let n = self.selected.len();
        let mut i: usize = 0;
        while i < n
            invariant
                i <= n,
                n == self.selected@.len(),
                forall|k: int| 0 <= k < i ==> self.selected@[k],
            decreases n - i,
        {
            if !self.selected[i] {
                return false;
            }
            i = i + 1;
        }
        n > 0
    }

    /// The "select all" button: deselects everything when every row is
    /// selected, selects every row otherwise.
    pub fn toggle_select_all(&mut self)
        ensures
            final(self).last_selected_index == old(self).last_selected_index,
            (old(self).flags().len() > 0 && forall|k: int|
                0 <= k < old(self).flags().len() ==> old(self).flags()[k]) ==> final(self).flags()
                == Seq::new(old(self).flags().len(), |k: int| false),
            !(old(self).flags().len() > 0 && forall|k: int|
                0 <= k < old(self).flags().len() ==> old(self).flags()[k]) ==> final(self).flags()
                == Seq::new(old(self).flags().len(), |k: int| true),
    {
        if self.all_selected() {
            self.fill(false);
        } else {
            self.fill(true);
        }
    }

    /// The caption of the "select all" button.
    pub fn select_all_label(&self) -> (s: &'static str)
        ensures
            (self.flags().len() > 0 && forall|k: int| 0 <= k < self.flags().len() ==> self.flags()[k])
                ==> s@ == "Deseleccionar todo"@,
            !(self.flags().len() > 0 && forall|k: int| 0 <= k < self.flags().len() ==> self.flags()[k])
                ==> s@ == "Seleccionar todo"@,
    {
        if self.all_selected() {
            "Deseleccionar todo"
        } else {
            "Seleccionar todo"
        }
    }

    /// The first selected row, if any.
    pub fn first_selected(&self) -> (r: Option<usize>)
        ensures
            match first_selected(self.flags()) {
                Some(i) => r == Some(i as usize),
                None => r is None,
            },
    {
        let mut i: usize = 0;
        while i < self.selected.len()
            invariant
                i <= self.selected@.len(),
                first_selected(self.selected@.take(i as int)) is None,
            decreases self.selected@.len() - i,
        {
            assert(self.selected@.take(i + 1).drop_last() =~= self.selected@.take(i as int));
            if self.selected[i] {
                proof {
                    lemma_first_selected_prefix(self.selected@, i as int + 1);
                }
                return Some(i);
            }
            i = i + 1;
        }
        assert(self.selected@.take(i as int) =~= self.selected@);
        None
    }

    /// The total size of the selected rows, `sizes` holding the size of
    /// each row.
    pub fn selected_size(&self, sizes: &Vec<u64>) -> (total: u64)
        requires
            sizes@.len() == self.flags().len(),
            selected_total(self.flags(), sizes@) <= u64::MAX,
        ensures
            total == selected_total(self.flags(), sizes@),
    {
        let mut total: u64 = 0;
        let mut i: usize = 0;
        while i < self.selected.len()
            invariant
                i <= self.selected@.len(),
                sizes@.len() == self.selected@.len(),
                selected_total(self.selected@, sizes@) <= u64::MAX,
                total == selected_total(self.selected@.take(i as int), sizes@),
            decreases self.selected@.len() - i,
        {
            assert(self.selected@.take(i + 1).drop_last() =~= self.selected@.take(i as int));
            proof {
                lemma_total_prefix_bound(self.selected@, sizes@, i as int + 1);
            }
            if self.selected[i] {
                total = total + sizes[i];
            }
            i = i + 1;
        }
        assert(self.selected@.take(i as int) =~= self.selected@);
        total
    }

    /// Where files dragged over row `hovered` would go: into a folder that
    /// is not itself selected, nowhere over a file (an invalid target), and
    /// nothing over a selected folder or away from the rows.
    pub fn drop_target(&self, hovered: Option<usize>, is_dir: &Vec<bool>) -> (t: DropTarget)
        requires
            is_dir@.len() == self.flags().len(),
        ensures
            match hovered {
                Some(h) => if h < self.flags().len() {
                    if is_dir@[h as int] && !self.flags()[h as int] {
                        t == DropTarget::Folder(h)
                    } else if !is_dir@[h as int] {
                        t == DropTarget::Invalid(h)
                    } else {
                        t == DropTarget::Nothing
                    }
                } else {
                    t == DropTarget::Nothing
                },
                None => t == DropTarget::Nothing,
            },
    {
        match hovered {
            Some(h) => {
                if h < self.selected.len() {
                    if is_dir[h] && !self.selected[h] {
                        DropTarget::Folder(h)
                    } else if !is_dir[h] {
                        DropTarget::Invalid(h)
                    } else {
                        DropTarget::Nothing
                    }
                } else {
                    DropTarget::Nothing
                }
            },
            None => DropTarget::Nothing,
        }
    }
}

proof fn lemma_first_selected_prefix(s: Seq<bool>, k: int)
    requires
        0 <= k <= s.len(),
        first_selected(s.take(k)) is Some,
    ensures
        first_selected(s) == first_selected(s.take(k)),
    decreases s.len() - k,
{
    if k < s.len() {
        assert(s.take(k + 1).drop_last() =~= s.take(k));
        lemma_first_selected_prefix(s, k + 1);
    } else {
        assert(s.take(k) =~= s);
    }
}

proof fn lemma_total_prefix_bound(s: Seq<bool>, sizes: Seq<u64>, k: int)
    requires
        0 <= k <= s.len(),
    ensures
        selected_total(s.take(k), sizes) <= selected_total(s, sizes),
    decreases s.len() - k,
{
    if k < s.len() {
        assert(s.take(k + 1).drop_last() =~= s.take(k));
        lemma_total_prefix_bound(s, sizes, k + 1);
    } else {
        assert(s.take(k) =~= s);
    }
}

proof fn lemma_count_all_false(n: nat)
    ensures
        count_selected(Seq::new(n, |k: int| false)) == 0,
    decreases n,
{
    if n > 0 {
        assert(Seq::new(n, |k: int| false).drop_last() =~= Seq::new((n - 1) as nat, |k: int| false));
        lemma_count_all_false((n - 1) as nat);
    }
}

proof fn lemma_count_only(n: nat, i: int)
    requires
        0 <= i < n,
    ensures
        count_selected(only(n, i)) == 1,
        first_selected(only(n, i)) == Some(i),
    decreases n,
{
    if n - 1 > i {
        assert(only(n, i).drop_last() =~= only((n - 1) as nat, i));
        lemma_count_only((n - 1) as nat, i);
    } else {
        assert(only(n, i).drop_last() =~= Seq::new((n - 1) as nat, |k: int| false));
        lemma_count_all_false((n - 1) as nat);
        lemma_first_none_all_false((n - 1) as nat);
    }
}

proof fn lemma_first_none_all_false(n: nat)
    ensures
        first_selected(Seq::new(n, |k: int| false)) is None,
    decreases n,
{
    if n > 0 {
        assert(Seq::new(n, |k: int| false).drop_last() =~= Seq::new((n - 1) as nat, |k: int| false));
        lemma_first_none_all_false((n - 1) as nat);
    }
}

/// A click without modifiers leaves exactly one row selected: the clicked
/// one, which is then the first selected row.
pub proof fn law_plain_click_selects_one(n: nat, i: int)
    requires
        0 <= i < n,
    ensures
        count_selected(only(n, i)) == 1,
        first_selected(only(n, i)) == Some(i),
{
    lemma_count_only(n, i);
}

/// Flipping a row twice gives the selection back.
pub proof fn law_toggle_twice(s: Seq<bool>, i: int)
    requires
        0 <= i < s.len(),
    ensures
        s.update(i, !s[i]).update(i, !s.update(i, !s[i])[i]) == s,
{
    assert(s.update(i, !s[i]).update(i, !s.update(i, !s[i])[i]) =~= s);
}

/// A shift-click from an anchor keeps what was selected and adds every row between the
/// anchor and the clicked row, both included, and no other.
pub proof fn law_shift_click_adds_range(s: Seq<bool>, a: int, b: int)
    requires
        0 <= a < s.len(),
        0 <= b < s.len(),
    ensures
        with_range(s, a, b).len() == s.len(),
        forall|k: int| 0 <= k < s.len() && s[k] ==> with_range(s, a, b)[k],
        with_range(s, a, b)[a] && with_range(s, a, b)[b],
        forall|k: int|
            0 <= k < s.len() && !s[k] && !(a <= k <= b) && !(b <= k <= a) ==> !with_range(s, a, b)[k],
        with_range(s, a, b) == with_range(s, b, a),
{
    assert(with_range(s, a, b) =~= with_range(s, b, a));
}

/// No more rows are selected than there are rows.
pub proof fn law_count_at_most_len(s: Seq<bool>)
    ensures
        count_selected(s) <= s.len(),
    decreases s.len(),
{
    if s.len() > 0 {
        law_count_at_most_len(s.drop_last());
    }
}

/// The arrows always select a row of the list, and the up arrow undoes the
/// down arrow (and the other way round) away from the ends of the list.
pub proof fn law_arrows_undo_each_other(n: nat, l: usize, v: usize)
    requires
        0 < n <= usize::MAX,
    ensures
        0 <= arrow_up_target(n, Some(l), v) < n,
        0 <= arrow_down_target(n, Some(l), v) < n,
        l + 1 < n ==> arrow_up_target(n, Some(arrow_down_target(n, Some(l), v) as usize), v) == l,
        0 < l < n ==> arrow_down_target(n, Some(arrow_up_target(n, Some(l), v) as usize), v) == l,
{
}

/// With no row clicked yet, the up arrow selects the last visible row and
/// the down arrow the first visible one, each kept within the list (a
/// visible row past the end gives the last row). With a clicked row of the
/// list, the up arrow goes one row up and the down arrow one row down,
/// staying on the first and last rows at the ends.
pub proof fn law_arrow_targets(n: nat, l: usize, first_visible: usize, last_visible: usize)
    requires
        n > 0,
    ensures
        last_visible < n ==> arrow_up_target(n, None, last_visible) == last_visible,
        last_visible >= n ==> arrow_up_target(n, None, last_visible) == n - 1,
        first_visible < n ==> arrow_down_target(n, None, first_visible) == first_visible,
        first_visible >= n ==> arrow_down_target(n, None, first_visible) == n - 1,
        0 < l < n ==> arrow_up_target(n, Some(l), last_visible) == l - 1,
        l == 0 ==> arrow_up_target(n, Some(l), last_visible) == 0,
        l + 1 < n ==> arrow_down_target(n, Some(l), first_visible) == l + 1,
        l + 1 == n ==> arrow_down_target(n, Some(l), first_visible) == n - 1,
{
}

/// After the up or down arrow on a list that is not empty, exactly one row
/// is selected, the one the arrow chose, and it is the last clicked row, the
/// anchor and the row scrolled to.
pub proof fn law_arrow_selects_one_row(s: SelectionModel, first_visible: usize, last_visible: usize)
    requires
        s.flags.len() > 0,
    ensures
        ({
            let t = arrow_up_target(s.flags.len(), s.last, last_visible);
            let a = after_arrow_up(s, last_visible);
            &&& 0 <= t < s.flags.len()
            &&& a.flags.len() == s.flags.len()
            &&& forall|k: int| 0 <= k < s.flags.len() ==> (a.flags[k] <==> k == t)
            &&& a.last == Some(t as usize) && a.anchor == Some(t as usize) && a.scroll == Some(t as usize)
        }),
        ({
            let t = arrow_down_target(s.flags.len(), s.last, first_visible);
            let a = after_arrow_down(s, first_visible);
            &&& 0 <= t < s.flags.len()
            &&& a.flags.len() == s.flags.len()
            &&& forall|k: int| 0 <= k < s.flags.len() ==> (a.flags[k] <==> k == t)
            &&& a.last == Some(t as usize) && a.anchor == Some(t as usize) && a.scroll == Some(t as usize)
        }),
{
}

/// The first selected row is a selected row with no selected row before
/// it; there is none exactly when no row is selected.
pub proof fn law_first_selected(s: Seq<bool>)
    ensures
        first_selected(s) matches Some(i) ==> 0 <= i < s.len() && s[i] && forall|j: int| 0 <= j < i ==> !s[j],
        first_selected(s) is None <==> forall|j: int| 0 <= j < s.len() ==> !s[j],
    decreases s.len(),
{
    if s.len() > 0 {
        let t = s.drop_last();
        law_first_selected(t);
        assert forall|j: int| 0 <= j < t.len() implies t[j] == s[j] by {}
        if first_selected(t) is None && !s.last() {
            assert forall|j: int| 0 <= j < s.len() implies !s[j] by {
                if j < t.len() {
                    assert(t[j] == s[j]);
                }
            }
        }
    }
}

/// Counting the selected rows: none when no row is selected, every row when
/// all are, one when a single row is.
pub proof fn law_count_selected(n: nat, i: int)
    ensures
        count_selected(Seq::new(n, |k: int| false)) == 0,
        count_selected(Seq::new(n, |k: int| true)) == n,
        0 <= i < n ==> count_selected(only(n, i)) == 1,
        !(0 <= i < n) ==> count_selected(only(n, i)) == 0,
    decreases n,
{
    if n > 0 {
        let m = (n - 1) as nat;
        law_count_selected(m, i);
        assert(Seq::new(n, |k: int| false).drop_last() =~= Seq::new(m, |k: int| false));
        assert(Seq::new(n, |k: int| true).drop_last() =~= Seq::new(m, |k: int| true));
        assert(only(n, i).drop_last() =~= only(m, i));
    }
}

/// The size of a selection of one row is that row's size; of no row, zero.
pub proof fn law_selected_total(n: nat, i: int, sizes: Seq<u64>)
    requires
        sizes.len() == n,
    ensures
        selected_total(Seq::new(n, |k: int| false), sizes) == 0,
        0 <= i < n ==> selected_total(only(n, i), sizes) == sizes[i] as nat,
    decreases n,
{
    if n > 0 {
        let m = (n - 1) as nat;
        let sz = sizes.drop_last();
        law_selected_total(m, i, sz);
        lemma_total_prefix(Seq::new(m, |k: int| false), sizes, sz);
        lemma_total_prefix(only(m, i), sizes, sz);
        assert(Seq::new(n, |k: int| false).drop_last() =~= Seq::new(m, |k: int| false));
        assert(only(n, i).drop_last() =~= only(m, i));
        if i == m {
            assert(selected_total(only(m, i), sz) == 0) by {
                law_selected_total(m, -1, sz);
                assert(only(m, i) =~= Seq::new(m, |k: int| false));
            }
        }
    }
}

proof fn lemma_total_prefix(s: Seq<bool>, sizes: Seq<u64>, sz: Seq<u64>)
    requires
        s.len() <= sz.len(),
        sz.len() <= sizes.len(),
        forall|k: int| 0 <= k < sz.len() ==> sz[k] == sizes[k],
    ensures
        selected_total(s, sizes) == selected_total(s, sz),
    decreases s.len(),
{
    if s.len() > 0 {
        lemma_total_prefix(s.drop_last(), sizes, sz);
    }
}

/// How many stacked cards the drag ghost shows: one per dragged file, three
/// at most.
pub fn ghost_layers(count: usize) -> (n: usize)
    ensures
        n == if count < 3 { count } else { 3 },
{
    if count < 3 { count } else { 3 }
}

/// The caption of the drag ghost: the name of the first dragged file
/// ("archivo" when there is none), followed by " y N más" when `count`
/// files are dragged and N = count - 1 > 0.
pub fn ghost_label(first_name: Option<&str>, count: u64) -> (s: String)
    ensures
        ({
            let name = match first_name {
                Some(n) => n@,
                None => "archivo"@,
            };
            if count > 1 {
                s@ == name + " y "@ + decimal((count - 1) as nat) + " más"@
            } else {
                s@ == name
            }
        }),
{
    let mut s = match first_name {
        Some(n) => n.to_owned(),
        None => "archivo".to_owned(),
    };
    if count > 1 {
        append_str(&mut s, " y ");
        let k = u64_to_decimal(count - 1);
        append_str(&mut s, k.as_str());
        append_str(&mut s, " más");
    }
    s
}

} // verus!
