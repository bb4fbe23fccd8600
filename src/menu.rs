use vstd::prelude::*;

verus! {

/// One line of the menu: a category header or a leaf operation.
pub struct MenuItem {
    pub name: String,
    pub is_category: bool,
    pub selected: bool,
    pub indent_level: usize,
}

impl MenuItem {
    /// The same entry with its check mark set to `v`.
    pub open spec fn with_selected(self, v: bool) -> MenuItem {
        MenuItem { name: self.name, is_category: self.is_category, selected: v, indent_level: self.indent_level }
    }

    /// A leaf whose check mark is set.
    pub open spec fn is_selected_leaf(self) -> bool {
        !self.is_category && self.selected
    }
}

impl Clone for MenuItem {
    fn clone(&self) -> (r: Self)
        ensures
            r == *self,
    {
        MenuItem {
            name: self.name.clone(),
            is_category: self.is_category,
            selected: self.selected,
            indent_level: self.indent_level,
        }
    }
}

/// Direction of a highlight move.
#[derive(PartialEq, Eq, Structural, Clone, Copy, Debug)]
pub enum Direction {
    Up,
    Down,
}

/// The selected leaves of `s`, in list order.
pub open spec fn selected_leaves(s: Seq<MenuItem>) -> Seq<MenuItem>
    decreases s.len(),
{
    if s.len() == 0 {
        Seq::empty()
    } else {
        let rest = selected_leaves(s.drop_last());
        if s.last().is_selected_leaf() {
            rest.push(s.last())
        } else {
            rest
        }
    }
}

/// Entry `j` is a child of the category at `c`: it follows `c`, and no
/// category stands between them (nor at `j`).
pub open spec fn in_group(s: Seq<MenuItem>, c: int, j: int) -> bool {
    &&& c < j < s.len()
    &&& forall|k: int| c < k <= j ==> !(#[trigger] s[k]).is_category
}

/// The entries after toggling the one at `i`: a leaf flips its own mark; a
/// category flips its mark and writes the new mark over all its children.
pub open spec fn toggled(s: Seq<MenuItem>, i: int) -> Seq<MenuItem> {
    let v = !s[i].selected;
    if s[i].is_category {
        Seq::new(s.len(), |j: int| if j == i || in_group(s, i, j) { s[j].with_selected(v) } else { s[j] })
    } else {
        s.update(i, s[i].with_selected(v))
    }
}

/// The highlight after one move in a list of `n` entries, wrapping at both ends.
pub open spec fn next_highlight(h: nat, n: nat, dir: Direction) -> nat {
    if n == 0 {
        h
    } else {
        match dir {
            Direction::Down => if h + 1 >= n { 0 } else { (h + 1) as nat },
            Direction::Up => if h == 0 { (n - 1) as nat } else { (h - 1) as nat },
        }
    }
}

/// Abstract state of a menu: its entries and the highlighted position.
pub struct MenuState {
    pub entries: Seq<MenuItem>,
    pub highlighted: nat,
}

impl MenuState {
    /// The highlight lies on an entry, or at 0 when there is none.
    pub open spec fn wf(self) -> bool {
        if self.entries.len() == 0 {
            self.highlighted == 0
        } else {
            self.highlighted < self.entries.len()
        }
    }

    pub open spec fn navigated(self, dir: Direction) -> MenuState {
        MenuState {
            entries: self.entries,
            highlighted: next_highlight(self.highlighted, self.entries.len(), dir),
        }
    }

    /// The state after `k` moves down.
    pub open spec fn moved_down(self, k: nat) -> MenuState
        decreases k,
    {
        if k == 0 {
            self
        } else {
            self.moved_down((k - 1) as nat).navigated(Direction::Down)
        }
    }

    pub open spec fn toggled_at(self, i: int) -> MenuState {
        MenuState { entries: toggled(self.entries, i), highlighted: self.highlighted }
    }

    pub open spec fn selected_leaves(self) -> Seq<MenuItem> {
        selected_leaves(self.entries)
    }
}

/// The ordered entries of the menu and the entry that has the keyboard focus.
pub struct MenuModel {
    entries: Vec<MenuItem>,
    highlighted_index: usize,
}

impl View for MenuModel {
    type V = MenuState;

    closed spec fn view(&self) -> MenuState {
        MenuState { entries: self.entries@, highlighted: self.highlighted_index as nat }
    }
}

impl MenuModel {
    pub open spec fn wf(&self) -> bool {
        self@.wf()
    }

    /// A menu over `entries`, highlighting the first one.
    pub fn new(entries: Vec<MenuItem>) -> (r: MenuModel)
        ensures
            r.wf(),
            r@ == (MenuState { entries: entries@, highlighted: 0 }),
    {
        MenuModel { entries, highlighted_index: 0 }
    }

    pub fn entries(&self) -> (r: &Vec<MenuItem>)
        ensures
            r@ == self@.entries,
    {
        &self.entries
    }

    pub fn highlighted_index(&self) -> (r: usize)
        ensures
            r == self@.highlighted,
    {
        self.highlighted_index
    }

    /// Moves the highlight one entry up or down, wrapping around.
    pub fn navigate(&mut self, dir: Direction)
        requires
            old(self).wf(),
        ensures
            final(self).wf(),
            final(self)@ == old(self)@.navigated(dir),
    {
        let n = self.entries.len();
        if n == 0 {
            return;
        }
        let h = self.highlighted_index;
        self.highlighted_index = match dir {
            Direction::Down => if h + 1 >= n { 0 } else { h + 1 },
            Direction::Up => if h == 0 { n - 1 } else { h - 1 },
        };
    }

    /// Flips the category at `index` and writes its new mark over all its
    /// children; does nothing on a leaf.
    pub fn toggle_category(&mut self, index: usize)
        requires
            old(self).wf(),
            index < old(self)@.entries.len(),
        ensures
            final(self).wf(),
            final(self)@ == if old(self)@.entries[index as int].is_category {
                old(self)@.toggled_at(index as int)
            } else {
                old(self)@
            },
    {
        if !self.entries[index].is_category {
            return;
        }
        let ghost s0 = self.entries@;
        let v = !self.entries[index].selected;
        self.entries[index].selected = v;
        let n = self.entries.len();
        let mut j: usize = index + 1;
        while j < n && !self.entries[j].is_category
            invariant
                index < j <= s0.len(),
                n == s0.len(),
                self.entries@.len() == s0.len(),
                self.highlighted_index == old(self).highlighted_index,
                self.entries@[index as int] == s0[index as int].with_selected(v),
                forall|k: int| index < k < j ==> in_group(s0, index as int, k),
                forall|k: int|
                    index < k < j ==> #[trigger] self.entries@[k] == s0[k].with_selected(v),
                forall|k: int|
                    0 <= k < s0.len() && (k < index || k >= j) ==> #[trigger] self.entries@[k]
                        == s0[k],
            decreases s0.len() - j,
        {
            proof {
                assert forall|k: int| index < k <= j implies !(#[trigger] s0[k]).is_category by {
                    if k < j {
                        assert(in_group(s0, index as int, k));
                    }
                }
                assert(in_group(s0, index as int, j as int));
            }
            self.entries[j].selected = v;
            j = j + 1;
        }
        proof {
            assert forall|k: int| j <= k < s0.len() implies !in_group(s0, index as int, k) by {
                assert(s0[j as int].is_category);
            }
            assert(self.entries@ =~= toggled(s0, index as int));
        }
    }

    /// Toggles the entry at `index`: a leaf flips its own mark, a category
    /// its whole group.
    pub fn toggle_at(&mut self, index: usize)
        requires
            old(self).wf(),
            index < old(self)@.entries.len(),
        ensures
            final(self).wf(),
            final(self)@ == old(self)@.toggled_at(index as int),
    {
        if self.entries[index].is_category {
            self.toggle_category(index);
        } else {
            let v = !self.entries[index].selected;
            self.entries[index].selected = v;
            proof {
                assert(self@.entries =~= toggled(old(self)@.entries, index as int));
            }
        }
    }

    /// Toggles the highlighted entry; does nothing on an empty menu.
    pub fn toggle_highlighted(&mut self)
        requires
            old(self).wf(),
        ensures
            final(self).wf(),
            final(self)@ == if old(self)@.entries.len() == 0 {
                old(self)@
            } else {
                old(self)@.toggled_at(old(self)@.highlighted as int)
            },
    {
        if self.highlighted_index < self.entries.len() {
            let i = self.highlighted_index;
            self.toggle_at(i);
        }
    }

    /// Whether any leaf is selected.
    pub fn has_selection(&self) -> (r: bool)
        ensures
            r == (self@.selected_leaves().len() > 0),
    {
        let mut i: usize = 0;
        while i < self.entries.len()
            invariant
                i <= self.entries@.len(),
                selected_leaves(self.entries@.subrange(0, i as int)).len() == 0,
            decreases self.entries@.len() - i,
        {
            proof {
                assert(self.entries@.subrange(0, i + 1).drop_last() =~= self.entries@.subrange(0, i as int));
            }
            if !self.entries[i].is_category && self.entries[i].selected {
                proof {
                    lemma_selected_leaves_prefix(self.entries@, i as int + 1);
                }
                return true;
            }
            i = i + 1;
        }
        proof {
            assert(self.entries@.subrange(0, i as int) =~= self.entries@);
        }
        false
    }

    /// The selected leaves, in list order.
    pub fn selected_leaf_entries(&self) -> (r: Vec<MenuItem>)
        ensures
            r@ == self@.selected_leaves(),
    {
        let mut r: Vec<MenuItem> = Vec::new();
        let mut i: usize = 0;
        while i < self.entries.len()
            invariant
                i <= self.entries@.len(),
                r@ == selected_leaves(self.entries@.subrange(0, i as int)),
            decreases self.entries@.len() - i,
        {
            proof {
                assert(self.entries@.subrange(0, i + 1).drop_last() =~= self.entries@.subrange(0, i as int));
            }
            if !self.entries[i].is_category && self.entries[i].selected {
                r.push(self.entries[i].clone());
            }
            i = i + 1;
        }
        proof {
            assert(self.entries@.subrange(0, i as int) =~= self.entries@);
        }
        r
    }
}

/// The selected leaves of a prefix are never more than those of the whole list.
pub proof fn lemma_selected_leaves_prefix(s: Seq<MenuItem>, n: int)
    requires
        0 <= n <= s.len(),
    ensures
        selected_leaves(s.subrange(0, n)).len() <= selected_leaves(s).len(),
    decreases s.len(),
{
    if n < s.len() {
        assert(s.drop_last().subrange(0, n) =~= s.subrange(0, n));
        lemma_selected_leaves_prefix(s.drop_last(), n);
    } else {
        assert(s.subrange(0, n) =~= s);
    }
}

/// Where the highlight stands after `k` moves down.
proof fn lemma_moved_down_position(m: MenuState, k: nat)
    requires
        m.wf(),
        m.entries.len() > 0,
        k <= m.entries.len(),
    ensures
        m.moved_down(k).entries == m.entries,
        m.moved_down(k).highlighted as int == if m.highlighted + k < m.entries.len() {
            (m.highlighted + k) as int
        } else {
            m.highlighted + k - m.entries.len()
        },
    decreases k,
{
    if k > 0 {
        lemma_moved_down_position(m, (k - 1) as nat);
    }
}

/// Moving down once per entry brings the highlight back to where it started.
pub proof fn lemma_down_cycle(m: MenuState)
    requires
        m.wf(),
    ensures
        m.moved_down(m.entries.len()) == m,
{
    if m.entries.len() > 0 {
        lemma_moved_down_position(m, m.entries.len());
    }
}

/// Toggling a category twice gives the category its own mark back and leaves
/// every child with that mark, whatever the child held before; the other
/// entries stay as they were. So the list comes back unchanged exactly when
/// every child already agreed with its category.
pub proof fn lemma_category_double_toggle(m: MenuState, c: int)
    requires
        0 <= c < m.entries.len(),
        m.entries[c].is_category,
    ensures
        ({
            let s = m.entries;
            let t = m.toggled_at(c).toggled_at(c).entries;
            &&& t.len() == s.len()
            &&& t[c] == s[c]
            &&& forall|j: int| in_group(s, c, j) ==> #[trigger] t[j] == s[j].with_selected(s[c].selected)
            &&& forall|j: int| 0 <= j < s.len() && j != c && !in_group(s, c, j) ==> #[trigger] t[j] == s[j]
            &&& (t == s) <==> (forall|j: int| in_group(s, c, j) ==> (#[trigger] s[j]).selected == s[c].selected)
        }),
{
    let s = m.entries;
    let s1 = toggled(s, c);
    let t = toggled(s1, c);
    assert forall|j: int| 0 <= j < s.len() implies (#[trigger] s1[j]).is_category == s[j].is_category by {}
    assert forall|j: int| in_group(s1, c, j) == in_group(s, c, j) by {
        if in_group(s, c, j) {
            assert forall|k: int| c < k <= j implies !(#[trigger] s1[k]).is_category by {
                assert(!s[k].is_category);
            }
        }
        if in_group(s1, c, j) {
            assert forall|k: int| c < k <= j implies !(#[trigger] s[k]).is_category by {
                assert(!s1[k].is_category);
            }
        }
    }
    if forall|j: int| in_group(s, c, j) ==> (#[trigger] s[j]).selected == s[c].selected {
        assert(t =~= s);
    }
    if t == s {
        assert forall|j: int| in_group(s, c, j) implies (#[trigger] s[j]).selected == s[c].selected by {
            assert(t[j] == s[j].with_selected(s[c].selected));
        }
    }
}

/// Moving the highlight leaves the selected leaves, and their order, unchanged.
pub proof fn lemma_navigate_keeps_selection(m: MenuState, dir: Direction)
    ensures
        m.navigated(dir).selected_leaves() == m.selected_leaves(),
{
}

} // verus!
